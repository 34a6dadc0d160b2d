//! Envelope sealing and opening over any key encapsulation mechanism: what a KEM adapter
//! does around its encapsulation and decapsulation calls.
use vstd::prelude::*;

use crate::crypto::backends::{KemBackend, KemBackendError, KemEncapsulation, DATA_KEY_SIZE};
use crate::crypto::key_wrap::{
    unwrap_data_key, unwrap_result, wrap_data_key, xor32, KeyWrapError, key_wrap_error_message,
};
use crate::domain::key_envelope::{KeyEnvelope, KeyEnvelopeView, OwnerType};

verus! {

/// The envelope that carries `data_key` for a recipient: `kem_ciphertext` is what the KEM
/// produced for the recipient and the data key is wrapped under `shared_secret`.
pub open spec fn envelope_for(
    envelope_id: u64,
    key_id: Seq<char>,
    owner_id: u64,
    owner_type: OwnerType,
    kem_ciphertext: Seq<u8>,
    data_key: Seq<u8>,
    shared_secret: Seq<u8>,
) -> KeyEnvelopeView {
    KeyEnvelopeView {
        envelope_id,
        key_id,
        owner_id,
        owner_type,
        kem_ciphertext,
        encapsulated_key: xor32(data_key, shared_secret),
    }
}

/// The data key that opening an envelope recovers when decapsulation gave `decapsulated`.
pub open spec fn recovered_data_key(decapsulated: Option<Seq<u8>>, encapsulated_key: Seq<u8>) -> Option<Seq<u8>> {
    match decapsulated {
        Some(shared_secret) => match unwrap_result(encapsulated_key, shared_secret) {
            Ok(key) => Some(key),
            Err(_) => None,
        },
        None => None,
    }
}

/// Builds the envelope from the result of a KEM encapsulation: the data key is wrapped under
/// the encapsulation's shared secret, which must hold at least 32 bytes.
pub fn seal_envelope(
    envelope_id: u64,
    key_id: &str,
    data_key: &[u8; DATA_KEY_SIZE],
    owner_id: u64,
    owner_type: OwnerType,
    encapsulation: KemEncapsulation,
) -> (r: Result<KeyEnvelope, KeyWrapError>)
    ensures
        match r {
            Ok(envelope) => {
                &&& encapsulation.shared_secret@.len() >= 32
                &&& envelope@ == envelope_for(envelope_id, key_id@, owner_id, owner_type,
                    encapsulation.ciphertext@, data_key@, encapsulation.shared_secret@)
            },
            Err(e) => {
                &&& encapsulation.shared_secret@.len() < 32
                &&& e == KeyWrapError::InvalidSharedSecretLength {
                    expected: 32,
                    actual: encapsulation.shared_secret@.len() as usize,
                }
            },
        },
{
    let encapsulated_key = wrap_data_key(data_key, &encapsulation.shared_secret)?;
    Ok(KeyEnvelope::new(envelope_id, key_id, owner_id, owner_type, encapsulation.ciphertext, encapsulated_key))
}

/// A key wrap failure reported as a failed KEM operation, with the key wrap message.
pub fn map_key_wrap_error(error: KeyWrapError) -> (r: KemBackendError)
    ensures
        r matches KemBackendError::OperationFailed(message) && message@ == key_wrap_error_message(error),
{
    KemBackendError::OperationFailed(error.message())
}

/// Encapsulates a fresh shared secret for `public_key` and wraps `data_key` under it into an
/// envelope with the given metadata.
pub fn encapsulate_for_owner<K: KemBackend>(
    kem: &K,
    data_key: &[u8; DATA_KEY_SIZE],
    public_key: &[u8],
    key_id: &str,
    owner_id: u64,
    owner_type: OwnerType,
    envelope_id: u64,
) -> (r: Result<KeyEnvelope, KemBackendError>)
    ensures
        r matches Ok(envelope) ==> exists|shared_secret: Seq<u8>| #![trigger xor32(data_key@, shared_secret)]
            shared_secret.len() >= 32 && kem.encapsulated_for(public_key@, envelope@.kem_ciphertext, shared_secret)
            && envelope@ == envelope_for(envelope_id, key_id@, owner_id, owner_type, envelope@.kem_ciphertext,
                data_key@, shared_secret),
{
    let encapsulation = kem.encapsulate(public_key)?;
    match seal_envelope(envelope_id, key_id, data_key, owner_id, owner_type, encapsulation) {
        Ok(envelope) => Ok(envelope),
        Err(error) => Err(map_key_wrap_error(error)),
    }
}

/// Encapsulates a fresh shared secret for `public_key` and wraps `data_key` under it into an
/// envelope with no id, no key id and no owner (owner id 0, a user).
pub fn encapsulate_data_key<K: KemBackend>(
    kem: &K,
    data_key: &[u8; DATA_KEY_SIZE],
    public_key: &[u8],
) -> (r: Result<KeyEnvelope, KemBackendError>)
    ensures
        r matches Ok(envelope) ==> exists|shared_secret: Seq<u8>| #![trigger xor32(data_key@, shared_secret)]
            shared_secret.len() >= 32 && kem.encapsulated_for(public_key@, envelope@.kem_ciphertext, shared_secret)
            && envelope@ == envelope_for(0, Seq::<char>::empty(), 0, OwnerType::User, envelope@.kem_ciphertext,
                data_key@, shared_secret),
{
    let r = encapsulate_for_owner(kem, data_key, public_key, "", 0, OwnerType::User, 0);
    proof {
        reveal_strlit("");
        assert(""@ =~= Seq::<char>::empty());
    }
    r
}

/// An input of a KEM operation.
#[derive(Debug, Clone, Copy, PartialEq, Eq, Structural)]
pub enum KemInput {
    PublicKey,
    PrivateKey,
    Ciphertext,
}

/// The refusal of a KEM input of the wrong length.
pub open spec fn kem_length_error(input: KemInput, expected: usize, actual: usize) -> KemBackendError {
    match input {
        KemInput::PublicKey => KemBackendError::InvalidPublicKeyLength { expected, actual },
        KemInput::PrivateKey => KemBackendError::InvalidPrivateKeyLength { expected, actual },
        KemInput::Ciphertext => KemBackendError::InvalidCiphertextLength { expected, actual },
    }
}

/// The input as the KEM parsed it, or its refusal when the KEM did not take it (`None`):
/// a KEM takes a key or ciphertext only of its algorithm's length, so the refusal names the
/// length expected and the length given.
pub fn accept_kem_input<T>(parsed: Option<T>, input: KemInput, expected: usize, actual: usize) -> (r: Result<T, KemBackendError>)
    ensures
        match parsed {
            Some(value) => r == Ok::<T, KemBackendError>(value),
            None => r == Err::<T, KemBackendError>(kem_length_error(input, expected, actual)),
        },
{
    match parsed {
        Some(value) => Ok(value),
        None => Err(match input {
            KemInput::PublicKey => KemBackendError::InvalidPublicKeyLength { expected, actual },
            KemInput::PrivateKey => KemBackendError::InvalidPrivateKeyLength { expected, actual },
            KemInput::Ciphertext => KemBackendError::InvalidCiphertextLength { expected, actual },
        }),
    }
}

/// Recovers the data key of `envelope` with the recipient's `private_key`: a failed
/// decapsulation is reported with the KEM's own error, a shared secret that cannot unwrap the
/// key as a failed operation with the key wrap message.
pub fn decapsulate_envelope<K: KemBackend>(kem: &K, envelope: &KeyEnvelope, private_key: &[u8]) -> (r: Result<[u8; DATA_KEY_SIZE], KemBackendError>)
    ensures
        r is Ok <==> recovered_data_key(kem.decapsulate_spec(envelope@.kem_ciphertext, private_key@), envelope@.encapsulated_key) is Some,
        r matches Ok(key) ==> recovered_data_key(kem.decapsulate_spec(envelope@.kem_ciphertext, private_key@), envelope@.encapsulated_key) == Some(key@),
        match kem.decapsulate_spec(envelope@.kem_ciphertext, private_key@) {
            None => r == Err::<[u8; DATA_KEY_SIZE], KemBackendError>(kem.decapsulation_error(envelope@.kem_ciphertext, private_key@)),
            Some(shared_secret) => match unwrap_result(envelope@.encapsulated_key, shared_secret) {
                Ok(_) => r is Ok,
                Err(e) => r matches Err(KemBackendError::OperationFailed(message)) && message@ == key_wrap_error_message(e),
            },
        },
{
    let shared_secret = match kem.decapsulate(&envelope.kem_ciphertext, private_key) {
        Ok(secret) => secret,
        Err(e) => return Err(e),
    };
    match unwrap_data_key(&envelope.encapsulated_key, &shared_secret) {
        Ok(key) => Ok(key),
        Err(error) => Err(map_key_wrap_error(error)),
    }
}

/// An envelope sealed for a data key under a shared secret opens to that data key whenever
/// decapsulation recovers the same secret.
pub proof fn lemma_envelope_round_trip(
    envelope_id: u64,
    key_id: Seq<char>,
    owner_id: u64,
    owner_type: OwnerType,
    kem_ciphertext: Seq<u8>,
    data_key: Seq<u8>,
    shared_secret: Seq<u8>,
)
    requires
        data_key.len() == 32,
        shared_secret.len() >= 32,
    ensures
        recovered_data_key(
            Some(shared_secret),
            envelope_for(envelope_id, key_id, owner_id, owner_type, kem_ciphertext, data_key, shared_secret).encapsulated_key,
        ) == Some(data_key),
{
    crate::crypto::key_wrap::lemma_unwrap_after_wrap(data_key, shared_secret);
}

} // verus!
