//! Creating and opening the envelopes that carry data keys to their recipients.
use vstd::prelude::*;

use std::sync::Arc;

use crate::adapters::kem_envelope::{envelope_for, recovered_data_key, seal_envelope};
use crate::crypto::backends::{generated_pairs_open_encapsulations, kem_error_message, opens_encapsulations_for, KemBackend, KemBackendError, DATA_KEY_SIZE};
use crate::crypto::key_wrap::{key_wrap_error_message, unwrap_data_key, unwrap_result, xor32, KeyWrapError};
use crate::domain::data_key::{DataKey, DataKeyView};
use crate::domain::key_envelope::{KeyEnvelope, KeyEnvelopeView, OwnerType};
use crate::service::id_sequence::IdSequence;
use std::sync::atomic::AtomicU64;

verus! {

/// Why an envelope could not be created or opened.
#[derive(Debug)]
pub enum KeyManagementServiceError {
    Kem(KemBackendError),
    KeyWrap(KeyWrapError),
}

/// The text of a key management error: that of the failure inside it.
pub open spec fn key_management_error_message(e: KeyManagementServiceError) -> Seq<char> {
    match e {
        KeyManagementServiceError::Kem(inner) => kem_error_message(inner),
        KeyManagementServiceError::KeyWrap(inner) => key_wrap_error_message(inner),
    }
}

impl KeyManagementServiceError {
    /// The error as a sentence, as the error is displayed.
    pub fn message(&self) -> (s: String)
        ensures
            s@ == key_management_error_message(*self),
    {
        match self {
            KeyManagementServiceError::Kem(inner) => inner.message(),
            KeyManagementServiceError::KeyWrap(inner) => inner.message(),
        }
    }
}

/// Whether `envelope` carries `data_key` to the given recipient, the holder of `public_key`:
/// it names the data key and the recipient, its KEM ciphertext comes from an encapsulation
/// that `kem` made for `public_key`, and it holds the key wrapped under that encapsulation's
/// shared secret (of at least 32 bytes).
pub open spec fn carries_data_key<K: KemBackend>(
    kem: K,
    envelope: KeyEnvelopeView,
    data_key: DataKeyView,
    owner_id: u64,
    owner_type: OwnerType,
    public_key: Seq<u8>,
) -> bool {
    exists|shared_secret: Seq<u8>| #![trigger xor32(data_key.key_value, shared_secret)]
        shared_secret.len() >= 32
        && kem.encapsulated_for(public_key, envelope.kem_ciphertext, shared_secret)
        && envelope == envelope_for(envelope.envelope_id, data_key.key_id, owner_id, owner_type,
            envelope.kem_ciphertext, data_key.key_value, shared_secret)
}

/// How creating an envelope can fail: the KEM fails, or its shared secret is too short.
pub open spec fn envelope_creation_failure(e: KeyManagementServiceError) -> bool {
    match e {
        KeyManagementServiceError::Kem(_) => true,
        KeyManagementServiceError::KeyWrap(inner) =>
            inner matches KeyWrapError::InvalidSharedSecretLength { expected, actual } && expected == 32 && actual < 32,
    }
}

/// Creates and opens envelopes with one KEM.
pub struct KeyManagementService<K> {
    kem_backend: Arc<K>,
    envelope_ids: IdSequence,
}

impl<K: KemBackend> KeyManagementService<K> {
    /// The KEM this service uses.
    pub closed spec fn kem(&self) -> K {
        *self.kem_backend
    }

    /// The counter this service draws its envelope ids from.
    pub closed spec fn envelope_counter(&self) -> AtomicU64 {
        self.envelope_ids.shared_counter()
    }

    /// A service over `kem_backend`, numbering its envelopes from 1.
    pub fn with_kem_backend(kem_backend: Arc<K>) -> (s: Self)
        ensures
            s.kem() == *kem_backend,
    {
        KeyManagementService { kem_backend, envelope_ids: IdSequence::starting_at_one() }
    }

    /// A service over `kem_backend` that takes its envelope ids from `envelope_ids`.
    pub fn with_envelope_ids(kem_backend: Arc<K>, envelope_ids: IdSequence) -> (s: Self)
        ensures
            s.kem() == *kem_backend,
            s.envelope_counter() == envelope_ids.shared_counter(),
    {
        KeyManagementService { kem_backend, envelope_ids }
    }

    /// A fresh `(public_key, private_key)` pair from the KEM.
    pub fn generate_keypair(&self) -> (r: Result<(Vec<u8>, Vec<u8>), KeyManagementServiceError>)
        ensures
            r matches Ok((public_key, private_key)) ==> self.kem().generated_pair(public_key@, private_key@),
            r matches Err(e) ==> e is Kem,
    {
        match self.kem_backend.generate_keypair() {
            Ok(pair) => Ok(pair),
            Err(e) => Err(KeyManagementServiceError::Kem(e)),
        }
    }

    /// An envelope carrying `data_key` to the user `user_id`.
    pub fn create_user_key_envelope(&self, data_key: &DataKey, user_id: u64, user_public_key: &[u8]) -> (r: Result<KeyEnvelope, KeyManagementServiceError>)
        ensures
            match r {
                Ok(envelope) => carries_data_key(self.kem(), envelope@, data_key@, user_id, OwnerType::User, user_public_key@),
                Err(e) => envelope_creation_failure(e),
            },
    {
        self.create_key_envelope(data_key, user_id, OwnerType::User, user_public_key)
    }

    /// An envelope carrying `data_key` to the guardian `guardian_id`.
    pub fn create_guardian_key_envelope(&self, data_key: &DataKey, guardian_id: u64, guardian_public_key: &[u8]) -> (r: Result<KeyEnvelope, KeyManagementServiceError>)
        ensures
            match r {
                Ok(envelope) => carries_data_key(self.kem(), envelope@, data_key@, guardian_id, OwnerType::Guardian, guardian_public_key@),
                Err(e) => envelope_creation_failure(e),
            },
    {
        self.create_key_envelope(data_key, guardian_id, OwnerType::Guardian, guardian_public_key)
    }

    /// An envelope carrying `data_key` to the recipient that holds the private key of
    /// `public_key`: a fresh KEM encapsulation for `public_key`, with the data key wrapped
    /// under its shared secret. The envelope takes the next id of this service's sequence.
    pub fn create_key_envelope(&self, data_key: &DataKey, owner_id: u64, owner_type: OwnerType, public_key: &[u8]) -> (r: Result<KeyEnvelope, KeyManagementServiceError>)
        ensures
            match r {
                Ok(envelope) => carries_data_key(self.kem(), envelope@, data_key@, owner_id, owner_type, public_key@),
                Err(e) => envelope_creation_failure(e),
            },
    {
        let envelope_id = self.envelope_ids.next_id();
        let encapsulation = match self.kem_backend.encapsulate(public_key) {
            Ok(encapsulation) => encapsulation,
            Err(e) => return Err(KeyManagementServiceError::Kem(e)),
        };
        let ghost shared_secret = encapsulation.shared_secret@;
        match seal_envelope(envelope_id, &data_key.key_id, &data_key.key_value, owner_id, owner_type, encapsulation) {
            Ok(envelope) => {
                proof {
                    assert(xor32(data_key@.key_value, shared_secret) == envelope@.encapsulated_key);
                }
                Ok(envelope)
            },
            Err(e) => Err(KeyManagementServiceError::KeyWrap(e)),
        }
    }

    /// Recovers the data key of `envelope` with the recipient's `private_key`: the KEM
    /// decapsulates the envelope's ciphertext and the wrapped key is unwrapped under the
    /// resulting shared secret.
    pub fn open_key_envelope(&self, envelope: &KeyEnvelope, private_key: &[u8]) -> (r: Result<[u8; DATA_KEY_SIZE], KeyManagementServiceError>)
        ensures
            r is Ok <==> recovered_data_key(self.kem().decapsulate_spec(envelope@.kem_ciphertext, private_key@), envelope@.encapsulated_key) is Some,
            match r {
                Ok(key) => recovered_data_key(self.kem().decapsulate_spec(envelope@.kem_ciphertext, private_key@), envelope@.encapsulated_key) == Some(key@),
                Err(KeyManagementServiceError::Kem(e)) => self.kem().decapsulate_spec(envelope@.kem_ciphertext, private_key@) is None
                    && e == self.kem().decapsulation_error(envelope@.kem_ciphertext, private_key@),
                Err(KeyManagementServiceError::KeyWrap(e)) => exists|shared_secret: Seq<u8>|
                    self.kem().decapsulate_spec(envelope@.kem_ciphertext, private_key@) == Some(shared_secret)
                    && #[trigger] unwrap_result(envelope@.encapsulated_key, shared_secret) == Err::<Seq<u8>, KeyWrapError>(e),
            },
    {
        let shared_secret = match self.kem_backend.decapsulate(&envelope.kem_ciphertext, private_key) {
            Ok(secret) => secret,
            Err(e) => return Err(KeyManagementServiceError::Kem(e)),
        };
        match unwrap_data_key(&envelope.encapsulated_key, &shared_secret) {
            Ok(key) => Ok(key),
            Err(e) => Err(KeyManagementServiceError::KeyWrap(e)),
        }
    }
}

/// An envelope created for a data key and a recipient's public key opens, with a private
/// key that opens the KEM's encapsulations for that public key, to that data key.
pub proof fn lemma_open_after_create<K: KemBackend>(
    kem: K,
    envelope: KeyEnvelopeView,
    data_key: DataKeyView,
    owner_id: u64,
    owner_type: OwnerType,
    public_key: Seq<u8>,
    private_key: Seq<u8>,
)
    requires
        data_key.key_value.len() == 32,
        carries_data_key(kem, envelope, data_key, owner_id, owner_type, public_key),
        opens_encapsulations_for(kem, public_key, private_key),
    ensures
        recovered_data_key(kem.decapsulate_spec(envelope.kem_ciphertext, private_key), envelope.encapsulated_key)
            == Some(data_key.key_value),
{
    let shared_secret = choose|shared_secret: Seq<u8>| #![trigger xor32(data_key.key_value, shared_secret)]
        shared_secret.len() >= 32
        && kem.encapsulated_for(public_key, envelope.kem_ciphertext, shared_secret)
        && envelope == envelope_for(envelope.envelope_id, data_key.key_id, owner_id, owner_type,
            envelope.kem_ciphertext, data_key.key_value, shared_secret);
    assert(kem.encapsulated_for(public_key, envelope.kem_ciphertext, shared_secret));
    crate::crypto::key_wrap::lemma_unwrap_after_wrap(data_key.key_value, shared_secret);
}

/// With a KEM whose generated pairs open the encapsulations made for their public keys, an
/// envelope created for a generated public key opens, with that pair's private key, to the
/// data key it carries.
pub proof fn lemma_generated_pair_opens_envelope<K: KemBackend>(
    kem: K,
    envelope: KeyEnvelopeView,
    data_key: DataKeyView,
    owner_id: u64,
    owner_type: OwnerType,
    public_key: Seq<u8>,
    private_key: Seq<u8>,
)
    requires
        data_key.key_value.len() == 32,
        carries_data_key(kem, envelope, data_key, owner_id, owner_type, public_key),
        generated_pairs_open_encapsulations(kem),
        kem.generated_pair(public_key, private_key),
    ensures
        recovered_data_key(kem.decapsulate_spec(envelope.kem_ciphertext, private_key), envelope.encapsulated_key)
            == Some(data_key.key_value),
{
    lemma_open_after_create(kem, envelope, data_key, owner_id, owner_type, public_key, private_key);
}

} // verus!
