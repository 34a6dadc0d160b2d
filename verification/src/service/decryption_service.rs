//! Opening a package for one of its recipients.
use vstd::prelude::*;

use std::sync::Arc;

use crate::crypto::backends::{
    aead_error_message, authenticates, kem_error_message, AeadBackend, AeadBackendError, KemBackend, KemBackendError,
};
use crate::crypto::key_wrap::{key_wrap_error_message, unwrap_data_key, unwrap_result, KeyWrapError};
use crate::domain::crypto_package::{CryptoPackage, CryptoPackageView};
use crate::domain::key_envelope::{KeyEnvelope, KeyEnvelopeView, OwnerType};
use crate::text::{decimal, push_decimal};

verus! {

/// Who asks for a package to be opened.
#[derive(Debug, Clone, Copy, PartialEq, Eq, Structural)]
pub struct DecryptionCaller {
    pub owner_id: u64,
    pub owner_type: OwnerType,
}

impl DecryptionCaller {
    pub fn new(owner_id: u64, owner_type: OwnerType) -> (c: Self)
        ensures
            c.owner_id == owner_id,
            c.owner_type == owner_type,
    {
        DecryptionCaller { owner_id, owner_type }
    }
}

/// Why a package could not be opened.
#[derive(Debug)]
pub enum DecryptionServiceError {
    Kem(KemBackendError),
    Aead(AeadBackendError),
    KeyWrap(KeyWrapError),
    /// Neither envelope of the package is addressed to the caller.
    EnvelopeNotFound { owner_id: u64, owner_type: OwnerType },
    /// The caller's envelope carries another data key than the one that sealed the payload.
    KeyIdMismatch,
}

/// How an owner type is written in messages.
pub open spec fn owner_type_name(owner_type: OwnerType) -> Seq<char> {
    match owner_type {
        OwnerType::User => "User"@,
        OwnerType::Guardian => "Guardian"@,
    }
}

/// The text of a decryption error.
pub open spec fn decryption_error_message(e: DecryptionServiceError) -> Seq<char> {
    match e {
        DecryptionServiceError::Kem(inner) => kem_error_message(inner),
        DecryptionServiceError::Aead(inner) => aead_error_message(inner),
        DecryptionServiceError::KeyWrap(inner) => key_wrap_error_message(inner),
        DecryptionServiceError::EnvelopeNotFound { owner_id, owner_type } =>
            "no key envelope found for owner_id="@ + decimal(owner_id as nat) + " and owner_type="@
                + owner_type_name(owner_type),
        DecryptionServiceError::KeyIdMismatch => "key envelope does not match encrypted log key id"@,
    }
}

impl DecryptionServiceError {
    /// The error as a sentence, as the error is displayed.
    pub fn message(&self) -> (s: String)
        ensures
            s@ == decryption_error_message(*self),
    {
        match self {
            DecryptionServiceError::Kem(inner) => inner.message(),
            DecryptionServiceError::Aead(inner) => inner.message(),
            DecryptionServiceError::KeyWrap(inner) => inner.message(),
            DecryptionServiceError::EnvelopeNotFound { owner_id, owner_type } => {
                let mut s = String::from_str("no key envelope found for owner_id=");
                push_decimal(&mut s, *owner_id);
                s.append(" and owner_type=");
                match owner_type {
                    OwnerType::User => s.append("User"),
                    OwnerType::Guardian => s.append("Guardian"),
                }
                s
            },
            DecryptionServiceError::KeyIdMismatch => String::from_str("key envelope does not match encrypted log key id"),
        }
    }
}

/// The envelope of `package` addressed to `caller`: the user's envelope when it matches,
/// otherwise the guardian's when that one does.
pub open spec fn selected_envelope(package: CryptoPackageView, caller: DecryptionCaller) -> Option<KeyEnvelopeView> {
    if package.user_envelope.owner_id == caller.owner_id && package.user_envelope.owner_type == caller.owner_type {
        Some(package.user_envelope)
    } else if package.guardian_envelope.owner_id == caller.owner_id && package.guardian_envelope.owner_type == caller.owner_type {
        Some(package.guardian_envelope)
    } else {
        None
    }
}

/// The step at which opening a package stops.
pub enum DecryptionFailure {
    EnvelopeNotFound,
    KeyIdMismatch,
    Decapsulation(KemBackendError),
    KeyWrap(KeyWrapError),
    Authentication,
}

/// What opening `package` for `caller` with `private_key` gives: select the caller's envelope,
/// check it carries the data key that sealed the payload, decapsulate, unwrap, open.
pub open spec fn decryption_outcome<A: AeadBackend, K: KemBackend>(
    aead: A,
    kem: K,
    package: CryptoPackageView,
    caller: DecryptionCaller,
    private_key: Seq<u8>,
) -> Result<Seq<u8>, DecryptionFailure> {
    match selected_envelope(package, caller) {
        None => Err(DecryptionFailure::EnvelopeNotFound),
        Some(envelope) => {
            if envelope.key_id != package.encrypted_data.key_id {
                Err(DecryptionFailure::KeyIdMismatch)
            } else {
                match kem.decapsulate_spec(envelope.kem_ciphertext, private_key) {
                    None => Err(DecryptionFailure::Decapsulation(kem.decapsulation_error(envelope.kem_ciphertext, private_key))),
                    Some(shared_secret) => match unwrap_result(envelope.encapsulated_key, shared_secret) {
                        Err(e) => Err(DecryptionFailure::KeyWrap(e)),
                        Ok(data_key) => match aead.open_spec(
                            data_key,
                            package.encrypted_data.iv,
                            package.encrypted_data.ciphertext,
                            package.encrypted_data.tag,
                            Seq::empty(),
                        ) {
                            Some(plaintext) => Ok(plaintext),
                            None => Err(DecryptionFailure::Authentication),
                        },
                    },
                }
            }
        },
    }
}

/// The data key that `private_key` recovers from the envelope of `package` addressed to
/// `caller`, when there is such an envelope and decapsulating and unwrapping succeed.
pub open spec fn opening_key<K: KemBackend>(kem: K, package: CryptoPackageView, caller: DecryptionCaller, private_key: Seq<u8>) -> Option<Seq<u8>> {
    match selected_envelope(package, caller) {
        None => None,
        Some(envelope) => match kem.decapsulate_spec(envelope.kem_ciphertext, private_key) {
            None => None,
            Some(shared_secret) => match unwrap_result(envelope.encapsulated_key, shared_secret) {
                Ok(data_key) => Some(data_key),
                Err(_) => None,
            },
        },
    }
}

/// Whether `plaintext` is authenticated by the sealed payload of `package` under the data key
/// that `private_key` recovers for `caller`: the payload's ciphertext and tag are what sealing
/// `plaintext` under that key gives, so a payload whose tag was altered is not opened.
pub open spec fn opened_payload_authentic<A: AeadBackend, K: KemBackend>(
    aead: A,
    kem: K,
    package: CryptoPackageView,
    caller: DecryptionCaller,
    private_key: Seq<u8>,
    plaintext: Seq<u8>,
) -> bool {
    opening_key(kem, package, caller, private_key) matches Some(data_key)
        && authenticates(&aead, data_key, package.encrypted_data.iv, package.encrypted_data.ciphertext,
            package.encrypted_data.tag, Seq::empty(), plaintext)
}

/// Whether a result of opening a package is the outcome the specification gives.
pub open spec fn decryption_result_matches(r: Result<Vec<u8>, DecryptionServiceError>, outcome: Result<Seq<u8>, DecryptionFailure>, caller: DecryptionCaller) -> bool {
    match outcome {
        Ok(plaintext) => r matches Ok(p) && p@ == plaintext,
        Err(DecryptionFailure::EnvelopeNotFound) => r matches Err(DecryptionServiceError::EnvelopeNotFound { owner_id, owner_type })
            && owner_id == caller.owner_id && owner_type == caller.owner_type,
        Err(DecryptionFailure::KeyIdMismatch) => r matches Err(DecryptionServiceError::KeyIdMismatch),
        Err(DecryptionFailure::Decapsulation(e)) => r matches Err(DecryptionServiceError::Kem(inner)) && inner == e,
        Err(DecryptionFailure::KeyWrap(e)) => r matches Err(DecryptionServiceError::KeyWrap(inner)) && inner == e,
        Err(DecryptionFailure::Authentication) => r matches Err(DecryptionServiceError::Aead(inner)) && inner == AeadBackendError::DecryptionFailed,
    }
}

/// Opens packages with one authenticated cipher and one KEM.
pub struct DecryptionService<A, K> {
    kem_backend: Arc<K>,
    aead_backend: Arc<A>,
}

impl<A: AeadBackend, K: KemBackend> DecryptionService<A, K> {
    /// The cipher this service opens payloads with.
    pub closed spec fn aead(&self) -> A {
        *self.aead_backend
    }

    /// The KEM this service decapsulates with.
    pub closed spec fn kem(&self) -> K {
        *self.kem_backend
    }

    pub fn with_backends(aead_backend: Arc<A>, kem_backend: Arc<K>) -> (s: Self)
        ensures
            s.aead() == *aead_backend,
            s.kem() == *kem_backend,
    {
        DecryptionService { kem_backend, aead_backend }
    }

    /// Opens `crypto_package` for `caller`: picks the envelope addressed to the caller (the
    /// user's first), checks that it carries the data key that sealed the payload, recovers
    /// that key with `private_key` and opens the payload with it (no associated data).
    pub fn decrypt_log(&self, crypto_package: &CryptoPackage, caller: DecryptionCaller, private_key: &[u8]) -> (r: Result<Vec<u8>, DecryptionServiceError>)
        ensures
            decryption_result_matches(r, decryption_outcome(self.aead(), self.kem(), crypto_package@, caller, private_key@), caller),
            r matches Ok(plaintext) ==> opened_payload_authentic(self.aead(), self.kem(), crypto_package@, caller, private_key@, plaintext@),
    {
        let envelope = self.select_envelope(crypto_package, caller)?;
        if envelope.key_id != crypto_package.encrypted_data.key_id {
            return Err(DecryptionServiceError::KeyIdMismatch);
        }
        let shared_secret = match self.kem_backend.decapsulate(&envelope.kem_ciphertext, private_key) {
            Ok(secret) => secret,
            Err(e) => return Err(DecryptionServiceError::Kem(e)),
        };
        let data_key = match unwrap_data_key(&envelope.encapsulated_key, &shared_secret) {
            Ok(key) => key,
            Err(e) => return Err(DecryptionServiceError::KeyWrap(e)),
        };
        let aad: [u8; 0] = [];
        proof { assert(aad@ =~= Seq::<u8>::empty()); }
        match self.aead_backend.decrypt_detached(
            &data_key,
            &crypto_package.encrypted_data.iv,
            &crypto_package.encrypted_data.ciphertext,
            &crypto_package.encrypted_data.tag,
            &aad,
        ) {
            Ok(plaintext) => Ok(plaintext),
            Err(e) => Err(DecryptionServiceError::Aead(e)),
        }
    }

    fn select_envelope<'a>(&self, crypto_package: &'a CryptoPackage, caller: DecryptionCaller) -> (r: Result<&'a KeyEnvelope, DecryptionServiceError>)
        ensures
            match selected_envelope(crypto_package@, caller) {
                Some(envelope) => r matches Ok(e) && e@ == envelope,
                None => r matches Err(DecryptionServiceError::EnvelopeNotFound { owner_id, owner_type })
                    && owner_id == caller.owner_id && owner_type == caller.owner_type,
            },
    {
        let user = &crypto_package.user_envelope;
        let guardian = &crypto_package.guardian_envelope;
        if user.owner_id == caller.owner_id && user.owner_type == caller.owner_type {
            Ok(user)
        } else if guardian.owner_id == caller.owner_id && guardian.owner_type == caller.owner_type {
            Ok(guardian)
        } else {
            Err(DecryptionServiceError::EnvelopeNotFound { owner_id: caller.owner_id, owner_type: caller.owner_type })
        }
    }
}

} // verus!
