//! Sealing a log payload and wrapping its data key for the user and the guardian.
use vstd::prelude::*;

use std::sync::Arc;

use crate::crypto::backends::{
    aead_error_message, random_error_message, AeadBackend, AeadBackendError, SecureRandom,
    SecureRandomError, DATA_KEY_SIZE,
};
use crate::domain::crypto_package::{CryptoPackage, CryptoPackageView};
use crate::domain::data_key::{DataKey, DataKeyView};
use crate::domain::encrypted_log::{EncryptedLogData, EncryptedLogDataView};
use crate::domain::key_envelope::OwnerType;
use crate::domain::timestamp::current_time;
use crate::domain::Timestamp;
use crate::service::id_sequence::IdSequence;
use std::sync::atomic::AtomicU64;
use crate::service::key_management_service::{
    carries_data_key, envelope_creation_failure, key_management_error_message, KeyManagementService,
    KeyManagementServiceError,
};
use crate::crypto::backends::KemBackend;

verus! {

/// A payload to seal and the two recipients who may open it.
#[derive(Debug, Clone)]
pub struct EncryptionRequest {
    pub log_data: Vec<u8>,
    pub user_id: u64,
    pub user_public_key: Vec<u8>,
    pub guardian_id: u64,
    pub guardian_public_key: Vec<u8>,
}

/// The contents of a request.
pub struct EncryptionRequestView {
    pub log_data: Seq<u8>,
    pub user_id: u64,
    pub user_public_key: Seq<u8>,
    pub guardian_id: u64,
    pub guardian_public_key: Seq<u8>,
}

impl View for EncryptionRequest {
    type V = EncryptionRequestView;

    open spec fn view(&self) -> EncryptionRequestView {
        EncryptionRequestView {
            log_data: self.log_data@,
            user_id: self.user_id,
            user_public_key: self.user_public_key@,
            guardian_id: self.guardian_id,
            guardian_public_key: self.guardian_public_key@,
        }
    }
}

impl EncryptionRequest {
    pub fn new(log_data: Vec<u8>, user_id: u64, user_public_key: Vec<u8>, guardian_id: u64, guardian_public_key: Vec<u8>) -> (r: Self)
        ensures
            r@ == (EncryptionRequestView {
                log_data: log_data@,
                user_id,
                user_public_key: user_public_key@,
                guardian_id,
                guardian_public_key: guardian_public_key@,
            }),
    {
        EncryptionRequest { log_data, user_id, user_public_key, guardian_id, guardian_public_key }
    }
}

/// Why a package could not be sealed.
#[derive(Debug)]
pub enum EncryptionServiceError {
    Aead(AeadBackendError),
    Random(SecureRandomError),
    KeyManagement(KeyManagementServiceError),
}

/// The text of an encryption error: that of the failure inside it.
pub open spec fn encryption_error_message(e: EncryptionServiceError) -> Seq<char> {
    match e {
        EncryptionServiceError::Aead(inner) => aead_error_message(inner),
        EncryptionServiceError::Random(inner) => random_error_message(inner),
        EncryptionServiceError::KeyManagement(inner) => key_management_error_message(inner),
    }
}

impl EncryptionServiceError {
    /// The error as a sentence, as the error is displayed.
    pub fn message(&self) -> (s: String)
        ensures
            s@ == encryption_error_message(*self),
    {
        match self {
            EncryptionServiceError::Aead(inner) => inner.message(),
            EncryptionServiceError::Random(inner) => inner.message(),
            EncryptionServiceError::KeyManagement(inner) => inner.message(),
        }
    }
}

/// Whether `data` is `plaintext` sealed by `aead` under `data_key` with no associated data,
/// for `user_id`, stamped `created_at`.
pub open spec fn seals_payload<A: AeadBackend>(aead: A, data: EncryptedLogDataView, plaintext: Seq<u8>, user_id: u64, data_key: DataKeyView, created_at: Timestamp) -> bool {
    &&& data.user_id == user_id
    &&& data.key_id == data_key.key_id
    &&& data.created_at == created_at
    &&& aead.seal_spec(data_key.key_value, data.iv, plaintext, Seq::empty()) == Some((data.ciphertext, data.tag))
    &&& aead.open_spec(data_key.key_value, data.iv, data.ciphertext, data.tag, Seq::empty()) == Some(plaintext)
}

/// Whether `package` seals the request's payload under `data_key` and carries that key to
/// the request's user and guardian, each through an encapsulation `kem` made for that
/// recipient's public key.
pub open spec fn seals_request<A: AeadBackend, K: KemBackend>(aead: A, kem: K, package: CryptoPackageView, request: EncryptionRequestView, data_key: DataKeyView, created_at: Timestamp) -> bool {
    &&& seals_payload(aead, package.encrypted_data, request.log_data, request.user_id, data_key, created_at)
    &&& carries_data_key(kem, package.user_envelope, data_key, request.user_id, OwnerType::User, request.user_public_key)
    &&& carries_data_key(kem, package.guardian_envelope, data_key, request.guardian_id, OwnerType::Guardian, request.guardian_public_key)
}

/// How sealing can fail: the cipher refuses the payload, the random source fails, or an
/// envelope cannot be created.
pub open spec fn encryption_failure<A: AeadBackend>(aead: A, request: EncryptionRequestView, data_key: DataKeyView, e: EncryptionServiceError) -> bool {
    match e {
        EncryptionServiceError::Aead(inner) => inner == AeadBackendError::EncryptionFailed
            && exists|nonce: Seq<u8>| nonce.len() == 12
                && (#[trigger] aead.seal_spec(data_key.key_value, nonce, request.log_data, Seq::empty())) is None,
        EncryptionServiceError::Random(_) => true,
        EncryptionServiceError::KeyManagement(inner) => envelope_creation_failure(inner),
    }
}

/// Seals payloads with one cipher and one random source, and wraps their data keys with a
/// key management service.
pub struct EncryptionService<A, R, K> {
    key_management_service: KeyManagementService<K>,
    aead_backend: Arc<A>,
    secure_random: Arc<R>,
    log_ids: IdSequence,
}

impl<A: AeadBackend, R: SecureRandom, K: KemBackend> EncryptionService<A, R, K> {
    /// The cipher this service seals payloads with.
    pub closed spec fn aead(&self) -> A {
        *self.aead_backend
    }

    /// The KEM the data keys are wrapped with.
    pub closed spec fn kem(&self) -> K {
        self.key_management_service.kem()
    }

    /// The counter the envelopes of this service's packages take their ids from.
    pub closed spec fn envelope_counter(&self) -> AtomicU64 {
        self.key_management_service.envelope_counter()
    }

    /// The counter this service draws its encrypted log ids from.
    pub closed spec fn log_counter(&self) -> AtomicU64 {
        self.log_ids.shared_counter()
    }

    pub fn with_dependencies(aead_backend: Arc<A>, secure_random: Arc<R>, key_management_service: KeyManagementService<K>) -> (s: Self)
        ensures
            s.aead() == *aead_backend,
            s.kem() == key_management_service.kem(),
            s.envelope_counter() == key_management_service.envelope_counter(),
    {
        Self::with_log_ids(aead_backend, secure_random, key_management_service, IdSequence::starting_at_one())
    }

    /// A service like `with_dependencies` that takes its log ids from `log_ids`, which it
    /// may share with other services.
    pub fn with_log_ids(aead_backend: Arc<A>, secure_random: Arc<R>, key_management_service: KeyManagementService<K>, log_ids: IdSequence) -> (s: Self)
        ensures
            s.aead() == *aead_backend,
            s.kem() == key_management_service.kem(),
            s.envelope_counter() == key_management_service.envelope_counter(),
            s.log_counter() == log_ids.shared_counter(),
    {
        EncryptionService { key_management_service, aead_backend, secure_random, log_ids }
    }

    /// Seals the request's payload under `data_key`, stamped with the current time.
    pub fn encrypt_log_with_data_key(&self, request: EncryptionRequest, data_key: &DataKey) -> (r: Result<CryptoPackage, EncryptionServiceError>)
        ensures
            match r {
                Ok(package) => seals_request(self.aead(), self.kem(), package@, request@, data_key@, package@.encrypted_data.created_at),
                Err(e) => encryption_failure(self.aead(), request@, data_key@, e),
            },
    {
        self.encrypt_log_with_data_key_at(request, data_key, current_time())
    }

    /// Seals the request's payload under `data_key` with a fresh random nonce, stamped
    /// `timestamp` and numbered from this service's sequence, then wraps the data key for the
    /// user and for the guardian with their public keys.
    pub fn encrypt_log_with_data_key_at(&self, request: EncryptionRequest, data_key: &DataKey, timestamp: Timestamp) -> (r: Result<CryptoPackage, EncryptionServiceError>)
        ensures
            match r {
                Ok(package) => seals_request(self.aead(), self.kem(), package@, request@, data_key@, timestamp),
                Err(e) => encryption_failure(self.aead(), request@, data_key@, e),
            },
    {
        let encrypted_data = self.encrypt_payload(&request.log_data, request.user_id, &data_key.key_id, &data_key.key_value, timestamp)?;
        let user_envelope = match self.key_management_service.create_user_key_envelope(data_key, request.user_id, &request.user_public_key) {
            Ok(envelope) => envelope,
            Err(e) => return Err(EncryptionServiceError::KeyManagement(e)),
        };
        let guardian_envelope = match self.key_management_service.create_guardian_key_envelope(data_key, request.guardian_id, &request.guardian_public_key) {
            Ok(envelope) => envelope,
            Err(e) => return Err(EncryptionServiceError::KeyManagement(e)),
        };
        Ok(CryptoPackage::new(encrypted_data, user_envelope, guardian_envelope))
    }

    fn encrypt_payload(
        &self,
        plaintext: &[u8],
        user_id: u64,
        key_id: &str,
        key_value: &[u8; DATA_KEY_SIZE],
        created_at: Timestamp,
    ) -> (r: Result<EncryptedLogData, EncryptionServiceError>)
        ensures
            match r {
                Ok(data) => seals_payload(self.aead(), data@, plaintext@, user_id,
                    DataKeyView { key_id: key_id@, key_value: key_value@, created_at: data@.created_at, expires_at: data@.created_at },
                    created_at),
                Err(EncryptionServiceError::Aead(inner)) => inner == AeadBackendError::EncryptionFailed
                    && exists|nonce: Seq<u8>| nonce.len() == 12
                        && (#[trigger] self.aead().seal_spec(key_value@, nonce, plaintext@, Seq::empty())) is None,
                Err(EncryptionServiceError::Random(_)) => true,
                Err(EncryptionServiceError::KeyManagement(_)) => false,
            },
    {
        let encrypted_log_id = self.log_ids.next_id();
        let mut nonce = [0u8; 12];
        match self.secure_random.fill_bytes(&mut nonce) {
            Ok(()) => {},
            Err(e) => return Err(EncryptionServiceError::Random(e)),
        }
        let aad: [u8; 0] = [];
        proof { assert(aad@ =~= Seq::<u8>::empty()); }
        let encrypted = match self.aead_backend.encrypt_detached(key_value, &nonce, plaintext, &aad) {
            Ok(sealed) => sealed,
            Err(e) => {
                proof {
                    assert(nonce@.len() == 12);
                    assert(self.aead().seal_spec(key_value@, nonce@, plaintext@, Seq::empty()) is None);
                }
                return Err(EncryptionServiceError::Aead(e));
            },
        };
        Ok(EncryptedLogData::new(encrypted_log_id, user_id, encrypted.ciphertext, nonce, encrypted.tag, key_id, created_at))
    }
}

} // verus!
