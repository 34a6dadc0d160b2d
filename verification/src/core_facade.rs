//! One entry point over all services, sharing one set of backends.
use vstd::prelude::*;

use std::sync::Arc;

use crate::adapters::kem_envelope::recovered_data_key;
use crate::crypto::backends::{
    generated_pairs_open_encapsulations, lemma_private_key_opens, lemma_tampered_tag_refused,
    opens_encapsulations_for, private_key_opens,
    kem_error_message, random_error_message, AeadBackend, KemBackend, KemBackendError, SecureRandom,
    SecureRandomError, DATA_KEY_SIZE,
};
use crate::domain::crypto_package::{CryptoPackage, CryptoPackageView};
use crate::domain::data_key::{DataKey, DataKeyView};
use crate::domain::key_envelope::{KeyEnvelope, OwnerType};
use crate::domain::Timestamp;
use crate::service::decryption_service::{
    decryption_error_message, decryption_outcome, decryption_result_matches, opened_payload_authentic, opening_key,
    DecryptionCaller, DecryptionService, DecryptionServiceError,
};
use crate::service::encryption_service::{
    encryption_error_message, encryption_failure, seals_request, EncryptionRequest,
    EncryptionRequestView, EncryptionService, EncryptionServiceError,
};
use crate::service::id_sequence::{share, IdSequence};
use crate::service::key_management_service::{
    lemma_open_after_create,
    carries_data_key, envelope_creation_failure, key_management_error_message, KeyManagementService,
    KeyManagementServiceError,
};
use crate::service::sharing_service::{sharing_error_message, SharingService, SharingServiceError};

verus! {

/// The data key made of the bytes a random draw filled, or the draw's own error when the
/// random source failed.
pub fn data_key_from_random_draw(
    key_id: &str,
    key_value: [u8; DATA_KEY_SIZE],
    draw: Result<(), SecureRandomError>,
    created_at: Timestamp,
    expires_at: Timestamp,
) -> (r: Result<DataKey, CoreFacadeError>)
    ensures
        match draw {
            Ok(_) => r matches Ok(key)
                && key@ == (DataKeyView { key_id: key_id@, key_value: key_value@, created_at, expires_at }),
            Err(e) => r matches Err(CoreFacadeError::Random(inner)) && inner == e,
        },
{
    match draw {
        Ok(()) => Ok(DataKey::new(key_id, key_value, created_at, expires_at)),
        Err(e) => Err(CoreFacadeError::Random(e)),
    }
}

/// Why a facade operation failed: the failure of the service that performed it.
#[derive(Debug)]
pub enum CoreFacadeError {
    Random(SecureRandomError),
    Kem(KemBackendError),
    Encryption(EncryptionServiceError),
    Decryption(DecryptionServiceError),
    KeyManagement(KeyManagementServiceError),
    Sharing(SharingServiceError),
}

/// The text of a facade error: that of the failure inside it.
pub open spec fn core_facade_error_message(e: CoreFacadeError) -> Seq<char> {
    match e {
        CoreFacadeError::Random(inner) => random_error_message(inner),
        CoreFacadeError::Kem(inner) => kem_error_message(inner),
        CoreFacadeError::Encryption(inner) => encryption_error_message(inner),
        CoreFacadeError::Decryption(inner) => decryption_error_message(inner),
        CoreFacadeError::KeyManagement(inner) => key_management_error_message(inner),
        CoreFacadeError::Sharing(inner) => sharing_error_message(inner),
    }
}

impl CoreFacadeError {
    /// The error as a sentence, as the error is displayed.
    pub fn message(&self) -> (s: String)
        ensures
            s@ == core_facade_error_message(*self),
    {
        match self {
            CoreFacadeError::Random(inner) => inner.message(),
            CoreFacadeError::Kem(inner) => inner.message(),
            CoreFacadeError::Encryption(inner) => inner.message(),
            CoreFacadeError::Decryption(inner) => inner.message(),
            CoreFacadeError::KeyManagement(inner) => inner.message(),
            CoreFacadeError::Sharing(inner) => inner.message(),
        }
    }
}

/// All operations of the library behind one value.
pub struct CoreFacade<A, K, R> {
    encryption_service: EncryptionService<A, R, K>,
    decryption_service: DecryptionService<A, K>,
    key_management_service: KeyManagementService<K>,
    sharing_service: SharingService<K>,
    secure_random: Arc<R>,
}

impl<A: AeadBackend, K: KemBackend, R: SecureRandom> CoreFacade<A, K, R> {
    /// The service that seals packages.
    pub closed spec fn encryption(&self) -> EncryptionService<A, R, K> {
        self.encryption_service
    }

    /// The service that opens packages.
    pub closed spec fn decryption(&self) -> DecryptionService<A, K> {
        self.decryption_service
    }

    /// The service that creates and opens envelopes.
    pub closed spec fn key_management(&self) -> KeyManagementService<K> {
        self.key_management_service
    }

    /// The service that shares data keys with more recipients.
    pub closed spec fn sharing(&self) -> SharingService<K> {
        self.sharing_service
    }

    /// A facade whose services all use the given cipher, KEM and random source; its envelope
    /// ids come from one sequence shared by all its services.
    pub fn from_backends(aead_backend: Arc<A>, kem_backend: Arc<K>, secure_random: Arc<R>) -> (f: Self)
        ensures
            f.encryption().aead() == *aead_backend,
            f.encryption().kem() == *kem_backend,
            f.decryption().aead() == *aead_backend,
            f.decryption().kem() == *kem_backend,
            f.key_management().kem() == *kem_backend,
            f.sharing().kem() == *kem_backend,
            f.encryption().envelope_counter() == f.key_management().envelope_counter(),
            f.sharing().envelope_counter() == f.key_management().envelope_counter(),
    {
        Self::from_backends_and_ids(aead_backend, kem_backend, secure_random, IdSequence::starting_at_one(), IdSequence::starting_at_one())
    }

    /// A facade like `from_backends` whose log ids come from `log_ids` and whose envelope ids
    /// come from `envelope_ids`, sequences it may share with other services.
    pub fn from_backends_and_ids(
        aead_backend: Arc<A>,
        kem_backend: Arc<K>,
        secure_random: Arc<R>,
        log_ids: IdSequence,
        envelope_ids: IdSequence,
    ) -> (f: Self)
        ensures
            f.encryption().aead() == *aead_backend,
            f.encryption().kem() == *kem_backend,
            f.decryption().aead() == *aead_backend,
            f.decryption().kem() == *kem_backend,
            f.key_management().kem() == *kem_backend,
            f.sharing().kem() == *kem_backend,
            f.encryption().envelope_counter() == envelope_ids.shared_counter(),
            f.key_management().envelope_counter() == envelope_ids.shared_counter(),
            f.sharing().envelope_counter() == envelope_ids.shared_counter(),
            f.encryption().log_counter() == log_ids.shared_counter(),
    {
        let encryption_key_management_service = KeyManagementService::with_envelope_ids(share(&kem_backend), envelope_ids.clone_handle());
        let facade_key_management_service = KeyManagementService::with_envelope_ids(share(&kem_backend), envelope_ids.clone_handle());
        let sharing_key_management_service = KeyManagementService::with_envelope_ids(share(&kem_backend), envelope_ids);
        Self::with_components(
            EncryptionService::with_log_ids(share(&aead_backend), share(&secure_random), encryption_key_management_service, log_ids),
            DecryptionService::with_backends(aead_backend, kem_backend),
            facade_key_management_service,
            SharingService::with_key_management_service(sharing_key_management_service),
            secure_random,
        )
    }

    /// A facade over the given services.
    pub fn with_components(
        encryption_service: EncryptionService<A, R, K>,
        decryption_service: DecryptionService<A, K>,
        key_management_service: KeyManagementService<K>,
        sharing_service: SharingService<K>,
        secure_random: Arc<R>,
    ) -> (f: Self)
        ensures
            f.encryption() == encryption_service,
            f.decryption() == decryption_service,
            f.key_management() == key_management_service,
            f.sharing() == sharing_service,
    {
        CoreFacade { encryption_service, decryption_service, key_management_service, sharing_service, secure_random }
    }

    /// A fresh random 32-byte data key with the given id and validity period.
    pub fn generate_data_key(&self, key_id: &str, created_at: Timestamp, expires_at: Timestamp) -> (r: Result<DataKey, CoreFacadeError>)
        ensures
            match r {
                Ok(key) => key@.key_id == key_id@ && key@.created_at == created_at && key@.expires_at == expires_at,
                Err(e) => e is Random,
            },
    {
        let mut key_value = [0u8; 32];
        let draw = self.secure_random.fill_bytes(&mut key_value);
        data_key_from_random_draw(key_id, key_value, draw, created_at, expires_at)
    }

    /// A fresh KEM key pair.
    pub fn generate_mlkem_keypair(&self) -> (r: Result<(Vec<u8>, Vec<u8>), CoreFacadeError>)
        ensures
            r matches Ok((public_key, private_key)) ==> self.key_management().kem().generated_pair(public_key@, private_key@),
            r matches Err(e) ==> e matches CoreFacadeError::KeyManagement(inner) && inner is Kem,
    {
        match self.key_management_service.generate_keypair() {
            Ok(pair) => Ok(pair),
            Err(e) => Err(CoreFacadeError::KeyManagement(e)),
        }
    }

    /// Seals the request with `data_key`, stamped with the current time.
    pub fn encrypt_package(&self, request: EncryptionRequest, data_key: &DataKey) -> (r: Result<CryptoPackage, CoreFacadeError>)
        ensures
            match r {
                Ok(package) => seals_request(self.encryption().aead(), self.encryption().kem(), package@, request@, data_key@, package@.encrypted_data.created_at),
                Err(e) => e matches CoreFacadeError::Encryption(inner) && encryption_failure(self.encryption().aead(), request@, data_key@, inner),
            },
    {
        match self.encryption_service.encrypt_log_with_data_key(request, data_key) {
            Ok(package) => Ok(package),
            Err(e) => Err(CoreFacadeError::Encryption(e)),
        }
    }

    /// Seals the request with `data_key`, stamped `timestamp`.
    pub fn encrypt_package_at(&self, request: EncryptionRequest, data_key: &DataKey, timestamp: Timestamp) -> (r: Result<CryptoPackage, CoreFacadeError>)
        ensures
            match r {
                Ok(package) => seals_request(self.encryption().aead(), self.encryption().kem(), package@, request@, data_key@, timestamp),
                Err(e) => e matches CoreFacadeError::Encryption(inner) && encryption_failure(self.encryption().aead(), request@, data_key@, inner),
            },
    {
        match self.encryption_service.encrypt_log_with_data_key_at(request, data_key, timestamp) {
            Ok(package) => Ok(package),
            Err(e) => Err(CoreFacadeError::Encryption(e)),
        }
    }

    /// Opens `crypto_package` for `caller` with the caller's `private_key`.
    pub fn decrypt_package(&self, crypto_package: &CryptoPackage, caller: DecryptionCaller, private_key: &[u8]) -> (r: Result<Vec<u8>, CoreFacadeError>)
        ensures
            match decryption_outcome(self.decryption().aead(), self.decryption().kem(), crypto_package@, caller, private_key@) {
                Ok(plaintext) => r matches Ok(p) && p@ == plaintext,
                Err(_) => r matches Err(CoreFacadeError::Decryption(inner)) && decryption_result_matches(
                    Err(inner), decryption_outcome(self.decryption().aead(), self.decryption().kem(), crypto_package@, caller, private_key@), caller),
            },
            r matches Ok(plaintext) ==> opened_payload_authentic(self.decryption().aead(), self.decryption().kem(), crypto_package@, caller, private_key@, plaintext@),
    {
        match self.decryption_service.decrypt_log(crypto_package, caller, private_key) {
            Ok(plaintext) => Ok(plaintext),
            Err(e) => Err(CoreFacadeError::Decryption(e)),
        }
    }

    /// An envelope carrying `data_key` to a recipient.
    pub fn create_key_envelope(&self, data_key: &DataKey, owner_id: u64, owner_type: OwnerType, public_key: &[u8]) -> (r: Result<KeyEnvelope, CoreFacadeError>)
        ensures
            match r {
                Ok(envelope) => carries_data_key(self.key_management().kem(), envelope@, data_key@, owner_id, owner_type, public_key@),
                Err(e) => e matches CoreFacadeError::KeyManagement(inner) && envelope_creation_failure(inner),
            },
    {
        match self.key_management_service.create_key_envelope(data_key, owner_id, owner_type, public_key) {
            Ok(envelope) => Ok(envelope),
            Err(e) => Err(CoreFacadeError::KeyManagement(e)),
        }
    }

    /// The data key that `envelope` carries, recovered with the recipient's `private_key`.
    pub fn open_key_envelope(&self, envelope: &KeyEnvelope, private_key: &[u8]) -> (r: Result<[u8; DATA_KEY_SIZE], CoreFacadeError>)
        ensures
            r is Ok <==> recovered_data_key(self.key_management().kem().decapsulate_spec(envelope@.kem_ciphertext, private_key@), envelope@.encapsulated_key) is Some,
            r matches Ok(key) ==> recovered_data_key(self.key_management().kem().decapsulate_spec(envelope@.kem_ciphertext, private_key@), envelope@.encapsulated_key) == Some(key@),
            r matches Err(e) ==> e is KeyManagement,
    {
        match self.key_management_service.open_key_envelope(envelope, private_key) {
            Ok(key) => Ok(key),
            Err(e) => Err(CoreFacadeError::KeyManagement(e)),
        }
    }

    /// A new envelope carrying an existing `data_key` to one more recipient.
    pub fn create_additional_recipient_envelope(&self, data_key: &DataKey, owner_id: u64, owner_type: OwnerType, public_key: &[u8]) -> (r: Result<KeyEnvelope, CoreFacadeError>)
        ensures
            match r {
                Ok(envelope) => carries_data_key(self.sharing().kem(), envelope@, data_key@, owner_id, owner_type, public_key@),
                Err(e) => e matches CoreFacadeError::Sharing(SharingServiceError::KeyManagement(inner)) && envelope_creation_failure(inner),
            },
    {
        match self.sharing_service.create_additional_recipient_envelope(data_key, owner_id, owner_type, public_key) {
            Ok(envelope) => Ok(envelope),
            Err(e) => Err(CoreFacadeError::Sharing(e)),
        }
    }
}

/// The caller a package sealed for a request's user, as the user, and for its guardian, as
/// the guardian.
pub open spec fn user_caller(request: EncryptionRequestView) -> DecryptionCaller {
    DecryptionCaller { owner_id: request.user_id, owner_type: OwnerType::User }
}

/// The caller a package is sealed for as the request's guardian.
pub open spec fn guardian_caller(request: EncryptionRequestView) -> DecryptionCaller {
    DecryptionCaller { owner_id: request.guardian_id, owner_type: OwnerType::Guardian }
}

/// A package sealed for a user and a guardian opens, for either of them, to the sealed
/// payload, with a private key that opens the KEM's encapsulations for that recipient's
/// public key.
pub proof fn lemma_package_round_trip<A: AeadBackend, K: KemBackend>(
    aead: A,
    kem: K,
    package: CryptoPackageView,
    request: EncryptionRequestView,
    data_key: DataKeyView,
    created_at: Timestamp,
    caller: DecryptionCaller,
    private_key: Seq<u8>,
)
    requires
        data_key.key_value.len() == 32,
        seals_request(aead, kem, package, request, data_key, created_at),
        (caller == user_caller(request) && opens_encapsulations_for(kem, request.user_public_key, private_key))
            || (caller == guardian_caller(request) && opens_encapsulations_for(kem, request.guardian_public_key, private_key)),
    ensures
        decryption_outcome(aead, kem, package, caller, private_key) == Ok::<Seq<u8>, crate::service::decryption_service::DecryptionFailure>(request.log_data),
{
    if caller == user_caller(request) && opens_encapsulations_for(kem, request.user_public_key, private_key) {
        lemma_open_after_create(kem, package.user_envelope, data_key, request.user_id, OwnerType::User,
            request.user_public_key, private_key);
    } else {
        lemma_open_after_create(kem, package.guardian_envelope, data_key, request.guardian_id, OwnerType::Guardian,
            request.guardian_public_key, private_key);
    }
}

/// Only the user and the guardian a package was sealed for can open it: for any other
/// caller opening fails, whatever the private key.
pub proof fn lemma_only_recipients_open<A: AeadBackend, K: KemBackend>(
    aead: A,
    kem: K,
    package: CryptoPackageView,
    request: EncryptionRequestView,
    data_key: DataKeyView,
    created_at: Timestamp,
    caller: DecryptionCaller,
    private_key: Seq<u8>,
)
    requires
        seals_request(aead, kem, package, request, data_key, created_at),
        caller != user_caller(request),
        caller != guardian_caller(request),
    ensures
        decryption_outcome(aead, kem, package, caller, private_key)
            == Err::<Seq<u8>, crate::service::decryption_service::DecryptionFailure>(
                crate::service::decryption_service::DecryptionFailure::EnvelopeNotFound),
{
}

/// With a KEM whose generated pairs open the encapsulations made for their public keys, a
/// package sealed for a user and a guardian opens, for either of them, to the sealed payload
/// with the private key of the pair their public key was generated in.
pub proof fn lemma_generated_pair_package_round_trip<A: AeadBackend, K: KemBackend>(
    aead: A,
    kem: K,
    package: CryptoPackageView,
    request: EncryptionRequestView,
    data_key: DataKeyView,
    created_at: Timestamp,
    caller: DecryptionCaller,
    private_key: Seq<u8>,
)
    requires
        data_key.key_value.len() == 32,
        seals_request(aead, kem, package, request, data_key, created_at),
        generated_pairs_open_encapsulations(kem),
        (caller == user_caller(request) && kem.generated_pair(request.user_public_key, private_key))
            || (caller == guardian_caller(request) && kem.generated_pair(request.guardian_public_key, private_key)),
    ensures
        decryption_outcome(aead, kem, package, caller, private_key) == Ok::<Seq<u8>, crate::service::decryption_service::DecryptionFailure>(request.log_data),
{
    lemma_package_round_trip(aead, kem, package, request, data_key, created_at, caller, private_key);
}

/// A package whose payload tag was altered after sealing is not opened for its recipients:
/// with the recipient's private key, no plaintext is authenticated by the altered payload, so
/// `decrypt_package` (and `DecryptionService::decrypt_log`) refuse it.
pub proof fn lemma_tampered_package_refused<A: AeadBackend, K: KemBackend>(
    aead: A,
    kem: K,
    package: CryptoPackageView,
    tampered: CryptoPackageView,
    request: EncryptionRequestView,
    data_key: DataKeyView,
    created_at: Timestamp,
    caller: DecryptionCaller,
    private_key: Seq<u8>,
)
    requires
        data_key.key_value.len() == 32,
        seals_request(aead, kem, package, request, data_key, created_at),
        tampered.user_envelope == package.user_envelope,
        tampered.guardian_envelope == package.guardian_envelope,
        tampered.encrypted_data.iv == package.encrypted_data.iv,
        tampered.encrypted_data.ciphertext == package.encrypted_data.ciphertext,
        tampered.encrypted_data.tag != package.encrypted_data.tag,
        (caller == user_caller(request) && private_key_opens(kem, request.user_public_key, private_key))
            || (caller == guardian_caller(request) && private_key_opens(kem, request.guardian_public_key, private_key)),
    ensures
        forall|plaintext: Seq<u8>| !opened_payload_authentic(aead, kem, tampered, caller, private_key, plaintext),
{
    if caller == user_caller(request) && private_key_opens(kem, request.user_public_key, private_key) {
        lemma_private_key_opens(kem, request.user_public_key, private_key);
        lemma_open_after_create(kem, package.user_envelope, data_key, request.user_id, OwnerType::User,
            request.user_public_key, private_key);
    } else {
        lemma_private_key_opens(kem, request.guardian_public_key, private_key);
        lemma_open_after_create(kem, package.guardian_envelope, data_key, request.guardian_id, OwnerType::Guardian,
            request.guardian_public_key, private_key);
    }
    assert(opening_key(kem, tampered, caller, private_key) == Some(data_key.key_value));
    assert forall|plaintext: Seq<u8>| !opened_payload_authentic(aead, kem, tampered, caller, private_key, plaintext) by {
        lemma_tampered_tag_refused(aead, data_key.key_value, package.encrypted_data.iv, request.log_data, Seq::empty(),
            package.encrypted_data.ciphertext, package.encrypted_data.tag, tampered.encrypted_data.tag, plaintext);
    }
}

} // verus!
