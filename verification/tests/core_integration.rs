use std::sync::atomic::{AtomicU8, Ordering};
use std::sync::Arc;

use crypto_core::adapters::aes_gcm_crypto::AESGCMCrypto;
use crypto_core::adapters::kem_envelope::decapsulate_envelope;
use crypto_core::adapters::os_secure_random::OsSecureRandom;
use crypto_core::core_facade::{data_key_from_random_draw, CoreFacade, CoreFacadeError};
use crypto_core::crypto::backends::{AeadBackendError, KemBackend, KemBackendError, KemEncapsulation, SecureRandomError};
use crypto_core::domain::data_key::DataKey;
use crypto_core::domain::key_envelope::OwnerType;
use crypto_core::domain::timestamp::current_time;
use crypto_core::service::decryption_service::{DecryptionCaller, DecryptionService, DecryptionServiceError};
use crypto_core::domain::timestamp::Timestamp;
use crypto_core::service::encryption_service::{EncryptionRequest, EncryptionService};
use crypto_core::service::id_sequence::IdSequence;
use crypto_core::service::key_management_service::KeyManagementService;
use crypto_core::service::sharing_service::SharingService;

/// A toy KEM for exercising the services: the private key equals the public key, the
/// ciphertext is the shared secret masked with the key. It has no security at all.
struct ToyKem {
    next_key: AtomicU8,
}

impl ToyKem {
    fn new() -> Self {
        ToyKem { next_key: AtomicU8::new(1) }
    }
}

fn mask(left: &[u8], right: &[u8]) -> Vec<u8> {
    left.iter().zip(right.iter()).map(|(a, b)| a ^ b).collect()
}

impl KemBackend for ToyKem {
    fn algorithm_name(&self) -> &'static str {
        "TOY-KEM"
    }

    fn generate_keypair(&self) -> Result<(Vec<u8>, Vec<u8>), KemBackendError> {
        let seed = self.next_key.fetch_add(1, Ordering::SeqCst);
        let key: Vec<u8> = (0..32u8).map(|i| i.wrapping_mul(7) ^ seed).collect();
        Ok((key.clone(), key))
    }

    fn encapsulate(&self, public_key: &[u8]) -> Result<KemEncapsulation, KemBackendError> {
        if public_key.len() != 32 {
            return Err(KemBackendError::InvalidPublicKeyLength { expected: 32, actual: public_key.len() });
        }
        let shared_secret: Vec<u8> = (0..32u8).map(|i| i.wrapping_mul(13).wrapping_add(5)).collect();
        Ok(KemEncapsulation::new(mask(&shared_secret, public_key), shared_secret))
    }

    fn decapsulate(&self, ciphertext: &[u8], private_key: &[u8]) -> Result<Vec<u8>, KemBackendError> {
        if private_key.len() != 32 {
            return Err(KemBackendError::InvalidPrivateKeyLength { expected: 32, actual: private_key.len() });
        }
        if ciphertext.len() != 32 {
            return Err(KemBackendError::InvalidCiphertextLength { expected: 32, actual: ciphertext.len() });
        }
        Ok(mask(ciphertext, private_key))
    }
}

fn build_encryption_request(
    user_public_key: Vec<u8>,
    guardian_public_key: Vec<u8>,
    plaintext: Vec<u8>,
) -> EncryptionRequest {
    EncryptionRequest::new(plaintext, 10, user_public_key, 20, guardian_public_key)
}

fn build_core_facade() -> CoreFacade<AESGCMCrypto, ToyKem, OsSecureRandom> {
    CoreFacade::from_backends(Arc::new(AESGCMCrypto), Arc::new(ToyKem::new()), Arc::new(OsSecureRandom))
}

#[test]
fn encryption_service_encrypts_with_supplied_data_key() {
    let kem_backend = Arc::new(ToyKem::new());
    let key_management_service = KeyManagementService::with_kem_backend(kem_backend);
    let service = EncryptionService::with_dependencies(
        Arc::new(AESGCMCrypto),
        Arc::new(OsSecureRandom),
        key_management_service,
    );
    let kem = ToyKem::new();
    let (user_public_key, _) = kem.generate_keypair().expect("user keypair should be created");
    let (guardian_public_key, _) = kem.generate_keypair().expect("guardian keypair should be created");
    let timestamp = current_time();
    let data_key = DataKey::new("datakey-explicit", [17u8; 32], timestamp, timestamp);

    let package = service
        .encrypt_log_with_data_key_at(
            EncryptionRequest::new(b"log payload".to_vec(), 100, user_public_key, 200, guardian_public_key),
            &data_key,
            timestamp,
        )
        .expect("encryption should succeed");

    assert_eq!(package.encrypted_data.key_id, "datakey-explicit");
    assert_eq!(package.user_envelope.key_id, "datakey-explicit");
    assert_eq!(package.guardian_envelope.key_id, "datakey-explicit");
}

#[test]
fn decryption_service_decrypts_user_encrypted_log_end_to_end() {
    let kem_backend = Arc::new(ToyKem::new());
    let key_management_service = KeyManagementService::with_kem_backend(Arc::clone(&kem_backend));
    let encryption_service = EncryptionService::with_dependencies(
        Arc::new(AESGCMCrypto),
        Arc::new(OsSecureRandom),
        key_management_service,
    );
    let decryption_service = DecryptionService::with_backends(Arc::new(AESGCMCrypto), kem_backend);
    let kem = ToyKem::new();
    let (user_public_key, user_private_key) = kem.generate_keypair().expect("user keypair should be created");
    let (guardian_public_key, _) = kem.generate_keypair().expect("guardian keypair should be created");
    let plaintext = b"user log payload".to_vec();
    let timestamp = current_time();
    let data_key = DataKey::new("datakey-user", [21u8; 32], timestamp, timestamp);

    let crypto_package = encryption_service
        .encrypt_log_with_data_key_at(
            EncryptionRequest::new(plaintext.clone(), 10, user_public_key, 20, guardian_public_key),
            &data_key,
            timestamp,
        )
        .expect("encryption should succeed");

    let decrypted = decryption_service
        .decrypt_log(&crypto_package, DecryptionCaller::new(10, OwnerType::User), &user_private_key)
        .expect("user decryption should succeed");

    assert_eq!(decrypted, plaintext);
}

#[test]
fn key_management_service_creates_and_opens_envelope() {
    let service = KeyManagementService::with_kem_backend(Arc::new(ToyKem::new()));
    let kem = ToyKem::new();
    let (public_key, private_key) = kem.generate_keypair().expect("keypair should generate");
    let data_key = DataKey::new("datakey-2026-03-16", [7u8; 32], current_time(), current_time());

    let envelope = service
        .create_key_envelope(&data_key, 30, OwnerType::User, &public_key)
        .expect("envelope should be created");
    let opened = service.open_key_envelope(&envelope, &private_key).expect("envelope should open");

    assert_eq!(opened, data_key.key_value);
}

#[test]
fn sharing_service_creates_additional_recipient_envelope() {
    let key_management_service = KeyManagementService::with_kem_backend(Arc::new(ToyKem::new()));
    let sharing_service = SharingService::with_key_management_service(key_management_service);
    let kem = ToyKem::new();
    let (guardian_public_key, guardian_private_key) =
        kem.generate_keypair().expect("guardian keypair should generate");
    let data_key = DataKey::new("datakey-2026-03-16", [11u8; 32], current_time(), current_time());

    let envelope = sharing_service
        .create_additional_recipient_envelope(&data_key, 900, OwnerType::Guardian, &guardian_public_key)
        .expect("recipient envelope should be created");
    let recovered = decapsulate_envelope(&kem, &envelope.clone(), &guardian_private_key)
        .expect("guardian should recover the same data key");

    assert_eq!(envelope.owner_id, 900);
    assert_eq!(envelope.owner_type, OwnerType::Guardian);
    assert_eq!(recovered, data_key.key_value);
}

#[test]
fn core_facade_encrypts_and_decrypts_package() {
    let facade = build_core_facade();
    let kem = ToyKem::new();
    let (user_public_key, user_private_key) = kem.generate_keypair().expect("user keypair should generate");
    let (guardian_public_key, _) = kem.generate_keypair().expect("guardian keypair should generate");
    let timestamp = current_time();
    let plaintext = b"facade round trip".to_vec();
    let data_key = facade
        .generate_data_key("datakey-facade", timestamp, timestamp)
        .expect("data key should be generated");

    let package = facade
        .encrypt_package_at(
            build_encryption_request(user_public_key, guardian_public_key, plaintext.clone()),
            &data_key,
            timestamp,
        )
        .expect("package should encrypt");
    let decrypted = facade
        .decrypt_package(&package, DecryptionCaller::new(10, OwnerType::User), &user_private_key)
        .expect("package should decrypt");

    assert_eq!(decrypted, plaintext);
    assert_eq!(package.encrypted_data.key_id, data_key.key_id);
}

#[test]
fn core_facade_creates_and_opens_key_envelope() {
    let facade = build_core_facade();
    let kem = ToyKem::new();
    let (public_key, private_key) = kem.generate_keypair().expect("keypair should generate");
    let timestamp = current_time();
    let data_key = facade
        .generate_data_key("datakey-envelope", timestamp, timestamp)
        .expect("data key should be generated");

    let envelope = facade
        .create_key_envelope(&data_key, 99, OwnerType::Guardian, &public_key)
        .expect("envelope should be created");
    let opened = facade.open_key_envelope(&envelope, &private_key).expect("envelope should open");

    assert_eq!(opened, data_key.key_value);
    assert_eq!(envelope.key_id, data_key.key_id);
}

#[test]
fn core_facade_creates_additional_recipient_envelope() {
    let facade = build_core_facade();
    let kem = ToyKem::new();
    let (public_key, private_key) = kem.generate_keypair().expect("keypair should generate");
    let timestamp = current_time();
    let data_key = facade
        .generate_data_key("datakey-share", timestamp, timestamp)
        .expect("data key should be generated");

    let envelope = facade
        .create_additional_recipient_envelope(&data_key, 77, OwnerType::Guardian, &public_key)
        .expect("additional envelope should be created");
    let opened = facade
        .open_key_envelope(&envelope, &private_key)
        .expect("additional envelope should open");

    assert_eq!(opened, data_key.key_value);
    assert_eq!(envelope.owner_id, 77);
    assert_eq!(envelope.owner_type, OwnerType::Guardian);
}

#[test]
fn guardian_opens_the_same_package_and_strangers_are_refused() {
    let facade = build_core_facade();
    let kem = ToyKem::new();
    let (user_public_key, _) = kem.generate_keypair().expect("user keypair");
    let (guardian_public_key, guardian_private_key) = kem.generate_keypair().expect("guardian keypair");
    let timestamp = current_time();
    let data_key = facade.generate_data_key("datakey-g", timestamp, timestamp).expect("data key");
    let package = facade
        .encrypt_package_at(
            build_encryption_request(user_public_key, guardian_public_key, b"for both".to_vec()),
            &data_key,
            timestamp,
        )
        .expect("package should encrypt");

    let by_guardian = facade
        .decrypt_package(&package, DecryptionCaller::new(20, OwnerType::Guardian), &guardian_private_key)
        .expect("guardian should decrypt");
    assert_eq!(by_guardian, b"for both".to_vec());

    let stranger = facade.decrypt_package(&package, DecryptionCaller::new(99, OwnerType::User), &guardian_private_key);
    assert!(stranger.is_err());
}

#[test]
fn envelope_ids_are_distinct_across_facade_services() {
    let facade = build_core_facade();
    let kem = ToyKem::new();
    let (public_key, _) = kem.generate_keypair().expect("keypair");
    let data_key = DataKey::new("k", [1u8; 32], current_time(), current_time());

    let first = facade.create_key_envelope(&data_key, 1, OwnerType::User, &public_key).expect("first");
    let second = facade
        .create_additional_recipient_envelope(&data_key, 2, OwnerType::Guardian, &public_key)
        .expect("second");

    assert_ne!(first.envelope_id, second.envelope_id);
}

#[test]
fn kem_errors_are_handed_on_unchanged() {
    let kem = ToyKem::new();
    let (public_key, _) = kem.generate_keypair().expect("keypair");
    let data_key = DataKey::new("k", [1u8; 32], current_time(), current_time());
    let service = KeyManagementService::with_kem_backend(Arc::new(ToyKem::new()));
    let envelope = service.create_key_envelope(&data_key, 1, OwnerType::User, &public_key).expect("envelope");

    assert_eq!(
        decapsulate_envelope(&kem, &envelope, &[0u8; 8]),
        Err(KemBackendError::InvalidPrivateKeyLength { expected: 32, actual: 8 })
    );

    let facade = build_core_facade();
    let (user_public_key, _) = kem.generate_keypair().expect("user keypair");
    let (guardian_public_key, _) = kem.generate_keypair().expect("guardian keypair");
    let package = facade
        .encrypt_package(build_encryption_request(user_public_key, guardian_public_key, b"x".to_vec()), &data_key)
        .expect("package");
    let result = DecryptionService::with_backends(Arc::new(AESGCMCrypto), Arc::new(ToyKem::new()))
        .decrypt_log(&package, DecryptionCaller::new(10, OwnerType::User), &[0u8; 8]);
    assert!(matches!(
        result,
        Err(DecryptionServiceError::Kem(KemBackendError::InvalidPrivateKeyLength { expected: 32, actual: 8 }))
    ));
}

#[test]
fn each_envelope_is_made_for_its_recipients_key() {
    let facade = build_core_facade();
    let kem = ToyKem::new();
    let (user_public_key, user_private_key) = kem.generate_keypair().expect("user keypair");
    let (guardian_public_key, guardian_private_key) = kem.generate_keypair().expect("guardian keypair");
    let data_key = DataKey::new("k", [2u8; 32], current_time(), current_time());
    let package = facade
        .encrypt_package(build_encryption_request(user_public_key, guardian_public_key, b"private".to_vec()), &data_key)
        .expect("package");

    assert!(facade.decrypt_package(&package, DecryptionCaller::new(10, OwnerType::User), &guardian_private_key).is_err());
    assert!(facade.decrypt_package(&package, DecryptionCaller::new(20, OwnerType::Guardian), &user_private_key).is_err());
    assert_eq!(
        facade.decrypt_package(&package, DecryptionCaller::new(10, OwnerType::User), &user_private_key).expect("user"),
        b"private".to_vec()
    );
}

#[test]
fn tampered_package_tag_is_refused() {
    let facade = build_core_facade();
    let kem = ToyKem::new();
    let (user_public_key, user_private_key) = kem.generate_keypair().expect("user keypair");
    let (guardian_public_key, guardian_private_key) = kem.generate_keypair().expect("guardian keypair");
    let data_key = DataKey::new("k", [3u8; 32], current_time(), current_time());
    let mut package = facade
        .encrypt_package(build_encryption_request(user_public_key, guardian_public_key, b"sealed".to_vec()), &data_key)
        .expect("package");
    package.encrypted_data.tag[0] ^= 0xFF;

    for (caller, private_key) in [
        (DecryptionCaller::new(10, OwnerType::User), &user_private_key),
        (DecryptionCaller::new(20, OwnerType::Guardian), &guardian_private_key),
    ] {
        let result = facade.decrypt_package(&package, caller, private_key);
        assert!(matches!(
            result,
            Err(CoreFacadeError::Decryption(DecryptionServiceError::Aead(AeadBackendError::DecryptionFailed)))
        ));
    }
}

#[test]
fn facades_sharing_id_sequences_never_repeat_ids() {
    let log_ids = IdSequence::starting_at_one();
    let envelope_ids = IdSequence::starting_at_one();
    let first = CoreFacade::from_backends_and_ids(
        Arc::new(AESGCMCrypto),
        Arc::new(ToyKem::new()),
        Arc::new(OsSecureRandom),
        log_ids.clone_handle(),
        envelope_ids.clone_handle(),
    );
    let second = CoreFacade::from_backends_and_ids(
        Arc::new(AESGCMCrypto),
        Arc::new(ToyKem::new()),
        Arc::new(OsSecureRandom),
        log_ids,
        envelope_ids,
    );
    let kem = ToyKem::new();
    let (user_public_key, _) = kem.generate_keypair().expect("user keypair");
    let (guardian_public_key, _) = kem.generate_keypair().expect("guardian keypair");
    let data_key = DataKey::new("k", [4u8; 32], current_time(), current_time());

    let a = first
        .encrypt_package(build_encryption_request(user_public_key.clone(), guardian_public_key.clone(), b"a".to_vec()), &data_key)
        .expect("first package");
    let b = second
        .encrypt_package(build_encryption_request(user_public_key, guardian_public_key, b"b".to_vec()), &data_key)
        .expect("second package");

    assert_ne!(a.encrypted_data.encrypted_log_id, b.encrypted_data.encrypted_log_id);
    let ids = [
        a.user_envelope.envelope_id,
        a.guardian_envelope.envelope_id,
        b.user_envelope.envelope_id,
        b.guardian_envelope.envelope_id,
    ];
    for i in 0..ids.len() {
        for j in (i + 1)..ids.len() {
            assert_ne!(ids[i], ids[j]);
        }
    }
}

#[test]
fn a_failed_random_draw_is_reported_with_its_own_error() {
    let at = Timestamp::from_unix_seconds(100);
    let until = Timestamp::from_unix_seconds(200);
    let failed = data_key_from_random_draw(
        "k",
        [5u8; 32],
        Err(SecureRandomError::FillFailed("entropy unavailable".to_string())),
        at,
        until,
    );
    match failed {
        Err(CoreFacadeError::Random(SecureRandomError::FillFailed(message))) => assert_eq!(message, "entropy unavailable"),
        _ => panic!("the draw's error should be passed on"),
    }

    let key = data_key_from_random_draw("k", [5u8; 32], Ok(()), at, until).ok().expect("key");
    assert_eq!(key.key_id, "k");
    assert_eq!(key.key_value, [5u8; 32]);
    assert_eq!(key.created_at, at);
    assert_eq!(key.expires_at, until);
}
