use std::sync::atomic::{AtomicU8, Ordering};

use crypto_core::adapters::factory::build_encryption_service;
use crypto_core::app_support::data_key_service::{DataKeyService, DataKeyServiceError};
use crypto_core::app_support::provider_backed_encryption_service::{
    ProviderBackedEncryptionService, ProviderBackedEncryptionServiceError,
};
use crypto_core::app_support::repository::InMemoryDataKeyRepository;
use crypto_core::crypto::backends::{KemBackend, KemBackendError, KemEncapsulation};
use crypto_core::domain::timestamp::Timestamp;
use crypto_core::service::encryption_service::EncryptionRequest;

/// A toy KEM for exercising the services: the private key equals the public key, the
/// ciphertext is the shared secret masked with the key. It has no security at all.
struct ToyKem {
    next_key: AtomicU8,
}

impl ToyKem {
    fn new() -> Self {
        ToyKem { next_key: AtomicU8::new(1) }
    }
}

fn mask(left: &[u8], right: &[u8]) -> Vec<u8> {
    left.iter().zip(right.iter()).map(|(a, b)| a ^ b).collect()
}

impl KemBackend for ToyKem {
    fn algorithm_name(&self) -> &'static str {
        "TOY-KEM"
    }

    fn generate_keypair(&self) -> Result<(Vec<u8>, Vec<u8>), KemBackendError> {
        let seed = self.next_key.fetch_add(1, Ordering::SeqCst);
        let key: Vec<u8> = (0..32u8).map(|i| i.wrapping_mul(5) ^ seed).collect();
        Ok((key.clone(), key))
    }

    fn encapsulate(&self, public_key: &[u8]) -> Result<KemEncapsulation, KemBackendError> {
        if public_key.len() != 32 {
            return Err(KemBackendError::InvalidPublicKeyLength { expected: 32, actual: public_key.len() });
        }
        let shared_secret: Vec<u8> = (0..32u8).map(|i| i.wrapping_mul(11).wrapping_add(3)).collect();
        Ok(KemEncapsulation::new(mask(&shared_secret, public_key), shared_secret))
    }

    fn decapsulate(&self, ciphertext: &[u8], private_key: &[u8]) -> Result<Vec<u8>, KemBackendError> {
        if private_key.len() != 32 || ciphertext.len() != 32 {
            return Err(KemBackendError::OperationFailed("bad input".to_string()));
        }
        Ok(mask(ciphertext, private_key))
    }
}

fn build_request() -> EncryptionRequest {
    let kem = ToyKem::new();
    let (user_public_key, _) = kem.generate_keypair().expect("user keypair should be created");
    let (guardian_public_key, _) = kem.generate_keypair().expect("guardian keypair should be created");
    EncryptionRequest::new(b"log payload".to_vec(), 100, user_public_key, 200, guardian_public_key)
}

#[test]
fn reuses_daily_key_for_same_day_encryptions() {
    let repository = InMemoryDataKeyRepository::default();
    let data_key_service = DataKeyService::new(repository);
    let encryption_service =
        build_encryption_service(Ok(ToyKem::new())).ok().expect("core encryption service should initialize");
    let mut service = ProviderBackedEncryptionService::new(encryption_service, data_key_service);
    let first_timestamp = Timestamp::from_unix_seconds(86_400 * 40 + 10);
    let second_timestamp = Timestamp::from_unix_seconds(86_400 * 40 + 300);

    let first_package = service
        .encrypt_log_at(build_request(), first_timestamp)
        .ok()
        .expect("first encryption should succeed");
    let second_package = service
        .encrypt_log_at(build_request(), second_timestamp)
        .ok()
        .expect("same-day encryption should reuse key");

    assert_eq!(first_package.encrypted_data.key_id, second_package.encrypted_data.key_id);
    assert_eq!(first_package.user_envelope.key_id, second_package.user_envelope.key_id);
    assert_eq!(first_package.guardian_envelope.key_id, second_package.guardian_envelope.key_id);
}

#[test]
fn next_day_encryption_uses_the_next_days_key() {
    let repository = InMemoryDataKeyRepository::default();
    let data_key_service = DataKeyService::new(repository);
    let encryption_service = build_encryption_service(Ok(ToyKem::new())).ok().expect("service");
    let mut service = ProviderBackedEncryptionService::new(encryption_service, data_key_service);

    let first = service
        .encrypt_log_at(build_request(), Timestamp::from_unix_seconds(10))
        .ok()
        .expect("first encryption");
    let second = service
        .encrypt_log_at(build_request(), Timestamp::from_unix_seconds(86_400 + 10))
        .ok()
        .expect("second encryption");

    assert_eq!(first.encrypted_data.key_id, "datakey-1970-01-01");
    assert_eq!(second.encrypted_data.key_id, "datakey-1970-01-02");
    assert_eq!(second.encrypted_data.created_at, Timestamp::from_unix_seconds(86_400 + 10));
}

#[test]
fn failed_kem_setup_fails_the_service() {
    let result = build_encryption_service::<ToyKem>(Err(KemBackendError::OperationFailed("no kem".to_string())));
    assert!(matches!(result, Err(KemBackendError::OperationFailed(message)) if message == "no kem"));
}

#[test]
fn provider_failure_is_the_services_failure() {
    let data_key_service = DataKeyService::new(InMemoryDataKeyRepository::default());
    let encryption_service = build_encryption_service(Ok(ToyKem::new())).ok().expect("service");
    let mut service = ProviderBackedEncryptionService::new(encryption_service, data_key_service);

    let result = service.encrypt_log_at(build_request(), Timestamp::before_epoch(1, 0));
    assert!(matches!(
        result,
        Err(ProviderBackedEncryptionServiceError::DataKey(DataKeyServiceError::InvalidTimestamp))
    ));
}
