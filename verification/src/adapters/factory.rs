//! The default backends put together: AES-256-GCM, the given KEM, and the operating
//! system's random source.
use vstd::prelude::*;

use std::sync::Arc;

use crate::adapters::aes_gcm_crypto::AESGCMCrypto;
use crate::adapters::os_secure_random::OsSecureRandom;
use crate::core_facade::CoreFacade;
use crate::crypto::backends::{KemBackend, KemBackendError};
use crate::service::encryption_service::EncryptionService;
use crate::service::id_sequence::IdSequence;
use crate::service::key_management_service::KeyManagementService;

verus! {

/// The facade over the default backends, given the outcome of setting up the KEM; a KEM
/// that could not be set up is the facade's failure.
pub fn build_core_facade<K: KemBackend>(kem_backend: Result<K, KemBackendError>) -> (r: Result<CoreFacade<AESGCMCrypto, K, OsSecureRandom>, KemBackendError>)
    ensures
        match kem_backend {
            Ok(kem) => r matches Ok(facade) && {
                &&& facade.encryption().aead() == AESGCMCrypto
                &&& facade.encryption().kem() == kem
                &&& facade.decryption().aead() == AESGCMCrypto
                &&& facade.decryption().kem() == kem
                &&& facade.key_management().kem() == kem
                &&& facade.sharing().kem() == kem
                &&& facade.encryption().envelope_counter() == facade.key_management().envelope_counter()
                &&& facade.sharing().envelope_counter() == facade.key_management().envelope_counter()
            },
            Err(e) => r == Err::<CoreFacade<AESGCMCrypto, K, OsSecureRandom>, KemBackendError>(e),
        },
{
    build_core_facade_with_ids(kem_backend, IdSequence::starting_at_one(), IdSequence::starting_at_one())
}

/// The facade of `build_core_facade`, taking its log ids from `log_ids` and its envelope ids
/// from `envelope_ids`, so that ids are not repeated across everything sharing them.
pub fn build_core_facade_with_ids<K: KemBackend>(
    kem_backend: Result<K, KemBackendError>,
    log_ids: IdSequence,
    envelope_ids: IdSequence,
) -> (r: Result<CoreFacade<AESGCMCrypto, K, OsSecureRandom>, KemBackendError>)
    ensures
        match kem_backend {
            Ok(kem) => r matches Ok(facade) && {
                &&& facade.encryption().aead() == AESGCMCrypto
                &&& facade.encryption().kem() == kem
                &&& facade.decryption().aead() == AESGCMCrypto
                &&& facade.decryption().kem() == kem
                &&& facade.key_management().kem() == kem
                &&& facade.sharing().kem() == kem
                &&& facade.encryption().envelope_counter() == envelope_ids.shared_counter()
                &&& facade.key_management().envelope_counter() == envelope_ids.shared_counter()
                &&& facade.sharing().envelope_counter() == envelope_ids.shared_counter()
                &&& facade.encryption().log_counter() == log_ids.shared_counter()
            },
            Err(e) => r == Err::<CoreFacade<AESGCMCrypto, K, OsSecureRandom>, KemBackendError>(e),
        },
{
    let kem_backend = match kem_backend {
        Ok(kem) => Arc::new(kem),
        Err(e) => return Err(e),
    };
    Ok(CoreFacade::from_backends_and_ids(Arc::new(AESGCMCrypto), kem_backend, Arc::new(OsSecureRandom), log_ids, envelope_ids))
}

/// An encryption service over the default backends, given the outcome of setting up the
/// KEM; a KEM that could not be set up is the service's failure.
pub fn build_encryption_service<K: KemBackend>(kem_backend: Result<K, KemBackendError>) -> (r: Result<EncryptionService<AESGCMCrypto, OsSecureRandom, K>, KemBackendError>)
    ensures
        match kem_backend {
            Ok(kem) => r matches Ok(service) && service.aead() == AESGCMCrypto && service.kem() == kem,
            Err(e) => r == Err::<EncryptionService<AESGCMCrypto, OsSecureRandom, K>, KemBackendError>(e),
        },
{
    build_encryption_service_with_ids(kem_backend, IdSequence::starting_at_one(), IdSequence::starting_at_one())
}

/// The service of `build_encryption_service`, taking its log ids from `log_ids` and its
/// envelope ids from `envelope_ids`, so that ids are not repeated across everything sharing
/// them.
pub fn build_encryption_service_with_ids<K: KemBackend>(
    kem_backend: Result<K, KemBackendError>,
    log_ids: IdSequence,
    envelope_ids: IdSequence,
) -> (r: Result<EncryptionService<AESGCMCrypto, OsSecureRandom, K>, KemBackendError>)
    ensures
        match kem_backend {
            Ok(kem) => r matches Ok(service) && service.aead() == AESGCMCrypto && service.kem() == kem
                && service.envelope_counter() == envelope_ids.shared_counter()
                && service.log_counter() == log_ids.shared_counter(),
            Err(e) => r == Err::<EncryptionService<AESGCMCrypto, OsSecureRandom, K>, KemBackendError>(e),
        },
{
    let kem_backend = match kem_backend {
        Ok(kem) => Arc::new(kem),
        Err(e) => return Err(e),
    };
    let key_management_service = KeyManagementService::with_envelope_ids(kem_backend, envelope_ids);
    Ok(EncryptionService::with_log_ids(Arc::new(AESGCMCrypto), Arc::new(OsSecureRandom), key_management_service, log_ids))
}

} // verus!
