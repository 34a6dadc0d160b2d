use std::sync::atomic::{AtomicU8, Ordering};
use std::sync::Arc;

use crypto_core::adapters::aes_gcm_crypto::AESGCMCrypto;
use crypto_core::adapters::os_secure_random::OsSecureRandom;
use crypto_core::core_facade::CoreFacade;
use crypto_core::crypto::backends::{KemBackend, KemBackendError, KemEncapsulation};
use crypto_core::ffi::error::{
    copy_last_error_message, fail_with_message, last_error_message_length, settle_ffi_call,
    FfiErrorCode, FfiErrorInfo, LastErrorMessage,
};
use crypto_core::ffi::handle::FfiFacadeHandle;
use crypto_core::ffi::requests::{
    handle_create_additional_recipient_envelope, handle_create_key_envelope, handle_decrypt_package,
    handle_encrypt_package, handle_facade_free, handle_facade_new_default, handle_generate_data_key,
    handle_generate_mlkem_keypair, handle_open_key_envelope,
};
use crypto_core::ffi::types::{
    borrowed_bytes_as_string, FfiBorrowedBytes, FfiCreateAdditionalRecipientEnvelopeRequest, FfiCreateKeyEnvelopeRequest,
    FfiDataKeyInput, FfiDecryptPackageRequest, FfiEncryptPackageRequest, FfiOpenKeyEnvelopeRequest,
    FfiOwnerType, FfiTimestamp,
};
use crypto_core::domain::data_key::DataKey;
use crypto_core::domain::key_envelope::{KeyEnvelope, OwnerType};
use crypto_core::domain::timestamp::Timestamp;
use crypto_core::ffi::wire::{crypto_package_from_wire, crypto_package_to_wire, key_envelope_from_wire, key_envelope_to_wire};
use crypto_core::service::encryption_service::EncryptionRequest;

/// A toy KEM for exercising the interface: the private key equals the public key, the
/// ciphertext is the shared secret masked with the key. It has no security at all.
struct ToyKem {
    next_key: AtomicU8,
}

impl ToyKem {
    fn new() -> Self {
        ToyKem { next_key: AtomicU8::new(1) }
    }
}

fn mask(left: &[u8], right: &[u8]) -> Vec<u8> {
    left.iter().zip(right.iter()).map(|(a, b)| a ^ b).collect()
}

impl KemBackend for ToyKem {
    fn algorithm_name(&self) -> &'static str {
        "TOY-KEM"
    }

    fn generate_keypair(&self) -> Result<(Vec<u8>, Vec<u8>), KemBackendError> {
        let seed = self.next_key.fetch_add(1, Ordering::SeqCst);
        let key: Vec<u8> = (0..32u8).map(|i| i.wrapping_mul(3) ^ seed).collect();
        Ok((key.clone(), key))
    }

    fn encapsulate(&self, public_key: &[u8]) -> Result<KemEncapsulation, KemBackendError> {
        if public_key.len() != 32 {
            return Err(KemBackendError::InvalidPublicKeyLength { expected: 32, actual: public_key.len() });
        }
        let shared_secret: Vec<u8> = (0..32u8).map(|i| i.wrapping_mul(29).wrapping_add(1)).collect();
        Ok(KemEncapsulation::new(mask(&shared_secret, public_key), shared_secret))
    }

    fn decapsulate(&self, ciphertext: &[u8], private_key: &[u8]) -> Result<Vec<u8>, KemBackendError> {
        if private_key.len() != 32 {
            return Err(KemBackendError::InvalidPrivateKeyLength { expected: 32, actual: private_key.len() });
        }
        if ciphertext.len() != 32 {
            return Err(KemBackendError::InvalidCiphertextLength { expected: 32, actual: ciphertext.len() });
        }
        Ok(mask(ciphertext, private_key))
    }
}

type Handle = FfiFacadeHandle<AESGCMCrypto, ToyKem, OsSecureRandom>;

fn new_handle() -> Handle {
    let facade = CoreFacade::from_backends(Arc::new(AESGCMCrypto), Arc::new(ToyKem::new()), Arc::new(OsSecureRandom));
    handle_facade_new_default(false, Ok(facade)).ok().expect("handle should be created")
}

/// Reports a call's outcome as the interface does: a refusal records its message, success
/// clears the last error.
fn settle<T>(slot: &mut LastErrorMessage, outcome: Result<T, FfiErrorInfo>) -> (FfiErrorCode, Option<T>) {
    match outcome {
        Ok(value) => (settle_ffi_call(slot, Some(FfiErrorCode::Success)), Some(value)),
        Err(info) => {
            let code = fail_with_message(slot, info.code, info.message);
            (settle_ffi_call(slot, Some(code)), None)
        }
    }
}

fn sample_bytes(value: &[u8]) -> FfiBorrowedBytes<'_> {
    FfiBorrowedBytes { data: Some(value), len: value.len() }
}

fn null_bytes(len: usize) -> FfiBorrowedBytes<'static> {
    FfiBorrowedBytes { data: None, len }
}

fn sample_data_key_input(key_id: &[u8], key_value: [u8; 32]) -> FfiDataKeyInput<'_> {
    FfiDataKeyInput {
        key_id: sample_bytes(key_id),
        key_value,
        created_at: FfiTimestamp { unix_seconds: 1_700_000_000 },
        expires_at: FfiTimestamp { unix_seconds: 1_700_086_400 },
    }
}

fn read_last_error_message(slot: &LastErrorMessage) -> String {
    let length = last_error_message_length(slot);
    if length == 0 {
        return String::new();
    }
    let mut buffer = vec![0u8; length + 1];
    let code = copy_last_error_message(slot, false, &mut buffer);
    assert_eq!(code, FfiErrorCode::Success);
    String::from_utf8(buffer[..length].to_vec()).expect("last error should be valid UTF-8")
}

#[test]
fn creates_and_frees_facade_handle() {
    let mut slot = LastErrorMessage::empty();
    let facade = CoreFacade::from_backends(Arc::new(AESGCMCrypto), Arc::new(ToyKem::new()), Arc::new(OsSecureRandom));

    let (create_code, handle) = settle(&mut slot, handle_facade_new_default(false, Ok(facade)));
    assert_eq!(create_code, FfiErrorCode::Success);
    assert!(handle.is_some());

    let (free_code, _) = settle(&mut slot, handle_facade_free(false));
    assert_eq!(free_code, FfiErrorCode::Success);
}

#[test]
fn generate_data_key_returns_buffer() {
    let mut slot = LastErrorMessage::empty();
    let handle = new_handle();

    let key_id = b"ffi-key-1";
    let (code, output) = settle(
        &mut slot,
        handle_generate_data_key(Some(&handle), sample_bytes(key_id), 1_700_000_000, 1_700_086_400, false),
    );

    assert_eq!(code, FfiErrorCode::Success);
    assert_eq!(output.expect("key bytes").len(), 32);
    assert_eq!(last_error_message_length(&slot), 0);
}

#[test]
fn generate_mlkem_keypair_returns_json_buffer() {
    let mut slot = LastErrorMessage::empty();
    let handle = new_handle();

    let (code, output) = settle(&mut slot, handle_generate_mlkem_keypair(Some(&handle), false));

    assert_eq!(code, FfiErrorCode::Success);
    let pair = output.expect("keypair");
    assert_eq!(pair.algorithm, "ML-KEM-1024");
    assert!(pair.public_key.len() > 0);
    assert!(pair.private_key.len() > 0);
    assert_eq!(last_error_message_length(&slot), 0);
}

#[test]
fn encrypt_and_decrypt_package_round_trip_succeeds() {
    let mut slot = LastErrorMessage::empty();
    let handle = new_handle();
    let kem = ToyKem::new();
    let (user_public_key, user_private_key) = kem.generate_keypair().expect("user keypair should work");
    let (guardian_public_key, _) = kem.generate_keypair().expect("guardian keypair should work");
    let key_id = b"ffi-key-2";
    let plaintext = b"ffi decrypt payload";
    let encrypt_request = FfiEncryptPackageRequest {
        plaintext: sample_bytes(plaintext),
        user_id: 10,
        user_public_key: sample_bytes(&user_public_key),
        guardian_id: 20,
        guardian_public_key: sample_bytes(&guardian_public_key),
        data_key: sample_data_key_input(key_id, [9u8; 32]),
    };

    let (encrypt_code, package) = settle(&mut slot, handle_encrypt_package(Some(&handle), Some(encrypt_request), false));
    assert_eq!(encrypt_code, FfiErrorCode::Success);
    let wire = crypto_package_to_wire(&package.expect("package"));
    assert_eq!(wire.encrypted_data.key_id, "ffi-key-2");
    assert_eq!(wire.user_envelope.owner_type, "USER");
    assert_eq!(wire.guardian_envelope.owner_type, "GUARDIAN");

    let package_json = b"{\"package\":\"as JSON\"}";
    let decrypt_request = FfiDecryptPackageRequest {
        package: sample_bytes(package_json),
        caller_id: 10,
        caller_type: FfiOwnerType::User,
        private_key: sample_bytes(&user_private_key),
    };
    let (decrypt_code, decrypted) =
        settle(&mut slot, handle_decrypt_package(Some(&handle), Some(decrypt_request), false, Some(wire)));
    assert_eq!(decrypt_code, FfiErrorCode::Success);
    assert_eq!(decrypted.expect("plaintext"), plaintext.to_vec());
    assert_eq!(last_error_message_length(&slot), 0);
}

#[test]
fn create_and_open_key_envelope_round_trip_succeeds() {
    let mut slot = LastErrorMessage::empty();
    let handle = new_handle();
    let kem = ToyKem::new();
    let (user_public_key, user_private_key) = kem.generate_keypair().expect("user keypair should work");
    let key_value = [7u8; 32];
    let create_request = FfiCreateKeyEnvelopeRequest {
        data_key: sample_data_key_input(b"ffi-envelope-key", key_value),
        owner_id: 42,
        owner_type: FfiOwnerType::User,
        public_key: sample_bytes(&user_public_key),
    };

    let (create_code, envelope) = settle(&mut slot, handle_create_key_envelope(Some(&handle), Some(create_request), false));
    assert_eq!(create_code, FfiErrorCode::Success);
    let wire = key_envelope_to_wire(&envelope.expect("envelope"));
    assert_eq!(wire.owner_id, 42);
    assert_eq!(wire.key_id, "ffi-envelope-key");

    let open_request = FfiOpenKeyEnvelopeRequest {
        envelope: sample_bytes(b"{\"envelope\":1}"),
        caller_id: 42,
        caller_type: FfiOwnerType::User,
        private_key: sample_bytes(&user_private_key),
    };
    let (open_code, data_key) = settle(&mut slot, handle_open_key_envelope(Some(&handle), Some(open_request), false, Some(wire)));
    assert_eq!(open_code, FfiErrorCode::Success);
    assert_eq!(data_key.expect("data key"), key_value.to_vec());
    assert_eq!(last_error_message_length(&slot), 0);
}

#[test]
fn create_additional_recipient_envelope_and_open_with_new_recipient_succeeds() {
    let mut slot = LastErrorMessage::empty();
    let handle = new_handle();
    let kem = ToyKem::new();
    let (source_public_key, source_private_key) = kem.generate_keypair().expect("source keypair should work");
    let (new_public_key, new_private_key) = kem.generate_keypair().expect("new keypair should work");
    let key_value = [11u8; 32];
    let create_request = FfiCreateKeyEnvelopeRequest {
        data_key: sample_data_key_input(b"ffi-share-key", key_value),
        owner_id: 7,
        owner_type: FfiOwnerType::User,
        public_key: sample_bytes(&source_public_key),
    };
    let (create_code, source_envelope) = settle(&mut slot, handle_create_key_envelope(Some(&handle), Some(create_request), false));
    assert_eq!(create_code, FfiErrorCode::Success);
    let source_wire = key_envelope_to_wire(&source_envelope.expect("source envelope"));

    let additional_request = FfiCreateAdditionalRecipientEnvelopeRequest {
        source_envelope: sample_bytes(b"{\"source\":1}"),
        current_owner_id: 7,
        current_owner_type: FfiOwnerType::User,
        current_private_key: sample_bytes(&source_private_key),
        new_owner_id: 88,
        new_owner_type: FfiOwnerType::Guardian,
        new_public_key: sample_bytes(&new_public_key),
    };
    let (additional_code, additional) = settle(
        &mut slot,
        handle_create_additional_recipient_envelope(Some(&handle), Some(additional_request), false, Some(source_wire)),
    );
    assert_eq!(additional_code, FfiErrorCode::Success);
    let additional_wire = key_envelope_to_wire(&additional.expect("additional envelope"));
    assert_eq!(additional_wire.owner_id, 88);
    assert_eq!(additional_wire.owner_type, "GUARDIAN");
    assert_eq!(additional_wire.key_id, "ffi-share-key");

    let open_request = FfiOpenKeyEnvelopeRequest {
        envelope: sample_bytes(b"{\"envelope\":2}"),
        caller_id: 88,
        caller_type: FfiOwnerType::Guardian,
        private_key: sample_bytes(&new_private_key),
    };
    let (open_code, data_key) = settle(&mut slot, handle_open_key_envelope(Some(&handle), Some(open_request), false, Some(additional_wire)));
    assert_eq!(open_code, FfiErrorCode::Success);
    assert_eq!(data_key.expect("data key"), key_value.to_vec());
    assert_eq!(last_error_message_length(&slot), 0);
}

#[test]
fn invalid_handle_failure_records_last_error_message() {
    let mut slot = LastErrorMessage::empty();
    let public_key = [1u8; 4];
    let request = FfiCreateKeyEnvelopeRequest {
        data_key: sample_data_key_input(b"ffi-invalid-handle", [3u8; 32]),
        owner_id: 1,
        owner_type: FfiOwnerType::User,
        public_key: sample_bytes(&public_key),
    };

    let (code, _) = settle(&mut slot, handle_create_key_envelope::<AESGCMCrypto, ToyKem, OsSecureRandom>(None, Some(request), false));
    assert_eq!(code, FfiErrorCode::InvalidHandle);
    assert_eq!(read_last_error_message(&slot), "invalid handle");
}

#[test]
fn malformed_inputs_record_last_error_message() {
    let mut slot = LastErrorMessage::empty();
    let handle = new_handle();
    let private_key = [1u8; 4];
    let request = FfiOpenKeyEnvelopeRequest {
        envelope: sample_bytes(b"{not-valid-json"),
        caller_id: 10,
        caller_type: FfiOwnerType::User,
        private_key: sample_bytes(&private_key),
    };

    let (code, _) = settle(&mut slot, handle_open_key_envelope(Some(&handle), Some(request), false, None));
    assert_eq!(code, FfiErrorCode::InvalidArgument);
    assert_eq!(read_last_error_message(&slot), "malformed KeyEnvelope JSON");
}

#[test]
fn successful_call_clears_last_error_message() {
    let mut slot = LastErrorMessage::empty();
    let public_key = [1u8; 4];
    let request = FfiCreateKeyEnvelopeRequest {
        data_key: sample_data_key_input(b"ffi-invalid-handle-2", [4u8; 32]),
        owner_id: 1,
        owner_type: FfiOwnerType::User,
        public_key: sample_bytes(&public_key),
    };
    let (error_code, _) = settle(&mut slot, handle_create_key_envelope::<AESGCMCrypto, ToyKem, OsSecureRandom>(None, Some(request), false));
    assert_eq!(error_code, FfiErrorCode::InvalidHandle);
    assert!(last_error_message_length(&slot) > 0);

    let facade = CoreFacade::from_backends(Arc::new(AESGCMCrypto), Arc::new(ToyKem::new()), Arc::new(OsSecureRandom));
    let (success_code, _) = settle(&mut slot, handle_facade_new_default(false, Ok(facade)));
    assert_eq!(success_code, FfiErrorCode::Success);
    assert_eq!(last_error_message_length(&slot), 0);
}

#[test]
fn last_error_message_copy_validates_buffer_rules() {
    let mut slot = LastErrorMessage::empty();
    let public_key = [1u8; 4];
    let request = FfiCreateKeyEnvelopeRequest {
        data_key: sample_data_key_input(b"ffi-invalid-handle-3", [5u8; 32]),
        owner_id: 1,
        owner_type: FfiOwnerType::User,
        public_key: sample_bytes(&public_key),
    };
    let (code, _) = settle(&mut slot, handle_create_key_envelope::<AESGCMCrypto, ToyKem, OsSecureRandom>(None, Some(request), false));
    assert_eq!(code, FfiErrorCode::InvalidHandle);

    let null_copy_code = copy_last_error_message(&slot, true, &mut []);
    assert_eq!(null_copy_code, FfiErrorCode::NullPointer);

    let mut too_small = [0u8; 4];
    let short_copy_code = copy_last_error_message(&slot, false, &mut too_small);
    assert_eq!(short_copy_code, FfiErrorCode::InvalidLength);

    assert_eq!(read_last_error_message(&slot), "invalid handle");
}

#[test]
fn envelope_functions_with_null_or_invalid_length_input_fail() {
    let mut slot = LastErrorMessage::empty();
    let handle = new_handle();

    let create_request = FfiCreateKeyEnvelopeRequest {
        data_key: sample_data_key_input(b"ffi-invalid-len", [5u8; 32]),
        owner_id: 1,
        owner_type: FfiOwnerType::User,
        public_key: null_bytes(3),
    };
    let (create_code, _) = settle(&mut slot, handle_create_key_envelope(Some(&handle), Some(create_request), false));
    assert_eq!(create_code, FfiErrorCode::NullPointer);

    let private_key = [1u8; 4];
    let open_request = FfiOpenKeyEnvelopeRequest {
        envelope: sample_bytes(b"{}"),
        caller_id: 1,
        caller_type: FfiOwnerType::User,
        private_key: FfiBorrowedBytes { data: Some(&private_key[..0]), len: 0 },
    };
    let (open_code, _) = settle(&mut slot, handle_open_key_envelope(Some(&handle), Some(open_request), false, None));
    assert_eq!(open_code, FfiErrorCode::InvalidLength);

    let additional_request = FfiCreateAdditionalRecipientEnvelopeRequest {
        source_envelope: sample_bytes(b"{}"),
        current_owner_id: 1,
        current_owner_type: FfiOwnerType::User,
        current_private_key: sample_bytes(&private_key),
        new_owner_id: 2,
        new_owner_type: FfiOwnerType::Guardian,
        new_public_key: FfiBorrowedBytes { data: Some(&private_key[..0]), len: 0 },
    };
    let (additional_code, _) = settle(
        &mut slot,
        handle_create_additional_recipient_envelope(Some(&handle), Some(additional_request), false, None),
    );
    assert_eq!(additional_code, FfiErrorCode::InvalidLength);
}

#[test]
fn decrypt_package_with_invalid_handle_fails() {
    let mut slot = LastErrorMessage::empty();
    let package_bytes = b"{}";
    let private_key = [1u8; 4];
    let request = FfiDecryptPackageRequest {
        package: sample_bytes(package_bytes),
        caller_id: 10,
        caller_type: FfiOwnerType::User,
        private_key: sample_bytes(&private_key),
    };

    let (code, _) = settle(&mut slot, handle_decrypt_package::<AESGCMCrypto, ToyKem, OsSecureRandom>(None, Some(request), false, None));

    assert_eq!(code, FfiErrorCode::InvalidHandle);
}

#[test]
fn decrypt_package_with_null_or_invalid_length_input_fails() {
    let mut slot = LastErrorMessage::empty();
    let handle = new_handle();
    let private_key = [1u8; 4];
    let request_with_null_package = FfiDecryptPackageRequest {
        package: null_bytes(3),
        caller_id: 10,
        caller_type: FfiOwnerType::User,
        private_key: sample_bytes(&private_key),
    };

    let (null_code, _) = settle(&mut slot, handle_decrypt_package(Some(&handle), Some(request_with_null_package), false, None));
    assert_eq!(null_code, FfiErrorCode::NullPointer);

    let request_with_empty_private_key = FfiDecryptPackageRequest {
        package: sample_bytes(b"{}"),
        caller_id: 10,
        caller_type: FfiOwnerType::User,
        private_key: FfiBorrowedBytes { data: Some(&private_key[..0]), len: 0 },
    };
    let (length_code, _) = settle(&mut slot, handle_decrypt_package(Some(&handle), Some(request_with_empty_private_key), false, None));
    assert_eq!(length_code, FfiErrorCode::InvalidLength);
}

#[test]
fn decrypt_package_with_malformed_package_bytes_fails() {
    let mut slot = LastErrorMessage::empty();
    let handle = new_handle();
    let private_key = [1u8; 4];
    let request = FfiDecryptPackageRequest {
        package: sample_bytes(b"{not-valid-json"),
        caller_id: 10,
        caller_type: FfiOwnerType::User,
        private_key: sample_bytes(&private_key),
    };

    let (code, _) = settle(&mut slot, handle_decrypt_package(Some(&handle), Some(request), false, None));
    assert_eq!(code, FfiErrorCode::InvalidArgument);
    assert_eq!(read_last_error_message(&slot), "malformed CryptoPackage JSON");
}

#[test]
fn borrowed_bytes_are_read_as_text_or_refused() {
    assert_eq!(borrowed_bytes_as_string(sample_bytes("clé-1".as_bytes())), Ok("clé-1".to_string()));
    assert_eq!(borrowed_bytes_as_string(null_bytes(0)), Ok(String::new()));
    assert_eq!(borrowed_bytes_as_string(null_bytes(2)), Err(FfiErrorCode::NullPointer));
    assert_eq!(borrowed_bytes_as_string(sample_bytes(&[0xff, 0xfe])), Err(FfiErrorCode::InvalidUtf8));
}

#[test]
fn generated_data_keys_are_random() {
    let handle = new_handle();
    let first = handle_generate_data_key(Some(&handle), sample_bytes(b"k"), 1, 2, false).ok().expect("first");
    let second = handle_generate_data_key(Some(&handle), sample_bytes(b"k"), 1, 2, false).ok().expect("second");
    assert_ne!(first, vec![0u8; 32]);
    assert_ne!(first, second);
}

#[test]
fn data_key_argument_errors_name_the_data_key() {
    let mut slot = LastErrorMessage::empty();
    let handle = new_handle();

    let (code, _) = settle(&mut slot, handle_generate_data_key(Some(&handle), null_bytes(4), 1, 2, false));
    assert_eq!(code, FfiErrorCode::NullPointer);
    assert_eq!(read_last_error_message(&slot), "null data key id pointer");

    let (code, _) = settle(&mut slot, handle_generate_data_key(Some(&handle), sample_bytes(&[0xc3]), 1, 2, false));
    assert_eq!(code, FfiErrorCode::InvalidUtf8);
    assert_eq!(read_last_error_message(&slot), "invalid UTF-8 in data key id");

    let (code, _) = settle(&mut slot, handle_generate_data_key(Some(&handle), sample_bytes(b"k"), u64::MAX, 2, false));
    assert_eq!(code, FfiErrorCode::Panic);
    assert_eq!(read_last_error_message(&slot), "panic in ffi boundary");

    let (code, _) = settle(&mut slot, handle_generate_data_key(Some(&handle), sample_bytes(b"k"), 1, 2, true));
    assert_eq!(code, FfiErrorCode::NullPointer);
    assert_eq!(read_last_error_message(&slot), "null output buffer");
}

#[test]
fn envelope_of_another_owner_is_refused() {
    let mut slot = LastErrorMessage::empty();
    let handle = new_handle();
    let kem = ToyKem::new();
    let (public_key, private_key) = kem.generate_keypair().expect("keypair");
    let create_request = FfiCreateKeyEnvelopeRequest {
        data_key: sample_data_key_input(b"owned", [6u8; 32]),
        owner_id: 5,
        owner_type: FfiOwnerType::Guardian,
        public_key: sample_bytes(&public_key),
    };
    let envelope = handle_create_key_envelope(Some(&handle), Some(create_request), false).ok().expect("envelope");
    let wire = key_envelope_to_wire(&envelope);

    let open_request = FfiOpenKeyEnvelopeRequest {
        envelope: sample_bytes(b"{...}"),
        caller_id: 5,
        caller_type: FfiOwnerType::User,
        private_key: sample_bytes(&private_key),
    };
    let (code, _) = settle(&mut slot, handle_open_key_envelope(Some(&handle), Some(open_request), false, Some(wire.clone())));
    assert_eq!(code, FfiErrorCode::InvalidArgument);
    assert_eq!(read_last_error_message(&slot), "envelope owner metadata mismatch");

    let mut unknown_owner = wire;
    unknown_owner.owner_type = "ADMIN".to_string();
    let open_request = FfiOpenKeyEnvelopeRequest {
        envelope: sample_bytes(b"{...}"),
        caller_id: 5,
        caller_type: FfiOwnerType::Guardian,
        private_key: sample_bytes(&private_key),
    };
    let (code, _) = settle(&mut slot, handle_open_key_envelope(Some(&handle), Some(open_request), false, Some(unknown_owner)));
    assert_eq!(code, FfiErrorCode::InvalidArgument);
    assert_eq!(read_last_error_message(&slot), "malformed KeyEnvelope JSON");
}

#[test]
fn wrong_private_key_is_a_crypto_error() {
    let mut slot = LastErrorMessage::empty();
    let handle = new_handle();
    let kem = ToyKem::new();
    let (public_key, _) = kem.generate_keypair().expect("keypair");
    let create_request = FfiCreateKeyEnvelopeRequest {
        data_key: sample_data_key_input(b"k", [6u8; 32]),
        owner_id: 5,
        owner_type: FfiOwnerType::User,
        public_key: sample_bytes(&public_key),
    };
    let envelope = handle_create_key_envelope(Some(&handle), Some(create_request), false).ok().expect("envelope");
    let short_key = [1u8; 8];
    let open_request = FfiOpenKeyEnvelopeRequest {
        envelope: sample_bytes(b"{...}"),
        caller_id: 5,
        caller_type: FfiOwnerType::User,
        private_key: sample_bytes(&short_key),
    };
    let (code, _) = settle(
        &mut slot,
        handle_open_key_envelope(Some(&handle), Some(open_request), false, Some(key_envelope_to_wire(&envelope))),
    );
    assert_eq!(code, FfiErrorCode::CryptoError);
    assert_eq!(read_last_error_message(&slot), "crypto operation failed while opening key envelope");
}

#[test]
fn failed_facade_setup_is_an_internal_error() {
    let mut slot = LastErrorMessage::empty();
    let (code, _) = settle(
        &mut slot,
        handle_facade_new_default::<AESGCMCrypto, ToyKem, OsSecureRandom>(false, Err(KemBackendError::OperationFailed("no kem".to_string()))),
    );
    assert_eq!(code, FfiErrorCode::InternalError);
    assert_eq!(read_last_error_message(&slot), "failed to build default CoreFacade: KEM operation failed: no kem");

    let (code, _) = settle(&mut slot, handle_facade_free(true));
    assert_eq!(code, FfiErrorCode::InvalidHandle);
    assert_eq!(read_last_error_message(&slot), "invalid handle");
}

#[test]
fn status_codes_travel_as_their_numbers() {
    assert_eq!(FfiErrorCode::Success.number(), 0);
    assert_eq!(FfiErrorCode::InvalidUtf8.number(), 5);
    assert_eq!(FfiErrorCode::CryptoError.number(), 100);
    assert_eq!(FfiErrorCode::Panic.number(), 1001);
}

#[test]
fn a_panic_is_reported_with_its_own_message() {
    let mut slot = LastErrorMessage::empty();
    assert_eq!(settle_ffi_call(&mut slot, None), FfiErrorCode::Panic);
    assert_eq!(read_last_error_message(&slot), "panic in ffi boundary");
}

#[test]
fn envelope_survives_its_wire_form() {
    let envelope = KeyEnvelope::new(7, "datakey-2026-03-16", 42, OwnerType::Guardian, vec![1, 2, 3], vec![9; 32]);
    let wire = key_envelope_to_wire(&envelope);
    assert_eq!(wire.owner_type, "GUARDIAN");

    let back = key_envelope_from_wire(wire).expect("envelope");
    assert_eq!(back.envelope_id, 7);
    assert_eq!(back.key_id, "datakey-2026-03-16");
    assert_eq!(back.owner_id, 42);
    assert_eq!(back.owner_type, OwnerType::Guardian);
    assert_eq!(back.kem_ciphertext, vec![1, 2, 3]);
    assert_eq!(back.encapsulated_key, vec![9; 32]);
}

#[test]
fn package_survives_its_wire_form_in_whole_seconds() {
    let kem = ToyKem::new();
    let (user_public_key, user_private_key) = kem.generate_keypair().expect("user keypair");
    let (guardian_public_key, guardian_private_key) = kem.generate_keypair().expect("guardian keypair");
    let facade = CoreFacade::from_backends(Arc::new(AESGCMCrypto), Arc::new(ToyKem::new()), Arc::new(OsSecureRandom));
    let stamped = Timestamp::after_epoch(1_700_000_000, 123);
    let data_key = DataKey::new("datakey-w", [8u8; 32], stamped, stamped);
    let request = EncryptionRequest::new(b"over the wire".to_vec(), 10, user_public_key, 20, guardian_public_key);
    let package = facade.encrypt_package_at(request, &data_key, stamped).ok().expect("package");

    let wire = crypto_package_to_wire(&package);
    assert_eq!(wire.encrypted_data.created_at_unix_seconds, 1_700_000_000);
    let back = crypto_package_from_wire(wire).expect("package from wire");
    assert_eq!(back.encrypted_data.created_at, Timestamp::from_unix_seconds(1_700_000_000));
    assert_eq!(back.encrypted_data.ciphertext, package.encrypted_data.ciphertext);

    let handle = new_handle();
    for (caller_id, caller_type, private_key) in [
        (10, FfiOwnerType::User, &user_private_key),
        (20, FfiOwnerType::Guardian, &guardian_private_key),
    ] {
        let request = FfiDecryptPackageRequest {
            package: sample_bytes(b"{...}"),
            caller_id,
            caller_type,
            private_key: sample_bytes(private_key),
        };
        let plaintext = handle_decrypt_package(Some(&handle), Some(request), false, Some(crypto_package_to_wire(&package)))
            .ok()
            .expect("plaintext");
        assert_eq!(plaintext, b"over the wire".to_vec());
    }
}

#[test]
fn package_stamped_before_the_epoch_travels_as_the_epoch() {
    let kem = ToyKem::new();
    let (user_public_key, _) = kem.generate_keypair().expect("user keypair");
    let (guardian_public_key, _) = kem.generate_keypair().expect("guardian keypair");
    let facade = CoreFacade::from_backends(Arc::new(AESGCMCrypto), Arc::new(ToyKem::new()), Arc::new(OsSecureRandom));
    let stamped = Timestamp::before_epoch(5, 0);
    let data_key = DataKey::new("datakey-old", [8u8; 32], stamped, stamped);
    let request = EncryptionRequest::new(b"old".to_vec(), 10, user_public_key, 20, guardian_public_key);
    let package = facade.encrypt_package_at(request, &data_key, stamped).ok().expect("package");

    assert_eq!(crypto_package_to_wire(&package).encrypted_data.created_at_unix_seconds, 0);
}

#[test]
fn package_from_wire_refuses_unknown_owner_and_times_beyond_the_clock() {
    let envelope = |owner_type: &str| crypto_core::ffi::wire::KeyEnvelopeWire {
        envelope_id: 1,
        key_id: "k".to_string(),
        owner_id: 1,
        owner_type: owner_type.to_string(),
        kem_ciphertext: vec![],
        encapsulated_key: vec![],
    };
    let data = |seconds: u64| crypto_core::ffi::wire::EncryptedLogDataWire {
        encrypted_log_id: 1,
        user_id: 1,
        ciphertext: vec![],
        iv: [0; 12],
        tag: [0; 16],
        key_id: "k".to_string(),
        created_at_unix_seconds: seconds,
    };
    let unknown = crypto_core::ffi::wire::CryptoPackageWire {
        encrypted_data: data(1),
        user_envelope: envelope("USER"),
        guardian_envelope: envelope("guardian"),
    };
    assert_eq!(crypto_package_from_wire(unknown).err(), Some(FfiErrorCode::InvalidArgument));
    let too_late = crypto_core::ffi::wire::CryptoPackageWire {
        encrypted_data: data(u64::MAX),
        user_envelope: envelope("USER"),
        guardian_envelope: envelope("GUARDIAN"),
    };
    assert_eq!(crypto_package_from_wire(too_late).err(), Some(FfiErrorCode::Panic));
}
