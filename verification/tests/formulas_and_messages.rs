use crypto_core::app_support::calendar::civil_from_days;
use crypto_core::app_support::data_key_service::DataKeyServiceError;
use crypto_core::app_support::key_schedule::{format_key_id, key_id_for_timestamp, KeySchedule, KeyScheduleError};
use crypto_core::crypto::backends::{AeadBackendError, KemBackendError, SecureRandomError};
use crypto_core::crypto::key_wrap::{unwrap_data_key, wrap_data_key, KeyWrapError};
use crypto_core::domain::key_envelope::OwnerType;
use crypto_core::domain::timestamp::{current_time, Timestamp};
use crypto_core::service::decryption_service::DecryptionServiceError;

#[test]
fn civil_dates_of_known_days() {
    assert_eq!(civil_from_days(0), (1970, 1, 1));
    assert_eq!(civil_from_days(-1), (1969, 12, 31));
    assert_eq!(civil_from_days(11_016), (2000, 2, 29));
    assert_eq!(civil_from_days(19_797), (2024, 3, 15));
    assert_eq!(civil_from_days(-719_468), (0, 3, 1));
}

#[test]
fn key_ids_are_zero_padded_dates() {
    assert_eq!(format_key_id(2026, 3, 16), "datakey-2026-03-16");
    assert_eq!(format_key_id(5, 1, 2), "datakey-0005-01-02");
    assert_eq!(format_key_id(-5, 1, 2), "datakey--005-01-02");
    assert_eq!(format_key_id(12345, 12, 31), "datakey-12345-12-31");
}

#[test]
fn key_id_of_a_timestamp_is_that_of_its_day() {
    assert_eq!(key_id_for_timestamp(Timestamp::from_unix_seconds(1_773_662_400)), "datakey-2026-03-16");
    assert_eq!(key_id_for_timestamp(Timestamp::from_unix_seconds(86_399)), "datakey-1970-01-01");
    assert_eq!(key_id_for_timestamp(Timestamp::from_unix_seconds(86_400)), "datakey-1970-01-02");
    assert_eq!(key_id_for_timestamp(Timestamp::before_epoch(10, 0)), "datakey-1970-01-01");
}

#[test]
fn key_schedule_ends_at_the_next_midnight() {
    let schedule = KeySchedule::from_timestamp(Timestamp::after_epoch(86_400 * 3 + 5, 7)).ok().expect("schedule");
    assert_eq!(schedule.key_id, "datakey-1970-01-04");
    assert_eq!(schedule.expires_at, Timestamp::from_unix_seconds(86_400 * 4));
}

#[test]
fn key_schedule_refuses_times_before_the_epoch_and_beyond_the_clock() {
    assert!(matches!(
        KeySchedule::from_timestamp(Timestamp::before_epoch(1, 0)),
        Err(KeyScheduleError::InvalidTimestamp)
    ));
    assert!(matches!(
        KeySchedule::from_timestamp(Timestamp::from_unix_seconds(9_223_372_036_854_775_000)),
        Err(KeyScheduleError::TimeCalculationFailed)
    ));
}

#[test]
fn current_time_is_after_2020() {
    assert!(current_time() > Timestamp::from_unix_seconds(1_577_836_800));
}

#[test]
fn error_messages_read_as_displayed() {
    assert_eq!(AeadBackendError::EncryptionFailed.message(), "AEAD encryption failed");
    assert_eq!(
        AeadBackendError::DecryptionFailed.message(),
        "AEAD decryption failed or authentication tag is invalid"
    );
    assert_eq!(
        KemBackendError::OperationFailed("boom".to_string()).message(),
        "KEM operation failed: boom"
    );
    assert_eq!(
        KemBackendError::InvalidPublicKeyLength { expected: 1568, actual: 3 }.message(),
        "invalid KEM public key length: expected 1568 bytes, got 3"
    );
    assert_eq!(
        KemBackendError::InvalidPrivateKeyLength { expected: 3168, actual: 0 }.message(),
        "invalid KEM private key length: expected 3168 bytes, got 0"
    );
    assert_eq!(
        KemBackendError::InvalidCiphertextLength { expected: 1568, actual: 12 }.message(),
        "invalid KEM ciphertext length: expected 1568 bytes, got 12"
    );
    assert_eq!(
        SecureRandomError::FillFailed("no entropy".to_string()).message(),
        "failed to generate secure random bytes: no entropy"
    );
    assert_eq!(
        KeyWrapError::InvalidWrappedKeyLength { expected: 32, actual: 31 }.message(),
        "invalid wrapped data key length: expected 32 bytes, got 31"
    );
    assert_eq!(
        KeyWrapError::InvalidSharedSecretLength { expected: 32, actual: 16 }.message(),
        "invalid shared secret length: expected 32 bytes, got 16"
    );
    assert_eq!(
        DecryptionServiceError::EnvelopeNotFound { owner_id: 42, owner_type: OwnerType::Guardian }.message(),
        "no key envelope found for owner_id=42 and owner_type=Guardian"
    );
    assert_eq!(
        DecryptionServiceError::KeyIdMismatch.message(),
        "key envelope does not match encrypted log key id"
    );
    assert_eq!(
        DataKeyServiceError::Repository("down".to_string()).message(),
        "data key repository error: down"
    );
    assert_eq!(
        DataKeyServiceError::InvalidTimestamp.message(),
        "timestamp must be on or after Unix epoch"
    );
    assert_eq!(
        DataKeyServiceError::TimeCalculationFailed.message(),
        "failed to calculate key rotation time"
    );
    assert_eq!(
        DataKeyServiceError::RandomGenerationFailed(SecureRandomError::FillFailed("x".to_string())).message(),
        "failed to generate a 256-bit data key: failed to generate secure random bytes: x"
    );
}

#[test]
fn wrapped_key_unwraps_to_the_data_key() {
    let data_key = [0x5au8; 32];
    let shared_secret: Vec<u8> = (0..40u8).collect();

    let wrapped = wrap_data_key(&data_key, &shared_secret).expect("wrap");
    assert_eq!(wrapped.len(), 32);
    assert_eq!(wrapped[1], 0x5a ^ 1);
    assert_eq!(unwrap_data_key(&wrapped, &shared_secret).expect("unwrap"), data_key);
}

#[test]
fn key_wrap_refuses_short_inputs() {
    let data_key = [1u8; 32];
    assert_eq!(
        wrap_data_key(&data_key, &[0u8; 31]),
        Err(KeyWrapError::InvalidSharedSecretLength { expected: 32, actual: 31 })
    );
    assert_eq!(
        unwrap_data_key(&[0u8; 31], &[0u8; 32]),
        Err(KeyWrapError::InvalidWrappedKeyLength { expected: 32, actual: 31 })
    );
    assert_eq!(
        unwrap_data_key(&[0u8; 32], &[0u8; 8]),
        Err(KeyWrapError::InvalidSharedSecretLength { expected: 32, actual: 8 })
    );
}
