use crypto_core::app_support::data_key_service::{daily_key_from_random_draw, DataKeyService, DataKeyServiceError};
use crypto_core::app_support::key_schedule::SECONDS_PER_DAY;
use crypto_core::app_support::repository::InMemoryDataKeyRepository;
use crypto_core::crypto::backends::SecureRandomError;
use crypto_core::domain::timestamp::Timestamp;

#[test]
fn reuses_existing_key_for_same_day() {
    let repository = InMemoryDataKeyRepository::default();
    let mut service = DataKeyService::new(repository);
    let first_timestamp = Timestamp::from_unix_seconds(SECONDS_PER_DAY * 20 + 10);
    let second_timestamp = Timestamp::from_unix_seconds(SECONDS_PER_DAY * 20 + 60);

    let first_key = service
        .get_or_create_key_for(first_timestamp)
        .expect("first key should be created");
    let second_key = service
        .get_or_create_key_for(second_timestamp)
        .expect("same day key should be reused");

    assert_eq!(first_key.key_id, second_key.key_id);
    assert_eq!(first_key.key_value, second_key.key_value);
    assert_eq!(first_key.expires_at, second_key.expires_at);
}

#[test]
fn rotates_key_when_day_changes() {
    let repository = InMemoryDataKeyRepository::default();
    let mut service = DataKeyService::new(repository);
    let first_timestamp = Timestamp::from_unix_seconds(SECONDS_PER_DAY * 30 + 10);
    let second_timestamp = Timestamp::from_unix_seconds(SECONDS_PER_DAY * 31 + 10);

    let first_key = service
        .get_or_create_key_for(first_timestamp)
        .expect("first day key should be created");
    let second_key = service
        .get_or_create_key_for(second_timestamp)
        .expect("next day key should be rotated");

    assert_ne!(first_key.key_id, second_key.key_id);
    assert_ne!(first_key.key_value, second_key.key_value);
    assert!(second_key.created_at > first_key.created_at);
}

#[test]
fn key_of_a_day_is_named_by_its_date_and_expires_at_next_midnight() {
    let repository = InMemoryDataKeyRepository::default();
    let mut service = DataKeyService::new(repository);
    // 2026-03-16 12:00:00 UTC
    let timestamp = Timestamp::from_unix_seconds(1_773_662_400);

    let key = service.get_or_create_key_for(timestamp).expect("key should be created");

    assert_eq!(key.key_id, "datakey-2026-03-16");
    assert_eq!(key.created_at, timestamp);
    assert_eq!(key.expires_at, Timestamp::from_unix_seconds(1_773_705_600));
}

#[test]
fn earlier_days_key_is_found_again_after_rotation() {
    let repository = InMemoryDataKeyRepository::default();
    let mut service = DataKeyService::new(repository);

    service.get_or_create_key_for(Timestamp::from_unix_seconds(10)).expect("first key");
    service.get_or_create_key_for(Timestamp::from_unix_seconds(20)).expect("same day");
    service
        .get_or_create_key_for(Timestamp::from_unix_seconds(SECONDS_PER_DAY + 5))
        .expect("next day");

    let first = service
        .get_or_create_key_for(Timestamp::from_unix_seconds(30))
        .expect("first day again");
    assert_eq!(first.key_id, "datakey-1970-01-01");
}

#[test]
fn a_failed_random_draw_is_reported_as_failed_key_generation() {
    let at = Timestamp::from_unix_seconds(SECONDS_PER_DAY * 3);
    let until = Timestamp::from_unix_seconds(SECONDS_PER_DAY * 4);
    let failed = daily_key_from_random_draw(
        "datakey-1970-01-04",
        [6u8; 32],
        Err(SecureRandomError::FillFailed("no entropy".to_string())),
        at,
        until,
    );
    match failed {
        Err(DataKeyServiceError::RandomGenerationFailed(SecureRandomError::FillFailed(message))) => {
            assert_eq!(message, "no entropy")
        }
        _ => panic!("the draw's error should be passed on"),
    }

    let key = daily_key_from_random_draw("datakey-1970-01-04", [6u8; 32], Ok(()), at, until)
        .ok()
        .expect("key");
    assert_eq!(key.key_id, "datakey-1970-01-04");
    assert_eq!(key.key_value, [6u8; 32]);
    assert_eq!(key.expires_at, until);
}
