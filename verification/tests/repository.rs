use crypto_core::app_support::key_schedule::key_id_for_timestamp;
use crypto_core::app_support::repository::{
    DataKeyRepository, EncryptedLogRepository, InMemoryDataKeyRepository,
    InMemoryEncryptedLogRepository, InMemoryKeyEnvelopeRepository, InMemoryKeyRepository,
    KeyEnvelopeRepository, KeyRepository,
};
use crypto_core::domain::data_key::DataKey;
use crypto_core::domain::encrypted_log::EncryptedLogData;
use crypto_core::domain::key_envelope::{KeyEnvelope, OwnerType};
use crypto_core::domain::timestamp::{current_time, Timestamp};

#[test]
fn stores_and_retrieves_encrypted_log_by_id() {
    let mut repository = InMemoryEncryptedLogRepository::default();
    let encrypted_log = EncryptedLogData::new(
        1,
        42,
        vec![1, 2, 3],
        [4u8; 12],
        [5u8; 16],
        "datakey-2026-03-16",
        current_time(),
    );

    repository
        .store_encrypted_log(&encrypted_log)
        .expect("encrypted log should be stored");
    let retrieved = repository
        .get_encrypted_log_by_id(1)
        .expect("encrypted log should be retrieved")
        .expect("encrypted log should exist");

    assert_eq!(retrieved.encrypted_log_id, 1);
    assert_eq!(retrieved.user_id, 42);
    assert_eq!(retrieved.key_id, "datakey-2026-03-16");
}

fn sample_envelope(envelope_id: u64, key_id: &str, owner_id: u64) -> KeyEnvelope {
    KeyEnvelope::new(
        envelope_id,
        key_id,
        owner_id,
        OwnerType::Guardian,
        vec![1, 2, 3],
        vec![4; 32],
    )
}

#[test]
fn retrieves_envelopes_by_key_id_and_owner_id() {
    let mut repository = InMemoryKeyEnvelopeRepository::default();

    repository
        .store_key_envelope(&sample_envelope(1, "datakey-1", 10))
        .expect("first envelope should be stored");
    repository
        .store_key_envelope(&sample_envelope(2, "datakey-1", 20))
        .expect("second envelope should be stored");
    repository
        .store_key_envelope(&sample_envelope(3, "datakey-2", 10))
        .expect("third envelope should be stored");

    let by_key = repository
        .get_envelopes_by_key_id("datakey-1")
        .expect("envelopes should be retrieved by key_id");
    let by_owner = repository
        .get_envelopes_by_owner_id(10)
        .expect("envelopes should be retrieved by owner_id");

    assert_eq!(by_key.len(), 2);
    assert_eq!(by_owner.len(), 2);
}

#[test]
fn stores_and_retrieves_data_key_by_id() {
    let mut repository = InMemoryDataKeyRepository::default();
    let data_key = DataKey::new(
        "datakey-2026-03-16",
        [9u8; 32],
        current_time(),
        current_time(),
    );

    repository
        .store_data_key(&data_key)
        .expect("data key should be stored");
    let retrieved = repository
        .get_data_key_by_id("datakey-2026-03-16")
        .expect("data key should be retrieved")
        .expect("data key should exist");

    assert_eq!(retrieved.key_id, "datakey-2026-03-16");
    assert_eq!(retrieved.key_value, [9u8; 32]);
}

#[test]
fn retrieves_todays_data_key() {
    let mut repository = InMemoryDataKeyRepository::default();
    let todays_key_id = key_id_for_timestamp(current_time());
    let data_key = DataKey::new(
        todays_key_id.as_str(),
        [3u8; 32],
        current_time(),
        current_time(),
    );

    repository
        .store_data_key(&data_key)
        .expect("today's data key should be stored");
    let retrieved = repository
        .get_todays_data_key()
        .expect("today's data key should be retrieved")
        .expect("today's data key should exist");

    assert_eq!(retrieved.key_id, todays_key_id);
    assert_eq!(retrieved.key_value, [3u8; 32]);
}

#[test]
fn stores_and_retrieves_public_key() {
    let mut repository = InMemoryKeyRepository::default();

    repository
        .store_public_key(7, OwnerType::Guardian, vec![1, 2, 3, 4])
        .expect("public key should be stored");
    let retrieved = repository
        .get_public_key(7, OwnerType::Guardian)
        .expect("public key should be retrieved")
        .expect("public key should exist");

    assert_eq!(retrieved, vec![1, 2, 3, 4]);
}

#[test]
fn public_keys_are_kept_apart_by_owner_type() {
    let mut repository = InMemoryKeyRepository::default();

    repository.store_public_key(7, OwnerType::Guardian, vec![1]).expect("stored");
    repository.store_public_key(7, OwnerType::User, vec![2]).expect("stored");

    assert_eq!(repository.get_public_key(7, OwnerType::Guardian).unwrap(), Some(vec![1]));
    assert_eq!(repository.get_public_key(7, OwnerType::User).unwrap(), Some(vec![2]));
    assert_eq!(repository.get_public_key(8, OwnerType::User).unwrap(), None);
}

#[test]
fn a_later_data_key_with_the_same_id_replaces_the_earlier() {
    let mut repository = InMemoryDataKeyRepository::default();
    let t = Timestamp::from_unix_seconds(0);

    repository.store_data_key(&DataKey::new("k", [1u8; 32], t, t)).expect("stored");
    repository.store_data_key(&DataKey::new("k", [2u8; 32], t, t)).expect("stored");

    let retrieved = repository.get_data_key_by_id("k").unwrap().expect("key should exist");
    assert_eq!(retrieved.key_value, [2u8; 32]);
    assert!(repository.get_data_key_by_id("missing").unwrap().is_none());
}

#[test]
fn unknown_encrypted_log_is_absent() {
    let repository = InMemoryEncryptedLogRepository::default();
    assert!(repository.get_encrypted_log_by_id(5).unwrap().is_none());
}
