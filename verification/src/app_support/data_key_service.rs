//! One data key per day: reused while the day lasts, created and stored when the day has none.
use vstd::prelude::*;

use std::sync::Arc;

use crate::adapters::os_secure_random::OsSecureRandom;
use crate::app_support::data_key_provider::DataKeyProvider;
use crate::app_support::calendar::civil_from_days_spec;
use crate::app_support::key_schedule::{
    key_schedule_spec, lemma_key_id_for_day_injective, KeySchedule, KeyScheduleError,
};
use crate::app_support::repository::DataKeyRepository;
use crate::crypto::backends::{random_error_message, SecureRandom, SecureRandomError, DATA_KEY_SIZE};
use crate::domain::data_key::{DataKey, DataKeyView};
use crate::domain::timestamp::current_time;
use crate::domain::Timestamp;

verus! {

/// Why no data key could be provided.
#[derive(Debug)]
pub enum DataKeyServiceError {
    /// The key store failed; the text says why.
    Repository(String),
    RandomGenerationFailed(SecureRandomError),
    /// The timestamp lies before the Unix epoch.
    InvalidTimestamp,
    /// The end of the key's day is beyond what the clock can hold.
    TimeCalculationFailed,
}

/// The text of a data key service error.
pub open spec fn data_key_service_error_message(e: DataKeyServiceError) -> Seq<char> {
    match e {
        DataKeyServiceError::Repository(message) => "data key repository error: "@ + message@,
        DataKeyServiceError::RandomGenerationFailed(inner) => "failed to generate a 256-bit data key: "@ + random_error_message(inner),
        DataKeyServiceError::InvalidTimestamp => "timestamp must be on or after Unix epoch"@,
        DataKeyServiceError::TimeCalculationFailed => "failed to calculate key rotation time"@,
    }
}

impl DataKeyServiceError {
    /// The error as a sentence, as the error is displayed.
    pub fn message(&self) -> (s: String)
        ensures
            s@ == data_key_service_error_message(*self),
    {
        match self {
            DataKeyServiceError::Repository(message) => {
                let mut s = String::from_str("data key repository error: ");
                s.append(message.as_str());
                s
            },
            DataKeyServiceError::RandomGenerationFailed(inner) => {
                let mut s = String::from_str("failed to generate a 256-bit data key: ");
                let detail = inner.message();
                s.append(detail.as_str());
                s
            },
            DataKeyServiceError::InvalidTimestamp => String::from_str("timestamp must be on or after Unix epoch"),
            DataKeyServiceError::TimeCalculationFailed => String::from_str("failed to calculate key rotation time"),
        }
    }
}

/// What asking for the data key of `timestamp` does to a key store holding `before`: it gives
/// the key stored under the day's key id, or creates one (stamped `timestamp`, expiring when
/// the day ends) and stores it; it fails without touching the store when the timestamp has
/// no schedule, fails with a store error only when the store may fail, and fails with a
/// random error only when a key had to be created, leaving the store untouched.
pub open spec fn key_request_outcome(
    before: Map<Seq<char>, DataKeyView>,
    timestamp: Timestamp,
    r: Result<DataKey, DataKeyServiceError>,
    after: Map<Seq<char>, DataKeyView>,
    store_never_fails: bool,
) -> bool {
    match key_schedule_spec(timestamp) {
        Err(KeyScheduleError::InvalidTimestamp) => r matches Err(DataKeyServiceError::InvalidTimestamp) && after == before,
        Err(KeyScheduleError::TimeCalculationFailed) => r matches Err(DataKeyServiceError::TimeCalculationFailed) && after == before,
        Ok((key_id, expires)) => match r {
            Ok(key) => {
                &&& key@.key_id == key_id
                &&& if before.contains_key(key_id) {
                    key@ == before[key_id] && after == before
                } else {
                    &&& key@.created_at == timestamp
                    &&& key@.expires_at.seconds() == expires
                    &&& key@.expires_at.nanos() == 0
                    &&& after == before.insert(key_id, key@)
                }
            },
            Err(e) => (e is Repository && !store_never_fails)
                || (e is RandomGenerationFailed && !before.contains_key(key_id) && after == before),
        },
    }
}

/// The day's data key made of the bytes a random draw filled, or the draw's own error,
/// reported as a failed key generation, when the random source failed.
pub fn daily_key_from_random_draw(
    key_id: &str,
    key_value: [u8; DATA_KEY_SIZE],
    draw: Result<(), SecureRandomError>,
    created_at: Timestamp,
    expires_at: Timestamp,
) -> (r: Result<DataKey, DataKeyServiceError>)
    ensures
        match draw {
            Ok(_) => r matches Ok(key)
                && key@ == (DataKeyView { key_id: key_id@, key_value: key_value@, created_at, expires_at }),
            Err(e) => r matches Err(DataKeyServiceError::RandomGenerationFailed(inner)) && inner == e,
        },
{
    match draw {
        Ok(()) => Ok(DataKey::new(key_id, key_value, created_at, expires_at)),
        Err(e) => Err(DataKeyServiceError::RandomGenerationFailed(e)),
    }
}

/// Provides daily data keys from a key store, creating each day's key with a random source.
pub struct DataKeyService<R, S> {
    repository: R,
    secure_random: Arc<S>,
}

impl<R: DataKeyRepository> DataKeyService<R, OsSecureRandom> {
    /// A service over `repository` that draws new keys from the operating system.
    pub fn new(repository: R) -> (s: Self)
        ensures
            s.stored_keys() == repository.stored_data_keys(),
            s.store_never_fails() == repository.never_fails(),
    {
        Self::with_random(repository, Arc::new(OsSecureRandom))
    }
}

impl<R: DataKeyRepository, S: SecureRandom> DataKeyService<R, S> {
    /// The data keys in the service's store.
    pub closed spec fn stored_keys(&self) -> Map<Seq<char>, DataKeyView> {
        self.repository.stored_data_keys()
    }

    /// Whether the service's store never fails.
    pub closed spec fn store_never_fails(&self) -> bool {
        self.repository.never_fails()
    }

    /// A service over `repository` that draws new keys from `secure_random`.
    pub fn with_random(repository: R, secure_random: Arc<S>) -> (s: Self)
        ensures
            s.stored_keys() == repository.stored_data_keys(),
            s.store_never_fails() == repository.never_fails(),
    {
        DataKeyService { repository, secure_random }
    }

    /// The data key of the current day, created and stored when there is none yet.
    pub fn get_or_create_current_key(&mut self) -> (r: Result<DataKey, DataKeyServiceError>)
        ensures
            exists|now: Timestamp| #[trigger] key_request_outcome(old(self).stored_keys(), now, r, final(self).stored_keys(), old(self).store_never_fails()),
            old(self).store_never_fails() ==> !(r matches Err(DataKeyServiceError::Repository(_))) && final(self).store_never_fails(),
    {
        self.get_or_create_key_for(current_time())
    }

    /// The data key of the day containing `timestamp`: the stored key with the day's key id,
    /// or a new random key, stamped `timestamp` and expiring when the day ends, which is
    /// stored before it is returned.
    pub fn get_or_create_key_for(&mut self, timestamp: Timestamp) -> (r: Result<DataKey, DataKeyServiceError>)
        ensures
            key_request_outcome(old(self).stored_keys(), timestamp, r, final(self).stored_keys(), old(self).store_never_fails()),
            old(self).store_never_fails() ==> !(r matches Err(DataKeyServiceError::Repository(_))) && final(self).store_never_fails(),
    {
        let key_schedule = match KeySchedule::from_timestamp(timestamp) {
            Ok(schedule) => schedule,
            Err(KeyScheduleError::InvalidTimestamp) => return Err(DataKeyServiceError::InvalidTimestamp),
            Err(KeyScheduleError::TimeCalculationFailed) => return Err(DataKeyServiceError::TimeCalculationFailed),
        };
        match self.find_existing_key(&key_schedule.key_id) {
            Ok(Some(existing_key)) => return Ok(existing_key),
            Ok(None) => {},
            Err(e) => return Err(e),
        }
        let data_key = self.generate_data_key(key_schedule, timestamp)?;
        match self.repository.store_data_key(&data_key) {
            Ok(()) => Ok(data_key),
            Err(message) => Err(DataKeyServiceError::Repository(message)),
        }
    }

    fn find_existing_key(&self, key_id: &String) -> (r: Result<Option<DataKey>, DataKeyServiceError>)
        ensures
            match r {
                Ok(Some(key)) => self.stored_keys().contains_key(key_id@) && self.stored_keys()[key_id@] == key@
                    && key@.key_id == key_id@,
                Ok(None) => !self.stored_keys().contains_key(key_id@),
                Err(e) => e is Repository && !self.store_never_fails(),
            },
    {
        match self.repository.get_data_key_by_id(key_id.as_str()) {
            Ok(found) => Ok(found),
            Err(message) => Err(DataKeyServiceError::Repository(message)),
        }
    }

    fn generate_data_key(&self, key_schedule: KeySchedule, created_at: Timestamp) -> (r: Result<DataKey, DataKeyServiceError>)
        ensures
            match r {
                Ok(key) => key@.key_id == key_schedule.key_id@ && key@.created_at == created_at
                    && key@.expires_at == key_schedule.expires_at,
                Err(e) => e is RandomGenerationFailed,
            },
    {
        let mut key_value = [0u8; 32];
        let draw = self.secure_random.fill_bytes(&mut key_value);
        daily_key_from_random_draw(key_schedule.key_id.as_str(), key_value, draw, created_at, key_schedule.expires_at)
    }
}

impl<R: DataKeyRepository, S: SecureRandom> DataKeyProvider for DataKeyService<R, S> {
    /// The outcome `key_request_outcome` describes, on the service's store; a store that never
    /// fails keeps never failing.
    open spec fn answers(&self, timestamp: Timestamp, r: Result<DataKey, DataKeyServiceError>, after: Self) -> bool {
        &&& key_request_outcome(self.stored_keys(), timestamp, r, after.stored_keys(), self.store_never_fails())
        &&& self.store_never_fails() ==> after.store_never_fails()
    }

    fn get_or_create_current_key(&mut self) -> (r: Result<DataKey, DataKeyServiceError>) {
        let r = DataKeyService::get_or_create_current_key(self);
        proof {
            let now = choose|now: Timestamp| #[trigger] key_request_outcome(old(self).stored_keys(), now, r,
                self.stored_keys(), old(self).store_never_fails());
            assert(old(self).answers(now, r, *self));
        }
        r
    }

    fn get_or_create_key_for(&mut self, timestamp: Timestamp) -> (r: Result<DataKey, DataKeyServiceError>) {
        DataKeyService::get_or_create_key_for(self, timestamp)
    }
}

/// Two requests on the same day give the same data key, and the second leaves the store as
/// the first left it.
pub proof fn lemma_same_day_reuses_key<R: DataKeyRepository, S: SecureRandom>(
    before: DataKeyService<R, S>,
    first_time: Timestamp,
    first: DataKey,
    between: DataKeyService<R, S>,
    second_time: Timestamp,
    second: DataKey,
    after: DataKeyService<R, S>,
)
    requires
        before.answers(first_time, Ok(first), between),
        between.answers(second_time, Ok(second), after),
        first_time.seconds() / 86400 == second_time.seconds() / 86400,
    ensures
        second@ == first@,
        after.stored_keys() == between.stored_keys(),
{
}

/// Requests on different days give data keys with different key ids (for days whose year
/// fits in an `i32`).
pub proof fn lemma_new_day_rotates_key<R: DataKeyRepository, S: SecureRandom>(
    before: DataKeyService<R, S>,
    first_time: Timestamp,
    first: DataKey,
    between: DataKeyService<R, S>,
    second_time: Timestamp,
    second: DataKey,
    after: DataKeyService<R, S>,
)
    requires
        before.answers(first_time, Ok(first), between),
        between.answers(second_time, Ok(second), after),
        first_time.seconds() / 86400 != second_time.seconds() / 86400,
        civil_from_days_spec(first_time.seconds() / 86400).0 <= i32::MAX,
        civil_from_days_spec(second_time.seconds() / 86400).0 <= i32::MAX,
    ensures
        first@.key_id != second@.key_id,
{
    lemma_key_id_for_day_injective(first_time.seconds() / 86400, second_time.seconds() / 86400);
}

} // verus!
