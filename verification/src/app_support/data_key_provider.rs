//! What gives the encryption side its data keys.
use vstd::prelude::*;

use crate::app_support::data_key_service::DataKeyServiceError;
use crate::domain::data_key::DataKey;
use crate::domain::Timestamp;

verus! {

/// A source of data keys: the key for now, or the key for a given moment, created when it
/// does not exist yet.
pub trait DataKeyProvider: Sized {
    /// Whether asking this provider for the data key of `timestamp` may give `r` and leave
    /// the provider as `after`.
    spec fn answers(&self, timestamp: Timestamp, r: Result<DataKey, DataKeyServiceError>, after: Self) -> bool;

    /// The data key of the moment the clock is read.
    fn get_or_create_current_key(&mut self) -> (r: Result<DataKey, DataKeyServiceError>)
        ensures
            exists|now: Timestamp| #[trigger] old(self).answers(now, r, *final(self)),
    ;

    /// The data key of `timestamp`.
    fn get_or_create_key_for(&mut self, timestamp: Timestamp) -> (r: Result<DataKey, DataKeyServiceError>)
        ensures
            old(self).answers(timestamp, r, *final(self)),
    ;
}

} // verus!
