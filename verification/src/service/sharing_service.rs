//! Giving one more recipient access to an existing data key.
use std::sync::atomic::AtomicU64;
use vstd::prelude::*;

use crate::crypto::backends::KemBackend;
use crate::domain::data_key::DataKey;
use crate::domain::key_envelope::{KeyEnvelope, OwnerType};
use crate::service::key_management_service::{
    carries_data_key, envelope_creation_failure, key_management_error_message, KeyManagementService,
    KeyManagementServiceError,
};

verus! {

/// Why sharing failed.
#[derive(Debug)]
pub enum SharingServiceError {
    KeyManagement(KeyManagementServiceError),
}

/// The text of a sharing error: that of the failure inside it.
pub open spec fn sharing_error_message(e: SharingServiceError) -> Seq<char> {
    match e {
        SharingServiceError::KeyManagement(inner) => key_management_error_message(inner),
    }
}

impl SharingServiceError {
    /// The error as a sentence, as the error is displayed.
    pub fn message(&self) -> (s: String)
        ensures
            s@ == sharing_error_message(*self),
    {
        match self {
            SharingServiceError::KeyManagement(inner) => inner.message(),
        }
    }
}

/// Creates envelopes for additional recipients of a data key.
pub struct SharingService<K> {
    key_management_service: KeyManagementService<K>,
}

impl<K: KemBackend> SharingService<K> {
    /// The KEM this service wraps data keys with.
    pub closed spec fn kem(&self) -> K {
        self.key_management_service.kem()
    }

    /// The counter the envelopes this service creates take their ids from.
    pub closed spec fn envelope_counter(&self) -> AtomicU64 {
        self.key_management_service.envelope_counter()
    }

    pub fn with_key_management_service(key_management_service: KeyManagementService<K>) -> (s: Self)
        ensures
            s.kem() == key_management_service.kem(),
            s.envelope_counter() == key_management_service.envelope_counter(),
    {
        SharingService { key_management_service }
    }

    /// A new envelope carrying an existing `data_key` to one more recipient.
    pub fn create_additional_recipient_envelope(
        &self,
        data_key: &DataKey,
        owner_id: u64,
        owner_type: OwnerType,
        public_key: &[u8],
    ) -> (r: Result<KeyEnvelope, SharingServiceError>)
        ensures
            match r {
                Ok(envelope) => carries_data_key(self.kem(), envelope@, data_key@, owner_id, owner_type, public_key@),
                Err(SharingServiceError::KeyManagement(e)) => envelope_creation_failure(e),
            },
    {
        match self.key_management_service.create_key_envelope(data_key, owner_id, owner_type, public_key) {
            Ok(envelope) => Ok(envelope),
            Err(e) => Err(SharingServiceError::KeyManagement(e)),
        }
    }
}

} // verus!
