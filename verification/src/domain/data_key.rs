//! The symmetric key that seals log payloads.
use vstd::prelude::*;

use crate::crypto::backends::DATA_KEY_SIZE;
use crate::domain::Timestamp;

verus! {

/// A 256-bit data key with its identifier and validity period.
#[derive(Debug)]
pub struct DataKey {
    pub key_id: String,
    pub key_value: [u8; DATA_KEY_SIZE],
    pub created_at: Timestamp,
    pub expires_at: Timestamp,
}

/// The contents of a data key.
pub struct DataKeyView {
    pub key_id: Seq<char>,
    pub key_value: Seq<u8>,
    pub created_at: Timestamp,
    pub expires_at: Timestamp,
}

impl View for DataKey {
    type V = DataKeyView;

    open spec fn view(&self) -> DataKeyView {
        DataKeyView {
            key_id: self.key_id@,
            key_value: self.key_value@,
            created_at: self.created_at,
            expires_at: self.expires_at,
        }
    }
}

impl DataKey {
    pub fn new(key_id: &str, key_value: [u8; DATA_KEY_SIZE], created_at: Timestamp, expires_at: Timestamp) -> (k: Self)
        ensures
            k@ == (DataKeyView { key_id: key_id@, key_value: key_value@, created_at, expires_at }),
    {
        DataKey { key_id: key_id.to_owned(), key_value, created_at, expires_at }
    }
}

impl Clone for DataKey {
    fn clone(&self) -> (c: Self)
        ensures
            c@ == self@,
    {
        let c = DataKey { key_id: self.key_id.clone(), key_value: self.key_value, created_at: self.created_at, expires_at: self.expires_at };
        proof {
            assert(c@ =~= self@);
        }
        c
    }
}

} // verus!
