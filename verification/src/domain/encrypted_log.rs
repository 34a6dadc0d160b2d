//! A log payload sealed with a data key.
use vstd::prelude::*;

use crate::crypto::backends::{NONCE_SIZE, TAG_SIZE};
use crate::domain::Timestamp;

verus! {

/// A sealed log payload: the ciphertext with its nonce and tag, and which data key sealed it.
#[derive(Debug)]
pub struct EncryptedLogData {
    pub encrypted_log_id: u64,
    pub user_id: u64,
    pub ciphertext: Vec<u8>,
    pub iv: [u8; NONCE_SIZE],
    pub tag: [u8; TAG_SIZE],
    pub key_id: String,
    pub created_at: Timestamp,
}

/// The contents of a sealed log payload.
pub struct EncryptedLogDataView {
    pub encrypted_log_id: u64,
    pub user_id: u64,
    pub ciphertext: Seq<u8>,
    pub iv: Seq<u8>,
    pub tag: Seq<u8>,
    pub key_id: Seq<char>,
    pub created_at: Timestamp,
}

impl View for EncryptedLogData {
    type V = EncryptedLogDataView;

    open spec fn view(&self) -> EncryptedLogDataView {
        EncryptedLogDataView {
            encrypted_log_id: self.encrypted_log_id,
            user_id: self.user_id,
            ciphertext: self.ciphertext@,
            iv: self.iv@,
            tag: self.tag@,
            key_id: self.key_id@,
            created_at: self.created_at,
        }
    }
}

impl EncryptedLogData {
    pub fn new(
        encrypted_log_id: u64,
        user_id: u64,
        ciphertext: Vec<u8>,
        iv: [u8; NONCE_SIZE],
        tag: [u8; TAG_SIZE],
        key_id: &str,
        created_at: Timestamp,
    ) -> (d: Self)
        ensures
            d@ == (EncryptedLogDataView {
                encrypted_log_id,
                user_id,
                ciphertext: ciphertext@,
                iv: iv@,
                tag: tag@,
                key_id: key_id@,
                created_at,
            }),
    {
        EncryptedLogData { encrypted_log_id, user_id, ciphertext, iv, tag, key_id: key_id.to_owned(), created_at }
    }
}

impl Clone for EncryptedLogData {
    fn clone(&self) -> (c: Self)
        ensures
            c@ == self@,
    {
        let c = EncryptedLogData {
            encrypted_log_id: self.encrypted_log_id,
            user_id: self.user_id,
            ciphertext: self.ciphertext.clone(),
            iv: self.iv,
            tag: self.tag,
            key_id: self.key_id.clone(),
            created_at: self.created_at,
        };
        proof {
            assert(c@ =~= self@);
        }
        c
    }
}

} // verus!
