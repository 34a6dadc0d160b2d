//! The per-recipient carrier that lets a user or a guardian recover a data key.
use vstd::prelude::*;

verus! {

/// Who an envelope is for.
#[derive(Debug, Clone, Copy, PartialEq, Eq, Hash, Structural)]
pub enum OwnerType {
    User,
    Guardian,
}

/// A data key wrapped for one recipient: the KEM ciphertext for the recipient's public key
/// and the data key wrapped under the KEM shared secret.
#[derive(Debug)]
pub struct KeyEnvelope {
    pub envelope_id: u64,
    /// The data key this envelope carries.
    pub key_id: String,
    /// The recipient.
    pub owner_id: u64,
    pub owner_type: OwnerType,
    /// What the KEM encapsulation produced for the recipient.
    pub kem_ciphertext: Vec<u8>,
    /// The data key wrapped under the KEM shared secret.
    pub encapsulated_key: Vec<u8>,
}

/// The contents of an envelope.
pub struct KeyEnvelopeView {
    pub envelope_id: u64,
    pub key_id: Seq<char>,
    pub owner_id: u64,
    pub owner_type: OwnerType,
    pub kem_ciphertext: Seq<u8>,
    pub encapsulated_key: Seq<u8>,
}

impl View for KeyEnvelope {
    type V = KeyEnvelopeView;

    open spec fn view(&self) -> KeyEnvelopeView {
        KeyEnvelopeView {
            envelope_id: self.envelope_id,
            key_id: self.key_id@,
            owner_id: self.owner_id,
            owner_type: self.owner_type,
            kem_ciphertext: self.kem_ciphertext@,
            encapsulated_key: self.encapsulated_key@,
        }
    }
}

impl KeyEnvelope {
    pub fn new(
        envelope_id: u64,
        key_id: &str,
        owner_id: u64,
        owner_type: OwnerType,
        kem_ciphertext: Vec<u8>,
        encapsulated_key: Vec<u8>,
    ) -> (e: Self)
        ensures
            e@ == (KeyEnvelopeView {
                envelope_id,
                key_id: key_id@,
                owner_id,
                owner_type,
                kem_ciphertext: kem_ciphertext@,
                encapsulated_key: encapsulated_key@,
            }),
    {
        KeyEnvelope {
            envelope_id,
            key_id: key_id.to_owned(),
            owner_id,
            owner_type,
            kem_ciphertext,
            encapsulated_key,
        }
    }
}

impl Clone for KeyEnvelope {
    fn clone(&self) -> (c: Self)
        ensures
            c@ == self@,
    {
        let c = KeyEnvelope {
            envelope_id: self.envelope_id,
            key_id: self.key_id.clone(),
            owner_id: self.owner_id,
            owner_type: self.owner_type,
            kem_ciphertext: self.kem_ciphertext.clone(),
            encapsulated_key: self.encapsulated_key.clone(),
        };
        proof {
            assert(c@ =~= self@);
        }
        c
    }
}

} // verus!
