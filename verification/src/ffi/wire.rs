//! Packages and envelopes as plain values, in the shape they travel in as JSON: owner types
//! as `"USER"` / `"GUARDIAN"` and timestamps as whole seconds since the epoch.
use vstd::prelude::*;

use crate::crypto::backends::{NONCE_SIZE, TAG_SIZE};
use crate::domain::crypto_package::{CryptoPackage, CryptoPackageView};
use crate::domain::encrypted_log::{EncryptedLogData, EncryptedLogDataView};
use crate::domain::key_envelope::{KeyEnvelope, KeyEnvelopeView, OwnerType};
use crate::domain::timestamp::MAX_CLOCK_SECONDS;
use crate::domain::Timestamp;
use crate::ffi::error::FfiErrorCode;

verus! {

/// A sealed payload as it travels.
#[derive(Debug, Clone)]
pub struct EncryptedLogDataWire {
    pub encrypted_log_id: u64,
    pub user_id: u64,
    pub ciphertext: Vec<u8>,
    pub iv: [u8; NONCE_SIZE],
    pub tag: [u8; TAG_SIZE],
    pub key_id: String,
    pub created_at_unix_seconds: u64,
}

/// An envelope as it travels.
#[derive(Debug, Clone)]
pub struct KeyEnvelopeWire {
    pub envelope_id: u64,
    pub key_id: String,
    pub owner_id: u64,
    pub owner_type: String,
    pub kem_ciphertext: Vec<u8>,
    pub encapsulated_key: Vec<u8>,
}

/// A package as it travels.
#[derive(Debug, Clone)]
pub struct CryptoPackageWire {
    pub encrypted_data: EncryptedLogDataWire,
    pub user_envelope: KeyEnvelopeWire,
    pub guardian_envelope: KeyEnvelopeWire,
}

/// A KEM key pair as it travels.
#[derive(Debug, Clone)]
pub struct MlKemKeypairWire {
    pub algorithm: String,
    pub public_key: Vec<u8>,
    pub private_key: Vec<u8>,
}

/// How an owner type is written on the wire.
pub open spec fn owner_type_wire_text(owner_type: OwnerType) -> Seq<char> {
    match owner_type {
        OwnerType::User => "USER"@,
        OwnerType::Guardian => "GUARDIAN"@,
    }
}

/// The wire text of an owner type.
pub fn owner_type_to_wire(owner_type: OwnerType) -> (s: &'static str)
    ensures
        s@ == owner_type_wire_text(owner_type),
{
    match owner_type {
        OwnerType::User => "USER",
        OwnerType::Guardian => "GUARDIAN",
    }
}

/// The owner type a wire text names; only `"USER"` and `"GUARDIAN"` name one.
pub fn owner_type_from_wire(value: &str) -> (r: Result<OwnerType, FfiErrorCode>)
    ensures
        if value@ == "USER"@ {
            r == Ok::<OwnerType, FfiErrorCode>(OwnerType::User)
        } else if value@ == "GUARDIAN"@ {
            r == Ok::<OwnerType, FfiErrorCode>(OwnerType::Guardian)
        } else {
            r == Err::<OwnerType, FfiErrorCode>(FfiErrorCode::InvalidArgument)
        },
{
    let text = value.to_owned();
    if text == String::from_str("USER") {
        Ok(OwnerType::User)
    } else if text == String::from_str("GUARDIAN") {
        Ok(OwnerType::Guardian)
    } else {
        Err(FfiErrorCode::InvalidArgument)
    }
}

/// Whole seconds since the epoch, or zero for a time before it.
pub fn unix_seconds_or_zero(timestamp: Timestamp) -> (s: u64)
    ensures
        s == if timestamp.seconds() >= 0 { timestamp.seconds() } else { 0 },
{
    match timestamp.whole_seconds_since_epoch() {
        Some(seconds) => seconds,
        None => 0,
    }
}

/// The wire form of a sealed payload.
pub fn encrypted_log_to_wire(value: &EncryptedLogData) -> (w: EncryptedLogDataWire)
    ensures
        w.encrypted_log_id == value.encrypted_log_id,
        w.user_id == value.user_id,
        w.ciphertext@ == value.ciphertext@,
        w.iv == value.iv,
        w.tag == value.tag,
        w.key_id@ == value.key_id@,
        w.created_at_unix_seconds == if value.created_at.seconds() >= 0 { value.created_at.seconds() } else { 0 },
{
    EncryptedLogDataWire {
        encrypted_log_id: value.encrypted_log_id,
        user_id: value.user_id,
        ciphertext: value.ciphertext.clone(),
        iv: value.iv,
        tag: value.tag,
        key_id: value.key_id.clone(),
        created_at_unix_seconds: unix_seconds_or_zero(value.created_at),
    }
}

/// The wire form of an envelope.
pub fn key_envelope_to_wire(value: &KeyEnvelope) -> (w: KeyEnvelopeWire)
    ensures
        w.envelope_id == value.envelope_id,
        w.key_id@ == value.key_id@,
        w.owner_id == value.owner_id,
        w.owner_type@ == owner_type_wire_text(value.owner_type),
        w.kem_ciphertext@ == value.kem_ciphertext@,
        w.encapsulated_key@ == value.encapsulated_key@,
{
    KeyEnvelopeWire {
        envelope_id: value.envelope_id,
        key_id: value.key_id.clone(),
        owner_id: value.owner_id,
        owner_type: String::from_str(owner_type_to_wire(value.owner_type)),
        kem_ciphertext: value.kem_ciphertext.clone(),
        encapsulated_key: value.encapsulated_key.clone(),
    }
}

/// Whether `w` is the wire form of the sealed payload `d`.
pub open spec fn wire_encrypted_log_of(w: EncryptedLogDataWire, d: EncryptedLogDataView) -> bool {
    &&& w.encrypted_log_id == d.encrypted_log_id
    &&& w.user_id == d.user_id
    &&& w.ciphertext@ == d.ciphertext
    &&& w.iv@ == d.iv
    &&& w.tag@ == d.tag
    &&& w.key_id@ == d.key_id
    &&& w.created_at_unix_seconds == if d.created_at.seconds() >= 0 { d.created_at.seconds() } else { 0 }
}

/// Whether `w` is the wire form of the package `p`.
pub open spec fn wire_package_of(w: CryptoPackageWire, p: CryptoPackageView) -> bool {
    &&& wire_encrypted_log_of(w.encrypted_data, p.encrypted_data)
    &&& wire_envelope_of(w.user_envelope, p.user_envelope)
    &&& wire_envelope_of(w.guardian_envelope, p.guardian_envelope)
}

/// The wire form of a package.
pub fn crypto_package_to_wire(value: &CryptoPackage) -> (w: CryptoPackageWire)
    ensures
        wire_package_of(w, value@),
{
    CryptoPackageWire {
        encrypted_data: encrypted_log_to_wire(&value.encrypted_data),
        user_envelope: key_envelope_to_wire(&value.user_envelope),
        guardian_envelope: key_envelope_to_wire(&value.guardian_envelope),
    }
}

/// Whether `w` is the wire form of the envelope `e`.
pub open spec fn wire_envelope_of(w: KeyEnvelopeWire, e: KeyEnvelopeView) -> bool {
    &&& w.envelope_id == e.envelope_id
    &&& w.key_id@ == e.key_id
    &&& w.owner_id == e.owner_id
    &&& w.owner_type@ == owner_type_wire_text(e.owner_type)
    &&& w.kem_ciphertext@ == e.kem_ciphertext
    &&& w.encapsulated_key@ == e.encapsulated_key
}

/// Whether a wire text names an owner type.
pub open spec fn is_owner_type_text(text: Seq<char>) -> bool {
    text == "USER"@ || text == "GUARDIAN"@
}

/// The owner type a wire text names (`Guardian` for any text but `"USER"`; only meaningful
/// where `is_owner_type_text` holds).
pub open spec fn owner_type_of_text(text: Seq<char>) -> OwnerType {
    if text == "USER"@ { OwnerType::User } else { OwnerType::Guardian }
}

/// The sealed payload a wire value describes.
pub open spec fn encrypted_log_view_of_wire(w: EncryptedLogDataWire) -> EncryptedLogDataView {
    EncryptedLogDataView {
        encrypted_log_id: w.encrypted_log_id,
        user_id: w.user_id,
        ciphertext: w.ciphertext@,
        iv: w.iv@,
        tag: w.tag@,
        key_id: w.key_id@,
        created_at: Timestamp::at_unix_seconds(w.created_at_unix_seconds),
    }
}

/// The envelope a wire value describes.
pub open spec fn key_envelope_view_of_wire(w: KeyEnvelopeWire) -> KeyEnvelopeView {
    KeyEnvelopeView {
        envelope_id: w.envelope_id,
        key_id: w.key_id@,
        owner_id: w.owner_id,
        owner_type: owner_type_of_text(w.owner_type@),
        kem_ciphertext: w.kem_ciphertext@,
        encapsulated_key: w.encapsulated_key@,
    }
}

/// The package a wire value describes.
pub open spec fn crypto_package_view_of_wire(w: CryptoPackageWire) -> CryptoPackageView {
    CryptoPackageView {
        encrypted_data: encrypted_log_view_of_wire(w.encrypted_data),
        user_envelope: key_envelope_view_of_wire(w.user_envelope),
        guardian_envelope: key_envelope_view_of_wire(w.guardian_envelope),
    }
}

/// Whether a package's wire form converts: its creation time fits the clock and both
/// envelopes name a known owner type.
pub open spec fn crypto_package_wire_converts(w: CryptoPackageWire) -> bool {
    &&& w.encrypted_data.created_at_unix_seconds <= MAX_CLOCK_SECONDS
    &&& is_owner_type_text(w.user_envelope.owner_type@)
    &&& is_owner_type_text(w.guardian_envelope.owner_type@)
}

/// The sealed payload a wire value describes. A creation time beyond what the clock holds
/// makes the conversion panic, which the interface reports as `Panic`.
pub fn encrypted_log_from_wire(value: EncryptedLogDataWire) -> (r: Result<EncryptedLogData, FfiErrorCode>)
    ensures
        if value.created_at_unix_seconds > MAX_CLOCK_SECONDS {
            r == Err::<EncryptedLogData, FfiErrorCode>(FfiErrorCode::Panic)
        } else {
            r matches Ok(data) && data@ == encrypted_log_view_of_wire(value)
        },
{
    if value.created_at_unix_seconds > MAX_CLOCK_SECONDS {
        return Err(FfiErrorCode::Panic);
    }
    let ghost expected = encrypted_log_view_of_wire(value);
    let data = EncryptedLogData::new(
        value.encrypted_log_id,
        value.user_id,
        value.ciphertext,
        value.iv,
        value.tag,
        value.key_id.as_str(),
        Timestamp::from_unix_seconds(value.created_at_unix_seconds),
    );
    assert(data@ == expected);
    Ok(data)
}

/// The envelope a wire value describes; an unknown owner type is refused.
pub fn key_envelope_from_wire(value: KeyEnvelopeWire) -> (r: Result<KeyEnvelope, FfiErrorCode>)
    ensures
        if is_owner_type_text(value.owner_type@) {
            r matches Ok(envelope) && envelope@ == key_envelope_view_of_wire(value)
                && wire_envelope_of(value, envelope@)
        } else {
            r == Err::<KeyEnvelope, FfiErrorCode>(FfiErrorCode::InvalidArgument)
        },
{
    let ghost expected = key_envelope_view_of_wire(value);
    let owner_type = owner_type_from_wire(value.owner_type.as_str())?;
    proof {
        reveal_strlit("USER");
        reveal_strlit("GUARDIAN");
    }
    let envelope = KeyEnvelope::new(
        value.envelope_id,
        value.key_id.as_str(),
        value.owner_id,
        owner_type,
        value.kem_ciphertext,
        value.encapsulated_key,
    );
    assert(envelope@ == expected);
    Ok(envelope)
}

/// The package a wire value describes: the payload is converted first, then the user's
/// envelope, then the guardian's.
pub fn crypto_package_from_wire(value: CryptoPackageWire) -> (r: Result<CryptoPackage, FfiErrorCode>)
    ensures
        if value.encrypted_data.created_at_unix_seconds > MAX_CLOCK_SECONDS {
            r == Err::<CryptoPackage, FfiErrorCode>(FfiErrorCode::Panic)
        } else if !crypto_package_wire_converts(value) {
            r == Err::<CryptoPackage, FfiErrorCode>(FfiErrorCode::InvalidArgument)
        } else {
            r matches Ok(package) && package@ == crypto_package_view_of_wire(value)
        },
{
    let ghost expected = crypto_package_view_of_wire(value);
    let encrypted_data = encrypted_log_from_wire(value.encrypted_data)?;
    let user_envelope = key_envelope_from_wire(value.user_envelope)?;
    let guardian_envelope = key_envelope_from_wire(value.guardian_envelope)?;
    let package = CryptoPackage::new(encrypted_data, user_envelope, guardian_envelope);
    assert(package@ == expected);
    Ok(package)
}

/// An envelope survives the trip to its wire form and back: the envelope a wire form
/// describes is the envelope it was written from.
pub proof fn lemma_envelope_wire_round_trip(w: KeyEnvelopeWire, e: KeyEnvelopeView)
    requires
        wire_envelope_of(w, e),
    ensures
        is_owner_type_text(w.owner_type@),
        key_envelope_view_of_wire(w) == e,
{
    reveal_strlit("USER");
    reveal_strlit("GUARDIAN");
    assert("USER"@.len() != "GUARDIAN"@.len());
}

/// A package survives the trip to its wire form and back, up to its creation time, which
/// travels in whole seconds (a time before the epoch as the epoch itself): the package a
/// wire form describes differs from the one it was written from at most there, and not at
/// all when that time is a whole number of seconds after the epoch.
pub proof fn lemma_package_wire_round_trip(w: CryptoPackageWire, p: CryptoPackageView)
    requires
        wire_package_of(w, p),
    ensures
        is_owner_type_text(w.user_envelope.owner_type@),
        is_owner_type_text(w.guardian_envelope.owner_type@),
        crypto_package_view_of_wire(w).user_envelope == p.user_envelope,
        crypto_package_view_of_wire(w).guardian_envelope == p.guardian_envelope,
        crypto_package_view_of_wire(w).encrypted_data == (EncryptedLogDataView {
            created_at: crypto_package_view_of_wire(w).encrypted_data.created_at,
            ..p.encrypted_data
        }),
        p.encrypted_data.created_at.seconds() >= 0 && p.encrypted_data.created_at.nanos() == 0
            ==> crypto_package_view_of_wire(w) == p,
{
    lemma_envelope_wire_round_trip(w.user_envelope, p.user_envelope);
    lemma_envelope_wire_round_trip(w.guardian_envelope, p.guardian_envelope);
    let created_at = p.encrypted_data.created_at;
    if created_at.seconds() >= 0 && created_at.nanos() == 0 {
        crate::domain::timestamp::lemma_at_unix_seconds(w.encrypted_data.created_at_unix_seconds);
        crate::domain::timestamp::lemma_timestamp_parts(
            Timestamp::at_unix_seconds(w.encrypted_data.created_at_unix_seconds),
            created_at,
        );
    }
}

} // verus!
