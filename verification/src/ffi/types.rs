//! The plain values the C interface receives, and their conversion into the library's types.
use vstd::prelude::*;

use vstd::utf8::{decode_utf8, encode_utf8, encode_utf8_decode_utf8, valid_utf8};

use crate::crypto::backends::DATA_KEY_SIZE;
use crate::domain::data_key::{DataKey, DataKeyView};
use crate::domain::key_envelope::OwnerType;
use crate::domain::timestamp::MAX_CLOCK_SECONDS;
use crate::domain::Timestamp;
use crate::ffi::error::FfiErrorCode;
use crate::service::encryption_service::{EncryptionRequest, EncryptionRequestView};

verus! {

/// Whole seconds since the Unix epoch.
#[derive(Debug, Clone, Copy, PartialEq, Eq, Structural)]
pub struct FfiTimestamp {
    pub unix_seconds: u64,
}

impl FfiTimestamp {
    /// The timestamp this many seconds after the epoch; the clock holds at most `i64::MAX`
    /// seconds, so later values are outside what this accepts.
    pub fn to_system_time(self) -> (t: Timestamp)
        requires
            self.unix_seconds <= MAX_CLOCK_SECONDS,
        ensures
            t == Timestamp::at_unix_seconds(self.unix_seconds),
            t.seconds() == self.unix_seconds,
            t.nanos() == 0,
    {
        Timestamp::from_unix_seconds(self.unix_seconds)
    }
}

/// The recipient kinds as the C interface numbers them.
#[derive(Debug, Clone, Copy, PartialEq, Eq, Structural)]
pub enum FfiOwnerType {
    User,
    Guardian,
}

impl FfiOwnerType {
    /// The library's owner type of this value; every value has one.
    pub fn to_owner_type(self) -> (r: Result<OwnerType, FfiErrorCode>)
        ensures
            r == match self {
                FfiOwnerType::User => Ok::<OwnerType, FfiErrorCode>(OwnerType::User),
                FfiOwnerType::Guardian => Ok::<OwnerType, FfiErrorCode>(OwnerType::Guardian),
            },
    {
        match self {
            FfiOwnerType::User => Ok(OwnerType::User),
            FfiOwnerType::Guardian => Ok(OwnerType::Guardian),
        }
    }
}

/// The text that `bytes` encode in UTF-8, from `std::str::from_utf8` (then owned).
/// Claimed: the bytes are accepted exactly when they are valid UTF-8, and the text encodes
/// back to them.
#[verifier::external_body]
fn utf8_text(bytes: &[u8]) -> (r: Option<String>)
    ensures
        match r {
            Some(text) => valid_utf8(bytes@) && encode_utf8(text@) == bytes@,
            None => !valid_utf8(bytes@),
        },
{
    match std::str::from_utf8(bytes) {
        Ok(text) => Some(text.to_owned()),
        Err(_) => None,
    }
}

/// A byte argument as a pointer and a length: `data` holds the bytes they designate, or is
/// `None` when the pointer is null; `len` is the length passed with the pointer.
#[derive(Debug, Clone, Copy)]
pub struct FfiBorrowedBytes<'a> {
    pub data: Option<&'a [u8]>,
    pub len: usize,
}

impl<'a> FfiBorrowedBytes<'a> {
    /// A null pointer with length zero.
    pub fn null() -> (b: Self)
        ensures
            b.data is None,
            b.len == 0,
    {
        FfiBorrowedBytes { data: None, len: 0 }
    }
}

/// The bytes an argument carries: those the pointer designates, none for a null pointer
/// with length zero, and `None` (refused) for a null pointer with a nonzero length.
pub open spec fn borrowed_bytes_view(bytes: FfiBorrowedBytes) -> Option<Seq<u8>> {
    match bytes.data {
        Some(slice) => Some(slice@),
        None => if bytes.len == 0 { Some(Seq::<u8>::empty()) } else { None },
    }
}

/// The bytes an argument carries, refused with `NullPointer` for a null pointer with a
/// nonzero length.
pub fn borrowed_bytes_as_slice<'a>(bytes: FfiBorrowedBytes<'a>) -> (r: Result<&'a [u8], FfiErrorCode>)
    ensures
        match borrowed_bytes_view(bytes) {
            Some(b) => r matches Ok(slice) && slice@ == b,
            None => r == Err::<&'a [u8], FfiErrorCode>(FfiErrorCode::NullPointer),
        },
{
    match bytes.data {
        Some(slice) => Ok(slice),
        None => if bytes.len == 0 {
            let empty: &'a [u8] = &[];
            assert(empty@ =~= Seq::<u8>::empty());
            Ok(empty)
        } else {
            Err(FfiErrorCode::NullPointer)
        },
    }
}

/// The text a byte argument carries; a null pointer with a nonzero length is refused with
/// `NullPointer`, bytes that are not UTF-8 with `InvalidUtf8`.
pub fn borrowed_bytes_as_string(bytes: FfiBorrowedBytes) -> (r: Result<String, FfiErrorCode>)
    ensures
        match borrowed_bytes_view(bytes) {
            None => r == Err::<String, FfiErrorCode>(FfiErrorCode::NullPointer),
            Some(b) => if valid_utf8(b) {
                r matches Ok(text) && encode_utf8(text@) == b
            } else {
                r == Err::<String, FfiErrorCode>(FfiErrorCode::InvalidUtf8)
            },
        },
{
    let slice = borrowed_bytes_as_slice(bytes)?;
    match utf8_text(slice) {
        Some(text) => Ok(text),
        None => Err(FfiErrorCode::InvalidUtf8),
    }
}

/// A data key as an interface call describes it.
#[derive(Debug, Clone, Copy)]
pub struct FfiDataKeyInput<'a> {
    pub key_id: FfiBorrowedBytes<'a>,
    pub key_value: [u8; DATA_KEY_SIZE],
    pub created_at: FfiTimestamp,
    pub expires_at: FfiTimestamp,
}

/// Whether the validity period of a data key input fits the clock.
pub open spec fn data_key_input_period_fits(input: FfiDataKeyInput) -> bool {
    input.created_at.unix_seconds <= MAX_CLOCK_SECONDS && input.expires_at.unix_seconds <= MAX_CLOCK_SECONDS
}

/// The data key that a data key input with a UTF-8 id describes.
pub open spec fn data_key_view_of_input(input: FfiDataKeyInput) -> DataKeyView {
    DataKeyView {
        key_id: decode_utf8(borrowed_bytes_view(input.key_id).unwrap()),
        key_value: input.key_value@,
        created_at: Timestamp::at_unix_seconds(input.created_at.unix_seconds),
        expires_at: Timestamp::at_unix_seconds(input.expires_at.unix_seconds),
    }
}

/// The data key an interface call describes. Its id is checked first (`NullPointer`,
/// `InvalidUtf8`); a validity period beyond what the clock holds then makes the conversion
/// panic, which the interface reports as `Panic`.
pub fn data_key_from_ffi(input: FfiDataKeyInput) -> (r: Result<DataKey, FfiErrorCode>)
    ensures
        match borrowed_bytes_view(input.key_id) {
            None => r == Err::<DataKey, FfiErrorCode>(FfiErrorCode::NullPointer),
            Some(b) => if !valid_utf8(b) {
                r == Err::<DataKey, FfiErrorCode>(FfiErrorCode::InvalidUtf8)
            } else if !data_key_input_period_fits(input) {
                r == Err::<DataKey, FfiErrorCode>(FfiErrorCode::Panic)
            } else {
                r matches Ok(key) && key@ == data_key_view_of_input(input)
            },
        },
{
    let id = borrowed_bytes_as_string(input.key_id)?;
    if input.created_at.unix_seconds > MAX_CLOCK_SECONDS || input.expires_at.unix_seconds > MAX_CLOCK_SECONDS {
        return Err(FfiErrorCode::Panic);
    }
    proof {
        encode_utf8_decode_utf8(id@);
    }
    Ok(DataKey::new(id.as_str(), input.key_value, input.created_at.to_system_time(), input.expires_at.to_system_time()))
}

/// A request to seal a payload for a user and a guardian.
#[derive(Debug, Clone, Copy)]
pub struct FfiEncryptPackageRequest<'a> {
    pub plaintext: FfiBorrowedBytes<'a>,
    pub user_id: u64,
    pub user_public_key: FfiBorrowedBytes<'a>,
    pub guardian_id: u64,
    pub guardian_public_key: FfiBorrowedBytes<'a>,
    pub data_key: FfiDataKeyInput<'a>,
}

/// A request to open a package.
#[derive(Debug, Clone, Copy)]
pub struct FfiDecryptPackageRequest<'a> {
    pub package: FfiBorrowedBytes<'a>,
    pub caller_id: u64,
    pub caller_type: FfiOwnerType,
    pub private_key: FfiBorrowedBytes<'a>,
}

/// A request to wrap a data key for a recipient.
#[derive(Debug, Clone, Copy)]
pub struct FfiCreateKeyEnvelopeRequest<'a> {
    pub data_key: FfiDataKeyInput<'a>,
    pub owner_id: u64,
    pub owner_type: FfiOwnerType,
    pub public_key: FfiBorrowedBytes<'a>,
}

/// A request to open an envelope.
#[derive(Debug, Clone, Copy)]
pub struct FfiOpenKeyEnvelopeRequest<'a> {
    pub envelope: FfiBorrowedBytes<'a>,
    pub caller_id: u64,
    pub caller_type: FfiOwnerType,
    pub private_key: FfiBorrowedBytes<'a>,
}

/// A request, by a current recipient, to wrap the same data key for one more recipient.
#[derive(Debug, Clone, Copy)]
pub struct FfiCreateAdditionalRecipientEnvelopeRequest<'a> {
    pub source_envelope: FfiBorrowedBytes<'a>,
    pub current_owner_id: u64,
    pub current_owner_type: FfiOwnerType,
    pub current_private_key: FfiBorrowedBytes<'a>,
    pub new_owner_id: u64,
    pub new_owner_type: FfiOwnerType,
    pub new_public_key: FfiBorrowedBytes<'a>,
}

/// The encryption request an interface call describes; a null pointer with a nonzero
/// length in any byte argument is refused with `NullPointer`.
pub fn encryption_request_from_ffi(input: FfiEncryptPackageRequest) -> (r: Result<EncryptionRequest, FfiErrorCode>)
    ensures
        match (borrowed_bytes_view(input.plaintext), borrowed_bytes_view(input.user_public_key),
            borrowed_bytes_view(input.guardian_public_key)) {
            (Some(p), Some(u), Some(g)) => r matches Ok(request) && request@ == (EncryptionRequestView {
                log_data: p,
                user_id: input.user_id,
                user_public_key: u,
                guardian_id: input.guardian_id,
                guardian_public_key: g,
            }),
            _ => r == Err::<EncryptionRequest, FfiErrorCode>(FfiErrorCode::NullPointer),
        },
{
    let plaintext = borrowed_bytes_as_slice(input.plaintext)?;
    let user_public_key = borrowed_bytes_as_slice(input.user_public_key)?;
    let guardian_public_key = borrowed_bytes_as_slice(input.guardian_public_key)?;
    Ok(EncryptionRequest::new(
        vstd::slice::slice_to_vec(plaintext),
        input.user_id,
        vstd::slice::slice_to_vec(user_public_key),
        input.guardian_id,
        vstd::slice::slice_to_vec(guardian_public_key),
    ))
}

} // verus!
