//! Error codes of the C interface and the thread's last error message.
use vstd::prelude::*;

use vstd::utf8::encode_utf8;

use crate::core_facade::CoreFacadeError;

verus! {

/// The status a C interface call returns.
#[derive(Debug, Clone, Copy, PartialEq, Eq, Structural)]
pub enum FfiErrorCode {
    Success,
    NullPointer,
    InvalidHandle,
    InvalidArgument,
    InvalidLength,
    InvalidUtf8,
    BufferAllocationFailed,
    CryptoError,
    InternalError,
    Panic,
}

/// The number a status travels as.
pub open spec fn error_code_number(code: FfiErrorCode) -> i32 {
    match code {
        FfiErrorCode::Success => 0,
        FfiErrorCode::NullPointer => 1,
        FfiErrorCode::InvalidHandle => 2,
        FfiErrorCode::InvalidArgument => 3,
        FfiErrorCode::InvalidLength => 4,
        FfiErrorCode::InvalidUtf8 => 5,
        FfiErrorCode::BufferAllocationFailed => 6,
        FfiErrorCode::CryptoError => 100,
        FfiErrorCode::InternalError => 1000,
        FfiErrorCode::Panic => 1001,
    }
}

impl FfiErrorCode {
    /// The number this status travels as.
    pub fn number(&self) -> (n: i32)
        ensures
            n == error_code_number(*self),
    {
        match self {
            FfiErrorCode::Success => 0,
            FfiErrorCode::NullPointer => 1,
            FfiErrorCode::InvalidHandle => 2,
            FfiErrorCode::InvalidArgument => 3,
            FfiErrorCode::InvalidLength => 4,
            FfiErrorCode::InvalidUtf8 => 5,
            FfiErrorCode::BufferAllocationFailed => 6,
            FfiErrorCode::CryptoError => 100,
            FfiErrorCode::InternalError => 1000,
            FfiErrorCode::Panic => 1001,
        }
    }

    /// Every failure of the cryptographic layer is reported as `CryptoError`.
    pub fn from_core_error(_error: &CoreFacadeError) -> (code: FfiErrorCode)
        ensures
            code == FfiErrorCode::CryptoError,
    {
        FfiErrorCode::CryptoError
    }
}

/// A status together with the message that explains it.
#[derive(Debug, Clone)]
pub struct FfiErrorInfo {
    pub code: FfiErrorCode,
    pub message: String,
}

impl FfiErrorInfo {
    pub fn new(code: FfiErrorCode, message: String) -> (info: Self)
        ensures
            info.code == code,
            info.message@ == message@,
    {
        FfiErrorInfo { code, message }
    }
}

/// The message recorded by the last failed call of the current thread (empty when none).
#[derive(Debug)]
pub struct LastErrorMessage {
    pub message: String,
}

impl LastErrorMessage {
    /// No message recorded.
    pub fn empty() -> (slot: Self)
        ensures
            slot.message@ == Seq::<char>::empty(),
    {
        LastErrorMessage { message: String::new() }
    }
}

/// Records `message` as the last error.
pub fn set_last_error_message(slot: &mut LastErrorMessage, message: String)
    ensures
        final(slot).message@ == message@,
{
    slot.message = message;
}

/// Forgets the last error.
pub fn clear_last_error_message(slot: &mut LastErrorMessage)
    ensures
        final(slot).message@ == Seq::<char>::empty(),
{
    slot.message = String::new();
}

/// Records `message` and returns `code`, for a call that fails with it.
pub fn fail_with_message(slot: &mut LastErrorMessage, code: FfiErrorCode, message: String) -> (r: FfiErrorCode)
    ensures
        r == code,
        final(slot).message@ == message@,
{
    set_last_error_message(slot, message);
    code
}

/// The status a call reports once its operation has finished (`Some` status) or panicked
/// (`None`): success clears the last error, a failure keeps the message the operation
/// recorded, and a panic is reported as `Panic` with its own message.
pub fn settle_ffi_call(slot: &mut LastErrorMessage, outcome: Option<FfiErrorCode>) -> (r: FfiErrorCode)
    ensures
        match outcome {
            Some(FfiErrorCode::Success) => r == FfiErrorCode::Success && final(slot).message@ == Seq::<char>::empty(),
            Some(code) => r == code && final(slot).message@ == old(slot).message@,
            None => r == FfiErrorCode::Panic && final(slot).message@ == "panic in ffi boundary"@,
        },
{
    match outcome {
        Some(FfiErrorCode::Success) => {
            clear_last_error_message(slot);
            FfiErrorCode::Success
        },
        Some(code) => code,
        None => fail_with_message(slot, FfiErrorCode::Panic, String::from_str("panic in ffi boundary")),
    }
}

/// The length in bytes of the last error message.
pub fn last_error_message_length(slot: &LastErrorMessage) -> (n: usize)
    ensures
        n == encode_utf8(slot.message@).len(),
{
    slot.message.as_str().as_bytes().len()
}

/// Copies the last error message, followed by a zero byte, to the start of `buffer`; a
/// null buffer (`buffer_is_null`, `buffer` then empty) is refused, and so is a buffer that
/// cannot hold the message and the zero byte. The rest of the buffer is left as it was.
pub fn copy_last_error_message(slot: &LastErrorMessage, buffer_is_null: bool, buffer: &mut [u8]) -> (r: FfiErrorCode)
    ensures
        ({
            let bytes = encode_utf8(slot.message@);
            if buffer_is_null {
                r == FfiErrorCode::NullPointer && final(buffer)@ == old(buffer)@
            } else if old(buffer)@.len() < bytes.len() + 1 {
                r == FfiErrorCode::InvalidLength && final(buffer)@ == old(buffer)@
            } else {
                &&& r == FfiErrorCode::Success
                &&& final(buffer)@.len() == old(buffer)@.len()
                &&& final(buffer)@.subrange(0, bytes.len() as int) == bytes
                &&& final(buffer)@[bytes.len() as int] == 0u8
                &&& final(buffer)@.subrange(bytes.len() as int + 1, old(buffer)@.len() as int)
                    == old(buffer)@.subrange(bytes.len() as int + 1, old(buffer)@.len() as int)
            }
        }),
{
    if buffer_is_null {
        return FfiErrorCode::NullPointer;
    }
    let bytes = slot.message.as_str().as_bytes();
    if buffer.len() <= bytes.len() {
        return FfiErrorCode::InvalidLength;
    }
    let mut i: usize = 0;
    while i < bytes.len()
        invariant
            i <= bytes@.len(),
            bytes@.len() + 1 <= buffer@.len(),
            buffer@.len() == old(buffer)@.len(),
            forall|j: int| 0 <= j < i ==> buffer@[j] == bytes@[j],
            forall|j: int| bytes@.len() <= j < buffer@.len() ==> buffer@[j] == old(buffer)@[j],
        decreases bytes@.len() - i,
    {
        buffer[i] = bytes[i];
        i = i + 1;
    }
    buffer[bytes.len()] = 0;
    proof {
        let n = bytes@.len() as int;
        assert(buffer@.subrange(0, n) =~= bytes@);
        assert(buffer@.subrange(n + 1, buffer@.len() as int) =~= old(buffer)@.subrange(n + 1, old(buffer)@.len() as int));
    }
    FfiErrorCode::Success
}

} // verus!
