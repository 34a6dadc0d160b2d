//! Wrapping a data key for one recipient: the 32 key bytes are XOR-ed with the
//! first 32 bytes of the KEM shared secret, and unwrapping XORs them back.
use vstd::prelude::*;

use crate::crypto::backends::DATA_KEY_SIZE;
use crate::text::push_decimal;

verus! {

/// Why a data key could not be wrapped or unwrapped.
#[derive(Debug, Clone, PartialEq, Eq, Structural)]
pub enum KeyWrapError {
    /// A wrapped key must be exactly as long as a data key.
    InvalidWrappedKeyLength { expected: usize, actual: usize },
    /// A shared secret must hold at least as many bytes as a data key.
    InvalidSharedSecretLength { expected: usize, actual: usize },
}

/// The first 32 bytes of `a` XOR-ed byte by byte with those of `b`.
pub open spec fn xor32(a: Seq<u8>, b: Seq<u8>) -> Seq<u8> {
    Seq::new(32, |i: int| a[i] ^ b[i])
}

/// What wrapping `data_key` under `shared_secret` yields.
pub open spec fn wrap_result(data_key: Seq<u8>, shared_secret: Seq<u8>) -> Result<Seq<u8>, KeyWrapError> {
    if shared_secret.len() < 32 {
        Err(KeyWrapError::InvalidSharedSecretLength { expected: 32, actual: shared_secret.len() as usize })
    } else {
        Ok(xor32(data_key, shared_secret))
    }
}

/// What unwrapping `wrapped_key` under `shared_secret` yields.
pub open spec fn unwrap_result(wrapped_key: Seq<u8>, shared_secret: Seq<u8>) -> Result<Seq<u8>, KeyWrapError> {
    if wrapped_key.len() != 32 {
        Err(KeyWrapError::InvalidWrappedKeyLength { expected: 32, actual: wrapped_key.len() as usize })
    } else if shared_secret.len() < 32 {
        Err(KeyWrapError::InvalidSharedSecretLength { expected: 32, actual: shared_secret.len() as usize })
    } else {
        Ok(xor32(wrapped_key, shared_secret))
    }
}

/// Wraps `data_key` under `shared_secret`: the result holds `data_key[i] ^ shared_secret[i]`
/// for each of the 32 key bytes. Fails when the secret is shorter than a data key.
pub fn wrap_data_key(data_key: &[u8; DATA_KEY_SIZE], shared_secret: &[u8]) -> (r: Result<Vec<u8>, KeyWrapError>)
    ensures
        match r {
            Ok(wrapped) => wrap_result(data_key@, shared_secret@) == Ok::<Seq<u8>, KeyWrapError>(wrapped@),
            Err(e) => wrap_result(data_key@, shared_secret@) == Err::<Seq<u8>, KeyWrapError>(e),
        },
{
    if shared_secret.len() < DATA_KEY_SIZE {
        return Err(KeyWrapError::InvalidSharedSecretLength {
            expected: DATA_KEY_SIZE,
            actual: shared_secret.len(),
        });
    }
    let mut wrapped: Vec<u8> = Vec::new();
    let mut index: usize = 0;
    while index < DATA_KEY_SIZE
        invariant
            index <= DATA_KEY_SIZE,
            DATA_KEY_SIZE <= shared_secret@.len(),
            data_key@.len() == DATA_KEY_SIZE,
            wrapped@.len() == index,
            forall|i: int| 0 <= i < index ==> wrapped@[i] == data_key@[i] ^ shared_secret@[i],
        decreases DATA_KEY_SIZE - index,
    {
        wrapped.push(data_key[index] ^ shared_secret[index]);
        index = index + 1;
    }
    proof {
        assert(wrapped@ =~= xor32(data_key@, shared_secret@));
    }
    Ok(wrapped)
}

/// Recovers a data key from `wrapped_key` and the `shared_secret` it was wrapped under.
/// Fails when the wrapped key is not exactly 32 bytes long (checked first) or when the
/// secret is shorter than a data key.
pub fn unwrap_data_key(wrapped_key: &[u8], shared_secret: &[u8]) -> (r: Result<[u8; DATA_KEY_SIZE], KeyWrapError>)
    ensures
        match r {
            Ok(key) => unwrap_result(wrapped_key@, shared_secret@) == Ok::<Seq<u8>, KeyWrapError>(key@),
            Err(e) => unwrap_result(wrapped_key@, shared_secret@) == Err::<Seq<u8>, KeyWrapError>(e),
        },
{
    if wrapped_key.len() != DATA_KEY_SIZE {
        return Err(KeyWrapError::InvalidWrappedKeyLength {
            expected: DATA_KEY_SIZE,
            actual: wrapped_key.len(),
        });
    }
    if shared_secret.len() < DATA_KEY_SIZE {
        return Err(KeyWrapError::InvalidSharedSecretLength {
            expected: DATA_KEY_SIZE,
            actual: shared_secret.len(),
        });
    }
    let mut recovered = [0u8; 32];
    let mut index: usize = 0;
    while index < DATA_KEY_SIZE
        invariant
            index <= DATA_KEY_SIZE,
            wrapped_key@.len() == DATA_KEY_SIZE,
            DATA_KEY_SIZE <= shared_secret@.len(),
            recovered@.len() == DATA_KEY_SIZE,
            forall|i: int| 0 <= i < index ==> recovered@[i] == wrapped_key@[i] ^ shared_secret@[i],
        decreases DATA_KEY_SIZE - index,
    {
        recovered[index] = wrapped_key[index] ^ shared_secret[index];
        index = index + 1;
    }
    proof {
        assert(recovered@ =~= xor32(wrapped_key@, shared_secret@));
    }
    Ok(recovered)
}

/// Unwrapping a wrapped data key under the secret it was wrapped with gives the data key back.
pub proof fn lemma_unwrap_after_wrap(data_key: Seq<u8>, shared_secret: Seq<u8>)
    requires
        data_key.len() == 32,
        shared_secret.len() >= 32,
    ensures
        wrap_result(data_key, shared_secret) is Ok,
        unwrap_result(xor32(data_key, shared_secret), shared_secret) == Ok::<Seq<u8>, KeyWrapError>(data_key),
{
    let wrapped = xor32(data_key, shared_secret);
    assert forall|i: int| 0 <= i < 32 implies #[trigger] xor32(wrapped, shared_secret)[i] == data_key[i] by {
        let a = data_key[i];
        let b = shared_secret[i];
        assert((a ^ b) ^ b == a) by (bit_vector);
    }
    assert(xor32(wrapped, shared_secret) =~= data_key);
}

/// Wrapping an unwrapped key under the same secret gives the wrapped key back.
pub proof fn lemma_wrap_after_unwrap(wrapped_key: Seq<u8>, shared_secret: Seq<u8>)
    requires
        wrapped_key.len() == 32,
        shared_secret.len() >= 32,
    ensures
        unwrap_result(wrapped_key, shared_secret) is Ok,
        wrap_result(xor32(wrapped_key, shared_secret), shared_secret) == Ok::<Seq<u8>, KeyWrapError>(wrapped_key),
{
    lemma_unwrap_after_wrap(wrapped_key, shared_secret);
}

impl KeyWrapError {
    /// The error as a sentence, as the error is displayed.
    pub fn message(&self) -> (s: String)
        ensures
            s@ == key_wrap_error_message(*self),
    {
        let mut s = String::new();
        match self {
            KeyWrapError::InvalidWrappedKeyLength { expected, actual } => {
                s.append("invalid wrapped data key length: expected ");
                push_decimal(&mut s, *expected as u64);
                s.append(" bytes, got ");
                push_decimal(&mut s, *actual as u64);
            },
            KeyWrapError::InvalidSharedSecretLength { expected, actual } => {
                s.append("invalid shared secret length: expected ");
                push_decimal(&mut s, *expected as u64);
                s.append(" bytes, got ");
                push_decimal(&mut s, *actual as u64);
            },
        }
        s
    }
}

/// The text of a key wrap error.
pub open spec fn key_wrap_error_message(e: KeyWrapError) -> Seq<char> {
    match e {
        KeyWrapError::InvalidWrappedKeyLength { expected, actual } =>
            "invalid wrapped data key length: expected "@ + crate::text::decimal(expected as nat)
                + " bytes, got "@ + crate::text::decimal(actual as nat),
        KeyWrapError::InvalidSharedSecretLength { expected, actual } =>
            "invalid shared secret length: expected "@ + crate::text::decimal(expected as nat)
                + " bytes, got "@ + crate::text::decimal(actual as nat),
    }
}

} // verus!
