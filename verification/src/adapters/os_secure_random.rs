//! The operating system's random source.
use vstd::prelude::*;

use rand::TryRng;

use crate::crypto::backends::{SecureRandom, SecureRandomError};

verus! {

/// Fills `out` from `rand::rngs::SysRng::try_fill_bytes` (the operating system's random
/// source) and renders a failure as its message. The bytes are random, so nothing is stated
/// of them; the slice keeps its length.
#[verifier::external_body]
fn sys_rng_try_fill_bytes(out: &mut [u8]) -> (r: Result<(), String>)
    ensures
        final(out)@.len() == old(out)@.len(),
{
    match rand::rngs::SysRng.try_fill_bytes(out) {
        Ok(()) => Ok(()),
        Err(error) => Err(error.to_string()),
    }
}

/// Random bytes from the operating system.
#[derive(Debug, Default, Clone, Copy)]
pub struct OsSecureRandom;

impl SecureRandom for OsSecureRandom {
    fn fill_bytes(&self, out: &mut [u8]) -> (r: Result<(), SecureRandomError>) {
        match sys_rng_try_fill_bytes(out) {
            Ok(()) => Ok(()),
            Err(message) => Err(SecureRandomError::FillFailed(message)),
        }
    }
}

} // verus!
