//! The facade as the C interface holds it, and the failure to create it.
use vstd::prelude::*;

use crate::core_facade::CoreFacade;
use crate::crypto::backends::{kem_error_message, AeadBackend, KemBackend, KemBackendError, SecureRandom};
use crate::ffi::error::{FfiErrorCode, FfiErrorInfo};

verus! {

/// A facade behind a handle that callers of the C interface pass back on every call.
pub struct FfiFacadeHandle<A, K, R> {
    inner: CoreFacade<A, K, R>,
}

/// Why a handle could not be created.
#[derive(Debug, Clone)]
pub struct FfiHandleInitError {
    pub code: FfiErrorCode,
    pub message: String,
}

impl FfiHandleInitError {
    pub fn new(code: FfiErrorCode, message: String) -> (e: Self)
        ensures
            e.code == code,
            e.message@ == message@,
    {
        FfiHandleInitError { code, message }
    }

    /// The same failure as a status and its message.
    pub fn as_error_info(&self) -> (info: FfiErrorInfo)
        ensures
            info.code == self.code,
            info.message@ == self.message@,
    {
        FfiErrorInfo::new(self.code, self.message.clone())
    }
}

/// The message of a handle that could not be created because assembling the default
/// facade failed with `e`.
pub open spec fn default_facade_failure_message(e: KemBackendError) -> Seq<char> {
    "failed to build default CoreFacade: "@ + kem_error_message(e)
}

impl<A: AeadBackend, K: KemBackend, R: SecureRandom> FfiFacadeHandle<A, K, R> {
    /// The facade behind the handle.
    pub closed spec fn facade(&self) -> CoreFacade<A, K, R> {
        self.inner
    }

    /// The handle over the default facade, given the outcome of assembling it (which fails
    /// only when its KEM cannot be set up): that failure is reported as `InternalError`.
    pub fn new_default(built: Result<CoreFacade<A, K, R>, KemBackendError>) -> (r: Result<Self, FfiHandleInitError>)
        ensures
            match built {
                Ok(facade) => r matches Ok(handle) && handle.facade() == facade,
                Err(e) => r matches Err(error) && error.code == FfiErrorCode::InternalError
                    && error.message@ == default_facade_failure_message(e),
            },
    {
        match built {
            Ok(inner) => Ok(FfiFacadeHandle { inner }),
            Err(error) => {
                let mut message = String::from_str("failed to build default CoreFacade: ");
                let detail = error.message();
                message.append(detail.as_str());
                Err(FfiHandleInitError::new(FfiErrorCode::InternalError, message))
            },
        }
    }

    /// The facade behind the handle.
    pub fn core_facade(&self) -> (facade: &CoreFacade<A, K, R>)
        ensures
            *facade == self.facade(),
    {
        &self.inner
    }
}

} // verus!
