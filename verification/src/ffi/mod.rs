//! What the C interface decides: error codes and the last-error message, the checks on
//! each request and the results it reports, and the plain-value form of packages and
//! envelopes that travels as JSON.
pub mod error;
pub mod handle;
pub mod requests;
pub mod types;
pub mod wire;
