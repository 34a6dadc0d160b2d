//! The values that encryption produces and consumes.
pub mod crypto_package;
pub mod data_key;
pub mod encrypted_log;
pub mod key_envelope;
pub mod timestamp;

pub use timestamp::Timestamp;
