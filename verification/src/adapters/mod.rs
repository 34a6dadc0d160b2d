//! The concrete backends: AES-256-GCM from the `aes-gcm` crate and the operating system's
//! random source through `rand`, plus the envelope logic that a KEM adapter builds on.
pub mod aes_gcm_crypto;
pub mod factory;
pub mod kem_envelope;
pub mod os_secure_random;
