//! Cryptographic building blocks: the backend interfaces and the data-key wrapping.
pub mod backends;
pub mod key_wrap;
