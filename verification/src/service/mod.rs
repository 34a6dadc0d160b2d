//! The services that seal, share and open packages, built on the backend interfaces.
pub mod decryption_service;
pub mod encryption_service;
pub mod id_sequence;
pub mod key_management_service;
pub mod sharing_service;
