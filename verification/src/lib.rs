//! Envelope encryption for activity logs: data keys sealed with AES-256-GCM and
//! wrapped for each recipient under a KEM shared secret, with daily key rotation.
pub mod text;
pub mod adapters;
pub mod app_support;
pub mod core_facade;
pub mod crypto;
pub mod domain;
pub mod ffi;
pub mod service;
