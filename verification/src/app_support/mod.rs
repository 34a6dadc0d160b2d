//! Application-side services: daily data keys, their schedule and storage, and encryption
//! that picks the data key by date.
pub mod calendar;
pub mod data_key_provider;
pub mod data_key_service;
pub mod key_schedule;
pub mod provider_backed_encryption_service;
pub mod repository;
