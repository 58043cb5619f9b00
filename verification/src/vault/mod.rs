//! The vault proper: its error type, the AES-256-GCM and Argon2 primitives, the
//! entry record, the settings record and the storage file format.
pub mod crypto;
pub mod entry;
pub mod error;
pub mod outside;
pub mod settings;
pub mod storage;
