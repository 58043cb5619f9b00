//! A password vault: entries sealed with AES-256-GCM under a key derived from a
//! master password with Argon2, the editor and session rules of its front end.

pub mod text;
mod wipe;
pub mod vault;
pub mod gui;
pub mod entry;
pub mod cli;
