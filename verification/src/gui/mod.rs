//! The state of the graphical front end: what the user is editing, the session timer,
//! the status line, the pending command and the unlocked vault.
pub mod auth;
pub mod command;
pub mod editor;
pub mod entries;
pub mod error;
pub mod security;
pub mod session;
pub mod state;
pub mod status;
pub mod table;
pub mod widgets;
