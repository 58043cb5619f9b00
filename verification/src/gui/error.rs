//! Errors of the front end.
use vstd::prelude::*;
use vstd::string::StringExecFns;
use crate::vault::error::{vault_error_text, VaultError};

verus! {

/// A failure the front end reports to the user.
#[derive(Debug)]
pub enum GuiError {
    /// The vault layer failed.
    Core(VaultError),
    /// A required field of the editor is blank.
    EmptyData,
    /// The current master password given to change it is wrong.
    InvalidMasterPassword,
    /// The new master password and its confirmation differ.
    PasswordMismatch,
}

/// The message of an error.
pub open spec fn gui_error_text(e: GuiError) -> Seq<char> {
    match e {
        GuiError::Core(c) => vault_error_text(c),
        GuiError::EmptyData => "Required fields are not filled in"@,
        GuiError::InvalidMasterPassword => "Current master password is incorrect"@,
        GuiError::PasswordMismatch => "New passwords do not match"@,
    }
}

impl GuiError {
    /// The message shown for the error.
    pub fn message(&self) -> (r: String)
        ensures
            r@ == gui_error_text(*self),
    {
        match self {
            GuiError::Core(e) => e.message(),
            GuiError::EmptyData => String::from_str("Required fields are not filled in"),
            GuiError::InvalidMasterPassword => String::from_str("Current master password is incorrect"),
            GuiError::PasswordMismatch => String::from_str("New passwords do not match"),
        }
    }
}

} // verus!
