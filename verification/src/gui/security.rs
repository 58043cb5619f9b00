//! The fields of the change-password and settings dialogs.
use vstd::prelude::*;
use crate::wipe::zeroize_string;

verus! {

/// What the security dialogs hold while they are open.
pub struct Security {
    pub change_password_open: bool,
    pub settings_open: bool,
    pub current: String,
    pub new: String,
    pub confirm: String,
    pub auto_lock_secs: u64,
}

impl Default for Security {
    fn default() -> (s: Security)
        ensures
            !s.change_password_open,
            !s.settings_open,
            s.current@.len() == 0,
            s.new@.len() == 0,
            s.confirm@.len() == 0,
            s.auto_lock_secs == 0,
    {
        Security {
            change_password_open: false,
            settings_open: false,
            current: String::new(),
            new: String::new(),
            confirm: String::new(),
            auto_lock_secs: 0,
        }
    }
}

impl Security {
    /// Wipes the three password fields in place, leaving the rest as it was.
    pub fn clear_password_fields(&mut self)
        ensures
            final(self).current@.len() == 0,
            final(self).new@.len() == 0,
            final(self).confirm@.len() == 0,
            final(self).change_password_open == old(self).change_password_open,
            final(self).settings_open == old(self).settings_open,
            final(self).auto_lock_secs == old(self).auto_lock_secs,
    {
        zeroize_string(&mut self.current);
        zeroize_string(&mut self.new);
        zeroize_string(&mut self.confirm);
    }
}

} // verus!
