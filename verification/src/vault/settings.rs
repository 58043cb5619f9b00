//! The persisted application settings.
use vstd::prelude::*;

verus! {

/// Idle time after which the vault locks itself unless the user chose otherwise.
pub const DEFAULT_AUTO_LOCK_SECS: u64 = 300;

/// Settings kept between runs.
#[derive(Debug, Clone, Copy)]
pub struct AppSettings {
    /// Seconds of inactivity after which the vault locks.
    pub auto_lock_secs: u64,
}

impl Default for AppSettings {
    fn default() -> (s: AppSettings)
        ensures
            s.auto_lock_secs == DEFAULT_AUTO_LOCK_SECS,
    {
        AppSettings { auto_lock_secs: DEFAULT_AUTO_LOCK_SECS }
    }
}

} // verus!
