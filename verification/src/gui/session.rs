//! The idle timer that locks the vault. Time is given as whole seconds on a monotonic
//! clock that the caller reads.
use vstd::prelude::*;
use crate::vault::settings::AppSettings;

verus! {

/// Shortest idle timeout that can be chosen.
pub const MIN_AUTO_LOCK_SECS: u64 = 60;

/// Longest idle timeout that can be chosen.
pub const MAX_AUTO_LOCK_SECS: u64 = 3600;

/// `secs` brought into the range of timeouts that can be chosen.
pub open spec fn clamp_timeout(secs: u64) -> u64 {
    if secs < MIN_AUTO_LOCK_SECS {
        MIN_AUTO_LOCK_SECS
    } else if secs > MAX_AUTO_LOCK_SECS {
        MAX_AUTO_LOCK_SECS
    } else {
        secs
    }
}

/// Seconds from `since` to `now`; zero if the clock reads earlier than `since`
/// (`Instant::elapsed` saturates the same way).
pub open spec fn elapsed(since: u64, now: u64) -> int {
    if now >= since {
        now - since
    } else {
        0
    }
}

/// Whether a session last active at `last` with timeout `timeout` is due to lock at `now`.
pub open spec fn due_to_lock(last: Option<u64>, timeout: u64, now: u64) -> bool {
    match last {
        None => false,
        Some(t) => elapsed(t, now) >= timeout,
    }
}

/// When the user was last active, and after how long of idleness the vault locks.
pub struct Session {
    pub last_activity: Option<u64>,
    pub auto_lock_secs: u64,
}

impl Session {
    /// A session with no activity yet, with the timeout of `settings`.
    pub fn new(settings: AppSettings) -> (s: Session)
        ensures
            s.last_activity is None,
            s.auto_lock_secs == settings.auto_lock_secs,
    {
        Session { last_activity: None, auto_lock_secs: settings.auto_lock_secs }
    }

    /// Records activity at `now`.
    pub fn touch(&mut self, now: u64)
        ensures
            final(self).last_activity == Some(now),
            final(self).auto_lock_secs == old(self).auto_lock_secs,
    {
        self.last_activity = Some(now);
    }

    /// The idle timeout in seconds.
    pub fn auto_lock_secs(&self) -> (r: u64)
        ensures
            r == self.auto_lock_secs,
    {
        self.auto_lock_secs
    }

    /// Sets the idle timeout, clamped to 60..=3600 seconds, and gives back the settings to
    /// persist.
    pub fn set_auto_lock_secs(&mut self, secs: u64) -> (saved: AppSettings)
        ensures
            final(self).auto_lock_secs == clamp_timeout(secs),
            final(self).last_activity == old(self).last_activity,
            saved.auto_lock_secs == clamp_timeout(secs),
    {
        let t = if secs < MIN_AUTO_LOCK_SECS {
            MIN_AUTO_LOCK_SECS
        } else if secs > MAX_AUTO_LOCK_SECS {
            MAX_AUTO_LOCK_SECS
        } else {
            secs
        };
        self.auto_lock_secs = t;
        AppSettings { auto_lock_secs: t }
    }

    /// Whether the session has been idle at least as long as the timeout at `now`. A
    /// session with no recorded activity never locks by itself.
    pub fn should_lock(&self, now: u64) -> (r: bool)
        ensures
            r == due_to_lock(self.last_activity, self.auto_lock_secs, now),
    {
        match self.last_activity {
            None => false,
            Some(last) => {
                let idle = if now >= last {
                    now - last
                } else {
                    0
                };
                idle >= self.auto_lock_secs
            },
        }
    }
}

/// Every timeout that can be set lies within 60..=3600 seconds, and one already in that
/// range is kept as it is.
pub proof fn lemma_timeout_in_range(secs: u64)
    ensures
        MIN_AUTO_LOCK_SECS <= clamp_timeout(secs) <= MAX_AUTO_LOCK_SECS,
        MIN_AUTO_LOCK_SECS <= secs <= MAX_AUTO_LOCK_SECS ==> clamp_timeout(secs) == secs,
{
}

/// Right after activity the session is not due to lock while the timeout is positive, and
/// it becomes due exactly once the timeout has passed.
pub proof fn lemma_touch_defers_lock(t: u64, timeout: u64, now: u64)
    requires
        timeout > 0,
        now >= t,
    ensures
        !due_to_lock(Some(t), timeout, t),
        due_to_lock(Some(t), timeout, now) <==> now - t >= timeout,
{
}

} // verus!
