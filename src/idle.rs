//! Idle-timeout bookkeeping of one guild.
use vstd::prelude::*;

verus! {

/// Idle threshold, in minutes, of a guild that set none.
pub const DEFAULT_IDLE_MINUTES: usize = 5;

/// Whether a guild idle since minute `last` has passed its threshold at
/// minute `tick`. A threshold of zero never passes.
pub open spec fn idle_expired(timeout: usize, last: usize, tick: usize) -> bool {
    timeout > 0 && tick - last >= timeout
}

/// The inactivity threshold of a guild and the minute playback last started.
pub struct IdleTimeoutInfo {
    /// Minutes without playback before the guild is left; 0 means never.
    pub timeout_minutes: usize,
    /// Minute, counted from joining, at which a track last started.
    pub last_activity: usize,
}

impl Default for IdleTimeoutInfo {
    fn default() -> (r: Self)
        ensures
            r.timeout_minutes == DEFAULT_IDLE_MINUTES,
            r.last_activity == 0,
    {
        IdleTimeoutInfo { timeout_minutes: DEFAULT_IDLE_MINUTES, last_activity: 0 }
    }
}

impl IdleTimeoutInfo {
    /// The default threshold, activity at minute zero.
    pub fn new() -> (r: Self)
        ensures
            r.timeout_minutes == DEFAULT_IDLE_MINUTES,
            r.last_activity == 0,
    {
        IdleTimeoutInfo::default()
    }

    /// Sets the threshold; 0 disables idle eviction.
    pub fn set_timeout(&mut self, minutes: usize)
        ensures
            *final(self) == (IdleTimeoutInfo { timeout_minutes: minutes, ..*old(self) }),
    {
        self.timeout_minutes = minutes;
    }

    /// Restarts the count at minute `tick`, as on joining a channel.
    pub fn reset(&mut self, tick: usize)
        ensures
            *final(self) == (IdleTimeoutInfo { last_activity: tick, ..*old(self) }),
    {
        self.last_activity = tick;
    }

    /// Records that a track started at minute `tick`; the record never goes
    /// back in time.
    pub fn bump_activity(&mut self, tick: usize)
        ensures
            final(self).timeout_minutes == old(self).timeout_minutes,
            final(self).last_activity == if tick > old(self).last_activity {
                tick
            } else {
                old(self).last_activity
            },
    {
        if tick > self.last_activity {
            self.last_activity = tick;
        }
    }

    /// Whether the threshold has passed at minute `tick`.
    pub fn is_idle_expired(&self, tick: usize) -> (r: bool)
        ensures
            r == idle_expired(self.timeout_minutes, self.last_activity, tick),
    {
        self.timeout_minutes > 0 && tick >= self.last_activity && tick - self.last_activity
            >= self.timeout_minutes
    }
}

} // verus!
