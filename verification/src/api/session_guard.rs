//! In-memory session pause/cooldown guard.
use vstd::prelude::*;
use crate::error::Error;
use crate::types::SESSION_PAUSE_DURATION_MS;
use crate::util::now_ms;

verus! {

/// The pause deadline set by a pause at `now`: one pause duration later, capped at `u64::MAX`.
pub open spec fn pause_deadline(now: u64) -> u64 {
    if now + SESSION_PAUSE_DURATION_MS <= u64::MAX {
        (now + SESSION_PAUSE_DURATION_MS) as u64
    } else {
        u64::MAX
    }
}

/// Whether a guard with deadline `until` is paused at time `now` (`until == 0`: never paused).
pub open spec fn paused_at(until: u64, now: u64) -> bool {
    until > 0 && now < until
}

/// Remaining pause time at `now` for deadline `until` (0 when not paused).
pub open spec fn remaining_at(until: u64, now: u64) -> u64 {
    if until == 0 || until <= now {
        0
    } else {
        (until - now) as u64
    }
}

/// Guards against API calls during a session-expired cooldown period.
pub struct SessionGuard {
    pause_until_ms: u64,
}

impl SessionGuard {
    /// The current pause deadline in ms since the epoch (0: never paused).
    pub closed spec fn deadline(&self) -> u64 {
        self.pause_until_ms
    }

    /// Create a new (unpaused) guard.
    pub fn new() -> (g: Self)
        ensures
            g.deadline() == 0,
    {
        SessionGuard { pause_until_ms: 0 }
    }

    /// Pause all API calls for one pause duration from `now`.
    pub fn pause_at(&mut self, now: u64)
        ensures
            final(self).deadline() == pause_deadline(now),
    {
        self.pause_until_ms = now.saturating_add(SESSION_PAUSE_DURATION_MS);
    }

    /// Pause all API calls for one hour from now.
    pub fn pause(&mut self)
        ensures
            exists|now: u64| final(self).deadline() == pause_deadline(now),
    {
        let now = now_ms();
        self.pause_at(now);
    }

    /// Whether the guard is within the cooldown window at `now`.
    pub fn is_paused_at(&self, now: u64) -> (r: bool)
        ensures
            r == paused_at(self.deadline(), now),
    {
        let until = self.pause_until_ms;
        until > 0 && now < until
    }

    /// Returns `true` if currently within the cooldown window.
    pub fn is_paused(&self) -> (r: bool)
        ensures
            exists|now: u64| r == paused_at(self.deadline(), now),
            self.deadline() == 0 ==> !r,
    {
        let now = now_ms();
        self.is_paused_at(now)
    }

    /// Remaining pause time at `now` in milliseconds (0 if not paused).
    pub fn remaining_ms_at(&self, now: u64) -> (r: u64)
        ensures
            r == remaining_at(self.deadline(), now),
    {
        let until = self.pause_until_ms;
        if until == 0 {
            return 0;
        }
        until.saturating_sub(now)
    }

    /// Returns remaining pause time in milliseconds (0 if not paused).
    pub fn remaining_ms(&self) -> (r: u64)
        ensures
            exists|now: u64| r == remaining_at(self.deadline(), now),
            r <= self.deadline(),
    {
        let now = now_ms();
        self.remaining_ms_at(now)
    }

    /// `Ok(())` if active at `now`, or `Err(SessionExpired)` if paused.
    pub fn assert_active_at(&self, now: u64) -> (r: Result<(), Error>)
        ensures
            paused_at(self.deadline(), now) ==> r matches Err(Error::SessionExpired),
            !paused_at(self.deadline(), now) ==> r is Ok,
    {
        if self.is_paused_at(now) {
            Err(Error::SessionExpired)
        } else {
            Ok(())
        }
    }

    /// Returns `Ok(())` if active, or `Err(SessionExpired)` if paused.
    pub fn assert_active(&self) -> (r: Result<(), Error>)
        ensures
            exists|now: u64|
                if paused_at(self.deadline(), now) {
                    r matches Err(Error::SessionExpired)
                } else {
                    r is Ok
                },
            self.deadline() == 0 ==> r is Ok,
    {
        let now = now_ms();
        let r = self.assert_active_at(now);
        assert(if paused_at(self.deadline(), now) {
            r matches Err(Error::SessionExpired)
        } else {
            r is Ok
        });
        r
    }
}

impl Default for SessionGuard {
    fn default() -> (g: Self)
        ensures
            g.deadline() == 0,
    {
        SessionGuard::new()
    }
}

/// After a pause at `now`, the guard is paused at every instant `t` from `now`
/// up to the deadline, with `deadline - t` remaining, and active afterwards with
/// nothing remaining.
pub proof fn law_pause_window(now: u64, t: u64)
    ensures
        now <= t < pause_deadline(now) ==> paused_at(pause_deadline(now), t) && remaining_at(
            pause_deadline(now),
            t,
        ) == pause_deadline(now) - t,
        t >= pause_deadline(now) ==> !paused_at(pause_deadline(now), t) && remaining_at(
            pause_deadline(now),
            t,
        ) == 0,
        now + SESSION_PAUSE_DURATION_MS <= u64::MAX ==> pause_deadline(now) == now
            + SESSION_PAUSE_DURATION_MS,
{
}

/// Time remains exactly while the guard is paused.
pub proof fn law_remaining_iff_paused(until: u64, now: u64)
    ensures
        remaining_at(until, now) > 0 <==> paused_at(until, now),
{
}

/// A guard that was never paused is active at every instant, with nothing remaining.
pub proof fn law_never_paused_is_active(now: u64)
    ensures
        !paused_at(0, now),
        remaining_at(0, now) == 0,
{
}

} // verus!
