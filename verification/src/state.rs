//! When the presence is to be cleared: the idle timer of the polling loop.
//!
//! Time points are nanoseconds on a monotonic clock chosen by the caller (in the
//! application, the time elapsed since it started); durations are nanoseconds too.

use vstd::prelude::*;

verus! {

/// Nanoseconds in a second.
pub open spec fn nanos_per_sec() -> int {
    1_000_000_000
}

/// Time from `since` to `now`, or zero when `now` is earlier (as `Instant::elapsed`
/// saturates).
pub open spec fn elapsed(since: u128, now: u128) -> int {
    if now >= since {
        now - since
    } else {
        0
    }
}

/// The idle timer: when the user was last seen playing, whether the last poll saw them
/// playing, and how long without play clears the presence.
#[derive(Debug, Clone, Copy, PartialEq, Eq)]
pub struct AppState {
    pub last_play_time: Option<u128>,
    pub was_playing: bool,
    pub idle_timeout: u128,
}

impl AppState {
    /// Having been seen playing implies a time of last play.
    pub open spec fn inv(self) -> bool {
        self.was_playing ==> self.last_play_time is Some
    }

    /// The timer after a poll that saw the user playing or not at time `now`.
    pub open spec fn after_poll(self, is_playing: bool, now: u128) -> AppState {
        if is_playing {
            AppState { last_play_time: Some(now), was_playing: true, ..self }
        } else if self.was_playing && self.last_play_time is Some {
            AppState { was_playing: false, ..self }
        } else {
            self
        }
    }

    /// The timer after a reset: no play seen, same timeout.
    pub open spec fn after_reset(self) -> AppState {
        AppState { last_play_time: None, was_playing: false, ..self }
    }

    /// At time `now` the presence is to be cleared: the user was seen playing and at
    /// least the idle timeout has passed since.
    pub open spec fn spec_should_clear(self, now: u128) -> bool {
        match self.last_play_time {
            Some(t) => elapsed(t, now) >= self.idle_timeout,
            None => false,
        }
    }

    /// A timer with no play seen, clearing after `idle_timeout_secs` seconds without play.
    pub fn new(idle_timeout_secs: u64) -> (r: Self)
        ensures
            r.last_play_time is None,
            !r.was_playing,
            r.idle_timeout == idle_timeout_secs * nanos_per_sec(),
            r.inv(),
    {
        assert(idle_timeout_secs * 1_000_000_000 <= 0xffff_ffff_ffff_ffff * 1_000_000_000)
            by (nonlinear_arith);
        AppState {
            last_play_time: None,
            was_playing: false,
            idle_timeout: (idle_timeout_secs as u128) * 1_000_000_000,
        }
    }

    /// Records a poll at time `now`: playing sets the time of last play to `now`; not
    /// playing keeps it, and only notes that play has stopped.
    pub fn update_playing(&mut self, is_playing: bool, now: u128)
        ensures
            *final(self) == old(self).after_poll(is_playing, now),
            old(self).inv() ==> final(self).inv(),
    {
        if is_playing {
            self.last_play_time = Some(now);
            self.was_playing = true;
        } else if self.was_playing && self.last_play_time.is_some() {
            self.was_playing = false;
        }
    }

    /// Whether at time `now` the presence is to be cleared.
    pub fn should_clear(&self, now: u128) -> (r: bool)
        ensures
            r == self.spec_should_clear(now),
    {
        match self.last_play_time {
            Some(t) => {
                let passed: u128 = if now >= t { now - t } else { 0 };
                passed >= self.idle_timeout
            },
            None => false,
        }
    }

    /// Forgets the play seen so far; the timeout stays.
    pub fn reset(&mut self)
        ensures
            *final(self) == old(self).after_reset(),
            final(self).inv(),
    {
        self.last_play_time = None;
        self.was_playing = false;
    }
}

/// After a poll that saw the user playing at `t`, the presence is to be cleared at a
/// later time exactly when the idle timeout has passed since `t`.
pub proof fn clears_exactly_after_timeout(s: AppState, t: u128, now: u128)
    requires
        t <= now,
    ensures
        s.after_poll(true, t).spec_should_clear(now) <==> now - t >= s.idle_timeout,
{
}

/// A poll that does not see the user playing never moves the time of last play, so the
/// idle time keeps counting from the last play.
pub proof fn idle_time_counts_from_last_play(s: AppState, now: u128)
    ensures
        s.after_poll(false, now).last_play_time == s.last_play_time,
        s.after_poll(false, now).idle_timeout == s.idle_timeout,
{
}

/// While the user keeps playing, the presence is never due to be cleared at the time of
/// a poll, unless the idle timeout is zero.
pub proof fn playing_is_never_idle(s: AppState, now: u128)
    requires
        s.idle_timeout > 0,
    ensures
        !s.after_poll(true, now).spec_should_clear(now),
{
}

/// A timer that was reset (or never saw play) is never due to clear, until play is seen
/// again.
pub proof fn reset_timer_never_clears(s: AppState, now: u128)
    ensures
        !s.after_reset().spec_should_clear(now),
        !s.after_reset().after_poll(false, now).spec_should_clear(now),
{
}

/// Every operation keeps the invariant of the timer.
pub proof fn timer_invariant_kept(s: AppState, is_playing: bool, now: u128)
    requires
        s.inv(),
    ensures
        s.after_poll(is_playing, now).inv(),
        s.after_reset().inv(),
{
}

} // verus!
