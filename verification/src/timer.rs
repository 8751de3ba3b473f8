//! The countdown timer: counts down from a whole-second duration to zero. The
//! foreground reads `remaining` and may request a stop; one external driver
//! calls `tick_second` once per wall-clock second.

use vstd::prelude::*;

verus! {

/// A countdown from `duration` seconds towards zero. `remaining` never rises
/// except through `start`, and `start` on a running timer is a no-op, so a
/// session can never gain a second decrement source.
#[derive(Debug, PartialEq, Eq, Structural, Copy, Clone)]
pub struct CountdownTimer {
    pub running: bool,
    pub remaining: u64,
    pub duration: u64,
}

/// What `start` does: nothing on a running timer, otherwise arms the timer with
/// the full duration.
pub open spec fn spec_start(t: CountdownTimer, duration: u64) -> CountdownTimer {
    if t.running {
        t
    } else {
        CountdownTimer { running: true, remaining: duration, duration }
    }
}

/// What `stop` does: clears the running flag and keeps the remaining value.
pub open spec fn spec_stop(t: CountdownTimer) -> CountdownTimer {
    CountdownTimer { running: false, ..t }
}

/// What one second of wall-clock time does: decrements a running timer by one
/// until it reaches zero, and leaves a stopped or expired timer alone.
pub open spec fn spec_tick(t: CountdownTimer) -> CountdownTimer {
    if t.running && t.remaining > 0 {
        CountdownTimer { remaining: (t.remaining - 1) as u64, ..t }
    } else {
        t
    }
}

impl CountdownTimer {
    /// The remaining value never exceeds the duration the timer was armed with.
    pub open spec fn inv(self) -> bool {
        self.remaining <= self.duration
    }

    /// A stopped timer with nothing remaining.
    pub fn new() -> (r: Self)
        ensures
            r == (CountdownTimer { running: false, remaining: 0, duration: 0 }),
            r.inv(),
    {
        CountdownTimer { running: false, remaining: 0, duration: 0 }
    }

    /// Arms the timer unless it is already running; a repeated start is a
    /// no-op, so no second countdown is ever spawned.
    pub fn start(&mut self, duration: u64)
        ensures
            *final(self) == spec_start(*old(self), duration),
            old(self).inv() ==> final(self).inv(),
    {
        if !self.running {
            self.running = true;
            self.remaining = duration;
            self.duration = duration;
        }
    }

    /// Requests the countdown to cease; the remaining value stays readable.
    pub fn stop(&mut self)
        ensures
            *final(self) == spec_stop(*old(self)),
            old(self).inv() ==> final(self).inv(),
    {
        self.running = false;
    }

    /// One second of wall-clock time has passed.
    pub fn tick_second(&mut self)
        ensures
            *final(self) == spec_tick(*old(self)),
            old(self).inv() ==> final(self).inv(),
    {
        if self.running && self.remaining > 0 {
            self.remaining = self.remaining - 1;
        }
    }

    pub fn is_running(&self) -> (r: bool)
        ensures
            r == self.running,
    {
        self.running
    }

    pub fn remaining(&self) -> (r: u64)
        ensures
            r == self.remaining,
    {
        self.remaining
    }
}

/// Starting a timer that is already armed spawns no second decrement source:
/// the second `start` changes nothing, and one second still removes at most one
/// unit from the remaining value.
pub proof fn lemma_start_twice_single_decrement(t: CountdownTimer, d1: u64, d2: u64)
    ensures
        spec_start(spec_start(t, d1), d2) == spec_start(t, d1),
        spec_start(t, d1).remaining - spec_tick(spec_start(spec_start(t, d1), d2)).remaining
            <= 1,
{
}

} // verus!
