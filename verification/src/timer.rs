//! The timer that says when the next ping is due, run by `bevy`.

use vstd::prelude::*;

use crate::duration::{Duration, MAX_NANOS};

verus! {

/// What a [`PingTimer`] stands at, in nanoseconds.
pub struct TimerState {
    /// Time between two rings.
    pub interval: nat,
    /// Time since the last ring or restart.
    pub elapsed: nat,
    /// Whether the last step reached a ring.
    pub finished: bool,
}

impl TimerState {
    /// A timer that has not run yet.
    pub open spec fn fresh(interval: nat) -> TimerState {
        TimerState { interval, elapsed: 0, finished: false }
    }

    /// The timer `delta` later. When it rings, what is left over counts towards the next ring;
    /// no more than the low 64 bits of that rest are kept.
    pub open spec fn ticked(self, delta: nat) -> TimerState {
        let total = self.elapsed + delta;
        if total < self.interval {
            TimerState { elapsed: total, finished: false, ..self }
        } else if self.interval == 0 {
            TimerState { elapsed: 0, finished: true, ..self }
        } else {
            TimerState {
                elapsed: (total % self.interval) % 0x1_0000_0000_0000_0000,
                finished: true,
                ..self
            }
        }
    }
}

/// A timer that rings once per interval.
#[derive(Clone, Copy, Debug)]
pub struct PingTimer {
    interval: Duration,
    elapsed: Duration,
    finished: bool,
}

impl View for PingTimer {
    type V = TimerState;

    closed spec fn view(&self) -> TimerState {
        TimerState {
            interval: self.interval@,
            elapsed: self.elapsed@,
            finished: self.finished,
        }
    }
}

/// Calls `bevy::prelude::Timer::new` for a repeating timer. Trusted: it has run for no time and
/// has not finished.
#[verifier::external_body]
fn repeating_timer(interval: Duration) -> (r: PingTimer)
    ensures
        r@ == TimerState::fresh(interval@),
{
    let timer = bevy::prelude::Timer::new(
        std::time::Duration::new(interval.secs, interval.nanos),
        bevy::time::TimerMode::Repeating,
    );
    let elapsed = timer.elapsed();
    PingTimer {
        interval,
        elapsed: Duration { secs: elapsed.as_secs(), nanos: elapsed.subsec_nanos() },
        finished: timer.finished(),
    }
}

/// Calls `bevy::prelude::Timer::tick` on a repeating timer that is not paused. Trusted: it
/// finishes just when the elapsed time reaches the interval, and then keeps what is left over,
/// see [`TimerState::ticked`]. An elapsed time beyond the longest span panics there, and is left
/// out here.
#[verifier::external_body]
fn tick_timer(timer: PingTimer, delta: Duration) -> (r: PingTimer)
    requires
        timer@.elapsed + delta@ <= MAX_NANOS,
    ensures
        r@ == timer@.ticked(delta@),
{
    let mut inner = bevy::prelude::Timer::new(
        std::time::Duration::new(timer.interval.secs, timer.interval.nanos),
        bevy::time::TimerMode::Repeating,
    );
    inner.set_elapsed(std::time::Duration::new(timer.elapsed.secs, timer.elapsed.nanos));
    inner.tick(std::time::Duration::new(delta.secs, delta.nanos));
    let elapsed = inner.elapsed();
    PingTimer {
        interval: timer.interval,
        elapsed: Duration { secs: elapsed.as_secs(), nanos: elapsed.subsec_nanos() },
        finished: inner.finished(),
    }
}

/// Calls `bevy::prelude::Timer::reset`. Trusted: the timer starts over, with its interval kept.
#[verifier::external_body]
fn reset_timer(timer: PingTimer) -> (r: PingTimer)
    ensures
        r@ == TimerState::fresh(timer@.interval),
{
    let mut inner = bevy::prelude::Timer::new(
        std::time::Duration::new(timer.interval.secs, timer.interval.nanos),
        bevy::time::TimerMode::Repeating,
    );
    inner.set_elapsed(std::time::Duration::new(timer.elapsed.secs, timer.elapsed.nanos));
    inner.reset();
    let elapsed = inner.elapsed();
    PingTimer {
        interval: timer.interval,
        elapsed: Duration { secs: elapsed.as_secs(), nanos: elapsed.subsec_nanos() },
        finished: inner.finished(),
    }
}

impl PingTimer {
    /// A timer that first rings `interval` from now.
    pub fn new(interval: Duration) -> (r: PingTimer)
        ensures
            r@ == TimerState::fresh(interval@),
    {
        repeating_timer(interval)
    }

    /// Lets `delta` pass.
    pub fn tick(&mut self, delta: Duration)
        requires
            old(self)@.elapsed + delta@ <= MAX_NANOS,
        ensures
            final(self)@ == old(self)@.ticked(delta@),
    {
        *self = tick_timer(*self, delta);
    }

    /// Whether the last step reached a ring.
    pub fn finished(&self) -> (r: bool)
        ensures
            r == self@.finished,
    {
        self.finished
    }

    /// Time since the last ring or restart.
    pub fn elapsed(&self) -> (r: Duration)
        ensures
            r@ == self@.elapsed,
    {
        self.elapsed
    }

    /// Starts over.
    pub fn reset(&mut self)
        ensures
            final(self)@ == TimerState::fresh(old(self)@.interval),
    {
        *self = reset_timer(*self);
    }
}

} // verus!
