//! The client's clock.

use vstd::prelude::*;

use crate::duration::Duration;
use crate::wrapped::WrappedTime;

verus! {

/// How fast the simulation should run for its ticks to stay in step with the server.
#[derive(Clone, Copy, Debug, PartialEq, Eq)]
pub enum RelativeSpeed {
    /// Slower than real time.
    SlowDown,
    /// In real time.
    Normal,
    /// Faster than real time.
    SpeedUp,
}

/// Holds the client's clock.
#[derive(Clone, Copy, Debug)]
pub struct TimeManager {
    /// What the clock shows.
    pub wrapped_time: WrappedTime,
    /// How long the last frame took.
    pub delta: Duration,
    /// How much of the last frame is left after its ticks have run.
    pub overstep: Duration,
    /// How fast the simulation should run.
    pub sync_relative_speed: RelativeSpeed,
}

impl TimeManager {
    /// A clock that has not run yet.
    pub fn new() -> (r: TimeManager)
        ensures
            r.wrapped_time.elapsed_us_wrapped == 0,
            r.delta@ == 0,
            r.overstep@ == 0,
            r.sync_relative_speed == RelativeSpeed::Normal,
    {
        TimeManager {
            wrapped_time: WrappedTime::new(0),
            delta: Duration::default(),
            overstep: Duration::default(),
            sync_relative_speed: RelativeSpeed::Normal,
        }
    }

    /// Starts a frame `delta` after the last one, which leaves `overstep` after its ticks.
    pub fn update(&mut self, delta: Duration, overstep: Duration)
        ensures
            *final(self) == (TimeManager {
                wrapped_time: old(self).wrapped_time.after(delta@),
                delta,
                overstep,
                ..*old(self)
            }),
    {
        self.wrapped_time = self.wrapped_time.plus(delta);
        self.delta = delta;
        self.overstep = overstep;
    }

    /// What the clock shows.
    pub fn current_time(&self) -> (r: WrappedTime)
        ensures
            r == self.wrapped_time,
    {
        self.wrapped_time
    }

    /// How long the last frame took.
    pub fn delta(&self) -> (r: Duration)
        ensures
            r == self.delta,
    {
        self.delta
    }

    /// How much of the last frame is left after its ticks have run.
    pub fn overstep(&self) -> (r: Duration)
        ensures
            r == self.overstep,
    {
        self.overstep
    }
}

} // verus!
