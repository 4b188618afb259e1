//! The client's tick.

use vstd::prelude::*;

use crate::duration::Duration;
use crate::wrapped::Tick;

verus! {

/// How the simulation is cut into ticks.
#[derive(Clone, Copy, Debug)]
pub struct TickConfig {
    /// How long one tick takes.
    pub tick_duration: Duration,
}

/// Holds the client's current tick.
#[derive(Clone, Copy, Debug)]
pub struct TickManager {
    pub config: TickConfig,
    pub tick: Tick,
}

impl TickManager {
    /// A manager at tick zero.
    pub fn from_config(config: TickConfig) -> (r: TickManager)
        ensures
            r.config == config,
            r.tick == Tick(0),
    {
        TickManager { config, tick: Tick(0) }
    }

    /// The current tick.
    pub fn current_tick(&self) -> (r: Tick)
        ensures
            r == self.tick,
    {
        self.tick
    }

    /// Moves to `tick`.
    pub fn set_tick_to(&mut self, tick: Tick)
        ensures
            *final(self) == (TickManager { tick, ..*old(self) }),
    {
        self.tick = tick;
    }
}

} // verus!
