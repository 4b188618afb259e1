//! What a [`SyncManager`](crate::sync::SyncManager) knows, and what each event makes of it.

use vstd::prelude::*;

use crate::config::SyncConfig;
use crate::delta::MAX_DELTA_NANOS;
use crate::duration::MAX_NANOS;
use crate::ping::{Pings, TimeSyncPingMessage, TimeSyncPongMessage};
use crate::ready_buffer::{later_items, TimedItem};
use crate::stats::{measured, SyncStats};
use crate::time::RelativeSpeed;
use crate::timer::TimerState;
use crate::wrapped::{PingId, Tick, WrappedTime};

verus! {

/// How far the client's tick may be behind the server's before it must have started over.
pub const WRAP_THRESHOLD: i32 = 31_767;

/// What is added to a tick that has started over: one short of a full turn of ticks, which is
/// 65 536.
pub const WRAP_CORRECTION: i32 = 65_535;

/// The client's tick, counted on if it has started over since the server was at `server`. The count
/// is then one short of a full turn, so that tick 0 counts like the largest tick, 65 535.
pub open spec fn unwrapped_tick(client: Tick, server: Tick) -> nat {
    if server.0 - client.0 > WRAP_THRESHOLD {
        (client.0 + WRAP_CORRECTION) as nat
    } else {
        client.0 as nat
    }
}

/// The speed for a client that is `error` nanoseconds further ahead than it should be, where
/// `margin` nanoseconds either way do not matter.
pub open spec fn speed_for(error: int, margin: nat) -> RelativeSpeed {
    if error > margin {
        RelativeSpeed::SlowDown
    } else if error < -margin {
        RelativeSpeed::SpeedUp
    } else {
        RelativeSpeed::Normal
    }
}

/// All that a manager knows. Spans are in nanoseconds.
#[verifier::ext_equal]
pub struct SyncState {
    /// The settings.
    pub config: SyncConfig,
    /// When the next ping is due.
    pub timer: TimerState,
    /// The pings that await their pongs.
    pub pings: Pings,
    /// The latest ping whose pong has arrived.
    pub most_recent_received_ping: PingId,
    /// The measurements that count.
    pub samples: Seq<TimedItem<SyncStats>>,
    /// Estimated time to the server and back.
    pub rtt: nat,
    /// Estimated variation of the time to the server.
    pub jitter: nat,
    /// Whether the handshake is over.
    pub synced: bool,
    /// The tick that the server last told.
    pub server_tick: Tick,
    /// Time since the server told it.
    pub since_server_tick: nat,
}

impl SyncState {
    /// A manager that has heard nothing from the server.
    pub open spec fn initial(config: SyncConfig) -> SyncState {
        SyncState {
            config,
            timer: TimerState::fresh(config.sync_ping_interval@),
            pings: Pings::none(),
            most_recent_received_ping: PingId(65_534),
            samples: Seq::empty(),
            rtt: 0,
            jitter: 0,
            synced: false,
            server_tick: Tick(0),
            since_server_tick: 0,
        }
    }

    /// Whether the spans that a frame adds to stay in range.
    pub open spec fn can_update(self, delta: nat) -> bool {
        &&& self.timer.elapsed + delta <= MAX_NANOS
        &&& self.since_server_tick + delta <= MAX_NANOS
    }

    /// Which measurements still count at `now`: all until the handshake is over, and after that
    /// those of the last while.
    pub open spec fn current_samples(self, now: WrappedTime) -> Seq<TimedItem<SyncStats>> {
        if self.synced {
            later_items(self.samples, now.before(self.config.stats_buffer_duration@))
        } else {
            self.samples
        }
    }

    /// A frame of length `delta` has ended at `now`.
    pub open spec fn updated(self, now: WrappedTime, delta: nat) -> SyncState {
        SyncState {
            timer: self.timer.ticked(delta),
            since_server_tick: self.since_server_tick + delta,
            samples: self.current_samples(now),
            ..self
        }
    }

    /// The ping that is due, if any, when the client is at tick `tick`.
    pub open spec fn due_ping(self, tick: Tick) -> Option<TimeSyncPingMessage> {
        if self.timer.finished {
            Some(TimeSyncPingMessage { id: self.pings.next, tick, ping_received_time: None })
        } else {
            None
        }
    }

    /// The ping that is due has been sent at `now`, if there was one.
    pub open spec fn ping_sent(self, now: WrappedTime) -> SyncState {
        if self.timer.finished {
            SyncState {
                timer: TimerState::fresh(self.timer.interval),
                pings: self.pings.pushed(now),
                ..self
            }
        } else {
            self
        }
    }

    /// Whether `pong` tells something new: it answers a ping that awaits it, which was sent after
    /// all whose pongs have been measured.
    pub open spec fn accepts(self, pong: TimeSyncPongMessage) -> bool {
        &&& self.pings.time_of(pong.ping_id) is Some
        &&& pong.ping_id.later_than(self.most_recent_received_ping)
    }

    /// `pong` has arrived at `now`.
    pub open spec fn pong_received(self, pong: TimeSyncPongMessage, now: WrappedTime) -> SyncState {
        let pings = self.pings.removed(pong.ping_id);
        if self.accepts(pong) {
            let sent = self.pings.time_of(pong.ping_id)->0;
            let samples = self.samples.push(
                TimedItem { key: now, item: measured(sent, pong, now) },
            );
            SyncState {
                pings,
                most_recent_received_ping: pong.ping_id,
                samples,
                synced: self.synced || samples.len() >= self.config.handshake_pings,
                ..self
            }
        } else {
            SyncState { pings, ..self }
        }
    }

    /// The network has been estimated anew.
    pub open spec fn estimated(self, rtt: nat, jitter: nat) -> SyncState {
        SyncState { rtt, jitter, ..self }
    }

    /// How long the server has been running, if the last tick that it told took half of a round
    /// trip to arrive and each tick takes `tick_duration`.
    pub open spec fn server_run_time(self, tick_duration: nat) -> nat {
        tick_duration * self.server_tick.0 as nat + self.since_server_tick + self.rtt / 2
    }

    /// What the server's clock shows now.
    pub open spec fn current_server_time(self, tick_duration: nat) -> WrappedTime {
        WrappedTime::at((self.server_run_time(tick_duration) / 1_000) as int)
    }

    /// What the server's clock shows when a packet arrives that is sent now.
    pub open spec fn predicted_server_receive_time(self, tick_duration: nat) -> WrappedTime {
        self.current_server_time(tick_duration).after(self.rtt / 2)
    }

    /// How far the client should be ahead of the time at which its packets arrive.
    pub open spec fn client_ahead_minimum(self, tick_duration: nat) -> nat {
        self.jitter * self.config.jitter_multiple_margin as nat + tick_duration
            * self.config.tick_margin as nat
    }

    /// Whether the spans stay in range that say where the client should be.
    pub open spec fn can_predict(self, tick_duration: nat) -> bool {
        &&& self.server_run_time(tick_duration) <= MAX_NANOS
        &&& self.client_ahead_minimum(tick_duration) <= MAX_NANOS
    }

    /// The time at which the client should be.
    pub open spec fn client_ideal_time(self, tick_duration: nat) -> WrappedTime {
        self.predicted_server_receive_time(tick_duration).after(
            self.client_ahead_minimum(tick_duration),
        )
    }

    /// The tick at which the client should be.
    pub open spec fn client_ideal_tick(self, tick_duration: nat) -> Tick {
        let tick_us = (tick_duration / 1_000) % 0x1_0000_0000;
        let ticks = self.client_ideal_time(tick_duration).elapsed_us_wrapped as nat / tick_us;
        Tick((ticks % 0x1_0000) as u16)
    }

    /// Whether the client's tick can be set: a tick takes at least a microsecond on the clock,
    /// and the spans stay in range.
    pub open spec fn can_finalize(self, tick_duration: nat) -> bool {
        &&& (tick_duration / 1_000) % 0x1_0000_0000 != 0
        &&& self.can_predict(tick_duration)
    }

    /// How long the client has been running at tick `tick`, `overstep` past its start.
    pub open spec fn client_run_time(self, tick: Tick, tick_duration: nat, overstep: nat) -> nat {
        tick_duration * unwrapped_tick(tick, self.server_tick) + overstep
    }

    /// How many microseconds the client is ahead of the time at which its packets arrive.
    pub open spec fn client_ahead_us(self, tick: Tick, tick_duration: nat, overstep: nat) -> int {
        let run_time = self.client_run_time(tick, tick_duration, overstep);
        WrappedTime::at((run_time / 1_000) as int).ahead_of(
            self.predicted_server_receive_time(tick_duration),
        )
    }

    /// How many nanoseconds the client is further ahead than it should be.
    pub open spec fn client_error(self, tick: Tick, tick_duration: nat, overstep: nat) -> int {
        self.client_ahead_us(tick, tick_duration, overstep) * 1_000 - self.client_ahead_minimum(
            tick_duration,
        )
    }

    /// Whether the spans stay in range that say how far the client is off, where `margin` does
    /// not matter.
    pub open spec fn can_compare(
        self,
        tick: Tick,
        tick_duration: nat,
        overstep: nat,
        margin: nat,
    ) -> bool {
        &&& self.can_predict(tick_duration)
        &&& self.client_run_time(tick, tick_duration, overstep) <= MAX_NANOS
        &&& self.client_ahead_minimum(tick_duration) <= MAX_DELTA_NANOS
        &&& self.client_error(tick, tick_duration, overstep) >= -MAX_DELTA_NANOS
        &&& margin <= MAX_DELTA_NANOS
    }
}

} // verus!
