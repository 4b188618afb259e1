//! The client's side of the synchronisation.

use vstd::prelude::*;

use crate::config::SyncConfig;
use crate::delta::{TimeDelta, MAX_DELTA_NANOS};
use crate::duration::{Duration, MAX_NANOS};
use crate::ping::{PingStore, TimeSyncPingMessage, TimeSyncPongMessage};
use crate::ready_buffer::{ReadyBuffer, TimedItem};
use crate::state::{speed_for, unwrapped_tick, SyncState, WRAP_CORRECTION, WRAP_THRESHOLD};
use crate::stats::{micros_between, FinalStats, SyncStats, SyncStatsBuffer};
use crate::tick::TickManager;
use crate::time::{RelativeSpeed, TimeManager};
use crate::timer::PingTimer;
use crate::wrapped::{PacketId, PingId, Tick, WrappedTime};

verus! {

/// When each packet was sent. Its view is the packets in the order in which they were added.
pub struct SentPacketStore {
    buffer: ReadyBuffer<PacketId>,
}

impl View for SentPacketStore {
    type V = Seq<TimedItem<PacketId>>;

    closed spec fn view(&self) -> Seq<TimedItem<PacketId>> {
        self.buffer@
    }
}

impl SentPacketStore {
    /// A store without packets.
    pub fn new() -> (r: SentPacketStore)
        ensures
            r@ == Seq::<TimedItem<PacketId>>::empty(),
    {
        SentPacketStore { buffer: ReadyBuffer::new() }
    }
}

impl Default for SentPacketStore {
    /// A store without packets.
    fn default() -> (r: SentPacketStore)
        ensures
            r@ == Seq::<TimedItem<PacketId>>::empty(),
    {
        SentPacketStore::new()
    }
}

/// Keeps the client's tick in step with the server's, from the moment of the connection on.
#[derive(Debug)]
pub struct SyncManager {
    pub config: SyncConfig,
    /// Says when the next ping is due.
    pub ping_timer: PingTimer,
    /// The pings that await their pongs.
    pub ping_store: PingStore,
    /// The latest ping whose pong has arrived.
    pub most_recent_received_ping: PingId,
    /// The measurements that count.
    pub sync_stats: SyncStatsBuffer,
    /// What the measurements come to.
    pub final_stats: FinalStats,
    /// Whether the handshake is over.
    pub synced: bool,
    /// The tick that the server told in the last packet that arrived.
    pub latest_received_server_tick: Tick,
    /// Time since that packet arrived.
    pub duration_since_latest_received_server_tick: Duration,
}

impl View for SyncManager {
    type V = SyncState;

    open spec fn view(&self) -> SyncState {
        SyncState {
            config: self.config,
            timer: self.ping_timer@,
            pings: self.ping_store@,
            most_recent_received_ping: self.most_recent_received_ping,
            samples: self.sync_stats@,
            rtt: self.final_stats.rtt@,
            jitter: self.final_stats.jitter@,
            synced: self.synced,
            server_tick: self.latest_received_server_tick,
            since_server_tick: self.duration_since_latest_received_server_tick@,
        }
    }
}

impl SyncManager {
    /// A manager that has heard nothing from the server.
    pub fn new(config: SyncConfig) -> (r: SyncManager)
        ensures
            r@ == SyncState::initial(config),
    {
        SyncManager {
            config,
            ping_timer: PingTimer::new(config.sync_ping_interval),
            ping_store: PingStore::new(),
            // two before the first ping, so that the first one is later
            most_recent_received_ping: PingId(65_534),
            sync_stats: SyncStatsBuffer::new(),
            final_stats: FinalStats::default(),
            synced: false,
            latest_received_server_tick: Tick(0),
            duration_since_latest_received_server_tick: Duration::default(),
        }
    }

    /// Estimated time to the server and back.
    pub fn rtt(&self) -> (r: Duration)
        ensures
            r == self.final_stats.rtt,
            r@ == self@.rtt,
    {
        self.final_stats.rtt
    }

    /// Estimated variation of the time to the server.
    pub fn jitter(&self) -> (r: Duration)
        ensures
            r == self.final_stats.jitter,
            r@ == self@.jitter,
    {
        self.final_stats.jitter
    }

    /// Whether the handshake is over.
    pub fn is_synced(&self) -> (r: bool)
        ensures
            r == self@.synced,
    {
        self.synced
    }

    /// Whether [`update`](SyncManager::update) stays in range.
    pub fn can_update(&self, time_manager: &TimeManager) -> (r: bool)
        ensures
            r == self@.can_update(time_manager.delta@),
    {
        let delta: u128 = time_manager.delta().as_nanos();
        let since: u128 = self.duration_since_latest_received_server_tick.as_nanos();
        self.ping_timer.elapsed().as_nanos() + delta <= MAX_NANOS && since + delta <= MAX_NANOS
    }

    /// Lets the last frame pass. Once the handshake is over, this drops the measurements that have
    /// become too old; the result says whether there were any, so that the network has to be
    /// estimated anew.
    pub fn update(&mut self, time_manager: &TimeManager) -> (stale: bool)
        requires
            old(self)@.can_update(time_manager.delta@),
        ensures
            final(self)@ == old(self)@.updated(time_manager.wrapped_time, time_manager.delta@),
            stale == (final(self)@.samples.len() != old(self)@.samples.len()),
    {
        self.ping_timer.tick(time_manager.delta());
        self.duration_since_latest_received_server_tick =
            self.duration_since_latest_received_server_tick.plus(time_manager.delta());
        if self.synced {
            let oldest_time = time_manager.current_time().minus(self.config.stats_buffer_duration);
            let old_len: usize = self.sync_stats.buffer.len();
            self.sync_stats.buffer.pop_until(&oldest_time);
            let new_len: usize = self.sync_stats.buffer.len();
            old_len != new_len
        } else {
            false
        }
    }

    /// The ping to send now, if one is due.
    pub fn maybe_prepare_ping(
        &mut self,
        time_manager: &TimeManager,
        tick_manager: &TickManager,
    ) -> (r: Option<TimeSyncPingMessage>)
        ensures
            r == old(self)@.due_ping(tick_manager.tick),
            final(self)@ == old(self)@.ping_sent(time_manager.wrapped_time),
    {
        if self.ping_timer.finished() {
            self.ping_timer.reset();
            let ping_id = self.ping_store.push_new(time_manager.current_time());
            return Some(
                TimeSyncPingMessage {
                    id: ping_id,
                    tick: tick_manager.current_tick(),
                    ping_received_time: None,
                },
            );
        }
        None
    }

    /// Takes a pong that has arrived now. The result says whether it is the one that ends the
    /// handshake, so that the network has to be estimated and the client's tick to be set, see
    /// [`finalize`](SyncManager::finalize).
    pub fn process_pong(&mut self, pong: &TimeSyncPongMessage, time_manager: &TimeManager) -> (
        finished: bool)
        ensures
            final(self)@ == old(self)@.pong_received(*pong, time_manager.wrapped_time),
            finished == (!old(self)@.synced && final(self)@.synced),
    {
        let client_received_time = time_manager.current_time();
        let ping_sent_time = match self.ping_store.remove(pong.ping_id) {
            Some(time) => time,
            None => {
                return false;
            },
        };
        if pong.ping_id.is_later_than(self.most_recent_received_ping) {
            self.most_recent_received_ping = pong.ping_id;
            let stats = SyncStats::measure(ping_sent_time, pong, client_received_time);
            self.sync_stats.buffer.add_item(client_received_time, stats);
            if !self.synced && self.sync_stats.buffer.len() >= self.config.handshake_pings as usize {
                self.synced = true;
                return true;
            }
        }
        false
    }

    /// Takes a new estimate of the network.
    pub fn apply_stats(&mut self, stats: FinalStats)
        ensures
            final(self)@ == old(self)@.estimated(stats.rtt@, stats.jitter@),
    {
        self.final_stats = stats;
    }

    /// What the server's clock shows now, by the last tick that it told.
    pub fn current_server_time(&self, tick_manager: &TickManager) -> (r: WrappedTime)
        requires
            self@.server_run_time(tick_manager.config.tick_duration@) <= MAX_NANOS,
        ensures
            r == self@.current_server_time(tick_manager.config.tick_duration@),
    {
        let told = tick_manager.config.tick_duration.times(
            self.latest_received_server_tick.0 as u32,
        );
        WrappedTime::from_duration(
            told.plus(self.duration_since_latest_received_server_tick).plus(self.rtt().half()),
        )
    }

    /// What the server's clock shows when a packet arrives that is sent now.
    pub fn predicted_server_receive_time(&self, tick_manager: &TickManager) -> (r: WrappedTime)
        requires
            self@.server_run_time(tick_manager.config.tick_duration@) <= MAX_NANOS,
        ensures
            r == self@.predicted_server_receive_time(tick_manager.config.tick_duration@),
    {
        self.current_server_time(tick_manager).plus(self.rtt().half())
    }

    /// How far the client should be ahead of the time at which its packets arrive.
    pub fn client_ahead_minimum(&self, tick_manager: &TickManager) -> (r: Duration)
        requires
            self@.client_ahead_minimum(tick_manager.config.tick_duration@) <= MAX_NANOS,
        ensures
            r@ == self@.client_ahead_minimum(tick_manager.config.tick_duration@),
    {
        let for_jitter = self.jitter().times(self.config.jitter_multiple_margin as u32);
        let for_ticks = tick_manager.config.tick_duration.times(self.config.tick_margin as u32);
        for_jitter.plus(for_ticks)
    }

    /// Where the client is, with its tick counted on if it has started over.
    fn current_client_time(&self, time_manager: &TimeManager, tick_manager: &TickManager) -> (r:
        WrappedTime)
        requires
            self@.client_run_time(
                tick_manager.tick,
                tick_manager.config.tick_duration@,
                time_manager.overstep@,
            ) <= MAX_NANOS,
        ensures
            r == WrappedTime::at(
                (self@.client_run_time(
                    tick_manager.tick,
                    tick_manager.config.tick_duration@,
                    time_manager.overstep@,
                ) / 1_000) as int,
            ),
    {
        let client_tick_raw: i32 = self.client_tick_raw(tick_manager);
        WrappedTime::from_duration(
            tick_manager.config.tick_duration.times(client_tick_raw as u32).plus(
                time_manager.overstep(),
            ),
        )
    }

    /// The client's tick, counted on by one short of a full turn if it has started over: the client
    /// is ahead of the server, so one far behind must have.
    fn client_tick_raw(&self, tick_manager: &TickManager) -> (r: i32)
        ensures
            r == unwrapped_tick(tick_manager.tick, self.latest_received_server_tick),
    {
        let client_tick_raw: i32 = tick_manager.current_tick().0 as i32;
        if self.latest_received_server_tick.0 as i32 - client_tick_raw > WRAP_THRESHOLD {
            client_tick_raw + WRAP_CORRECTION
        } else {
            client_tick_raw
        }
    }

    /// Whether [`finalize`](SyncManager::finalize) with `stats` stays in range and does not divide
    /// by zero.
    pub fn can_finalize(&self, stats: &FinalStats, tick_manager: &TickManager) -> (r: bool)
        ensures
            r == self@.estimated(stats.rtt@, stats.jitter@).can_finalize(
                tick_manager.config.tick_duration@,
            ),
    {
        tick_manager.config.tick_duration.as_micros() % 0x1_0000_0000 != 0 && self.predictable(
            stats,
            tick_manager,
        )
    }

    /// Whether the spans stay in range that say where the client should be, by the estimate
    /// `stats`.
    fn predictable(&self, stats: &FinalStats, tick_manager: &TickManager) -> (r: bool)
        ensures
            r == self@.estimated(stats.rtt@, stats.jitter@).can_predict(
                tick_manager.config.tick_duration@,
            ),
    {
        let tick_duration: u128 = tick_manager.config.tick_duration.as_nanos();
        let jitter: u128 = stats.jitter.as_nanos();
        let server_tick: u128 = self.latest_received_server_tick.0 as u128;
        let jitter_margin: u128 = self.config.jitter_multiple_margin as u128;
        let tick_margin: u128 = self.config.tick_margin as u128;
        assert(tick_duration * server_tick <= MAX_NANOS * 0xffff) by (nonlinear_arith)
            requires
                tick_duration <= MAX_NANOS,
                server_tick <= 0xffff,
        ;
        assert(jitter * jitter_margin <= MAX_NANOS * 0xff) by (nonlinear_arith)
            requires
                jitter <= MAX_NANOS,
                jitter_margin <= 0xff,
        ;
        assert(tick_duration * tick_margin <= MAX_NANOS * 0xff) by (nonlinear_arith)
            requires
                tick_duration <= MAX_NANOS,
                tick_margin <= 0xff,
        ;
        let run_time: u128 = tick_duration * server_tick
            + self.duration_since_latest_received_server_tick.as_nanos() + stats.rtt.as_nanos() / 2;
        let ahead: u128 = jitter * jitter_margin + tick_duration * tick_margin;
        run_time <= MAX_NANOS && ahead <= MAX_NANOS
    }

    /// Ends the handshake: takes the estimate `stats` of the network, and sets the client's tick
    /// to where it should be by that.
    pub fn finalize(
        &mut self,
        stats: FinalStats,
        time_manager: &mut TimeManager,
        tick_manager: &mut TickManager,
    )
        requires
            old(self)@.estimated(stats.rtt@, stats.jitter@).can_finalize(
                old(tick_manager).config.tick_duration@,
            ),
        ensures
            final(self)@ == old(self)@.estimated(stats.rtt@, stats.jitter@),
            *final(time_manager) == *old(time_manager),
            *final(tick_manager) == (TickManager {
                tick: final(self)@.client_ideal_tick(old(tick_manager).config.tick_duration@),
                ..*old(tick_manager)
            }),
    {
        self.final_stats = stats;
        let client_ideal_time = self.predicted_server_receive_time(tick_manager).plus(
            self.client_ahead_minimum(tick_manager),
        );
        let tick_us: u32 = (tick_manager.config.tick_duration.as_micros() % 0x1_0000_0000) as u32;
        let ticks: u32 = client_ideal_time.elapsed_us_wrapped / tick_us;
        tick_manager.set_tick_to(Tick((ticks % 0x1_0000) as u16));
    }

    /// Whether [`update_client_time`](SyncManager::update_client_time) stays in range.
    pub fn can_update_client_time(
        &self,
        time_manager: &TimeManager,
        tick_manager: &TickManager,
        error_margin_time: Duration,
    ) -> (r: bool)
        ensures
            r == self@.can_compare(
                tick_manager.tick,
                tick_manager.config.tick_duration@,
                time_manager.overstep@,
                error_margin_time@,
            ),
    {
        let tick_duration: u128 = tick_manager.config.tick_duration.as_nanos();
        let client_tick: u128 = self.client_tick_raw(tick_manager) as u128;
        assert(tick_duration * client_tick <= MAX_NANOS * 0x2_0000) by (nonlinear_arith)
            requires
                tick_duration <= MAX_NANOS,
                client_tick <= 0x2_0000,
        ;
        let run_time: u128 = tick_duration * client_tick + time_manager.overstep().as_nanos();
        if !self.predictable(&self.final_stats, tick_manager) || run_time > MAX_NANOS {
            return false;
        }
        let ahead: u128 = self.client_ahead_minimum(tick_manager).as_nanos();
        let ahead_us: i64 = micros_between(
            self.current_client_time(time_manager, tick_manager),
            self.predicted_server_receive_time(tick_manager),
        );
        ahead <= MAX_DELTA_NANOS as u128 && ahead_us as i128 * 1_000 - ahead as i128
            >= -MAX_DELTA_NANOS && error_margin_time.as_nanos() <= MAX_DELTA_NANOS as u128
    }

    /// Tells how fast the simulation should run. The client's packets for a tick are to arrive
    /// before the server reaches that tick, but not long before: a client too far ahead slows
    /// down, and one too far behind speeds up. An error up to `error_margin_time` does not matter.
    pub fn update_client_time(
        &self,
        time_manager: &mut TimeManager,
        tick_manager: &TickManager,
        error_margin_time: Duration,
    )
        requires
            self@.can_compare(
                tick_manager.tick,
                tick_manager.config.tick_duration@,
                old(time_manager).overstep@,
                error_margin_time@,
            ),
        ensures
            *final(time_manager) == (TimeManager {
                sync_relative_speed: speed_for(
                    self@.client_error(
                        tick_manager.tick,
                        tick_manager.config.tick_duration@,
                        old(time_manager).overstep@,
                    ),
                    error_margin_time@,
                ),
                ..*old(time_manager)
            }),
    {
        let current_client_time = self.current_client_time(time_manager, tick_manager);
        let predicted_server_receive_time = self.predicted_server_receive_time(tick_manager);
        let client_ahead_delta = current_client_time.since(predicted_server_receive_time);
        let client_ahead_minimum = self.client_ahead_minimum(tick_manager);
        let error = client_ahead_delta.minus(TimeDelta::from_duration(client_ahead_minimum));
        let margin = TimeDelta::from_duration(error_margin_time);
        time_manager.sync_relative_speed = if error.is_greater(margin) {
            RelativeSpeed::SlowDown
        } else if margin.negated().is_greater(error) {
            RelativeSpeed::SpeedUp
        } else {
            RelativeSpeed::Normal
        };
    }
}

} // verus!
