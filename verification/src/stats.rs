//! What the pongs say about the network.

use vstd::prelude::*;

use crate::delta::truncated;
use crate::duration::Duration;
use crate::ping::TimeSyncPongMessage;
use crate::ready_buffer::{ReadyBuffer, TimedItem};
use crate::wrapped::WrappedTime;

verus! {

/// What one exchange of ping and pong measured, in microseconds.
#[derive(Clone, Copy, Debug, PartialEq, Eq)]
pub struct SyncStats {
    /// How far the server's clock is ahead of the client's.
    pub offset_us: i64,
    /// Time on the way there and back, without the time that the server took to answer.
    pub round_trip_delay_us: i64,
}

/// How far the server's clock is ahead of the client's, as the Network Time Protocol estimates
/// it: half of what the way there and the way back add up to. The ping was sent at `sent`, and
/// the pong arrived at `now`.
pub open spec fn clock_offset(
    sent: WrappedTime,
    pong: TimeSyncPongMessage,
    now: WrappedTime,
) -> int {
    truncated(pong.ping_received_time.ahead_of(sent) + pong.pong_sent_time.ahead_of(now), 2)
}

/// Time between ping and pong at the client, less that between them at the server.
pub open spec fn round_trip_delay(
    sent: WrappedTime,
    pong: TimeSyncPongMessage,
    now: WrappedTime,
) -> int {
    now.ahead_of(sent) - pong.pong_sent_time.ahead_of(pong.ping_received_time)
}

/// What the exchange measured whose ping was sent at `sent` and whose pong arrived at `now`.
pub open spec fn measured(
    sent: WrappedTime,
    pong: TimeSyncPongMessage,
    now: WrappedTime,
) -> SyncStats {
    SyncStats {
        offset_us: clock_offset(sent, pong, now) as i64,
        round_trip_delay_us: round_trip_delay(sent, pong, now) as i64,
    }
}

/// How many microseconds `later` is ahead of `earlier`.
pub(crate) fn micros_between(later: WrappedTime, earlier: WrappedTime) -> (r: i64)
    ensures
        r == later.ahead_of(earlier),
        -0x8000_0000 <= r < 0x8000_0000,
{
    let delta = later.since(earlier);
    delta.num_microseconds().unwrap()
}

impl SyncStats {
    /// Measures the exchange whose ping was sent at `sent` and whose pong arrived at `now`.
    pub fn measure(sent: WrappedTime, pong: &TimeSyncPongMessage, now: WrappedTime) -> (r:
        SyncStats)
        ensures
            r == measured(sent, *pong, now),
            r.offset_us == clock_offset(sent, *pong, now),
            r.round_trip_delay_us == round_trip_delay(sent, *pong, now),
    {
        let ping_offset_us: i64 = micros_between(pong.ping_received_time, sent);
        let pong_offset_us: i64 = micros_between(pong.pong_sent_time, now);
        let rtt_us: i64 = micros_between(now, sent);
        let server_process_time_us: i64 = micros_between(
            pong.pong_sent_time,
            pong.ping_received_time,
        );
        SyncStats {
            offset_us: (ping_offset_us + pong_offset_us) / 2,
            round_trip_delay_us: rtt_us - server_process_time_us,
        }
    }
}

/// The latest measurements. Its view is the measurements in the order in which they were added,
/// each with the time at which its pong arrived.
#[derive(Debug)]
pub struct SyncStatsBuffer {
    pub buffer: ReadyBuffer<SyncStats>,
}

impl View for SyncStatsBuffer {
    type V = Seq<TimedItem<SyncStats>>;

    open spec fn view(&self) -> Seq<TimedItem<SyncStats>> {
        self.buffer@
    }
}

impl SyncStatsBuffer {
    /// A buffer without measurements.
    pub fn new() -> (r: SyncStatsBuffer)
        ensures
            r@ == Seq::<TimedItem<SyncStats>>::empty(),
    {
        SyncStatsBuffer { buffer: ReadyBuffer::new() }
    }
}

/// What the measurements come to.
#[derive(Clone, Copy, Debug)]
pub struct FinalStats {
    /// Time on the way to the server and back.
    pub rtt: Duration,
    /// How much the time on the way to the server varies.
    pub jitter: Duration,
}

impl Default for FinalStats {
    /// Nothing has been measured yet.
    fn default() -> (r: FinalStats)
        ensures
            r.rtt@ == 0,
            r.jitter@ == 0,
    {
        FinalStats { rtt: Duration::default(), jitter: Duration::default() }
    }
}

} // verus!
