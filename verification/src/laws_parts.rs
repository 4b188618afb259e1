//! What holds of every call of the functions that the manager is built from.

use vstd::prelude::*;

use crate::config::SyncConfig;
use crate::delta::TimeDelta;
use crate::duration::Duration;
use crate::laws_clock::{
    counted_up, law_later_is_the_order_of_sending, law_later_items_stay_in_order,
};
use crate::ping::{PingStore, TimeSyncPongMessage};
use crate::ready_buffer::{ReadyBuffer, TimedItem};
use crate::stats::FinalStats;
use crate::sync::{SentPacketStore, SyncManager};
use crate::tick::{TickConfig, TickManager};
use crate::time::{RelativeSpeed, TimeManager};
use crate::timer::PingTimer;
use crate::wrapped::{PacketId, PingId, Tick, WrappedTime};

verus! {

/// The default settings.
pub proof fn law_call_of_default_config(r: SyncConfig)
    requires
        call_ensures(SyncConfig::default, (), r),
    ensures
        r.jitter_multiple_margin == 3,
        r.tick_margin == 1,
        r.sync_ping_interval@ == 100_000_000,
        r.handshake_pings == 10,
        r.stats_buffer_duration@ == 2_000_000_000,
{
}

/// Spans are counted in nanoseconds, and their parts and units agree.
pub proof fn law_calls_of_duration(
    span: &Duration,
    secs: u64,
    nanos: u32,
    all_nanos: u128,
    all_micros: u128,
    again: Duration,
)
    requires
        call_ensures(Duration::as_secs, (span,), secs),
        call_ensures(Duration::subsec_nanos, (span,), nanos),
        call_ensures(Duration::as_nanos, (span,), all_nanos),
        call_ensures(Duration::as_micros, (span,), all_micros),
        call_ensures(Duration::new, (secs, nanos), again),
    ensures
        nanos < 1_000_000_000,
        secs * 1_000_000_000 + nanos == span@,
        all_nanos == span@,
        1_000 * all_micros <= span@ < 1_000 * (all_micros + 1),
        again@ == span@,
{
}

/// Spans are made from seconds, milliseconds and nanoseconds alike.
pub proof fn law_calls_of_duration_makers(
    n: u64,
    nanos: u128,
    secs: Duration,
    millis: Duration,
    made: Duration,
    empty: Duration,
)
    requires
        call_ensures(Duration::from_secs, (n,), secs),
        call_ensures(Duration::from_millis, (n,), millis),
        call_ensures(Duration::from_nanos, (nanos,), made),
        call_ensures(Duration::default, (), empty),
    ensures
        millis@ == 1_000_000 * n,
        secs@ == 1_000 * millis@,
        made@ == nanos,
        empty@ == 0,
{
}

/// Sums, multiples and halves of spans are those of their nanoseconds.
pub proof fn law_calls_of_duration_arithmetic(
    a: Duration,
    b: Duration,
    n: u32,
    sum: Duration,
    multiple: Duration,
    half: Duration,
)
    requires
        call_ensures(Duration::plus, (a, b), sum),
        call_ensures(Duration::times, (a, n), multiple),
        call_ensures(Duration::half, (a,), half),
    ensures
        sum@ == a@ + b@,
        multiple@ == a@ * n,
        2 * half@ <= a@ <= 2 * half@ + 1,
{
}

/// Ping numbers count up by one turn after turn, and a number is later than another just if
/// counting leads to it in less than half a turn.
pub proof fn law_calls_of_ping_id(id: PingId, next: PingId, k: nat, later: bool)
    requires
        k < 0x1_0000,
        call_ensures(PingId::next, (id,), next),
        call_ensures(PingId::is_later_than, (counted_up(id, k), id), later),
    ensures
        id.0 < 65_535 ==> next.0 == id.0 + 1,
        id.0 == 65_535 ==> next.0 == 0,
        later <==> 0 < k < 0x8000,
{
    law_later_is_the_order_of_sending(id, k);
}

/// The clock shows microseconds, turn after turn, and spans move it by their whole microseconds.
pub proof fn law_calls_of_wrapped_time(
    shown: u32,
    span: Duration,
    time: WrappedTime,
    made: WrappedTime,
    from_start: WrappedTime,
    after: WrappedTime,
    before: WrappedTime,
)
    requires
        call_ensures(WrappedTime::new, (shown,), made),
        call_ensures(WrappedTime::from_duration, (span,), from_start),
        call_ensures(WrappedTime::plus, (time, span), after),
        call_ensures(WrappedTime::minus, (time, span), before),
    ensures
        made.elapsed_us_wrapped == shown,
        (span@ / 1_000 - from_start.elapsed_us_wrapped) % 0x1_0000_0000 == 0,
        (after.elapsed_us_wrapped - time.elapsed_us_wrapped - span@ / 1_000) % 0x1_0000_0000 == 0,
        (time.elapsed_us_wrapped - before.elapsed_us_wrapped - span@ / 1_000) % 0x1_0000_0000 == 0,
{
}

/// A time `k` microseconds after another is later, and ahead by as many, if that is less than half
/// a turn; otherwise it is behind by the rest of the turn.
pub proof fn law_calls_of_wrapped_time_compare(
    time: WrappedTime,
    then: WrappedTime,
    k: nat,
    later: bool,
    delta: TimeDelta,
)
    requires
        k < 0x1_0000_0000,
        (then.elapsed_us_wrapped - time.elapsed_us_wrapped - k) % 0x1_0000_0000 == 0,
        call_ensures(WrappedTime::is_later_than, (then, time), later),
        call_ensures(WrappedTime::since, (then, time), delta),
    ensures
        later <==> 0 < k < 0x8000_0000,
        k < 0x8000_0000 ==> delta@ == 1_000 * k,
        k >= 0x8000_0000 ==> delta@ == 1_000 * (k - 0x1_0000_0000),
{
}

/// A ping store starts with number zero and nothing sent.
pub proof fn law_call_of_ping_store_new(r: PingStore, id: PingId)
    requires
        call_ensures(PingStore::new, (), r),
    ensures
        r@.next == PingId(0),
        r@.time_of(id) is None,
{
}

/// A ping is recorded under the next number with its time, and touches no other.
pub proof fn law_call_of_push_new(store: &mut PingStore, now: WrappedTime, r: PingId, other: PingId)
    requires
        call_ensures(PingStore::push_new, (store, now), r),
    ensures
        r == old(store)@.next,
        final(store)@.next == counted_up(r, 1),
        final(store)@.time_of(r) == Some(now),
        other != r ==> final(store)@.time_of(other) == old(store)@.time_of(other),
{
    assert(counted_up(r, 0) == r);
}

/// A ping that is removed gives its time back, once, and touches no other.
pub proof fn law_call_of_remove(
    store: &mut PingStore,
    id: PingId,
    r: Option<WrappedTime>,
    other: PingId,
)
    requires
        call_ensures(PingStore::remove, (store, id), r),
    ensures
        r == old(store)@.time_of(id),
        final(store)@.time_of(id) is None,
        other != id ==> final(store)@.time_of(other) == old(store)@.time_of(other),
        final(store)@.next == old(store)@.next,
{
}

/// A timer starts at zero, and tells what it stands at.
pub proof fn law_calls_of_ping_timer(
    interval: Duration,
    made: PingTimer,
    timer: &PingTimer,
    finished: bool,
    elapsed: Duration,
)
    requires
        call_ensures(PingTimer::new, (interval,), made),
        call_ensures(PingTimer::finished, (timer,), finished),
        call_ensures(PingTimer::elapsed, (timer,), elapsed),
    ensures
        made@.interval == interval@,
        made@.elapsed == 0,
        !made@.finished,
        finished == timer@.finished,
        elapsed@ == timer@.elapsed,
{
}

/// A timer rings just when its interval has passed, and keeps what is left over.
pub proof fn law_call_of_tick(timer: &mut PingTimer, delta: Duration)
    requires
        call_ensures(PingTimer::tick, (timer, delta), ()),
    ensures
        ({
            let total = old(timer)@.elapsed + delta@;
            let interval = old(timer)@.interval;
            &&& final(timer)@.interval == interval
            &&& final(timer)@.finished <==> total >= interval
            &&& total < interval ==> final(timer)@.elapsed == total
            &&& interval <= total < 2 * interval && total - interval < 0x1_0000_0000_0000_0000
                ==> final(timer)@.elapsed == total - interval
        }),
{
    let total = timer@.elapsed + delta@;
    let interval = timer@.interval;
    if interval <= total < 2 * interval {
        assert(total % interval == total - interval) by (nonlinear_arith)
            requires
                interval <= total < 2 * interval,
        ;
    }
}

/// A timer that starts over keeps its interval.
pub proof fn law_call_of_reset(timer: &mut PingTimer)
    requires
        call_ensures(PingTimer::reset, (timer,), ()),
    ensures
        final(timer)@.interval == old(timer)@.interval,
        final(timer)@.elapsed == 0,
        !final(timer)@.finished,
{
}

/// A clock starts at zero, at normal speed.
pub proof fn law_call_of_time_manager_new(r: TimeManager)
    requires
        call_ensures(TimeManager::new, (), r),
    ensures
        r.wrapped_time.elapsed_us_wrapped == 0,
        r.delta@ == 0,
        r.overstep@ == 0,
        r.sync_relative_speed == RelativeSpeed::Normal,
{
}

/// A frame moves the clock on by its whole microseconds, and is remembered with its overstep.
pub proof fn law_call_of_time_manager_update(
    time: &mut TimeManager,
    delta: Duration,
    overstep: Duration,
)
    requires
        call_ensures(TimeManager::update, (time, delta, overstep), ()),
    ensures
        (final(time).wrapped_time.elapsed_us_wrapped - old(time).wrapped_time.elapsed_us_wrapped
            - delta@ / 1_000) % 0x1_0000_0000 == 0,
        final(time).delta == delta,
        final(time).overstep == overstep,
        final(time).sync_relative_speed == old(time).sync_relative_speed,
{
}

/// The clock and the tick are told as they are.
pub proof fn law_calls_of_clock_and_tick(
    time: &TimeManager,
    ticks: &TickManager,
    config: TickConfig,
    now: WrappedTime,
    delta: Duration,
    overstep: Duration,
    tick: Tick,
    made: TickManager,
)
    requires
        call_ensures(TimeManager::current_time, (time,), now),
        call_ensures(TimeManager::delta, (time,), delta),
        call_ensures(TimeManager::overstep, (time,), overstep),
        call_ensures(TickManager::current_tick, (ticks,), tick),
        call_ensures(TickManager::from_config, (config,), made),
    ensures
        now == time.wrapped_time,
        delta == time.delta,
        overstep == time.overstep,
        tick == ticks.tick,
        made.config == config,
        made.tick == Tick(0),
{
}

/// The tick is set to what is asked for, and the settings stay.
pub proof fn law_call_of_set_tick_to(ticks: &mut TickManager, tick: Tick)
    requires
        call_ensures(TickManager::set_tick_to, (ticks, tick), ()),
    ensures
        final(ticks).tick == tick,
        final(ticks).config == old(ticks).config,
{
}

/// A buffer starts empty, and an item is added behind the others with its time.
pub proof fn law_calls_of_ready_buffer<T: Copy>(
    made: ReadyBuffer<T>,
    buffer: &mut ReadyBuffer<T>,
    key: WrappedTime,
    item: T,
)
    requires
        call_ensures(ReadyBuffer::<T>::new, (), made),
        call_ensures(ReadyBuffer::<T>::add_item, (buffer, key, item), ()),
    ensures
        made@.len() == 0,
        final(buffer)@.len() == old(buffer)@.len() + 1,
        final(buffer)@.drop_last() == old(buffer)@,
        final(buffer)@.last().key == key,
        final(buffer)@.last().item == item,
{
    assert(buffer@.push(TimedItem { key, item }).drop_last() =~= buffer@);
}

/// What is dropped from a buffer is what does not come after the key, by less than half a turn of
/// the clock. This is said of the last item; before it, the call would do the same without it.
pub proof fn law_call_of_pop_until<T: Copy>(
    buffer: &mut ReadyBuffer<T>,
    without: &mut ReadyBuffer<T>,
    key: &WrappedTime,
    entry: TimedItem<T>,
)
    requires
        call_ensures(ReadyBuffer::<T>::pop_until, (buffer, key), ()),
        call_ensures(ReadyBuffer::<T>::pop_until, (without, key), ()),
        buffer@ == without@.push(entry),
    ensures
        ({
            let ahead = (entry.key.elapsed_us_wrapped - key.elapsed_us_wrapped) % 0x1_0000_0000;
            &&& 0 < ahead < 0x8000_0000 ==> final(buffer)@ == final(without)@.push(entry)
            &&& !(0 < ahead < 0x8000_0000) ==> final(buffer)@ == final(without)@
        }),
        old(without)@.len() == 0 ==> final(without)@.len() == 0,
{
    law_later_items_stay_in_order(without@, entry, *key);
    if without@.len() == 0 {
        assert(without@ =~= Seq::<TimedItem<T>>::empty());
    }
}

/// Nothing has been sent to a new store of packets.
pub proof fn law_calls_of_sent_packet_store(made: SentPacketStore, default: SentPacketStore)
    requires
        call_ensures(SentPacketStore::new, (), made),
        call_ensures(SentPacketStore::default, (), default),
    ensures
        made@ == Seq::<TimedItem<PacketId>>::empty(),
        default@ == made@,
{
}

/// An estimate is empty until one is made.
pub proof fn law_call_of_default_stats(r: FinalStats)
    requires
        call_ensures(FinalStats::default, (), r),
    ensures
        r.rtt@ == 0,
        r.jitter@ == 0,
{
}

/// The manager tells exactly when a call stays in range: when no span exceeds the longest, no
/// difference the furthest, and a tick takes at least a microsecond where it is divided by.
pub proof fn law_calls_of_range_checks(
    m: &SyncManager,
    time: &TimeManager,
    ticks: &TickManager,
    stats: &FinalStats,
    update: bool,
    finalize: bool,
)
    requires
        call_ensures(SyncManager::can_update, (m, time), update),
        call_ensures(SyncManager::can_finalize, (m, stats, ticks), finalize),
    ensures
        ({
            let longest = u64::MAX * 1_000_000_000 + 999_999_999;
            let tick = ticks.config.tick_duration@;
            let run_time = tick * m.latest_received_server_tick.0 as nat
                + m.duration_since_latest_received_server_tick@ + stats.rtt@ / 2;
            let lead = stats.jitter@ * m.config.jitter_multiple_margin as nat + tick
                * m.config.tick_margin as nat;
            &&& update <==> m.ping_timer@.elapsed + time.delta@ <= longest
                && m.duration_since_latest_received_server_tick@ + time.delta@ <= longest
            &&& finalize <==> (tick / 1_000) % 0x1_0000_0000 != 0 && run_time <= longest && lead
                <= longest
        }),
{
}

/// A frame is accepted whenever its spans stay in range.
pub proof fn law_update_is_accepted_in_range(m: &mut SyncManager, time: &TimeManager)
    requires
        m.ping_timer@.elapsed + time.delta@ <= u64::MAX * 1_000_000_000 + 999_999_999,
        m.duration_since_latest_received_server_tick@ + time.delta@ <= u64::MAX * 1_000_000_000
            + 999_999_999,
    ensures
        call_requires(SyncManager::update, (m, time)),
{
}

/// Pings and pongs are accepted always.
pub proof fn law_pings_and_pongs_are_accepted(
    m: &mut SyncManager,
    time: &TimeManager,
    ticks: &TickManager,
    pong: &TimeSyncPongMessage,
)
    ensures
        call_requires(SyncManager::maybe_prepare_ping, (m, time, ticks)),
        call_requires(SyncManager::process_pong, (m, pong, time)),
{
}

/// The end of the handshake is accepted whenever its spans stay in range and a tick takes at least
/// a microsecond on the clock.
pub proof fn law_finalize_is_accepted_in_range(
    m: &mut SyncManager,
    stats: FinalStats,
    time: &mut TimeManager,
    ticks: &mut TickManager,
)
    requires
        (ticks.config.tick_duration@ / 1_000) % 0x1_0000_0000 != 0,
        ticks.config.tick_duration@ * m.latest_received_server_tick.0 as nat
            + m.duration_since_latest_received_server_tick@ + stats.rtt@ / 2 <= u64::MAX
            * 1_000_000_000 + 999_999_999,
        stats.jitter@ * m.config.jitter_multiple_margin as nat + ticks.config.tick_duration@
            * m.config.tick_margin as nat <= u64::MAX * 1_000_000_000 + 999_999_999,
    ensures
        call_requires(SyncManager::finalize, (m, stats, time, ticks)),
{
}

} // verus!
