//! What holds of every call of the manager's functions, said of the fields before and after it.

use vstd::prelude::*;

use crate::config::SyncConfig;
use crate::duration::Duration;
use crate::laws_clock::{
    counted_up, law_clock_counts_microseconds, law_later_items_stay_in_order,
};
use crate::laws_events::lemma_age;
use crate::laws_place::{
    law_ideal_time_falls_in_the_ideal_tick, law_ideal_time_is_the_lead_after_arrival,
    law_measurement_is_exact, law_packet_arrives_a_round_trip_after_the_tick, lemma_ahead_of_is,
    lemma_readings_differ, lemma_readings_stand_for,
};
use crate::ping::{TimeSyncPingMessage, TimeSyncPongMessage};
use crate::ready_buffer::TimedItem;
use crate::stats::{measured, FinalStats, SyncStats};
use crate::sync::SyncManager;
use crate::tick::TickManager;
use crate::time::{RelativeSpeed, TimeManager};
use crate::wrapped::{PingId, Tick, WrappedTime};

verus! {

/// A manager is made with its settings, with a timer at the configured interval that has not run,
/// and with nothing sent, measured or told.
pub proof fn law_call_of_new(config: SyncConfig, r: SyncManager, id: PingId)
    requires
        call_ensures(SyncManager::new, (config,), r),
    ensures
        r.config == config,
        r.ping_timer@.interval == config.sync_ping_interval@,
        r.ping_timer@.elapsed == 0,
        !r.ping_timer@.finished,
        r.ping_store@.next == PingId(0),
        r.ping_store@.time_of(id) is None,
        r.most_recent_received_ping == PingId(65_534),
        r.sync_stats.buffer@.len() == 0,
        r.final_stats.rtt@ == 0,
        r.final_stats.jitter@ == 0,
        !r.synced,
        r.latest_received_server_tick == Tick(0),
        r.duration_since_latest_received_server_tick@ == 0,
{
    assert(r@.config == r.config);
}

/// The manager tells its estimate and its handshake as they are.
pub proof fn law_calls_of_getters(m: &SyncManager, rtt: Duration, jitter: Duration, synced: bool)
    requires
        call_ensures(SyncManager::rtt, (m,), rtt),
        call_ensures(SyncManager::jitter, (m,), jitter),
        call_ensures(SyncManager::is_synced, (m,), synced),
    ensures
        rtt == m.final_stats.rtt,
        jitter == m.final_stats.jitter,
        synced == m.synced,
{
}

/// A frame runs the timer and ages the server's tick by its length, synced or not. It tells that
/// the estimate is stale just if it dropped a measurement, and drops none before the handshake is
/// over. Nothing else changes.
pub proof fn law_call_of_update(m: &mut SyncManager, time: &TimeManager, stale: bool)
    requires
        call_ensures(SyncManager::update, (m, time), stale),
    ensures
        ({
            let timer = old(m).ping_timer@;
            let total = timer.elapsed + time.delta@;
            &&& final(m).ping_timer@.interval == timer.interval
            &&& final(m).ping_timer@.finished <==> total >= timer.interval
            &&& total < timer.interval ==> final(m).ping_timer@.elapsed == total
        }),
        final(m).duration_since_latest_received_server_tick@
            == old(m).duration_since_latest_received_server_tick@ + time.delta@,
        final(m).latest_received_server_tick == old(m).latest_received_server_tick,
        stale <==> final(m).sync_stats.buffer@.len() != old(m).sync_stats.buffer@.len(),
        !old(m).synced ==> final(m).sync_stats.buffer@ == old(m).sync_stats.buffer@,
        final(m).synced == old(m).synced,
        final(m).config == old(m).config,
        final(m).ping_store@ == old(m).ping_store@,
        final(m).most_recent_received_ping == old(m).most_recent_received_ping,
        final(m).final_stats.rtt@ == old(m).final_stats.rtt@,
        final(m).final_stats.jitter@ == old(m).final_stats.jitter@,
{
    assert(final(m)@.config == final(m).config);
    assert(old(m)@.config == old(m).config);
}

/// After the handshake, a frame keeps a measurement whose age in microseconds is less than that for
/// which measurements count, and drops one that is as old or older. This is said of the last one
/// that was added; before it, the frame would do the same without it.
pub proof fn law_call_of_update_drops_by_age(
    m: &mut SyncManager,
    without: &mut SyncManager,
    time: &TimeManager,
    entry: TimedItem<SyncStats>,
    age: nat,
    stale: bool,
    stale_without: bool,
)
    requires
        call_ensures(SyncManager::update, (m, time), stale),
        call_ensures(SyncManager::update, (without, time), stale_without),
        m.synced,
        without.synced,
        without.config == m.config,
        m.sync_stats.buffer@ == without.sync_stats.buffer@.push(entry),
        (time.wrapped_time.elapsed_us_wrapped - entry.key.elapsed_us_wrapped - age) % 0x1_0000_0000
            == 0,
        age <= 0x8000_0000 + m.config.stats_buffer_duration@ / 1_000,
        age + 0x8000_0000 > m.config.stats_buffer_duration@ / 1_000,
    ensures
        age < old(m).config.stats_buffer_duration@ / 1_000 ==> final(m).sync_stats.buffer@
            == final(without).sync_stats.buffer@.push(entry),
        age >= old(m).config.stats_buffer_duration@ / 1_000 ==> final(m).sync_stats.buffer@
            == final(without).sync_stats.buffer@,
{
    let span = m.config.stats_buffer_duration@;
    let start = time.wrapped_time.before(span);
    assert(m@.samples == m.sync_stats.buffer@);
    assert(without@.samples == without.sync_stats.buffer@);
    law_later_items_stay_in_order(without@.samples, entry, start);
    lemma_age(entry.key, time.wrapped_time, span, age);
    assert(final(m)@.samples == final(m).sync_stats.buffer@);
    assert(final(without)@.samples == final(without).sync_stats.buffer@);
}

/// A ping comes out just when the timer has rung. It has the next number and the client's tick, is
/// recorded with the time of the clock, and starts the timer over at its own interval. If none
/// comes out, nothing changes; and nothing but the timer and the pings changes in any case.
pub proof fn law_call_of_maybe_prepare_ping(
    m: &mut SyncManager,
    time: &TimeManager,
    ticks: &TickManager,
    r: Option<TimeSyncPingMessage>,
    other: PingId,
)
    requires
        call_ensures(SyncManager::maybe_prepare_ping, (m, time, ticks), r),
    ensures
        r is Some <==> old(m).ping_timer@.finished,
        r is Some ==> ({
            &&& (r->0).id == old(m).ping_store@.next
            &&& (r->0).tick == ticks.tick
            &&& (r->0).ping_received_time is None
            &&& final(m).ping_store@.next == counted_up((r->0).id, 1)
            &&& final(m).ping_store@.time_of((r->0).id) == Some(time.wrapped_time)
            &&& other != (r->0).id ==> final(m).ping_store@.time_of(other)
                == old(m).ping_store@.time_of(other)
            &&& final(m).ping_timer@.interval == old(m).ping_timer@.interval
            &&& final(m).ping_timer@.elapsed == 0
            &&& !final(m).ping_timer@.finished
        }),
        r is None ==> final(m).ping_store@ == old(m).ping_store@,
        r is None ==> final(m).ping_timer@ == old(m).ping_timer@,
        final(m).config == old(m).config,
        final(m).most_recent_received_ping == old(m).most_recent_received_ping,
        final(m).sync_stats.buffer@ == old(m).sync_stats.buffer@,
        final(m).final_stats.rtt@ == old(m).final_stats.rtt@,
        final(m).final_stats.jitter@ == old(m).final_stats.jitter@,
        final(m).synced == old(m).synced,
        final(m).latest_received_server_tick == old(m).latest_received_server_tick,
        final(m).duration_since_latest_received_server_tick@
            == old(m).duration_since_latest_received_server_tick@,
{
    assert(counted_up(old(m)@.pings.next, 0) == old(m)@.pings.next);
    assert(final(m)@.config == final(m).config);
    assert(old(m)@.config == old(m).config);
}

/// A pong takes its ping out of the store. It is measured just if its ping awaited it and was sent
/// after the latest that was measured, within half a turn of the numbers, however many lie in
/// between. The call says so just if that ends the handshake. Nothing else changes.
pub proof fn law_call_of_process_pong(
    m: &mut SyncManager,
    pong: &TimeSyncPongMessage,
    time: &TimeManager,
    finished: bool,
    other: PingId,
)
    requires
        call_ensures(SyncManager::process_pong, (m, pong, time), finished),
    ensures
        ({
            let id = pong.ping_id;
            let sent = old(m).ping_store@.time_of(id);
            let fresh = sent is Some && 0 < (id.0 - old(m).most_recent_received_ping.0) % 0x1_0000
                < 0x8000;
            let before = old(m).sync_stats.buffer@;
            let after = final(m).sync_stats.buffer@;
            &&& final(m).ping_store@.time_of(id) is None
            &&& other != id ==> final(m).ping_store@.time_of(other) == old(m).ping_store@.time_of(
                other,
            )
            &&& final(m).ping_store@.next == old(m).ping_store@.next
            &&& !fresh ==> after == before
            &&& !fresh ==> final(m).most_recent_received_ping == old(m).most_recent_received_ping
            &&& !fresh ==> final(m).synced == old(m).synced
            &&& fresh ==> after.len() == before.len() + 1
            &&& fresh ==> after.drop_last() == before
            &&& fresh ==> after.last().key == time.wrapped_time
            &&& fresh ==> after.last().item == measured(sent->0, *pong, time.wrapped_time)
            &&& fresh ==> final(m).most_recent_received_ping == id
            &&& fresh ==> (final(m).synced <==> old(m).synced || before.len() + 1
                >= old(m).config.handshake_pings)
        }),
        finished <==> final(m).synced && !old(m).synced,
        final(m).config == old(m).config,
        final(m).ping_timer@ == old(m).ping_timer@,
        final(m).final_stats.rtt@ == old(m).final_stats.rtt@,
        final(m).final_stats.jitter@ == old(m).final_stats.jitter@,
        final(m).latest_received_server_tick == old(m).latest_received_server_tick,
        final(m).duration_since_latest_received_server_tick@
            == old(m).duration_since_latest_received_server_tick@,
{
    assert(final(m)@.config == final(m).config);
    assert(old(m)@.config == old(m).config);
    assert(old(m)@.samples == old(m).sync_stats.buffer@);
    assert(final(m)@.samples == final(m).sync_stats.buffer@);
    assert(forall|e: TimedItem<SyncStats>|
        (#[trigger] old(m)@.samples.push(e)).drop_last() =~= old(m)@.samples);
}

/// A measurement is exact up to the rounding of the offset, where each of the four times is taken
/// along the shorter way round the clock.
pub proof fn law_call_of_measure(
    sent: WrappedTime,
    pong: &TimeSyncPongMessage,
    now: WrappedTime,
    r: SyncStats,
    there: int,
    back: int,
    exchange: int,
    busy: int,
)
    requires
        call_ensures(SyncStats::measure, (sent, pong, now), r),
        -0x8000_0000 <= there < 0x8000_0000,
        -0x8000_0000 <= back < 0x8000_0000,
        -0x8000_0000 <= exchange < 0x8000_0000,
        -0x8000_0000 <= busy < 0x8000_0000,
        (pong.ping_received_time.elapsed_us_wrapped - sent.elapsed_us_wrapped - there)
            % 0x1_0000_0000 == 0,
        (pong.pong_sent_time.elapsed_us_wrapped - now.elapsed_us_wrapped - back) % 0x1_0000_0000
            == 0,
        (now.elapsed_us_wrapped - sent.elapsed_us_wrapped - exchange) % 0x1_0000_0000 == 0,
        (pong.pong_sent_time.elapsed_us_wrapped - pong.ping_received_time.elapsed_us_wrapped - busy)
            % 0x1_0000_0000 == 0,
    ensures
        there + back >= 0 ==> 2 * r.offset_us <= there + back <= 2 * r.offset_us + 1,
        there + back <= 0 ==> 2 * r.offset_us - 1 <= there + back <= 2 * r.offset_us,
        r.round_trip_delay_us == exchange - busy,
{
    law_measurement_is_exact(sent, *pong, now, there, back, exchange, busy);
}

/// An estimate is taken as it is, and nothing else changes.
pub proof fn law_call_of_apply_stats(m: &mut SyncManager, stats: FinalStats)
    requires
        call_ensures(SyncManager::apply_stats, (m, stats), ()),
    ensures
        final(m).final_stats.rtt@ == stats.rtt@,
        final(m).final_stats.jitter@ == stats.jitter@,
        final(m).config == old(m).config,
        final(m).ping_timer@ == old(m).ping_timer@,
        final(m).ping_store@ == old(m).ping_store@,
        final(m).most_recent_received_ping == old(m).most_recent_received_ping,
        final(m).sync_stats.buffer@ == old(m).sync_stats.buffer@,
        final(m).synced == old(m).synced,
        final(m).latest_received_server_tick == old(m).latest_received_server_tick,
        final(m).duration_since_latest_received_server_tick@
            == old(m).duration_since_latest_received_server_tick@,
{
    assert(final(m)@.config == final(m).config);
    assert(old(m)@.config == old(m).config);
}

/// The server's time is that of the ticks that it told, the time since and half of a round trip. A
/// packet arrives another half later. The lead is made of jitters and ticks.
pub proof fn law_calls_of_server_times(
    m: &SyncManager,
    ticks: &TickManager,
    now: WrappedTime,
    arrival: WrappedTime,
    lead: Duration,
)
    requires
        call_ensures(SyncManager::current_server_time, (m, ticks), now),
        call_ensures(SyncManager::predicted_server_receive_time, (m, ticks), arrival),
        call_ensures(SyncManager::client_ahead_minimum, (m, ticks), lead),
    ensures
        ({
            let tick = ticks.config.tick_duration@;
            let told = tick * m.latest_received_server_tick.0 as nat
                + m.duration_since_latest_received_server_tick@;
            let half = m.final_stats.rtt@ / 2;
            &&& ((told + half) / 1_000 - now.elapsed_us_wrapped) % 0x1_0000_0000 == 0
            &&& ((told + half) / 1_000 + half / 1_000 - arrival.elapsed_us_wrapped) % 0x1_0000_0000
                == 0
            &&& lead@ == m.final_stats.jitter@ * m.config.jitter_multiple_margin as nat + tick
                * m.config.tick_margin as nat
        }),
{
}

/// Two managers that differ in the round trip by `2 * micros` microseconds have server times that
/// differ by `micros`, and arrivals that differ by `2 * micros`, whatever the length of a tick.
pub proof fn law_calls_with_more_latency(
    near: &SyncManager,
    far: &SyncManager,
    ticks: &TickManager,
    micros: nat,
    near_now: WrappedTime,
    far_now: WrappedTime,
    near_arrival: WrappedTime,
    far_arrival: WrappedTime,
)
    requires
        far.final_stats.rtt@ == near.final_stats.rtt@ + 2_000 * micros,
        far.latest_received_server_tick == near.latest_received_server_tick,
        far.duration_since_latest_received_server_tick@
            == near.duration_since_latest_received_server_tick@,
        call_ensures(SyncManager::current_server_time, (near, ticks), near_now),
        call_ensures(SyncManager::current_server_time, (far, ticks), far_now),
        call_ensures(SyncManager::predicted_server_receive_time, (near, ticks), near_arrival),
        call_ensures(SyncManager::predicted_server_receive_time, (far, ticks), far_arrival),
    ensures
        (far_now.elapsed_us_wrapped - near_now.elapsed_us_wrapped - micros) % 0x1_0000_0000 == 0,
        (far_arrival.elapsed_us_wrapped - near_arrival.elapsed_us_wrapped - 2 * micros)
            % 0x1_0000_0000 == 0,
{
    let tick = ticks.config.tick_duration@;
    let told = tick * near.latest_received_server_tick.0 as nat
        + near.duration_since_latest_received_server_tick@;
    let half = near.final_stats.rtt@ / 2;
    let x = (told + half) / 1_000;
    assert(far.final_stats.rtt@ / 2 == half + 1_000 * micros);
    assert((told + half + 1_000 * micros) / 1_000 == x + micros);
    assert((half + 1_000 * micros) / 1_000 == half / 1_000 + micros);
    assert(near_now == near@.current_server_time(tick));
    assert(far_now == far@.current_server_time(tick));
    assert(near_arrival == near@.predicted_server_receive_time(tick));
    assert(far_arrival == far@.predicted_server_receive_time(tick));
    law_packet_arrives_a_round_trip_after_the_tick(near@, tick);
    law_packet_arrives_a_round_trip_after_the_tick(far@, tick);
    lemma_readings_differ(
        near_now.elapsed_us_wrapped as int,
        far_now.elapsed_us_wrapped as int,
        x as int,
        micros as int,
    );
    lemma_readings_differ(
        near_arrival.elapsed_us_wrapped as int,
        far_arrival.elapsed_us_wrapped as int,
        (x + half / 1_000) as int,
        2 * micros as int,
    );
}

/// The end of the handshake takes the estimate and puts the client in the tick in which the ideal
/// time falls: that is the lead after the arrival of a packet that is sent now. Only the estimate
/// and the tick change.
pub proof fn law_call_of_finalize(
    m: &mut SyncManager,
    stats: FinalStats,
    time: &mut TimeManager,
    ticks: &mut TickManager,
) -> (turns: nat)
    requires
        call_ensures(SyncManager::finalize, (m, stats, time, ticks), ()),
        (ticks.config.tick_duration@ / 1_000) % 0x1_0000_0000 != 0,
    ensures
        ({
            let tick = old(ticks).config.tick_duration@;
            let told = tick * old(m).latest_received_server_tick.0 as nat
                + old(m).duration_since_latest_received_server_tick@;
            let half = stats.rtt@ / 2;
            let lead = stats.jitter@ * old(m).config.jitter_multiple_margin as nat + tick
                * old(m).config.tick_margin as nat;
            let ideal = ((told + half) / 1_000 + half / 1_000 + lead / 1_000) % 0x1_0000_0000;
            let tick_us = (tick / 1_000) % 0x1_0000_0000;
            let count = final(ticks).tick.0 as nat + 0x1_0000 * turns;
            count * tick_us <= ideal < (count + 1) * tick_us
        }),
        final(ticks).config == old(ticks).config,
        *final(time) == *old(time),
        final(m).final_stats.rtt@ == stats.rtt@,
        final(m).final_stats.jitter@ == stats.jitter@,
        final(m).config == old(m).config,
        final(m).ping_timer@ == old(m).ping_timer@,
        final(m).ping_store@ == old(m).ping_store@,
        final(m).most_recent_received_ping == old(m).most_recent_received_ping,
        final(m).sync_stats.buffer@ == old(m).sync_stats.buffer@,
        final(m).synced == old(m).synced,
        final(m).latest_received_server_tick == old(m).latest_received_server_tick,
        final(m).duration_since_latest_received_server_tick@
            == old(m).duration_since_latest_received_server_tick@,
{
    let tick = ticks.config.tick_duration@;
    let s = m@.estimated(stats.rtt@, stats.jitter@);
    assert(final(m)@ == s);
    assert(final(m)@.config == final(m).config);
    assert(m@.config == m.config);
    law_ideal_time_is_the_lead_after_arrival(s, tick);
    law_ideal_time_falls_in_the_ideal_tick(s, tick)
}

/// The speed stays normal just while the client is off by no more than the margin. It is off by how
/// far it is ahead of the arrival of its packets, along the shorter way round the clock, less its
/// lead. Only the speed changes.
pub proof fn law_call_of_update_client_time(
    m: &SyncManager,
    time: &mut TimeManager,
    ticks: &TickManager,
    margin: Duration,
    ahead: int,
)
    requires
        call_ensures(SyncManager::update_client_time, (m, time, ticks, margin), ()),
        -0x8000_0000 <= ahead < 0x8000_0000,
        ({
            let tick = ticks.config.tick_duration@;
            let server = m.latest_received_server_tick.0;
            let client = if server > ticks.tick.0 + 31_767 {
                ticks.tick.0 + 65_535
            } else {
                ticks.tick.0 as int
            };
            let run_time = tick * client as nat + time.overstep@;
            let told = tick * server as nat + m.duration_since_latest_received_server_tick@;
            let half = m.final_stats.rtt@ / 2;
            (run_time / 1_000 - (told + half) / 1_000 - half / 1_000 - ahead) % 0x1_0000_0000 == 0
        }),
    ensures
        ({
            let lead = m.final_stats.jitter@ * m.config.jitter_multiple_margin as nat
                + ticks.config.tick_duration@ * m.config.tick_margin as nat;
            let error = 1_000 * ahead - lead;
            let speed = final(time).sync_relative_speed;
            &&& speed == RelativeSpeed::Normal <==> -margin@ <= error <= margin@
            &&& speed == RelativeSpeed::SlowDown <==> error > margin@
            &&& speed == RelativeSpeed::SpeedUp <==> error < -margin@
        }),
        final(time).wrapped_time == old(time).wrapped_time,
        final(time).delta == old(time).delta,
        final(time).overstep == old(time).overstep,
{
    let tick = ticks.config.tick_duration@;
    let told = tick * m.latest_received_server_tick.0 as nat
        + m.duration_since_latest_received_server_tick@;
    let half = m.final_stats.rtt@ / 2;
    let run_time = m@.client_run_time(ticks.tick, tick, time.overstep@);
    let here = WrappedTime::at((run_time / 1_000) as int);
    let arrival = m@.predicted_server_receive_time(tick);
    assert(((told + half) / 1_000 + half / 1_000 - arrival.elapsed_us_wrapped) % 0x1_0000_0000
        == 0) by {
        law_packet_arrives_a_round_trip_after_the_tick(m@, tick);
    }
    assert((run_time / 1_000 - here.elapsed_us_wrapped) % 0x1_0000_0000 == 0) by {
        law_clock_counts_microseconds((run_time / 1_000) as int);
    }
    lemma_readings_stand_for(
        here.elapsed_us_wrapped as int,
        (run_time / 1_000) as int,
        arrival.elapsed_us_wrapped as int,
        ((told + half) / 1_000 + half / 1_000) as int,
        ahead,
    );
    lemma_ahead_of_is(here, arrival, ahead);
}

} // verus!
