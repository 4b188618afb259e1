//! What holds of the synchronisation as a whole.

use vstd::arithmetic::div_mod::lemma_mod_multiples_vanish;
use vstd::prelude::*;

use crate::config::SyncConfig;
use crate::ping::{Pings, TimeSyncPongMessage};
use crate::ready_buffer::{later_items, TimedItem};
use crate::state::{speed_for, SyncState, WRAP_THRESHOLD};
use crate::stats::{clock_offset, round_trip_delay, SyncStats};
use crate::time::RelativeSpeed;
use crate::timer::TimerState;
use crate::wrapped::{PingId, Tick, WrappedTime};

verus! {

/// The number after a ping's is later than the ping's own, also where numbers start over.
pub proof fn law_next_ping_is_later(id: PingId)
    ensures
        id.successor().later_than(id),
{
}

/// No two pings are each later than the other.
pub proof fn law_later_ping_is_not_earlier(a: PingId, b: PingId)
    requires
        a.later_than(b),
    ensures
        !b.later_than(a),
        a != b,
{
}

/// To a new manager, the first ping is later than any that it has heard of, and so is every other
/// within half a turn of the numbers.
pub proof fn law_first_pings_are_later(config: SyncConfig, id: PingId)
    requires
        id.0 < 32_766 || id.0 == 65_535,
    ensures
        id.later_than(SyncState::initial(config).most_recent_received_ping),
{
}

/// A sent ping is found under its number with the time at which it was sent, until it is removed.
/// Other pings are not touched by either.
pub proof fn law_sent_ping_is_found(pings: Pings, now: WrappedTime, other: PingId)
    requires
        other != pings.next,
    ensures
        pings.pushed(now).time_of(pings.next) == Some(now),
        pings.pushed(now).time_of(other) == pings.time_of(other),
        pings.pushed(now).removed(pings.next).time_of(pings.next) is None,
        pings.pushed(now).removed(pings.next).time_of(other) == pings.time_of(other),
{
}

/// Two times that the clock shows less than half a turn apart differ by what has passed.
pub proof fn law_clock_difference(a: int, b: int)
    requires
        -0x8000_0000 <= a - b < 0x8000_0000,
    ensures
        WrappedTime::at(a).ahead_of(WrappedTime::at(b)) == a - b,
{
}

/// Going a span on and the same span back leads to the same time.
pub proof fn law_clock_back_and_forth(time: WrappedTime, span: nat)
    ensures
        time.after(span).before(span) == time,
        time.before(span).after(span) == time,
{
}

/// The timer after frames of the lengths `deltas`.
pub open spec fn ticked_all(timer: TimerState, deltas: Seq<nat>) -> TimerState
    decreases deltas.len(),
{
    if deltas.len() == 0 {
        timer
    } else {
        ticked_all(timer, deltas.drop_last()).ticked(deltas.last())
    }
}

/// How long the frames of the lengths `deltas` take together.
pub open spec fn total(deltas: Seq<nat>) -> nat
    decreases deltas.len(),
{
    if deltas.len() == 0 {
        0
    } else {
        total(deltas.drop_last()) + deltas.last()
    }
}

/// Once started over, the timer does not ring before its interval has passed, however the time is
/// cut into frames.
pub proof fn law_no_ring_within_interval(interval: nat, deltas: Seq<nat>)
    requires
        total(deltas) < interval,
    ensures
        ticked_all(TimerState::fresh(interval), deltas) == (TimerState {
            interval,
            elapsed: total(deltas),
            finished: false,
        }),
    decreases deltas.len(),
{
    if deltas.len() > 0 {
        law_no_ring_within_interval(interval, deltas.drop_last());
    }
}

/// Once started over, the timer rings in the frame in which its interval has passed. Without an
/// interval that is the first one.
pub proof fn law_ring_after_interval(interval: nat, deltas: Seq<nat>, last: nat)
    requires
        deltas.len() == 0 || total(deltas) < interval,
        interval <= total(deltas) + last,
    ensures
        ticked_all(TimerState::fresh(interval), deltas.push(last)).finished,
{
    if total(deltas) < interval {
        law_no_ring_within_interval(interval, deltas);
    } else {
        assert(ticked_all(TimerState::fresh(interval), deltas) == TimerState::fresh(interval));
    }
    assert(deltas.push(last).drop_last() =~= deltas);
}

/// A ring makes one ping due and no more: after it has been sent, none is due until the timer
/// rings again. It has the next number, under which the time is found at which it was sent.
pub proof fn law_one_ping_per_ring(s: SyncState, now: WrappedTime, tick: Tick)
    ensures
        s.ping_sent(now).due_ping(tick) is None,
        s.due_ping(tick) is Some ==> (s.due_ping(tick)->0).id == s.pings.next,
        s.due_ping(tick) is Some ==> s.ping_sent(now).pings.next == s.pings.next.successor(),
        s.due_ping(tick) is Some ==> s.ping_sent(now).pings.time_of(s.pings.next) == Some(now),
        s.due_ping(tick) is None ==> s.ping_sent(now) == s,
{
}

/// A pong that answers no ping, or one that was answered before, changes nothing.
pub proof fn law_unasked_pong_is_ignored(s: SyncState, pong: TimeSyncPongMessage, now: WrappedTime)
    requires
        s.pings.time_of(pong.ping_id) is None,
    ensures
        s.pong_received(pong, now) == s,
{
    assert(s.pings.removed(pong.ping_id) =~= s.pings);
}

/// A ping is answered once: a second pong for it changes nothing.
pub proof fn law_second_pong_is_ignored(
    s: SyncState,
    first: TimeSyncPongMessage,
    then: WrappedTime,
    second: TimeSyncPongMessage,
    now: WrappedTime,
)
    requires
        first.ping_id == second.ping_id,
    ensures
        s.pong_received(first, then).pong_received(second, now) == s.pong_received(first, then),
{
    law_unasked_pong_is_ignored(s.pong_received(first, then), second, now);
}

/// A pong that was overtaken by that of a later ping is not measured.
pub proof fn law_overtaken_pong_is_not_measured(
    s: SyncState,
    pong: TimeSyncPongMessage,
    now: WrappedTime,
)
    requires
        !pong.ping_id.later_than(s.most_recent_received_ping),
    ensures
        s.pong_received(pong, now) == (SyncState { pings: s.pings.removed(pong.ping_id), ..s }),
{
}

/// Until the handshake is over, fewer measurements than it asks for have been made.
pub open spec fn handshake_open(s: SyncState) -> bool {
    !s.synced ==> (s.samples.len() == 0 || s.samples.len() < s.config.handshake_pings)
}

/// A new manager is in its handshake, and no event makes one that is still in it have enough
/// measurements.
pub proof fn law_handshake_stays_open(
    config: SyncConfig,
    s: SyncState,
    delta: nat,
    pong: TimeSyncPongMessage,
    now: WrappedTime,
    rtt: nat,
    jitter: nat,
)
    requires
        handshake_open(s),
    ensures
        handshake_open(SyncState::initial(config)),
        handshake_open(s.updated(now, delta)),
        handshake_open(s.ping_sent(now)),
        handshake_open(s.pong_received(pong, now)),
        handshake_open(s.estimated(rtt, jitter)),
{
}

/// The handshake ends with the pong that brings the number of measurements to what it asks for,
/// and with no other. One that asks for none ends with the first.
pub proof fn law_handshake_ends_on_time(s: SyncState, pong: TimeSyncPongMessage, now: WrappedTime)
    requires
        handshake_open(s),
        !s.synced,
    ensures
        s.pong_received(pong, now).synced <==> s.accepts(pong) && s.samples.len() + 1 == (
        if s.config.handshake_pings == 0 {
            1
        } else {
            s.config.handshake_pings as nat
        }),
{
}

/// A handshake that is over stays over.
pub proof fn law_handshake_stays_over(
    s: SyncState,
    delta: nat,
    pong: TimeSyncPongMessage,
    now: WrappedTime,
    rtt: nat,
    jitter: nat,
)
    requires
        s.synced,
    ensures
        s.updated(now, delta).synced,
        s.ping_sent(now).synced,
        s.pong_received(pong, now).synced,
        s.estimated(rtt, jitter).synced,
{
}

/// What [`later_items`] keeps of `items` is among them, and is all of them just when all are later.
proof fn lemma_later_items<T>(items: Seq<TimedItem<T>>, key: WrappedTime)
    ensures
        later_items(items, key).len() <= items.len(),
        forall|i: int|
            0 <= i < later_items(items, key).len() ==> items.contains(
                #[trigger] later_items(items, key)[i],
            ),
        later_items(items, key).len() == items.len() <==> (forall|i: int|
            0 <= i < items.len() ==> (#[trigger] items[i]).key.later_than(key)),
        later_items(items, key).len() == items.len() ==> later_items(items, key) == items,
    decreases items.len(),
{
    reveal(Seq::filter);
    if items.len() > 0 {
        let rest = items.drop_last();
        lemma_later_items(rest, key);
        assert forall|i: int| 0 <= i < later_items(items, key).len() implies items.contains(
            #[trigger] later_items(items, key)[i],
        ) by {
            if i < later_items(rest, key).len() {
                assert(rest.contains(later_items(rest, key)[i]));
                let j = rest.index_of(later_items(rest, key)[i]);
                assert(items[j] == rest[j]);
            } else {
                assert(items[items.len() - 1] == items.last());
            }
        }
        assert(forall|i: int| 0 <= i < rest.len() ==> rest[i] == items[i]);
        if later_items(items, key).len() == items.len() {
            assert(items.last().key.later_than(key));
            assert forall|i: int| 0 <= i < items.len() implies (
                #[trigger] items[i]).key.later_than(key) by {
                if i < rest.len() {
                    assert(rest[i] == items[i]);
                }
            }
            assert(later_items(items, key) =~= items);
        }
        if forall|i: int| 0 <= i < items.len() ==> (#[trigger] items[i]).key.later_than(key) {
            assert(items[items.len() - 1].key.later_than(key));
        }
    }
}

/// Once the handshake is over, a frame keeps a measurement just when it is later than the start
/// of the while for which measurements count.
pub proof fn law_old_measurements_are_dropped(
    s: SyncState,
    now: WrappedTime,
    delta: nat,
    sample: TimedItem<SyncStats>,
)
    requires
        s.synced,
    ensures
        s.updated(now, delta).samples.contains(sample) <==> s.samples.contains(sample)
            && sample.key.later_than(now.before(s.config.stats_buffer_duration@)),
{
    broadcast use vstd::seq_lib::group_filter_ensures;

    let start = now.before(s.config.stats_buffer_duration@);
    let later = |entry: TimedItem<SyncStats>| entry.key.later_than(start);
    let kept = s.samples.filter(later);
    assert(later_items(s.samples, start) == kept);
    if s.samples.contains(sample) && sample.key.later_than(start) {
        let i = s.samples.index_of(sample);
        assert(later(s.samples[i]));
        assert(kept.contains(s.samples[i]));
    }
    if kept.contains(sample) {
        let i = kept.index_of(sample);
        assert(later(kept[i]));
        lemma_later_items(s.samples, start);
        assert(s.samples.contains(later_items(s.samples, start)[i]));
    }
}

/// A frame changes the number of measurements just when the handshake is over and one of them has
/// become too old; if none has, the measurements stay as they are.
pub proof fn law_estimate_stays_current(s: SyncState, now: WrappedTime, delta: nat)
    ensures
        s.updated(now, delta).samples.len() != s.samples.len() <==> s.synced && (exists|i: int|
            0 <= i < s.samples.len() && !(#[trigger] s.samples[i]).key.later_than(
                now.before(s.config.stats_buffer_duration@),
            )),
        s.updated(now, delta).samples.len() == s.samples.len() ==> s.updated(now, delta).samples
            == s.samples,
{
    lemma_later_items(s.samples, now.before(s.config.stats_buffer_duration@));
}

/// On a way of `there` microseconds to the server and `back` microseconds from it, where the
/// server's clock is `offset` ahead and it answers after `busy`, the measured delay is the time on
/// both ways, and the measured offset is off by no more than half of that, and half a microsecond
/// for rounding. If both ways take equally long, the measured offset is exact. The delay is so where
/// the exchange takes less than half a turn of the clock, and the offset where the clocks show the
/// two ends of each way no more than that apart.
pub proof fn law_measurement_is_accurate(
    sent: int,
    offset: int,
    there: nat,
    busy: nat,
    back: nat,
    pong: TimeSyncPongMessage,
)
    requires
        pong.ping_received_time == WrappedTime::at(sent + offset + there),
        pong.pong_sent_time == WrappedTime::at(sent + offset + there + busy),
    ensures
        ({
            let start = WrappedTime::at(sent);
            let end = WrappedTime::at(sent + there + busy + back);
            let error = clock_offset(start, pong, end) - offset;
            &&& there + busy + back < 0x8000_0000 ==> round_trip_delay(start, pong, end) == there
                + back
            &&& -0x8000_0000 <= offset - back && offset + there < 0x8000_0000 ==> {
                &&& -(there + back + 1) <= 2 * error <= there + back + 1
                &&& there == back ==> error == 0
            }
        }),
{
    if there + busy + back < 0x8000_0000 {
        law_clock_difference(sent + there + busy + back, sent);
        law_clock_difference(sent + offset + there + busy, sent + offset + there);
    }
    if -0x8000_0000 <= offset - back && offset + there < 0x8000_0000 {
        law_clock_difference(sent + offset + there, sent);
        law_clock_difference(sent + offset + there + busy, sent + there + busy + back);
    }
}

/// A client never speeds up where one further behind would not, and never slows down where one
/// further ahead would not.
pub proof fn law_speed_is_monotone(behind: int, ahead: int, margin: nat)
    requires
        behind <= ahead,
    ensures
        speed_for(ahead, margin) == RelativeSpeed::SpeedUp ==> speed_for(behind, margin)
            == RelativeSpeed::SpeedUp,
        speed_for(behind, margin) == RelativeSpeed::SlowDown ==> speed_for(ahead, margin)
            == RelativeSpeed::SlowDown,
{
}

/// A client slows down when it is too far ahead just as it speeds up when it is as far behind.
pub proof fn law_speed_is_symmetric(error: int, margin: nat)
    ensures
        speed_for(error, margin) == RelativeSpeed::SlowDown <==> speed_for(-error, margin)
            == RelativeSpeed::SpeedUp,
        speed_for(error, margin) == RelativeSpeed::Normal <==> speed_for(-error, margin)
            == RelativeSpeed::Normal,
{
}

/// Until the server tells another tick, what the client takes for the server's clock runs on with
/// each frame by the length of the frame.
pub proof fn law_server_clock_runs_on(s: SyncState, now: WrappedTime, delta: nat, tick_duration: nat)
    ensures
        s.updated(now, delta).server_run_time(tick_duration) == s.server_run_time(tick_duration)
            + delta,
{
}

/// A packet that is sent now is expected half of a round trip later on the server's clock.
pub proof fn law_packet_takes_half_a_round_trip(s: SyncState, tick_duration: nat)
    requires
        s.rtt / 2 / 1_000 < 0x8000_0000,
    ensures
        s.predicted_server_receive_time(tick_duration).ahead_of(
            s.current_server_time(tick_duration),
        ) == s.rtt / 2 / 1_000,
{
    lemma_lead_and_step(s.current_server_time(tick_duration), s.rtt / 2 / 1_000, 0);
}

/// The ideal tick is the last one that has started by the ideal time, unless that lies beyond the
/// last tick before ticks start over.
pub proof fn law_ideal_tick_has_started(s: SyncState, tick_duration: nat)
    requires
        s.can_finalize(tick_duration),
        s.client_ideal_time(tick_duration).elapsed_us_wrapped < 0x1_0000 * ((tick_duration
            / 1_000) % 0x1_0000_0000),
    ensures
        ({
            let tick_us = (tick_duration / 1_000) % 0x1_0000_0000;
            let tick = s.client_ideal_tick(tick_duration).0 as nat;
            let time = s.client_ideal_time(tick_duration).elapsed_us_wrapped as nat;
            tick * tick_us <= time < (tick + 1) * tick_us
        }),
{
    let tick_us = (tick_duration / 1_000) % 0x1_0000_0000;
    let time = s.client_ideal_time(tick_duration).elapsed_us_wrapped as nat;
    let ticks = time / tick_us;
    assert(ticks < 0x1_0000 && ticks * tick_us <= time < (ticks + 1) * tick_us)
        by (nonlinear_arith)
        requires
            tick_us > 0,
            time < 0x1_0000 * tick_us,
            ticks == time / tick_us,
    ;
}

/// A time `step` past one that is `lead` ahead of `from`, along the shorter way round.
proof fn lemma_lead_and_step(from: WrappedTime, lead: nat, step: int)
    requires
        -0x8000_0000 <= lead + step < 0x8000_0000,
    ensures
        WrappedTime::at(
            WrappedTime::at(from.elapsed_us_wrapped + lead).elapsed_us_wrapped + step,
        ).ahead_of(from) == lead + step,
{
}

/// How long after the start of the ideal tick the ideal time comes, in microseconds.
pub open spec fn into_ideal_tick_us(s: SyncState, tick_duration: nat) -> int {
    let tick_us = (tick_duration / 1_000) % 0x1_0000_0000;
    s.client_ideal_time(tick_duration).elapsed_us_wrapped - s.client_ideal_tick(tick_duration).0
        as nat * tick_us
}

/// How far a client at the ideal tick is past where whole microseconds per tick would take it, in
/// nanoseconds: by its overstep, and by the rest of each tick below a microsecond.
pub open spec fn past_ideal_tick(s: SyncState, tick_duration: nat, overstep: nat) -> nat {
    s.client_ideal_tick(tick_duration).0 as nat * (tick_duration % 1_000) + overstep
}

/// Where tick `tick` starts, in nanoseconds, is `turns` turns of the clock after where it starts on
/// the clock, and the rests of its ticks below a microsecond.
proof fn lemma_tick_start(tick: nat, tick_duration: nat, tick_us: nat, turns: nat, rest: nat)
    by (nonlinear_arith)
    requires
        tick_duration == 1_000 * (tick_us + 0x1_0000_0000 * turns) + rest,
    ensures
        tick_duration * tick == 1_000 * (tick * tick_us + 0x1_0000_0000 * (tick * turns)) + tick
            * rest,
{
}

/// `time` is less than a tick after its start if the next tick starts later.
proof fn lemma_time_within_tick(tick: nat, tick_us: nat, time: nat)
    by (nonlinear_arith)
    requires
        tick * tick_us <= time < (tick + 1) * tick_us,
    ensures
        0 <= time - tick * tick_us < tick_us,
{
}

/// A client that runs on for `past` nanoseconds from `late` microseconds before its ideal time, some
/// turns of the clock later, is as far ahead of the time `from` as the lead, `past` and `late` say.
/// So it is off by no more than `past` one way and less than `tick_us` microseconds the other.
proof fn lemma_error_within_tick(
    from: WrappedTime,
    lead: nat,
    late: int,
    tick_us: nat,
    past: nat,
    turns: nat,
    run_time: nat,
)
    requires
        0 <= late < tick_us,
        -0x8000_0000 <= lead / 1_000 + past / 1_000 - late < 0x8000_0000,
        run_time == 1_000 * (from.after(lead).elapsed_us_wrapped - late + 0x1_0000_0000 * turns)
            + past,
    ensures
        ({
            let error = WrappedTime::at((run_time / 1_000) as int).ahead_of(from) * 1_000 - lead;
            -1_000 * tick_us < error <= past
        }),
{
    let step = past / 1_000 - late;
    let base = from.after(lead).elapsed_us_wrapped + step;
    assert(run_time / 1_000 == base + 0x1_0000_0000 * turns);
    lemma_mod_multiples_vanish(turns as int, base, 0x1_0000_0000);
    assert(WrappedTime::at((run_time / 1_000) as int) == WrappedTime::at(base));
    lemma_lead_and_step(from, lead / 1_000, step);
}

/// While the client is at the ideal tick, so right after its tick has been set, it is less than a
/// tick behind where it should be, and ahead by no more than its overstep and the rests of its
/// ticks below a microsecond. With a margin that neither exceeds, such as one of a tick where ticks
/// take whole microseconds, the simulation then runs at its normal speed. This is so where the
/// client is less than half a turn of the clock away from the time at which its packets arrive;
/// where the ideal time comes before ticks start over; and where the ideal tick is not so far
/// behind the server's as to count as having started over.
#[verifier::spinoff_prover]
pub proof fn law_client_in_step_after_handshake(
    s: SyncState,
    tick_duration: nat,
    overstep: nat,
    margin: nat,
)
    requires
        s.can_finalize(tick_duration),
        -0x8000_0000 <= s.client_ahead_minimum(tick_duration) / 1_000 + past_ideal_tick(
            s,
            tick_duration,
            overstep,
        ) / 1_000 - into_ideal_tick_us(s, tick_duration) < 0x8000_0000,
        s.client_ideal_time(tick_duration).elapsed_us_wrapped < 0x1_0000 * ((tick_duration
            / 1_000) % 0x1_0000_0000),
        s.server_tick.0 - s.client_ideal_tick(tick_duration).0 <= WRAP_THRESHOLD,
    ensures
        ({
            let tick = s.client_ideal_tick(tick_duration);
            let error = s.client_error(tick, tick_duration, overstep);
            let past = past_ideal_tick(s, tick_duration, overstep);
            &&& -tick_duration < error <= past
            &&& tick_duration <= margin && past <= margin ==> speed_for(error, margin)
                == RelativeSpeed::Normal
        }),
{
    let tick_us = (tick_duration / 1_000) % 0x1_0000_0000;
    let turns = (tick_duration / 1_000) / 0x1_0000_0000;
    let tick = s.client_ideal_tick(tick_duration);
    let lead = s.client_ahead_minimum(tick_duration);
    let from = s.predicted_server_receive_time(tick_duration);
    let time = s.client_ideal_time(tick_duration).elapsed_us_wrapped as nat;
    let late = into_ideal_tick_us(s, tick_duration);
    let past = past_ideal_tick(s, tick_duration, overstep);
    let run_time = s.client_run_time(tick, tick_duration, overstep);
    law_ideal_tick_has_started(s, tick_duration);
    lemma_time_within_tick(tick.0 as nat, tick_us, time);
    lemma_tick_start(tick.0 as nat, tick_duration, tick_us, turns, tick_duration % 1_000);
    assert(run_time == 1_000 * (time - late + 0x1_0000_0000 * (tick.0 as nat * turns)) + past);
    lemma_error_within_tick(from, lead, late, tick_us, past, tick.0 as nat * turns, run_time);
}

} // verus!
