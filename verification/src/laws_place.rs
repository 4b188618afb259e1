//! What holds of where the client and the server are, and of where the client should be.

use vstd::arithmetic::mul::lemma_mul_is_distributive_add;
use vstd::arithmetic::mul::lemma_mul_is_distributive_add_other_way;
use vstd::prelude::*;

use crate::laws::law_clock_difference;
use crate::ping::TimeSyncPongMessage;
use crate::state::{speed_for, unwrapped_tick, SyncState};
use crate::stats::{clock_offset, measured, round_trip_delay};
use crate::time::RelativeSpeed;
use crate::wrapped::{Tick, WrappedTime};

verus! {

/// A server that has told no tick but zero, just now and over no distance, has not run yet. Each
/// further tick adds the length of a tick to its run time, time since then adds itself, and two
/// further nanoseconds of round trip add one, whatever the length of a tick.
pub proof fn law_server_run_time_adds_up(s: SyncState, tick_duration: nat, d: nat)
    ensures
        ({
            let start = SyncState { server_tick: Tick(0), since_server_tick: 0, rtt: 0, ..s };
            let later = SyncState { since_server_tick: s.since_server_tick + d, ..s };
            let further = SyncState { rtt: s.rtt + 2 * d, ..s };
            let next = SyncState { server_tick: Tick((s.server_tick.0 + 1) as u16), ..s };
            let odd = SyncState { rtt: s.rtt + 1, ..s };
            let run_time = s.server_run_time(tick_duration);
            &&& start.server_run_time(tick_duration) == 0
            &&& later.server_run_time(tick_duration) == run_time + d
            &&& further.server_run_time(tick_duration) == run_time + d
            &&& s.server_tick.0 < 65_535 ==> next.server_run_time(tick_duration) == run_time
                + tick_duration
            &&& s.rtt % 2 == 0 ==> odd.server_run_time(tick_duration) == run_time
        }),
{
    let t = s.server_tick.0 as int;
    lemma_mul_is_distributive_add(tick_duration as int, t, 1);
    assert(tick_duration * 0 == 0);
}

/// The run time of the server depends on the tick that it told, on the time since and on the round
/// trip, and on nothing else that the client knows.
pub proof fn law_server_run_time_depends_on_the_server(
    s: SyncState,
    other: SyncState,
    tick_duration: nat,
)
    requires
        s.server_tick == other.server_tick,
        s.since_server_tick == other.since_server_tick,
        s.rtt == other.rtt,
    ensures
        s.server_run_time(tick_duration) == other.server_run_time(tick_duration),
        s.predicted_server_receive_time(tick_duration) == other.predicted_server_receive_time(
            tick_duration,
        ),
{
}

/// The server's clock shows the whole microseconds of its run time: of the ticks that it told, the
/// time since, and half of the round trip. A packet that is sent now arrives another half later.
/// So it arrives a full round trip after the time that was told, up to a microsecond that rounding
/// may take.
pub proof fn law_packet_arrives_a_round_trip_after_the_tick(s: SyncState, tick_duration: nat)
    ensures
        ({
            let told = tick_duration * s.server_tick.0 as nat + s.since_server_tick;
            let now = s.current_server_time(tick_duration).elapsed_us_wrapped;
            let arrival = s.predicted_server_receive_time(tick_duration).elapsed_us_wrapped;
            let half = s.rtt / 2;
            &&& ((told + half) / 1_000 - now) % 0x1_0000_0000 == 0
            &&& ((told + half) / 1_000 + half / 1_000 - arrival) % 0x1_0000_0000 == 0
            &&& {
                ||| ((told + 2 * half) / 1_000 - arrival) % 0x1_0000_0000 == 0
                ||| ((told + 2 * half) / 1_000 - 1 - arrival) % 0x1_0000_0000 == 0
            }
        }),
{
}

/// The client should be ahead of the arrival of its packets by its margin in ticks if there is no
/// jitter, and by its margin in jitters for each nanosecond of jitter.
pub proof fn law_lead_adds_up(s: SyncState, tick_duration: nat, d: nat)
    ensures
        ({
            let still = SyncState { jitter: 0, ..s };
            let rougher = SyncState { jitter: s.jitter + d, ..s };
            let lead = s.client_ahead_minimum(tick_duration);
            let jitter_margin = s.config.jitter_multiple_margin as nat;
            let tick_margin = s.config.tick_margin as nat;
            &&& still.client_ahead_minimum(tick_duration) == tick_margin * tick_duration
            &&& rougher.client_ahead_minimum(tick_duration) == lead + jitter_margin * d
            &&& s.client_ahead_minimum(tick_duration + d) == lead + tick_margin * d
        }),
{
    let jm = s.config.jitter_multiple_margin as int;
    let tm = s.config.tick_margin as int;
    lemma_mul_is_distributive_add_other_way(jm, s.jitter as int, d as int);
    lemma_mul_is_distributive_add_other_way(tm, tick_duration as int, d as int);
    assert(tick_duration * tm == tm * tick_duration && d * tm == tm * d && d * jm == jm * d)
        by (nonlinear_arith);
    assert(0 * jm == 0);
}

/// The ideal time is the lead after the arrival of a packet that is sent now.
pub proof fn law_ideal_time_is_the_lead_after_arrival(s: SyncState, tick_duration: nat)
    ensures
        ({
            let told = tick_duration * s.server_tick.0 as nat + s.since_server_tick;
            let half = s.rtt / 2;
            let lead = s.jitter * s.config.jitter_multiple_margin as nat + tick_duration
                * s.config.tick_margin as nat;
            let ideal = s.client_ideal_time(tick_duration).elapsed_us_wrapped;
            ((told + half) / 1_000 + half / 1_000 + lead / 1_000 - ideal) % 0x1_0000_0000 == 0
        }),
{
}

/// Two readings of the clock that stand for `x` and for `d` more differ by `d`, up to whole turns.
pub(crate) proof fn lemma_readings_differ(a: int, b: int, x: int, d: int)
    requires
        (x - a) % 0x1_0000_0000 == 0,
        (x + d - b) % 0x1_0000_0000 == 0,
    ensures
        (b - a - d) % 0x1_0000_0000 == 0,
{
}

/// Two readings of the clock that stand for `x` and `y` differ by as much as these, up to whole
/// turns.
pub(crate) proof fn lemma_readings_stand_for(a: int, x: int, b: int, y: int, d: int)
    requires
        (x - a) % 0x1_0000_0000 == 0,
        (y - b) % 0x1_0000_0000 == 0,
        (x - y - d) % 0x1_0000_0000 == 0,
    ensures
        (a - b - d) % 0x1_0000_0000 == 0,
{
}

/// The difference of two times is the only one within half a turn that leads from one to the other.
pub(crate) proof fn lemma_ahead_of_is(a: WrappedTime, b: WrappedTime, d: int)
    requires
        -0x8000_0000 <= d < 0x8000_0000,
        (a.elapsed_us_wrapped - b.elapsed_us_wrapped - d) % 0x1_0000_0000 == 0,
    ensures
        a.ahead_of(b) == d,
{
}

/// A time that is `d` further on is ahead by as much more, if that is less than half a turn.
proof fn lemma_ahead_moves(x: int, from: WrappedTime, d: nat)
    requires
        WrappedTime::at(x).ahead_of(from) + d < 0x8000_0000,
    ensures
        WrappedTime::at(x + d).ahead_of(from) == WrappedTime::at(x).ahead_of(from) + d,
{
    let ahead = WrappedTime::at(x).ahead_of(from);
    lemma_readings_stand_for(
        WrappedTime::at(x + d).elapsed_us_wrapped as int,
        x + d,
        from.elapsed_us_wrapped as int,
        from.elapsed_us_wrapped as int,
        ahead + d,
    );
    lemma_ahead_of_is(WrappedTime::at(x + d), from, ahead + d);
}

/// Another `2 * micros` microseconds of round trip move the server's clock on by `micros`, and the
/// ideal time by `2 * micros`, whatever the length of a tick.
pub proof fn law_latency_moves_the_ideal_time(s: SyncState, tick_duration: nat, micros: nat)
    ensures
        ({
            let far = SyncState { rtt: s.rtt + 2_000 * micros, ..s };
            &&& (far.current_server_time(tick_duration).elapsed_us_wrapped - s.current_server_time(
                tick_duration,
            ).elapsed_us_wrapped - micros) % 0x1_0000_0000 == 0
            &&& (far.client_ideal_time(tick_duration).elapsed_us_wrapped - s.client_ideal_time(
                tick_duration,
            ).elapsed_us_wrapped - 2 * micros) % 0x1_0000_0000 == 0
        }),
{
    let far = SyncState { rtt: s.rtt + 2_000 * micros, ..s };
    let told = tick_duration * s.server_tick.0 as nat + s.since_server_tick;
    let half = s.rtt / 2;
    let lead = s.jitter * s.config.jitter_multiple_margin as nat + tick_duration
        * s.config.tick_margin as nat;
    let x = (told + half) / 1_000;
    assert(far.rtt / 2 == half + 1_000 * micros);
    assert((told + half + 1_000 * micros) / 1_000 == x + micros);
    assert((half + 1_000 * micros) / 1_000 == half / 1_000 + micros);
    assert(((x - s.current_server_time(tick_duration).elapsed_us_wrapped) % 0x1_0000_0000 == 0) && (
    (x + micros - far.current_server_time(tick_duration).elapsed_us_wrapped) % 0x1_0000_0000
        == 0)) by {
        law_packet_arrives_a_round_trip_after_the_tick(s, tick_duration);
        law_packet_arrives_a_round_trip_after_the_tick(far, tick_duration);
    }
    lemma_readings_differ(
        s.current_server_time(tick_duration).elapsed_us_wrapped as int,
        far.current_server_time(tick_duration).elapsed_us_wrapped as int,
        x as int,
        micros as int,
    );
    let y = x + half / 1_000 + lead / 1_000;
    assert(((y - s.client_ideal_time(tick_duration).elapsed_us_wrapped) % 0x1_0000_0000 == 0) && ((y
        + 2 * micros - far.client_ideal_time(tick_duration).elapsed_us_wrapped) % 0x1_0000_0000
        == 0)) by {
        law_ideal_time_is_the_lead_after_arrival(s, tick_duration);
        law_ideal_time_is_the_lead_after_arrival(far, tick_duration);
    }
    lemma_readings_differ(
        s.client_ideal_time(tick_duration).elapsed_us_wrapped as int,
        far.client_ideal_time(tick_duration).elapsed_us_wrapped as int,
        y as int,
        2 * micros as int,
    );
}

/// The ideal tick is the one in which the ideal time falls, counted in ticks of whole microseconds,
/// less full turns of ticks.
pub proof fn law_ideal_time_falls_in_the_ideal_tick(s: SyncState, tick_duration: nat) -> (turns:
    nat)
    requires
        (tick_duration / 1_000) % 0x1_0000_0000 != 0,
    ensures
        ({
            let tick_us = (tick_duration / 1_000) % 0x1_0000_0000;
            let tick = s.client_ideal_tick(tick_duration).0 as nat + 0x1_0000 * turns;
            tick * tick_us <= s.client_ideal_time(tick_duration).elapsed_us_wrapped < (tick + 1)
                * tick_us
        }),
{
    let tick_us = (tick_duration / 1_000) % 0x1_0000_0000;
    let time = s.client_ideal_time(tick_duration).elapsed_us_wrapped as nat;
    let ticks = time / tick_us;
    assert(ticks * tick_us <= time < (ticks + 1) * tick_us) by (nonlinear_arith)
        requires
            tick_us > 0,
            ticks == time / tick_us,
    ;
    ticks / 0x1_0000
}

/// A client at tick zero of a server near its start has not run yet. Each further tick adds the
/// length of a tick to its run time, unless ticks are counted on in between, and an overstep adds
/// itself.
pub proof fn law_client_run_time_adds_up(
    s: SyncState,
    tick: Tick,
    tick_duration: nat,
    overstep: nat,
    d: nat,
)
    ensures
        s.server_tick.0 <= 31_767 ==> s.client_run_time(Tick(0), tick_duration, 0) == 0,
        s.client_run_time(tick, tick_duration, overstep + d) == s.client_run_time(
            tick,
            tick_duration,
            overstep,
        ) + d,
        tick.0 < 65_535 && s.server_tick.0 <= tick.0 + 31_767 ==> s.client_run_time(
            Tick((tick.0 + 1) as u16),
            tick_duration,
            overstep,
        ) == s.client_run_time(tick, tick_duration, overstep) + tick_duration,
        s.server_tick.0 > tick.0 + 31_767 ==> s.client_run_time(tick, tick_duration, overstep)
            == tick_duration * (tick.0 + 65_535) as nat + overstep,
{
    lemma_mul_is_distributive_add(tick_duration as int, tick.0 as int, 1);
    assert(tick_duration * 0 == 0);
}

/// How far the client is off is how far it is ahead of the arrival of its packets, along the
/// shorter way round the clock, less its lead.
pub proof fn law_client_error_is_what_the_lead_leaves(
    s: SyncState,
    tick: Tick,
    tick_duration: nat,
    overstep: nat,
)
    ensures
        ({
            let run_time = tick_duration * unwrapped_tick(tick, s.server_tick) + overstep;
            let told = tick_duration * s.server_tick.0 as nat + s.since_server_tick;
            let half = s.rtt / 2;
            let arrival = (told + half) / 1_000 + half / 1_000;
            let lead = s.jitter * s.config.jitter_multiple_margin as nat + tick_duration
                * s.config.tick_margin as nat;
            let ahead = s.client_ahead_us(tick, tick_duration, overstep);
            &&& -0x8000_0000 <= ahead < 0x8000_0000
            &&& (run_time / 1_000 - arrival - ahead) % 0x1_0000_0000 == 0
            &&& s.client_error(tick, tick_duration, overstep) == 1_000 * ahead - lead
        }),
{
}

/// Less than half a turn of the clock away from the arrival of its packets, a client that is
/// further on by whole microseconds is off by as much more.
pub proof fn law_client_error_moves_with_the_client(
    s: SyncState,
    tick: Tick,
    tick_duration: nat,
    overstep: nat,
    micros: nat,
)
    requires
        s.client_ahead_us(tick, tick_duration, overstep) + micros < 0x8000_0000,
    ensures
        s.client_error(tick, tick_duration, overstep + 1_000 * micros) == s.client_error(
            tick,
            tick_duration,
            overstep,
        ) + 1_000 * micros,
{
    let a = s.client_run_time(tick, tick_duration, overstep);
    let b = s.client_run_time(tick, tick_duration, overstep + 1_000 * micros);
    assert(b / 1_000 == a / 1_000 + micros);
    lemma_ahead_moves(
        (a / 1_000) as int,
        s.predicted_server_receive_time(tick_duration),
        micros,
    );
}

/// The speed stays normal just while the client is off by no more than the margin either way. A
/// client that is too far ahead slows down, and one too far behind speeds up.
pub proof fn law_speed_counters_the_error(error: int, margin: nat)
    ensures
        speed_for(error, margin) == RelativeSpeed::Normal <==> -margin <= error <= margin,
        speed_for(error, margin) == RelativeSpeed::SlowDown <==> error > margin,
        speed_for(error, margin) == RelativeSpeed::SpeedUp <==> error < -margin,
{
}

/// The spans stay in range just while each is at most `u64::MAX` seconds and 999 999 999
/// nanoseconds, and each difference at most `i64::MAX` milliseconds either way.
pub proof fn law_range_is_that_of_the_spans(
    s: SyncState,
    tick: Tick,
    tick_duration: nat,
    overstep: nat,
    margin: nat,
    delta: nat,
)
    ensures
        ({
            let longest = u64::MAX * 1_000_000_000 + 999_999_999;
            let furthest = i64::MAX * 1_000_000;
            let run_time = tick_duration * s.server_tick.0 as nat + s.since_server_tick + s.rtt / 2;
            let lead = s.jitter * s.config.jitter_multiple_margin as nat + tick_duration
                * s.config.tick_margin as nat;
            let client = tick_duration * unwrapped_tick(tick, s.server_tick) + overstep;
            &&& s.can_update(delta) <==> s.timer.elapsed + delta <= longest && s.since_server_tick
                + delta <= longest
            &&& s.can_finalize(tick_duration) <==> (tick_duration / 1_000) % 0x1_0000_0000 != 0
                && run_time <= longest && lead <= longest
            &&& s.can_compare(tick, tick_duration, overstep, margin) <==> run_time <= longest
                && client <= longest && lead <= furthest && margin <= furthest && s.client_ahead_us(
                tick,
                tick_duration,
                overstep,
            ) * 1_000 - lead >= -furthest
        }),
{
}

/// A measurement is exact up to the rounding of the offset: the offset is half of what the ping
/// took by the two clocks less what the pong took, without its fraction, and the delay is the time
/// between ping and pong at the client less that at the server. Each of the four times is taken
/// along the shorter way round the clock.
pub proof fn law_measurement_is_exact(
    sent: WrappedTime,
    pong: TimeSyncPongMessage,
    now: WrappedTime,
    there: int,
    back: int,
    exchange: int,
    busy: int,
)
    requires
        -0x8000_0000 <= there < 0x8000_0000,
        -0x8000_0000 <= back < 0x8000_0000,
        -0x8000_0000 <= exchange < 0x8000_0000,
        -0x8000_0000 <= busy < 0x8000_0000,
        (pong.ping_received_time.elapsed_us_wrapped - sent.elapsed_us_wrapped - there)
            % 0x1_0000_0000 == 0,
        (pong.pong_sent_time.elapsed_us_wrapped - now.elapsed_us_wrapped - back) % 0x1_0000_0000
            == 0,
        (now.elapsed_us_wrapped - sent.elapsed_us_wrapped - exchange) % 0x1_0000_0000 == 0,
        (pong.pong_sent_time.elapsed_us_wrapped - pong.ping_received_time.elapsed_us_wrapped - busy)
            % 0x1_0000_0000 == 0,
    ensures
        ({
            let stats = measured(sent, pong, now);
            let sum = there + back;
            &&& stats.offset_us == clock_offset(sent, pong, now)
            &&& stats.round_trip_delay_us == round_trip_delay(sent, pong, now)
            &&& sum >= 0 ==> 2 * stats.offset_us <= sum <= 2 * stats.offset_us + 1
            &&& sum <= 0 ==> 2 * stats.offset_us - 1 <= sum <= 2 * stats.offset_us
            &&& stats.round_trip_delay_us == exchange - busy
        }),
{
    lemma_ahead_of_is(pong.ping_received_time, sent, there);
    lemma_ahead_of_is(pong.pong_sent_time, now, back);
    lemma_ahead_of_is(now, sent, exchange);
    lemma_ahead_of_is(pong.pong_sent_time, pong.ping_received_time, busy);
    let stats = measured(sent, pong, now);
    let sum = there + back;
    assert(clock_offset(sent, pong, now) == (if sum >= 0 {
        sum / 2
    } else {
        -((-sum) / 2)
    }));
}

/// If the server's clock is turned on, the measured offset grows by as much, up to rounding, and
/// the delay stays the same, as long as the clocks are less than half a turn apart.
pub proof fn law_measurement_follows_the_server_clock(
    sent: int,
    received: int,
    answered: int,
    now: int,
    turn: int,
)
    requires
        -0x8000_0000 <= received - sent < 0x8000_0000,
        -0x8000_0000 <= answered - now < 0x8000_0000,
        -0x8000_0000 <= now - sent < 0x8000_0000,
        -0x8000_0000 <= answered - received < 0x8000_0000,
        -0x8000_0000 <= received + turn - sent < 0x8000_0000,
        -0x8000_0000 <= answered + turn - now < 0x8000_0000,
    ensures
        forall|pong: TimeSyncPongMessage, turned: TimeSyncPongMessage|
            pong.ping_received_time == WrappedTime::at(received) && pong.pong_sent_time
                == WrappedTime::at(answered) && turned.ping_received_time == WrappedTime::at(
                received + turn,
            ) && turned.pong_sent_time == WrappedTime::at(answered + turn) ==> {
                let a = #[trigger] measured(WrappedTime::at(sent), pong, WrappedTime::at(now));
                let b = #[trigger] measured(WrappedTime::at(sent), turned, WrappedTime::at(now));
                &&& b.round_trip_delay_us == a.round_trip_delay_us
                &&& -1 <= b.offset_us - a.offset_us - turn <= 1
                &&& (received - sent + answered - now) % 2 == 0 ==> b.offset_us == a.offset_us
                    + turn
            },
{
    law_clock_difference(received, sent);
    law_clock_difference(answered, now);
    law_clock_difference(now, sent);
    law_clock_difference(answered, received);
    law_clock_difference(received + turn, sent);
    law_clock_difference(answered + turn, now);
    law_clock_difference(answered + turn, received + turn);
}

} // verus!
