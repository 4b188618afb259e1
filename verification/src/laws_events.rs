//! What holds over any sequence of events.

use vstd::prelude::*;

use crate::config::SyncConfig;
use crate::laws_clock::{counted_up, law_later_is_the_order_of_sending};
use crate::ping::{TimeSyncPingMessage, TimeSyncPongMessage};
use crate::ready_buffer::TimedItem;
use crate::state::SyncState;
use crate::stats::{measured, SyncStats};
use crate::sync::SyncManager;
use crate::wrapped::{PingId, Tick, WrappedTime};

verus! {

/// What a manager may meet.
pub enum Event {
    /// A frame of length `delta` ends at `now`.
    Frame { now: WrappedTime, delta: nat },
    /// The client asks at `now` for a ping to send.
    Ping { now: WrappedTime },
    /// A pong arrives at `now`.
    Pong { pong: TimeSyncPongMessage, now: WrappedTime },
    /// The network is estimated anew.
    Estimate { rtt: nat, jitter: nat },
    /// A packet arrives that tells the server's tick.
    ServerTick { tick: Tick },
}

/// The manager after one event.
pub open spec fn step(s: SyncState, event: Event) -> SyncState {
    match event {
        Event::Frame { now, delta } => s.updated(now, delta),
        Event::Ping { now } => s.ping_sent(now),
        Event::Pong { pong, now } => s.pong_received(pong, now),
        Event::Estimate { rtt, jitter } => s.estimated(rtt, jitter),
        Event::ServerTick { tick } => SyncState { server_tick: tick, since_server_tick: 0, ..s },
    }
}

/// The manager after all of `events`.
pub open spec fn run(s: SyncState, events: Seq<Event>) -> SyncState
    decreases events.len(),
{
    if events.len() == 0 {
        s
    } else {
        step(run(s, events.drop_last()), events.last())
    }
}

/// How long the frames among `events` take together.
pub open spec fn frame_time(events: Seq<Event>) -> nat
    decreases events.len(),
{
    if events.len() == 0 {
        0
    } else {
        frame_time(events.drop_last()) + match events.last() {
            Event::Frame { delta, .. } => delta,
            _ => 0,
        }
    }
}

/// A new manager holds its settings, waits for its first interval to pass, has sent no ping and
/// will number the first one zero, has measured nothing and is not synced.
pub proof fn law_new_manager_knows_nothing(config: SyncConfig, id: PingId, tick: Tick)
    ensures
        ({
            let s = SyncState::initial(config);
            &&& s.config == config
            &&& s.timer.interval == config.sync_ping_interval@
            &&& s.timer.elapsed == 0
            &&& s.due_ping(tick) is None
            &&& s.pings.time_of(id) is None
            &&& s.pings.next == PingId(0)
            &&& s.most_recent_received_ping == PingId(65_534)
            &&& s.samples.len() == 0
            &&& s.rtt == 0
            &&& s.jitter == 0
            &&& !s.synced
            &&& s.server_tick == Tick(0)
            &&& s.since_server_tick == 0
        }),
{
}

/// What contracts say of a manager's state they say of its fields.
pub proof fn law_state_is_what_the_manager_holds(manager: SyncManager)
    ensures
        manager@.config == manager.config,
        manager@.timer == manager.ping_timer@,
        manager@.pings == manager.ping_store@,
        manager@.most_recent_received_ping == manager.most_recent_received_ping,
        manager@.samples == manager.sync_stats.buffer@,
        manager@.rtt == manager.final_stats.rtt@,
        manager@.jitter == manager.final_stats.jitter@,
        manager@.synced == manager.synced,
        manager@.server_tick == manager.latest_received_server_tick,
        manager@.since_server_tick == manager.duration_since_latest_received_server_tick@,
{
}

/// No event changes the settings or the interval of the timer. So pings are due at the configured
/// interval for ever.
pub proof fn law_interval_is_kept(s: SyncState, events: Seq<Event>)
    ensures
        run(s, events).config == s.config,
        run(s, events).timer.interval == s.timer.interval,
    decreases events.len(),
{
    if events.len() > 0 {
        law_interval_is_kept(s, events.drop_last());
    }
}

/// The timer of a manager always has the interval that it was made with.
pub proof fn law_timer_has_the_configured_interval(config: SyncConfig, events: Seq<Event>)
    ensures
        run(SyncState::initial(config), events).timer.interval == config.sync_ping_interval@,
        run(SyncState::initial(config), events).config == config,
{
    law_interval_is_kept(SyncState::initial(config), events);
}

/// Whatever the state, a frame makes a ping due just when the time since the timer started over
/// reaches its interval, and that time is otherwise kept.
pub proof fn law_every_frame_runs_the_timer(s: SyncState, now: WrappedTime, delta: nat, tick: Tick)
    ensures
        s.updated(now, delta).due_ping(tick) is Some <==> s.timer.elapsed + delta
            >= s.timer.interval,
        s.timer.elapsed + delta < s.timer.interval ==> s.updated(now, delta).timer.elapsed
            == s.timer.elapsed + delta,
{
}

/// A ping that is sent starts the timer over: no time has passed then towards the next.
pub proof fn law_sent_ping_starts_the_timer_over(s: SyncState, now: WrappedTime, tick: Tick)
    requires
        s.due_ping(tick) is Some,
    ensures
        s.ping_sent(now).timer.elapsed == 0,
        s.ping_sent(now).timer.interval == s.timer.interval,
        s.ping_sent(now).due_ping(tick) is None,
{
}

/// While the timer has started over and its interval has not passed, the time that has passed is
/// that of the frames, no ping is due, and none is numbered, whatever else happens.
proof fn lemma_no_ping_within_interval(s: SyncState, events: Seq<Event>)
    requires
        !s.timer.finished,
        s.timer.elapsed == 0,
        frame_time(events) < s.timer.interval || events.len() == 0,
    ensures
        !run(s, events).timer.finished,
        run(s, events).timer.elapsed == frame_time(events),
        run(s, events).pings.next == s.pings.next,
    decreases events.len(),
{
    if events.len() > 0 {
        law_interval_is_kept(s, events.drop_last());
        lemma_no_ping_within_interval(s, events.drop_last());
    }
}

/// After a ping, none is due until frames have taken the configured interval together, synced or
/// not, and whatever else happens in between.
pub proof fn law_no_ping_within_the_configured_interval(
    config: SyncConfig,
    history: Seq<Event>,
    sent_at: WrappedTime,
    events: Seq<Event>,
    tick: Tick,
)
    requires
        run(SyncState::initial(config), history).due_ping(tick) is Some,
        frame_time(events) < config.sync_ping_interval@,
    ensures
        run(run(SyncState::initial(config), history).ping_sent(sent_at), events).due_ping(
            tick,
        ) is None,
{
    law_timer_has_the_configured_interval(config, history);
    let s = run(SyncState::initial(config), history).ping_sent(sent_at);
    lemma_no_ping_within_interval(s, events);
}

/// After a ping, the next one is due in the frame in which the configured interval has passed,
/// synced or not, and whatever else happened in between. It has the next number.
pub proof fn law_ping_after_the_configured_interval(
    config: SyncConfig,
    history: Seq<Event>,
    sent_at: WrappedTime,
    events: Seq<Event>,
    now: WrappedTime,
    delta: nat,
    tick: Tick,
)
    requires
        run(SyncState::initial(config), history).due_ping(tick) is Some,
        frame_time(events) < config.sync_ping_interval@ || events.len() == 0,
        frame_time(events) + delta >= config.sync_ping_interval@,
    ensures
        ({
            let before = run(SyncState::initial(config), history);
            let after = run(run(before.ping_sent(sent_at), events), seq![
                Event::Frame { now, delta },
            ]);
            after.due_ping(tick) == Some(
                TimeSyncPingMessage {
                    id: counted_up((before.due_ping(tick)->0).id, 1),
                    tick,
                    ping_received_time: None,
                },
            )
        }),
{
    law_timer_has_the_configured_interval(config, history);
    let before = run(SyncState::initial(config), history);
    let s = before.ping_sent(sent_at);
    lemma_no_ping_within_interval(s, events);
    law_interval_is_kept(s, events);
    let frame = seq![Event::Frame { now, delta }];
    assert(frame.drop_last() =~= Seq::<Event>::empty());
    assert(run(run(s, events), frame.drop_last()) == run(s, events));
    assert(counted_up(s.pings.next, 0) == s.pings.next);
    assert(counted_up(before.pings.next, 0) == before.pings.next);
}

/// The first ping is due in the frame in which the configured interval has passed since the start,
/// and none before. It has number zero.
pub proof fn law_first_ping_after_the_configured_interval(
    config: SyncConfig,
    events: Seq<Event>,
    now: WrappedTime,
    delta: nat,
    tick: Tick,
)
    requires
        frame_time(events) < config.sync_ping_interval@ || events.len() == 0,
    ensures
        ({
            let s = run(SyncState::initial(config), events);
            &&& s.due_ping(tick) is None
            &&& frame_time(events) + delta < config.sync_ping_interval@ ==> s.updated(
                now,
                delta,
            ).due_ping(tick) is None
            &&& frame_time(events) + delta >= config.sync_ping_interval@ ==> s.updated(
                now,
                delta,
            ).due_ping(tick) == Some(
                TimeSyncPingMessage { id: PingId(0), tick, ping_received_time: None },
            )
        }),
{
    law_timer_has_the_configured_interval(config, events);
    lemma_no_ping_within_interval(SyncState::initial(config), events);
}

/// A ping that is sent carries the next number and the client's tick, and is recorded with the time
/// at which it is sent. Nothing else changes but the timer.
pub proof fn law_ping_is_recorded_as_sent(s: SyncState, now: WrappedTime, tick: Tick, other: PingId)
    requires
        s.due_ping(tick) is Some,
    ensures
        ({
            let ping = s.due_ping(tick)->0;
            let t = s.ping_sent(now);
            &&& ping.id == s.pings.next
            &&& ping.tick == tick
            &&& ping.ping_received_time is None
            &&& t.pings.time_of(ping.id) == Some(now)
            &&& other != ping.id ==> t.pings.time_of(other) == s.pings.time_of(other)
            &&& t.pings.next == counted_up(ping.id, 1)
            &&& t.config == s.config
            &&& t.most_recent_received_ping == s.most_recent_received_ping
            &&& t.samples == s.samples
            &&& t.rtt == s.rtt
            &&& t.jitter == s.jitter
            &&& t.synced == s.synced
            &&& t.server_tick == s.server_tick
            &&& t.since_server_tick == s.since_server_tick
        }),
{
    assert(counted_up(s.pings.next, 0) == s.pings.next);
}

/// A frame ages the server's tick by its length, and leaves alone the pings, the estimate, the
/// handshake and what the server told.
pub proof fn law_frame_ages_the_server_tick(s: SyncState, now: WrappedTime, delta: nat)
    ensures
        ({
            let t = s.updated(now, delta);
            &&& t.since_server_tick == s.since_server_tick + delta
            &&& t.server_tick == s.server_tick
            &&& t.config == s.config
            &&& t.pings == s.pings
            &&& t.most_recent_received_ping == s.most_recent_received_ping
            &&& t.rtt == s.rtt
            &&& t.jitter == s.jitter
            &&& t.synced == s.synced
        }),
{
}

/// Until the handshake is over, a frame drops no measurement. After that it drops those that are at
/// least as old as measurements count, where a measurement may be up to half a turn of the clock
/// past that, and no other; adding one more to the measurements adds it to those that stay if it
/// is younger, and else changes nothing.
pub proof fn law_frame_drops_by_age(
    s: SyncState,
    entry: TimedItem<SyncStats>,
    now: WrappedTime,
    delta: nat,
    age: nat,
)
    requires
        age <= 0x8000_0000 + s.config.stats_buffer_duration@ / 1_000,
        age + 0x8000_0000 > s.config.stats_buffer_duration@ / 1_000,
        (now.elapsed_us_wrapped - entry.key.elapsed_us_wrapped - age) % 0x1_0000_0000 == 0,
    ensures
        ({
            let more = SyncState { samples: s.samples.push(entry), ..s };
            let none = SyncState { samples: Seq::empty(), ..s };
            &&& none.updated(now, delta).samples.len() == 0
            &&& !s.synced ==> s.updated(now, delta).samples == s.samples
            &&& s.synced && age < s.config.stats_buffer_duration@ / 1_000 ==> more.updated(
                now,
                delta,
            ).samples == s.updated(now, delta).samples.push(entry)
            &&& s.synced && age >= s.config.stats_buffer_duration@ / 1_000 ==> more.updated(
                now,
                delta,
            ).samples == s.updated(now, delta).samples
        }),
{
    let start = now.before(s.config.stats_buffer_duration@);
    crate::laws_clock::law_later_items_stay_in_order(s.samples, entry, start);
    lemma_age(entry.key, now, s.config.stats_buffer_duration@, age);
}

/// A time is ahead of another that lies a span before now by what the span exceeds its age.
pub(crate) proof fn lemma_age(time: WrappedTime, now: WrappedTime, span: nat, age: nat)
    requires
        age <= 0x8000_0000 + span / 1_000,
        age + 0x8000_0000 > span / 1_000,
        (now.elapsed_us_wrapped - time.elapsed_us_wrapped - age) % 0x1_0000_0000 == 0,
    ensures
        time.ahead_of(now.before(span)) == span / 1_000 - age,
{
}

/// A pong takes its ping out of those that await one, and touches no other. It is measured just if
/// its ping awaited it and is later than the latest that was measured, and then by the time at
/// which that ping was sent. The measurement is added to the others, and its ping becomes the
/// latest. The handshake is over from then on if there are as many as it asks for, and stays over.
/// The timer, the estimate and what the server told are left alone.
pub proof fn law_pong_is_measured_if_new(
    s: SyncState,
    pong: TimeSyncPongMessage,
    now: WrappedTime,
    other: PingId,
)
    ensures
        ({
            let t = s.pong_received(pong, now);
            let id = pong.ping_id;
            let fresh = s.pings.sent.contains_key(id.0) && id.later_than(
                s.most_recent_received_ping,
            );
            let enough = s.samples.len() + 1 >= s.config.handshake_pings;
            &&& t.pings.time_of(id) is None
            &&& other != id ==> t.pings.time_of(other) == s.pings.time_of(other)
            &&& t.pings.next == s.pings.next
            &&& fresh ==> t.samples == s.samples.push(
                TimedItem { key: now, item: measured(s.pings.sent[id.0], pong, now) },
            )
            &&& fresh ==> t.most_recent_received_ping == id
            &&& fresh ==> (t.synced <==> s.synced || enough)
            &&& !fresh ==> t.samples == s.samples
            &&& !fresh ==> t.most_recent_received_ping == s.most_recent_received_ping
            &&& !fresh ==> t.synced == s.synced
            &&& t.config == s.config
            &&& t.timer == s.timer
            &&& t.rtt == s.rtt
            &&& t.jitter == s.jitter
            &&& t.server_tick == s.server_tick
            &&& t.since_server_tick == s.since_server_tick
        }),
{
}

/// An awaited pong is measured whose ping was sent `k` pings after the latest that was measured,
/// for every `k` below half a turn of the numbers, also where the pongs in between are lost. One
/// from the other half is not.
pub proof fn law_lost_pongs_do_not_stop_the_handshake(
    s: SyncState,
    pong: TimeSyncPongMessage,
    now: WrappedTime,
    k: nat,
)
    requires
        k < 0x1_0000,
        pong.ping_id == counted_up(s.most_recent_received_ping, k),
        s.pings.sent.contains_key(pong.ping_id.0),
    ensures
        0 < k < 0x8000 ==> s.pong_received(pong, now).samples.len() == s.samples.len() + 1,
        0 < k < 0x8000 ==> s.pong_received(pong, now).most_recent_received_ping == pong.ping_id,
        !(0 < k < 0x8000) ==> s.pong_received(pong, now).samples == s.samples,
        !(0 < k < 0x8000) ==> s.pong_received(pong, now).most_recent_received_ping
            == s.most_recent_received_ping,
{
    law_later_is_the_order_of_sending(s.most_recent_received_ping, k);
}

/// A ping that is sent and answered is measured by the time at which it was sent, whatever the
/// frames, estimates and told ticks in between, if its number is later than the latest that was
/// measured.
pub proof fn law_pong_finds_its_ping(
    s: SyncState,
    tick: Tick,
    sent_at: WrappedTime,
    between: Seq<Event>,
    pong: TimeSyncPongMessage,
    now: WrappedTime,
)
    requires
        s.due_ping(tick) is Some,
        pong.ping_id == (s.due_ping(tick)->0).id,
        pong.ping_id.later_than(s.most_recent_received_ping),
        forall|i: int|
            0 <= i < between.len() ==> !(#[trigger] between[i] is Ping) && !(between[i] is Pong),
    ensures
        ({
            let t = run(s.ping_sent(sent_at), between).pong_received(pong, now);
            &&& t.samples.len() > 0
            &&& t.samples.last() == (TimedItem { key: now, item: measured(sent_at, pong, now) })
            &&& t.most_recent_received_ping == pong.ping_id
        }),
{
    lemma_pings_wait(s.ping_sent(sent_at), between);
}

/// Frames, estimates and told ticks leave alone the pings and the latest that was measured.
proof fn lemma_pings_wait(s: SyncState, events: Seq<Event>)
    requires
        forall|i: int|
            0 <= i < events.len() ==> !(#[trigger] events[i] is Ping) && !(events[i] is Pong),
    ensures
        run(s, events).pings == s.pings,
        run(s, events).most_recent_received_ping == s.most_recent_received_ping,
    decreases events.len(),
{
    if events.len() > 0 {
        let rest = events.drop_last();
        assert(forall|i: int| 0 <= i < rest.len() ==> rest[i] == events[i]);
        lemma_pings_wait(s, rest);
        assert(!(events[events.len() - 1] is Ping));
    }
}

/// An estimate sets the round trip and the jitter, and nothing else.
pub proof fn law_estimate_is_taken_as_it_is(s: SyncState, rtt: nat, jitter: nat)
    ensures
        ({
            let t = s.estimated(rtt, jitter);
            &&& t.rtt == rtt
            &&& t.jitter == jitter
            &&& t == (SyncState { rtt: s.rtt, jitter: s.jitter, ..t }).estimated(rtt, jitter)
            &&& s == (SyncState { rtt: s.rtt, jitter: s.jitter, ..t })
        }),
{
}

/// Once the handshake is over it stays over, whatever happens.
pub proof fn law_synced_for_good(s: SyncState, events: Seq<Event>)
    requires
        s.synced,
    ensures
        run(s, events).synced,
    decreases events.len(),
{
    if events.len() > 0 {
        law_synced_for_good(s, events.drop_last());
    }
}

/// How many of `events` are pongs that are measured, from `s` on.
pub open spec fn measured_pongs(s: SyncState, events: Seq<Event>) -> nat
    decreases events.len(),
{
    if events.len() == 0 {
        0
    } else {
        let before = run(s, events.drop_last());
        measured_pongs(s, events.drop_last()) + match events.last() {
            Event::Pong { pong, .. } => if before.pings.sent.contains_key(pong.ping_id.0)
                && pong.ping_id.later_than(before.most_recent_received_ping) {
                1
            } else {
                0nat
            },
            _ => 0nat,
        }
    }
}

/// A manager is synced just when it has measured as many pongs as its handshake asks for, and at
/// least one. Until then it has kept all of their measurements.
pub proof fn law_synced_after_enough_pongs(config: SyncConfig, events: Seq<Event>)
    ensures
        ({
            let s = run(SyncState::initial(config), events);
            let count = measured_pongs(SyncState::initial(config), events);
            &&& s.synced <==> count > 0 && count >= config.handshake_pings
            &&& !s.synced ==> s.samples.len() == count
        }),
    decreases events.len(),
{
    if events.len() > 0 {
        law_interval_is_kept(SyncState::initial(config), events.drop_last());
        law_synced_after_enough_pongs(config, events.drop_last());
    }
}

/// The age of the server's tick is the time that frames have taken since it was told.
pub proof fn law_server_tick_ages_by_the_frames(s: SyncState, tick: Tick, events: Seq<Event>)
    requires
        forall|i: int| 0 <= i < events.len() ==> !(#[trigger] events[i] is ServerTick),
    ensures
        run(step(s, Event::ServerTick { tick }), events).server_tick == tick,
        run(step(s, Event::ServerTick { tick }), events).since_server_tick == frame_time(events),
    decreases events.len(),
{
    if events.len() > 0 {
        let rest = events.drop_last();
        assert(forall|i: int| 0 <= i < rest.len() ==> rest[i] == events[i]);
        law_server_tick_ages_by_the_frames(s, tick, rest);
        assert(!(events[events.len() - 1] is ServerTick));
    }
}

} // verus!
