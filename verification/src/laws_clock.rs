//! What holds of counters that start over: of ping numbers, of the clock, of ticks and of timers.

use vstd::prelude::*;

use crate::delta::truncated;
use crate::ping::Pings;
use crate::ready_buffer::{later_items, TimedItem};
use crate::state::unwrapped_tick;
use crate::timer::TimerState;
use crate::wrapped::{PingId, Tick, WrappedTime};

verus! {

/// Ping numbers count up by one, and start over at zero after the largest.
pub proof fn law_ping_numbers_count_up(id: PingId)
    ensures
        id.0 < 65_535 ==> id.successor().0 == id.0 + 1,
        id.0 == 65_535 ==> id.successor().0 == 0,
{
}

/// The ping number that is reached from `id` by counting up `k` times.
pub open spec fn counted_up(id: PingId, k: nat) -> PingId
    decreases k,
{
    if k == 0 {
        id
    } else {
        counted_up(id, (k - 1) as nat).successor()
    }
}

/// Counting up `k` times adds `k`, less a full turn for each time that numbers start over.
proof fn lemma_counted_up(id: PingId, k: nat)
    ensures
        counted_up(id, k).0 == (id.0 + k) % 0x1_0000,
    decreases k,
{
    if k > 0 {
        lemma_counted_up(id, (k - 1) as nat);
    }
}

/// Pings are later in the order in which they are sent: of the numbers that a turn of counting
/// leads to from `id`, those in the first half are later than `id`, and the others are not.
pub proof fn law_later_is_the_order_of_sending(id: PingId, k: nat)
    requires
        k < 0x1_0000,
    ensures
        counted_up(id, k).later_than(id) <==> 0 < k < 0x8000,
{
    lemma_counted_up(id, k);
}

/// Among pings less than half a turn apart, one that is later than a later one is later.
pub proof fn law_later_is_transitive(id: PingId, j: nat, k: nat)
    requires
        0 < j,
        0 < k,
        j + k < 0x8000,
    ensures
        counted_up(id, j).later_than(id),
        counted_up(id, j + k).later_than(counted_up(id, j)),
        counted_up(id, j + k).later_than(id),
{
    lemma_counted_up(id, j);
    lemma_counted_up(id, j + k);
    lemma_counted_up(counted_up(id, j), k);
    assert(counted_up(counted_up(id, j), k) == counted_up(id, j + k));
    law_later_is_the_order_of_sending(id, j);
    law_later_is_the_order_of_sending(id, j + k);
    law_later_is_the_order_of_sending(counted_up(id, j), k);
}

/// Recording a ping or forgetting one touches no other, and only recording moves the number of the
/// next ping, by one.
pub proof fn law_pings_do_not_touch_each_other(
    pings: Pings,
    id: PingId,
    other: PingId,
    now: WrappedTime,
)
    ensures
        Pings::none().time_of(id) is None,
        Pings::none().next == PingId(0),
        pings.time_of(id) is Some <==> pings.sent.contains_key(id.0),
        pings.time_of(id) is Some ==> pings.time_of(id)->0 == pings.sent[id.0],
        pings.removed(id).time_of(id) is None,
        pings.removed(id).next == pings.next,
        pings.pushed(now).next == counted_up(pings.next, 1),
        pings.pushed(now).time_of(pings.next) == Some(now),
        other != id ==> pings.removed(id).time_of(other) == pings.time_of(other),
        other != pings.next ==> pings.pushed(now).time_of(other) == pings.time_of(other),
{
    assert(counted_up(pings.next, 0) == pings.next);
}

/// What the clock shows differs from the microseconds that have passed by whole turns.
pub proof fn law_clock_counts_microseconds(micros: int)
    ensures
        (micros - WrappedTime::at(micros).elapsed_us_wrapped) % 0x1_0000_0000 == 0,
        0 <= micros < 0x1_0000_0000 ==> WrappedTime::at(micros).elapsed_us_wrapped == micros,
        WrappedTime::at(micros + 0x1_0000_0000) == WrappedTime::at(micros),
{
}

/// A span moves the clock by its whole microseconds, on or back.
pub proof fn law_clock_moves_by_the_span(time: WrappedTime, span: nat)
    ensures
        (time.after(span).elapsed_us_wrapped - time.elapsed_us_wrapped - span / 1_000)
            % 0x1_0000_0000 == 0,
        (time.elapsed_us_wrapped - time.before(span).elapsed_us_wrapped - span / 1_000)
            % 0x1_0000_0000 == 0,
{
}

/// A time that comes `k` microseconds after another is ahead of it by as many if that is less than
/// half a turn, and otherwise behind by the rest of the turn. It is later in the first case, unless
/// it is the same time, and not in the second.
pub proof fn law_clock_compares_by_the_shorter_way(time: WrappedTime, k: nat)
    requires
        k < 0x1_0000_0000,
    ensures
        ({
            let then = WrappedTime::at(time.elapsed_us_wrapped + k);
            &&& k < 0x8000_0000 ==> then.ahead_of(time) == k
            &&& k >= 0x8000_0000 ==> then.ahead_of(time) == k - 0x1_0000_0000
            &&& then.later_than(time) <==> 0 < k < 0x8000_0000
        }),
{
}

/// How far one time is ahead of another is what the clock shows between them, up to a turn, and is
/// at most half a turn either way.
pub proof fn law_clock_difference_is_exact(a: WrappedTime, b: WrappedTime)
    ensures
        -0x8000_0000 <= a.ahead_of(b) < 0x8000_0000,
        (a.elapsed_us_wrapped - b.elapsed_us_wrapped - a.ahead_of(b)) % 0x1_0000_0000 == 0,
        a.later_than(b) <==> a.ahead_of(b) > 0,
{
}

/// Truncation takes the fraction away and nothing else.
pub proof fn law_truncation_drops_the_fraction(n: int, d: int)
    requires
        d > 0,
    ensures
        n >= 0 ==> d * truncated(n, d) <= n < d * (truncated(n, d) + 1),
        n <= 0 ==> d * (truncated(n, d) - 1) < n <= d * truncated(n, d),
        truncated(-n, d) == -truncated(n, d),
{
    let q = truncated(n, d);
    if n >= 0 {
        assert(d * q <= n < d * (q + 1)) by (nonlinear_arith)
            requires
                d > 0,
                q == n / d,
        ;
        assert(n == 0 ==> q == 0) by (nonlinear_arith)
            requires
                d > 0,
                q == n / d,
        ;
        assert(n == 0 ==> d * (q - 1) < n <= d * q) by (nonlinear_arith)
            requires
                d > 0,
                n == 0 ==> q == 0,
        ;
    } else {
        let p = (-n) / d;
        assert(d * (-p - 1) < n <= d * (-p)) by (nonlinear_arith)
            requires
                d > 0,
                p == (-n) / d,
        ;
    }
}

/// The client's tick counts as it is while it is at most 31 767 behind the server's. One that is
/// further behind counts as 65 535 more. So it never counts as further behind than that.
pub proof fn law_client_tick_is_counted_on(client: Tick, server: Tick)
    ensures
        server.0 <= client.0 + 31_767 ==> unwrapped_tick(client, server) == client.0,
        server.0 > client.0 + 31_767 ==> unwrapped_tick(client, server) == client.0 + 65_535,
        server.0 <= unwrapped_tick(client, server) + 31_767,
{
}

/// A step of a timer keeps its interval. It rings just when the interval has passed, and then what
/// is left over is what has passed less whole intervals; otherwise all of it is kept. The rest is
/// exact for intervals of up to 2^64 nanoseconds, and of longer ones keeps its low 64 bits.
pub proof fn law_timer_keeps_what_is_left_over(timer: TimerState, delta: nat)
    ensures
        ({
            let next = timer.ticked(delta);
            let total = timer.elapsed + delta;
            &&& next.interval == timer.interval
            &&& next.finished <==> total >= timer.interval
            &&& !next.finished ==> next.elapsed == total
            &&& 0 < timer.interval <= 0x1_0000_0000_0000_0000 ==> {
                &&& next.elapsed < timer.interval || !next.finished
                &&& next.finished ==> (total - next.elapsed) % (timer.interval as int) == 0
            }
            &&& timer.interval > 0 && next.finished ==> {
                &&& next.elapsed < 0x1_0000_0000_0000_0000
                &&& (total % timer.interval - next.elapsed) % 0x1_0000_0000_0000_0000 == 0
            }
            &&& timer.interval == 0 ==> next.elapsed == 0
        }),
{
    let total = timer.elapsed + delta;
    let interval = timer.interval;
    if interval > 0 && total >= interval {
        assert(total % interval < interval) by (nonlinear_arith)
            requires
                interval > 0,
        ;
        assert((total - total % interval) % (interval as int) == 0) by (nonlinear_arith)
            requires
                interval > 0,
        ;
    }
}

/// Of the items, those that are later than `key` are kept, each as often as it was added and in the
/// same order: adding one more adds it to what is kept if it is later, and else changes nothing.
pub proof fn law_later_items_stay_in_order<T>(
    items: Seq<TimedItem<T>>,
    entry: TimedItem<T>,
    key: WrappedTime,
)
    ensures
        later_items(Seq::<TimedItem<T>>::empty(), key) == Seq::<TimedItem<T>>::empty(),
        entry.key.ahead_of(key) > 0 ==> later_items(items.push(entry), key) == later_items(
            items,
            key,
        ).push(entry),
        entry.key.ahead_of(key) <= 0 ==> later_items(items.push(entry), key) == later_items(
            items,
            key,
        ),
{
    reveal(Seq::filter);
    assert(items.push(entry).drop_last() =~= items);
}

} // verus!
