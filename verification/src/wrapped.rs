//! Counters that start over at zero: ids, ticks and the clock.

use vstd::arithmetic::div_mod::{lemma_add_mod_noop_right, lemma_sub_mod_noop_right};
use vstd::prelude::*;

use crate::delta::TimeDelta;
use crate::duration::Duration;

verus! {

/// How many values an id or a tick has.
pub const ID_MODULUS: u32 = 0x1_0000;

/// How many microseconds the clock counts before it starts over.
pub const TIME_MODULUS: u64 = 0x1_0000_0000;

/// How far `a` is ahead of `b` on a counter with `modulus` values, along the shorter way round.
/// It is negative when `a` is behind; half way round counts as behind.
pub open spec fn wrapped_diff(a: int, b: int, modulus: int) -> int {
    let ahead = (a - b) % modulus;
    if ahead < modulus / 2 {
        ahead
    } else {
        ahead - modulus
    }
}

/// Number of a ping.
#[derive(Clone, Copy, Debug, PartialEq, Eq)]
pub struct PingId(pub u16);

/// Number of a packet.
#[derive(Clone, Copy, Debug, PartialEq, Eq)]
pub struct PacketId(pub u16);

/// Number of a simulation step.
#[derive(Clone, Copy, Debug, PartialEq, Eq)]
pub struct Tick(pub u16);

impl PingId {
    /// Whether this ping was sent after `other`.
    pub open spec fn later_than(self, other: PingId) -> bool {
        wrapped_diff(self.0 as int, other.0 as int, ID_MODULUS as int) > 0
    }

    /// The number that follows this one.
    pub open spec fn successor(self) -> PingId {
        PingId(((self.0 + 1) % (ID_MODULUS as int)) as u16)
    }

    /// Whether this ping was sent after `other`.
    pub fn is_later_than(self, other: PingId) -> (r: bool)
        ensures
            r == self.later_than(other),
    {
        let ahead: u16 = self.0.wrapping_sub(other.0);
        0 < ahead && ahead < 0x8000
    }

    /// The number that follows this one.
    pub fn next(self) -> (r: PingId)
        ensures
            r == self.successor(),
    {
        PingId(self.0.wrapping_add(1))
    }
}

/// A time on the clock, in microseconds since the start, which start over at zero.
#[derive(Clone, Copy, Debug, PartialEq, Eq)]
pub struct WrappedTime {
    pub elapsed_us_wrapped: u32,
}

impl WrappedTime {
    /// The time that the clock shows `micros` microseconds after it last read zero; before that,
    /// if `micros` is negative.
    pub open spec fn at(micros: int) -> WrappedTime {
        WrappedTime { elapsed_us_wrapped: (micros % (TIME_MODULUS as int)) as u32 }
    }

    /// The time a span of `nanos` nanoseconds later. Less than a microsecond does not count.
    pub open spec fn after(self, nanos: nat) -> WrappedTime {
        WrappedTime::at(self.elapsed_us_wrapped + nanos / 1_000)
    }

    /// The time a span of `nanos` nanoseconds earlier. Less than a microsecond does not count.
    pub open spec fn before(self, nanos: nat) -> WrappedTime {
        WrappedTime::at(self.elapsed_us_wrapped - nanos / 1_000)
    }

    /// How many microseconds this time is ahead of `other`.
    pub open spec fn ahead_of(self, other: WrappedTime) -> int {
        wrapped_diff(
            self.elapsed_us_wrapped as int,
            other.elapsed_us_wrapped as int,
            TIME_MODULUS as int,
        )
    }

    /// Whether this time comes after `other`.
    pub open spec fn later_than(self, other: WrappedTime) -> bool {
        self.ahead_of(other) > 0
    }

    /// The time at which the clock shows `elapsed_us_wrapped` microseconds.
    pub fn new(elapsed_us_wrapped: u32) -> (r: WrappedTime)
        ensures
            r.elapsed_us_wrapped == elapsed_us_wrapped,
    {
        WrappedTime { elapsed_us_wrapped }
    }

    /// The time at which the clock has run for `elapsed`.
    pub fn from_duration(elapsed: Duration) -> (r: WrappedTime)
        ensures
            r == WrappedTime::at((elapsed@ / 1_000) as int),
    {
        WrappedTime { elapsed_us_wrapped: (elapsed.as_micros() % 0x1_0000_0000) as u32 }
    }

    /// The time a span later.
    pub fn plus(self, span: Duration) -> (r: WrappedTime)
        ensures
            r == self.after(span@),
    {
        let step: u64 = (span.as_micros() % 0x1_0000_0000) as u64;
        proof {
            lemma_add_mod_noop_right(
                self.elapsed_us_wrapped as int,
                (span@ / 1_000) as int,
                TIME_MODULUS as int,
            );
        }
        let sum: u64 = (self.elapsed_us_wrapped as u64 + step) % TIME_MODULUS;
        WrappedTime { elapsed_us_wrapped: sum as u32 }
    }

    /// The time a span earlier.
    pub fn minus(self, span: Duration) -> (r: WrappedTime)
        ensures
            r == self.before(span@),
    {
        let step: u32 = (span.as_micros() % 0x1_0000_0000) as u32;
        proof {
            lemma_sub_mod_noop_right(
                self.elapsed_us_wrapped as int,
                (span@ / 1_000) as int,
                TIME_MODULUS as int,
            );
        }
        WrappedTime { elapsed_us_wrapped: self.elapsed_us_wrapped.wrapping_sub(step) }
    }

    /// Whether this time comes after `other`.
    pub fn is_later_than(self, other: WrappedTime) -> (r: bool)
        ensures
            r == self.later_than(other),
    {
        let ahead: u32 = self.elapsed_us_wrapped.wrapping_sub(other.elapsed_us_wrapped);
        0 < ahead && ahead < 0x8000_0000
    }

    /// How far this time is ahead of `other`.
    pub fn since(self, other: WrappedTime) -> (r: TimeDelta)
        ensures
            r@ == self.ahead_of(other) * 1_000,
    {
        let apart: i64 = self.elapsed_us_wrapped as i64 - other.elapsed_us_wrapped as i64;
        let micros: i64 = if apart >= 0x8000_0000 {
            apart - 0x1_0000_0000
        } else if apart < -0x8000_0000 {
            apart + 0x1_0000_0000
        } else {
            apart
        };
        TimeDelta::microseconds(micros)
    }
}

} // verus!
