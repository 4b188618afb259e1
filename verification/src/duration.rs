//! Spans of time, counted in whole nanoseconds.

use vstd::prelude::*;

verus! {

/// Nanoseconds in one second.
pub const NANOS_PER_SEC: u32 = 1_000_000_000;

/// The longest span that a [`Duration`] holds, in nanoseconds: `u64::MAX` seconds and all but
/// one nanosecond of another.
pub const MAX_NANOS: u128 = 18_446_744_073_709_551_615_999_999_999;

/// A span of time that is not negative: whole seconds and the nanoseconds of a started one.
///
/// Its view is the length in nanoseconds.
#[derive(Clone, Copy, Debug, PartialEq, Eq)]
pub struct Duration {
    pub(crate) secs: u64,
    pub(crate) nanos: u32,
}

impl View for Duration {
    type V = nat;

    closed spec fn view(&self) -> nat {
        (self.secs * NANOS_PER_SEC + self.nanos) as nat
    }
}

impl Duration {
    /// A started second has fewer nanoseconds than a whole one.
    #[verifier::type_invariant]
    spec fn inv(self) -> bool {
        self.nanos < NANOS_PER_SEC
    }

    /// The span of `secs` seconds and `nanos` nanoseconds.
    pub fn new(secs: u64, nanos: u32) -> (r: Duration)
        requires
            nanos < NANOS_PER_SEC,
        ensures
            r@ == secs * NANOS_PER_SEC + nanos,
    {
        Duration { secs, nanos }
    }

    /// The span of `secs` seconds.
    pub fn from_secs(secs: u64) -> (r: Duration)
        ensures
            r@ == secs * 1_000_000_000,
    {
        Duration { secs, nanos: 0 }
    }

    /// The span of `millis` milliseconds.
    pub fn from_millis(millis: u64) -> (r: Duration)
        ensures
            r@ == millis * 1_000_000,
    {
        Duration::from_nanos(millis as u128 * 1_000_000)
    }

    /// The span of `nanos` nanoseconds.
    pub fn from_nanos(nanos: u128) -> (r: Duration)
        requires
            nanos <= MAX_NANOS,
        ensures
            r@ == nanos,
    {
        Duration { secs: (nanos / 1_000_000_000) as u64, nanos: (nanos % 1_000_000_000) as u32 }
    }

    /// The whole seconds of the span.
    pub fn as_secs(&self) -> (r: u64)
        ensures
            r as nat == self@ / 1_000_000_000,
    {
        proof {
            use_type_invariant(self);
        }
        self.secs
    }

    /// The nanoseconds of the span beyond its whole seconds.
    pub fn subsec_nanos(&self) -> (r: u32)
        ensures
            r as nat == self@ % 1_000_000_000,
    {
        proof {
            use_type_invariant(self);
        }
        self.nanos
    }

    /// The span in nanoseconds.
    pub fn as_nanos(&self) -> (r: u128)
        ensures
            r == self@,
            r <= MAX_NANOS,
    {
        proof {
            use_type_invariant(self);
        }
        self.secs as u128 * 1_000_000_000 + self.nanos as u128
    }

    /// The whole microseconds of the span.
    pub fn as_micros(&self) -> (r: u128)
        ensures
            r == self@ / 1_000,
    {
        self.as_nanos() / 1_000
    }

    /// This span followed by `rhs`.
    pub fn plus(self, rhs: Duration) -> (r: Duration)
        requires
            self@ + rhs@ <= MAX_NANOS,
        ensures
            r@ == self@ + rhs@,
    {
        Duration::from_nanos(self.as_nanos() + rhs.as_nanos())
    }

    /// `n` times this span.
    pub fn times(self, n: u32) -> (r: Duration)
        requires
            self@ * n <= MAX_NANOS,
        ensures
            r@ == self@ * n,
    {
        let nanos: u128 = self.as_nanos();
        assert(nanos * n == self@ * n);
        Duration::from_nanos(nanos * n as u128)
    }

    /// Half of this span, rounded down to a whole nanosecond.
    pub fn half(self) -> (r: Duration)
        ensures
            r@ == self@ / 2,
    {
        Duration::from_nanos(self.as_nanos() / 2)
    }
}

impl Default for Duration {
    /// The empty span.
    fn default() -> (r: Duration)
        ensures
            r@ == 0,
    {
        Duration { secs: 0, nanos: 0 }
    }
}

} // verus!
