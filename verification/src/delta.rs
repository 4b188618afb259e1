//! Signed differences between two times, computed by `chrono`.

use vstd::prelude::*;

use crate::duration::Duration;

verus! {

/// The largest difference that a [`TimeDelta`] holds, in nanoseconds: `i64::MAX` milliseconds.
/// The smallest one is as far on the other side of zero.
pub const MAX_DELTA_NANOS: i128 = 9_223_372_036_854_775_807_000_000;

/// `n / d` without its fraction, so rounded towards zero.
pub open spec fn truncated(n: int, d: int) -> int {
    if n >= 0 {
        n / d
    } else {
        -((-n) / d)
    }
}

/// A signed span of time: whole seconds and the rest in nanoseconds, neither of which has the
/// opposite sign of the other.
///
/// Its view is the span in nanoseconds.
#[derive(Clone, Copy, Debug, PartialEq, Eq)]
pub struct TimeDelta {
    secs: i64,
    nanos: i32,
}

impl View for TimeDelta {
    type V = int;

    closed spec fn view(&self) -> int {
        self.secs * 1_000_000_000 + self.nanos
    }
}

impl TimeDelta {
    #[verifier::type_invariant]
    spec fn inv(self) -> bool {
        &&& -1_000_000_000 < self.nanos < 1_000_000_000
        &&& self.secs > 0 ==> self.nanos >= 0
        &&& self.secs < 0 ==> self.nanos <= 0
        &&& -MAX_DELTA_NANOS <= self@ <= MAX_DELTA_NANOS
    }

    /// The difference of `micros` microseconds.
    ///
    /// Calls `chrono::TimeDelta::microseconds`. Trusted: the result is exactly as many
    /// microseconds, which every `i64` allows.
    #[verifier::external_body]
    pub(crate) fn microseconds(micros: i64) -> (r: TimeDelta)
        ensures
            r@ == micros * 1_000,
    {
        let delta = chrono::TimeDelta::microseconds(micros);
        TimeDelta { secs: delta.num_seconds(), nanos: delta.subsec_nanos() }
    }

    /// The difference that is as long as `span`.
    ///
    /// Calls `chrono::TimeDelta::from_std`. Trusted: it keeps the length of every span up to the
    /// longest difference; a longer one is refused there, and left out here.
    #[verifier::external_body]
    pub(crate) fn from_duration(span: Duration) -> (r: TimeDelta)
        requires
            span@ <= MAX_DELTA_NANOS,
        ensures
            r@ == span@,
    {
        let span = std::time::Duration::new(span.secs, span.nanos);
        let delta = chrono::TimeDelta::from_std(span).unwrap();
        TimeDelta { secs: delta.num_seconds(), nanos: delta.subsec_nanos() }
    }

    /// The whole microseconds of the difference, if an `i64` holds as many.
    ///
    /// Calls `chrono::TimeDelta::num_microseconds`. Trusted: the count is rounded towards zero,
    /// and it is there just when it fits.
    #[verifier::external_body]
    pub(crate) fn num_microseconds(self) -> (r: Option<i64>)
        ensures
            r is Some <==> i64::MIN <= truncated(self@, 1_000) <= i64::MAX,
            r is Some ==> r->0 == truncated(self@, 1_000),
    {
        let delta = chrono::TimeDelta::seconds(self.secs)
            + chrono::TimeDelta::nanoseconds(i64::from(self.nanos));
        delta.num_microseconds()
    }

    /// This difference less `rhs`.
    ///
    /// Calls the subtraction of `chrono::TimeDelta`. Trusted: the result is exact; one beyond the
    /// range of differences panics there, and is left out here.
    #[verifier::external_body]
    pub(crate) fn minus(self, rhs: TimeDelta) -> (r: TimeDelta)
        requires
            -MAX_DELTA_NANOS <= self@ - rhs@ <= MAX_DELTA_NANOS,
        ensures
            r@ == self@ - rhs@,
    {
        let left = chrono::TimeDelta::seconds(self.secs)
            + chrono::TimeDelta::nanoseconds(i64::from(self.nanos));
        let right = chrono::TimeDelta::seconds(rhs.secs)
            + chrono::TimeDelta::nanoseconds(i64::from(rhs.nanos));
        let delta = left - right;
        TimeDelta { secs: delta.num_seconds(), nanos: delta.subsec_nanos() }
    }

    /// The difference of the same length and the other sign.
    ///
    /// Calls the negation of `chrono::TimeDelta`. Trusted: the result is exact, and in range for
    /// every difference.
    #[verifier::external_body]
    pub(crate) fn negated(self) -> (r: TimeDelta)
        ensures
            r@ == -self@,
    {
        let delta = chrono::TimeDelta::seconds(self.secs)
            + chrono::TimeDelta::nanoseconds(i64::from(self.nanos));
        let delta = -delta;
        TimeDelta { secs: delta.num_seconds(), nanos: delta.subsec_nanos() }
    }

    /// Whether this difference is greater than `rhs`.
    ///
    /// Calls the `>` of `chrono::TimeDelta`. Trusted: it orders differences by their value.
    #[verifier::external_body]
    pub(crate) fn is_greater(self, rhs: TimeDelta) -> (r: bool)
        ensures
            r == (self@ > rhs@),
    {
        let left = chrono::TimeDelta::seconds(self.secs)
            + chrono::TimeDelta::nanoseconds(i64::from(self.nanos));
        let right = chrono::TimeDelta::seconds(rhs.secs)
            + chrono::TimeDelta::nanoseconds(i64::from(rhs.nanos));
        left > right
    }
}

} // verus!
