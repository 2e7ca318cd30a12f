//! Spans and points of time, counted in whole nanoseconds.
use vstd::prelude::*;

verus! {

pub const NANOS_PER_MICRO: u128 = 1_000;

pub const NANOS_PER_MILLI: u128 = 1_000_000;

pub const NANOS_PER_SEC: u128 = 1_000_000_000;

/// The longest span: `u64::MAX` seconds and 999,999,999 nanoseconds.
pub const MAX_SPAN_NANOS: u128 = 18_446_744_073_709_551_615_999_999_999;

/// A span of time.
#[derive(Clone, Copy, Debug, PartialEq, Eq, Structural)]
pub struct Duration {
    pub nanos: u128,
}

/// A point in time, as the nanoseconds since an origin that all points share.
#[derive(Clone, Copy, Debug, PartialEq, Eq, Structural)]
pub struct Instant {
    pub nanos: u128,
}

impl Duration {
    /// The span of `nanos` nanoseconds.
    pub open spec fn of(nanos: int) -> Duration {
        Duration { nanos: nanos as u128 }
    }

    /// No time at all.
    pub fn zero() -> (span: Duration)
        ensures
            span == Duration::of(0),
    {
        Duration { nanos: 0 }
    }

    /// The longest span.
    pub fn longest() -> (span: Duration)
        ensures
            span == Duration::of(MAX_SPAN_NANOS as int),
    {
        Duration { nanos: MAX_SPAN_NANOS }
    }

    pub fn from_micros(micros: u64) -> (span: Duration)
        ensures
            span.nanos == micros * NANOS_PER_MICRO,
    {
        Duration { nanos: micros as u128 * NANOS_PER_MICRO }
    }

    pub fn from_millis(millis: u64) -> (span: Duration)
        ensures
            span.nanos == millis * NANOS_PER_MILLI,
    {
        Duration { nanos: millis as u128 * NANOS_PER_MILLI }
    }

    pub fn from_secs(secs: u64) -> (span: Duration)
        ensures
            span.nanos == secs * NANOS_PER_SEC,
    {
        Duration { nanos: secs as u128 * NANOS_PER_SEC }
    }

    /// Whole microseconds, rounded down.
    pub fn as_micros(&self) -> (micros: u128)
        ensures
            micros == self.nanos / NANOS_PER_MICRO,
    {
        self.nanos / NANOS_PER_MICRO
    }

    /// Whole milliseconds, rounded down.
    pub fn as_millis(&self) -> (millis: u128)
        ensures
            millis == self.nanos / NANOS_PER_MILLI,
    {
        self.nanos / NANOS_PER_MILLI
    }

    pub fn is_zero(&self) -> (zero: bool)
        ensures
            zero == (self.nanos == 0),
    {
        self.nanos == 0
    }

    /// What `saturating_sub` gives.
    pub open spec fn minus_spec(self, other: Duration) -> Duration {
        if self.nanos > other.nanos {
            Duration::of(self.nanos - other.nanos)
        } else {
            Duration::of(0)
        }
    }

    /// The difference, or zero where `other` is longer.
    pub fn saturating_sub(self, other: Duration) -> (span: Duration)
        ensures
            span == self.minus_spec(other),
    {
        Duration { nanos: self.nanos.saturating_sub(other.nanos) }
    }

    /// The shorter of two spans.
    pub open spec fn shorter_spec(self, other: Duration) -> Duration {
        if other.nanos < self.nanos {
            other
        } else {
            self
        }
    }

    /// The longer of two spans.
    pub open spec fn longer_spec(self, other: Duration) -> Duration {
        if other.nanos > self.nanos {
            other
        } else {
            self
        }
    }

    /// The shorter of two spans.
    pub fn min(self, other: Duration) -> (span: Duration)
        ensures
            span == self.shorter_spec(other),
    {
        if other.nanos < self.nanos {
            other
        } else {
            self
        }
    }

    /// The longer of two spans.
    pub fn max(self, other: Duration) -> (span: Duration)
        ensures
            span == self.longer_spec(other),
    {
        if other.nanos > self.nanos {
            other
        } else {
            self
        }
    }
}

impl Instant {
    /// The time from `earlier` to this point, zero where `earlier` is later.
    pub open spec fn since(self, earlier: Instant) -> Duration {
        if self.nanos > earlier.nanos {
            Duration::of(self.nanos - earlier.nanos)
        } else {
            Duration::of(0)
        }
    }

    /// The time from `earlier` to this point, zero where `earlier` is later.
    pub fn saturating_duration_since(&self, earlier: Instant) -> (span: Duration)
        ensures
            span == self.since(earlier),
    {
        Duration { nanos: self.nanos.saturating_sub(earlier.nanos) }
    }

    /// Whether the point `span` after this one can be represented.
    pub open spec fn reaches(self, span: Duration) -> bool {
        self.nanos + span.nanos <= u128::MAX
    }

    /// The point `span` after this one.
    pub fn after(&self, span: Duration) -> (later: Instant)
        requires
            self.reaches(span),
        ensures
            later.nanos == self.nanos + span.nanos,
    {
        Instant { nanos: self.nanos + span.nanos }
    }
}

/// The time from one point to a later one leads from the one to the other, and there is
/// none from a point to an earlier one.
pub proof fn since_leads_to_the_later_point(early: Instant, late: Instant)
    requires
        early.nanos <= late.nanos,
    ensures
        early.nanos + late.since(early).nanos == late.nanos,
        early.since(late).nanos == 0,
{
}

/// What is left of a span makes up for what was taken off, and nothing is left where no
/// less is taken off.
pub proof fn rest_makes_up_for_what_is_taken_off(span: Duration, taken: Duration)
    ensures
        taken.nanos <= span.nanos ==> taken.nanos + span.minus_spec(taken).nanos == span.nanos,
        taken.nanos >= span.nanos ==> span.minus_spec(taken).nanos == 0,
{
}

/// Of two spans the shorter one is not above the longer one, and together they are the two.
pub proof fn shorter_and_longer_are_the_two(a: Duration, b: Duration)
    ensures
        a.shorter_spec(b).nanos <= a.longer_spec(b).nanos,
        a.shorter_spec(b) == a && a.longer_spec(b) == b || a.shorter_spec(b) == b && a.longer_spec(
            b,
        ) == a,
{
}

/// A second is a thousand milliseconds and a million microseconds, and a span is read in
/// whole units as it is made of them.
pub proof fn units_agree(
    n: u64,
    secs: Duration,
    millis: Duration,
    micros: Duration,
    as_millis: u128,
    as_micros: u128,
)
    requires
        call_ensures(Duration::from_secs, (n,), secs),
        call_ensures(Duration::from_millis, (n,), millis),
        call_ensures(Duration::from_micros, (n,), micros),
        call_ensures(Duration::as_millis, (&millis,), as_millis),
        call_ensures(Duration::as_micros, (&micros,), as_micros),
    ensures
        secs.nanos == 1000 * millis.nanos,
        millis.nanos == 1000 * micros.nanos,
        micros.nanos == 1000 * n,
        as_millis == n,
        as_micros == n,
{
}

} // verus!
