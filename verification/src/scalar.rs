//! Fractional arithmetic, as far as the controllers need it.
//!
//! Rates, gains and weights are fractions. The controllers compute with them through
//! [`Scalar`] and assume nothing of how a value is rounded: each contract that speaks of
//! such a value says which operations it comes from, and in which order.
use vstd::prelude::*;

use crate::time::Duration;

verus! {

/// A fractional number.
pub trait Scalar: Copy {
    /// The number nearest to `n`.
    fn from_u64(n: u64) -> Self;

    /// The whole part, clamped to what the integer type holds.
    fn to_u64(self) -> u64;

    /// The seconds in `span`.
    fn from_secs(span: Duration) -> Self;

    /// The span `divisor` times as short as `span`.
    fn shorten(span: Duration, divisor: Self) -> Duration;

    /// The sum.
    fn plus(self, other: Self) -> Self;

    /// The difference.
    fn minus(self, other: Self) -> Self;

    /// The product.
    fn times(self, other: Self) -> Self;

    /// The quotient.
    fn over(self, other: Self) -> Self;

    /// The smaller of two numbers.
    fn least(self, other: Self) -> Self;

    /// Whether this number is smaller than or equal to `other`.
    fn at_most(self, other: Self) -> bool;
}

/// Whether equal arguments give equal results, in every operation.
pub open spec fn is_deterministic<R: Scalar>() -> bool {
    &&& forall|n: u64, x: R, y: R| #[trigger]
        call_ensures(R::from_u64, (n,), x) && #[trigger] call_ensures(R::from_u64, (n,), y)
            ==> x == y
    &&& forall|a: R, x: u64, y: u64| #[trigger]
        call_ensures(R::to_u64, (a,), x) && #[trigger] call_ensures(R::to_u64, (a,), y) ==> x == y
    &&& forall|d: Duration, x: R, y: R| #[trigger]
        call_ensures(R::from_secs, (d,), x) && #[trigger] call_ensures(R::from_secs, (d,), y)
            ==> x == y
    &&& forall|d: Duration, a: R, x: Duration, y: Duration| #[trigger]
        call_ensures(R::shorten, (d, a), x) && #[trigger] call_ensures(R::shorten, (d, a), y)
            ==> x == y
    &&& forall|a: R, b: R, x: R, y: R| #[trigger]
        call_ensures(R::plus, (a, b), x) && #[trigger] call_ensures(R::plus, (a, b), y) ==> x == y
    &&& forall|a: R, b: R, x: R, y: R| #[trigger]
        call_ensures(R::minus, (a, b), x) && #[trigger] call_ensures(R::minus, (a, b), y)
            ==> x == y
    &&& forall|a: R, b: R, x: R, y: R| #[trigger]
        call_ensures(R::times, (a, b), x) && #[trigger] call_ensures(R::times, (a, b), y)
            ==> x == y
    &&& forall|a: R, b: R, x: R, y: R| #[trigger]
        call_ensures(R::over, (a, b), x) && #[trigger] call_ensures(R::over, (a, b), y) ==> x == y
    &&& forall|a: R, b: R, x: R, y: R| #[trigger]
        call_ensures(R::least, (a, b), x) && #[trigger] call_ensures(R::least, (a, b), y)
            ==> x == y
    &&& forall|a: R, b: R, x: bool, y: bool| #[trigger]
        call_ensures(R::at_most, (a, b), x) && #[trigger] call_ensures(R::at_most, (a, b), y)
            ==> x == y
}

/// `out` is `exact`, rounded to what the arithmetic holds: no number that is held lies
/// between the two, so a number that is held is not rounded at all.
pub open spec fn is_rounded(held: spec_fn(real) -> bool, exact: real, out: real) -> bool {
    &&& forall|r: real| #[trigger] held(r) && r <= exact ==> r <= out
    &&& forall|r: real| #[trigger] held(r) && exact <= r ==> out <= r
    &&& forall|low: real, high: real| #[trigger]
        held(low) && #[trigger] held(high) && low <= exact <= high ==> held(out)
}

/// `whole` is the whole part of `exact`, clamped to what the integer type holds.
pub open spec fn is_whole_part(exact: real, whole: u64) -> bool {
    if exact < 0 as real {
        whole == 0
    } else if exact < u64::MAX as real + 1 as real {
        whole as real <= exact < whole as real + 1 as real
    } else {
        whole == u64::MAX
    }
}

/// The seconds in `span`.
pub open spec fn secs(span: Duration) -> real {
    span.nanos as real / 1_000_000_000 as real
}

/// Whether the arithmetic is that of the real numbers, up to rounding: `value` reads a
/// number as a real one, and `held` tells the real numbers that are not rounded. Floating
/// point is such an arithmetic, with the finite numbers of its format for those that are
/// held; so is the arithmetic of fractions, which rounds nothing.
pub open spec fn is_faithful<R: Scalar>(
    value: spec_fn(R) -> real,
    held: spec_fn(real) -> bool,
) -> bool {
    &&& forall|n: u64, out: R| #[trigger]
        call_ensures(R::from_u64, (n,), out) ==> is_rounded(held, n as real, value(out))
    &&& forall|a: R, out: u64| #[trigger]
        call_ensures(R::to_u64, (a,), out) && held(value(a)) ==> is_whole_part(value(a), out)
    &&& forall|span: Duration, out: R| #[trigger]
        call_ensures(R::from_secs, (span,), out) ==> is_rounded(held, secs(span), value(out))
    &&& forall|a: R, b: R, out: R| #[trigger]
        call_ensures(R::plus, (a, b), out) && held(value(a)) && held(value(b)) ==> is_rounded(
            held,
            value(a) + value(b),
            value(out),
        )
    &&& forall|a: R, b: R, out: R| #[trigger]
        call_ensures(R::minus, (a, b), out) && held(value(a)) && held(value(b)) ==> is_rounded(
            held,
            value(a) - value(b),
            value(out),
        )
    &&& forall|a: R, b: R, out: R| #[trigger]
        call_ensures(R::times, (a, b), out) && held(value(a)) && held(value(b)) ==> is_rounded(
            held,
            value(a) * value(b),
            value(out),
        )
    &&& forall|a: R, b: R, out: R| #[trigger]
        call_ensures(R::over, (a, b), out) && held(value(a)) && held(value(b)) && value(b)
            != 0 as real ==> is_rounded(held, value(a) / value(b), value(out))
    &&& forall|a: R, b: R, out: R| #[trigger]
        call_ensures(R::least, (a, b), out) && held(value(a)) && held(value(b)) ==> value(out)
            == if value(a) <= value(b) {
            value(a)
        } else {
            value(b)
        }
    &&& forall|a: R, b: R, out: bool| #[trigger]
        call_ensures(R::at_most, (a, b), out) && held(value(a)) && held(value(b)) ==> out == (
        value(a) <= value(b))
}

/// A fraction `n / d` that is held, of numbers that are held, is exact.
pub proof fn fraction_is_the_quotient<R: Scalar>(
    value: spec_fn(R) -> real,
    held: spec_fn(real) -> bool,
    n: u64,
    d: u64,
    out: R,
)
    requires
        is_faithful(value, held),
        is_fraction(n, d, out),
        d > 0,
        held(n as real),
        held(d as real),
        held(n as real / d as real),
    ensures
        value(out) == n as real / d as real,
        value(out) * d as real == n as real,
{
    let q = n as real / d as real;
    assert(q * d as real == n as real) by (nonlinear_arith)
        requires
            q == n as real / d as real,
            d > 0,
    ;
}

/// `out` is `n / d`.
pub open spec fn is_fraction<R: Scalar>(n: u64, d: u64, out: R) -> bool {
    exists|a: R, b: R|
        #![auto]
        {
            &&& call_ensures(R::from_u64, (n,), a)
            &&& call_ensures(R::from_u64, (d,), b)
            &&& call_ensures(R::over, (a, b), out)
        }
}

/// The fraction `n / d`.
pub fn fraction<R: Scalar>(n: u64, d: u64) -> (out: R)
    ensures
        is_fraction(n, d, out),
{
    let a = R::from_u64(n);
    let b = R::from_u64(d);
    a.over(b)
}

} // verus!
