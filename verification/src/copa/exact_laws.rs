//! What the Copa controller computes, read as real numbers.
//!
//! The laws hold on every arithmetic that is faithful to the real numbers. Where a law
//! calls for numbers that are held, floating point meets it on those that it does not round.
use std::sync::Arc;
use vstd::prelude::*;

use crate::copa::{
    is_contended, is_default_delta, is_heavier, is_lighter, is_queued_target, is_rate, is_step,
    CompetingMode, Copa, CopaConfig,
};
use crate::copa::rtt::{longest_is_attained, rtts, shortest_is_attained};
use crate::scalar::{
    fraction_is_the_quotient, is_faithful, is_fraction, is_whole_part, secs, Scalar,
};
use crate::time::{Duration, Instant, MAX_SPAN_NANOS};

verus! {

/// `n` times `bottom` comes to `top`, up to less than one more.
pub open spec fn is_quotient(n: int, bottom: real, top: real) -> bool {
    n as real * bottom <= top < (n + 1) as real * bottom
}

/// `n` is the quotient of `top` and `bottom` in whole numbers, or the largest integer where
/// it is no smaller than that.
pub open spec fn is_clamped_quotient(n: u64, bottom: real, top: real) -> bool {
    if n < u64::MAX {
        is_quotient(n as int, bottom, top)
    } else {
        n as real * bottom <= top
    }
}

/// `4 * velocity * datagram`, `delta * cwnd` and all that they are computed from are held.
pub open spec fn holds_step(
    held: spec_fn(real) -> bool,
    velocity: u64,
    datagram: u64,
    delta: real,
    cwnd: u64,
) -> bool {
    &&& held(4 as real)
    &&& held(velocity as real)
    &&& held(4 as real * velocity as real)
    &&& held(datagram as real)
    &&& held(4 as real * velocity as real * datagram as real)
    &&& held(delta)
    &&& held(cwnd as real)
    &&& held(delta * cwnd as real)
}

proof fn whole_part_of_quotient(top: real, bottom: real, out: u64)
    requires
        bottom > 0 as real,
        0 as real <= top,
        is_whole_part(top / bottom, out),
    ensures
        is_clamped_quotient(out, bottom, top),
{
    let q = top / bottom;
    assert(q * bottom == top && 0 as real <= q) by (nonlinear_arith)
        requires
            q == top / bottom,
            bottom > 0 as real,
            0 as real <= top,
    ;
    assert(out as real * bottom <= top) by (nonlinear_arith)
        requires
            q * bottom == top,
            bottom > 0 as real,
            out as real <= q,
    ;
    if out < u64::MAX {
        assert(is_quotient(out as int, bottom, top)) by (nonlinear_arith)
            requires
                q * bottom == top,
                bottom > 0 as real,
                out as real <= q < out as real + 1 as real,
        ;
    }
}

proof fn step_operands(velocity: u64, datagram: u64, delta: real, cwnd: u64)
    requires
        delta > 0 as real,
        cwnd > 0,
    ensures
        delta * cwnd as real > 0 as real,
        4 as real * velocity as real * datagram as real >= 0 as real,
{
    assert(delta * cwnd as real > 0 as real) by (nonlinear_arith)
        requires
            delta > 0 as real,
            cwnd > 0,
    ;
    assert(4 as real * velocity as real * datagram as real >= 0 as real) by (nonlinear_arith);
}

proof fn step_is_quotient<R: Scalar>(
    value: spec_fn(R) -> real,
    held: spec_fn(real) -> bool,
    velocity: u64,
    datagram: u64,
    delta: R,
    cwnd: u64,
    out: u64,
)
    requires
        is_faithful(value, held),
        holds_step(held, velocity, datagram, value(delta), cwnd),
        held((4 as real * velocity as real * datagram as real) / (value(delta) * cwnd as real)),
        value(delta) > 0 as real,
        cwnd > 0,
        is_step(velocity, datagram, delta, cwnd, out),
    ensures
        is_clamped_quotient(
            out,
            value(delta) * cwnd as real,
            4 as real * velocity as real * datagram as real,
        ),
{
    step_operands(velocity, datagram, value(delta), cwnd);
    whole_part_of_quotient(
        4 as real * velocity as real * datagram as real,
        value(delta) * cwnd as real,
        out,
    );
}

/// The step of the window is `4 * velocity * datagram / (delta * cwnd)`, also where that
/// is rounded: it lies between any two whole numbers that are held and that the quotient
/// lies between.
pub proof fn step_lies_between<R: Scalar>(
    value: spec_fn(R) -> real,
    held: spec_fn(real) -> bool,
    velocity: u64,
    datagram: u64,
    delta: R,
    cwnd: u64,
    out: u64,
    low: u64,
    high: u64,
)
    requires
        is_faithful(value, held),
        holds_step(held, velocity, datagram, value(delta), cwnd),
        held(low as real),
        held(high as real),
        low as real * (value(delta) * cwnd as real) <= 4 as real * velocity as real
            * datagram as real <= high as real * (value(delta) * cwnd as real),
        value(delta) > 0 as real,
        cwnd > 0,
        is_step(velocity, datagram, delta, cwnd, out),
    ensures
        low <= out <= high,
{
    let top = 4 as real * velocity as real * datagram as real;
    let bottom = value(delta) * cwnd as real;
    step_operands(velocity, datagram, value(delta), cwnd);
    let q = top / bottom;
    assert(low as real <= q <= high as real) by (nonlinear_arith)
        requires
            q == top / bottom,
            bottom > 0 as real,
            low as real * bottom <= top <= high as real * bottom,
    ;
}

/// After slow start the window moves by `4 * velocity * datagram / (delta * cwnd)`, up
/// while it is to grow and down while it is to shrink, and no further than the largest
/// and the minimal window.
pub proof fn window_moves_by_the_weighted_step<R: Scalar>(
    value: spec_fn(R) -> real,
    held: spec_fn(real) -> bool,
    copa: Copa<R>,
    after: Copa<R>,
)
    requires
        is_faithful(value, held),
        holds_step(
            held,
            copa.velocity.velocity,
            copa.config.max_datagram_size,
            value(copa.delta),
            copa.cwnd,
        ),
        held(
            (4 as real * copa.velocity.velocity as real * copa.config.max_datagram_size as real) / (
            value(copa.delta) * copa.cwnd as real),
        ),
        value(copa.delta) > 0 as real,
        copa.cwnd > 0,
        !(copa.slow_start && copa.increase_cwnd),
        copa.cwnd_updated(after),
    ensures
        !after.slow_start,
        after.delta == copa.delta,
        ({
            let top = 4 as real * copa.velocity.velocity as real
                * copa.config.max_datagram_size as real;
            let bottom = value(copa.delta) * copa.cwnd as real;
            if copa.increase_cwnd {
                &&& after.cwnd >= copa.cwnd
                &&& after.velocity == copa.velocity
                &&& after.cwnd < u64::MAX ==> is_quotient(after.cwnd - copa.cwnd, bottom, top)
                &&& after.cwnd == u64::MAX ==> (u64::MAX - copa.cwnd) as real * bottom <= top
            } else {
                &&& after.cwnd >= copa.config.min_cwnd
                &&& after.cwnd > copa.config.min_cwnd ==> {
                    &&& is_quotient(copa.cwnd - after.cwnd, bottom, top)
                    &&& after.velocity == copa.velocity
                }
                &&& after.cwnd == copa.config.min_cwnd ==> (copa.cwnd - after.cwnd) as real * bottom
                    <= top
            }
        }),
{
    let top = 4 as real * copa.velocity.velocity as real * copa.config.max_datagram_size as real;
    let bottom = value(copa.delta) * copa.cwnd as real;
    let by = choose|by: u64|
        {
            &&& #[trigger] is_step(
                copa.velocity.velocity,
                copa.config.max_datagram_size,
                copa.delta,
                copa.cwnd,
                by,
            )
            &&& after == (Copa { slow_start: false, ..copa }).moved(by)
        };
    step_operands(
        copa.velocity.velocity,
        copa.config.max_datagram_size,
        value(copa.delta),
        copa.cwnd,
    );
    step_is_quotient(
        value,
        held,
        copa.velocity.velocity,
        copa.config.max_datagram_size,
        copa.delta,
        copa.cwnd,
        by,
    );
    let least = if copa.increase_cwnd {
        u64::MAX - copa.cwnd
    } else {
        copa.cwnd - after.cwnd
    };
    if least <= by {
        assert(least as real * bottom <= by as real * bottom) by (nonlinear_arith)
            requires
                least <= by,
                bottom > 0 as real,
        ;
    }
}

/// On an acknowledgement after slow start the window moves by
/// `4 * velocity * datagram / (delta * cwnd)`, with the velocity and the delay weight that
/// the controller has after it.
pub proof fn ack_moves_by_the_weighted_step<R: Scalar>(
    value: spec_fn(R) -> real,
    held: spec_fn(real) -> bool,
    copa: Copa<R>,
    now: Instant,
    latest: Duration,
    smoothed: Duration,
    rate: u64,
    after: Copa<R>,
)
    requires
        is_faithful(value, held),
        holds_step(
            held,
            after.velocity.velocity,
            copa.config.max_datagram_size,
            value(after.delta),
            copa.cwnd,
        ),
        held(
            (4 as real * after.velocity.velocity as real * copa.config.max_datagram_size as real) / (
            value(after.delta) * copa.cwnd as real),
        ),
        value(after.delta) > 0 as real,
        copa.cwnd > 0,
        copa.acknowledged(now, latest, smoothed, rate, after),
        !after.slow_start,
    ensures
        ({
            let top = 4 as real * after.velocity.velocity as real
                * copa.config.max_datagram_size as real;
            let bottom = value(after.delta) * copa.cwnd as real;
            &&& after.increase_cwnd && after.cwnd < u64::MAX ==> is_quotient(
                after.cwnd - copa.cwnd,
                bottom,
                top,
            )
            &&& !after.increase_cwnd && after.cwnd > copa.config.min_cwnd ==> is_quotient(
                copa.cwnd - after.cwnd,
                bottom,
                top,
            )
        }),
{
    let (aimed, switched) = choose|aimed: Copa<R>, switched: Copa<R>|
        {
            &&& #[trigger] copa.sampled(now, latest, smoothed, rate, aimed)
            &&& #[trigger] aimed.mode_updated(switched)
            &&& switched.velocity_updated().cwnd_updated(after)
        };
    let before = switched.velocity_updated();
    assert(before.cwnd == copa.cwnd && before.config == copa.config);
    assert(before.delta == after.delta);
    if after.increase_cwnd && after.cwnd < u64::MAX || !after.increase_cwnd && after.cwnd
        > copa.config.min_cwnd {
        assert(before.velocity == after.velocity);
        window_moves_by_the_weighted_step(value, held, before, after);
    }
}

/// The spans, in seconds, and the range of the round-trip time are held.
pub open spec fn holds_range(
    held: spec_fn(real) -> bool,
    queueing_delay: Duration,
    max_rtt: Duration,
    min_rtt: Duration,
) -> bool {
    &&& held(secs(queueing_delay))
    &&& held(secs(max_rtt))
    &&& held(secs(min_rtt))
    &&& held(secs(max_rtt) - secs(min_rtt))
}

proof fn contention_is_a_tenth<R: Scalar>(
    value: spec_fn(R) -> real,
    held: spec_fn(real) -> bool,
    queueing_delay: Duration,
    max_rtt: Duration,
    min_rtt: Duration,
    out: bool,
)
    requires
        is_faithful(value, held),
        holds_range(held, queueing_delay, max_rtt, min_rtt),
        held(1 as real),
        held(10 as real),
        held(1 as real / 10 as real),
        held(secs(queueing_delay) / (secs(max_rtt) - secs(min_rtt))),
        min_rtt.nanos != max_rtt.nanos,
        is_contended::<R>(queueing_delay, max_rtt, min_rtt, out),
    ensures
        out <==> min_rtt.nanos < max_rtt.nanos && 10 * queueing_delay.nanos >= max_rtt.nanos
            - min_rtt.nanos,
{
    let range = secs(max_rtt) - secs(min_rtt);
    let share = secs(queueing_delay) / range;
    assert(range * 1_000_000_000 as real == (max_rtt.nanos - min_rtt.nanos) as real);
    assert(secs(queueing_delay) * 1_000_000_000 as real == queueing_delay.nanos as real);
    let queued = secs(queueing_delay);
    assert(1 as real / 10 as real <= share <==> range > 0 as real && range <= 10 as real * queued)
        by (nonlinear_arith)
        requires
            share == queued / range,
            range != 0 as real,
            queued >= 0 as real,
    ;
    assert forall|tenth: R| #[trigger] is_fraction(1, 10, tenth) implies value(tenth)
        == 1 as real / 10 as real by {
        fraction_is_the_quotient(value, held, 1, 10, tenth);
    }
}

/// The controller competes exactly where the queueing delay makes up at least a tenth of
/// the range of the round-trip time. Where the longest one is below the shortest one there
/// is no range, and it does not compete.
pub proof fn mode_follows_the_share_of_delay<R: Scalar>(
    value: spec_fn(R) -> real,
    held: spec_fn(real) -> bool,
    copa: Copa<R>,
    after: Copa<R>,
)
    requires
        is_faithful(value, held),
        holds_range(held, copa.queueing_delay, copa.max_rtt(), copa.min_rtt()),
        held(1 as real),
        held(10 as real),
        held(1 as real / 10 as real),
        held(secs(copa.queueing_delay) / (secs(copa.max_rtt()) - secs(copa.min_rtt()))),
        copa.min_rtt().nanos != copa.max_rtt().nanos,
        copa.mode_updated(after),
    ensures
        after.mode == CompetingMode::Competitive <==> copa.min_rtt().nanos < copa.max_rtt().nanos
            && 10 * copa.queueing_delay.nanos >= copa.max_rtt().nanos - copa.min_rtt().nanos,
{
    let competing = choose|competing: bool|
        {
            &&& #[trigger] is_contended::<R>(
                copa.queueing_delay,
                copa.max_rtt(),
                copa.min_rtt(),
                competing,
            )
            &&& copa.switched(competing, after)
        };
    contention_is_a_tenth(
        value,
        held,
        copa.queueing_delay,
        copa.max_rtt(),
        copa.min_rtt(),
        competing,
    );
}

/// After an acknowledgement the controller competes exactly where the queueing delay makes
/// up at least a tenth of the range of the round-trip time.
pub proof fn ack_competes_from_a_tenth<R: Scalar>(
    value: spec_fn(R) -> real,
    held: spec_fn(real) -> bool,
    copa: Copa<R>,
    now: Instant,
    latest: Duration,
    smoothed: Duration,
    rate: u64,
    after: Copa<R>,
)
    requires
        is_faithful(value, held),
        holds_range(held, after.queueing_delay, after.max_rtt(), after.min_rtt()),
        held(1 as real),
        held(10 as real),
        held(1 as real / 10 as real),
        held(secs(after.queueing_delay) / (secs(after.max_rtt()) - secs(after.min_rtt()))),
        after.min_rtt().nanos < after.max_rtt().nanos,
        copa.acknowledged(now, latest, smoothed, rate, after),
    ensures
        after.mode == CompetingMode::Competitive <==> 10 * after.queueing_delay.nanos
            >= after.max_rtt().nanos - after.min_rtt().nanos,
{
    let (aimed, switched) = choose|aimed: Copa<R>, switched: Copa<R>|
        {
            &&& #[trigger] copa.sampled(now, latest, smoothed, rate, aimed)
            &&& #[trigger] aimed.mode_updated(switched)
            &&& switched.velocity_updated().cwnd_updated(after)
        };
    mode_follows_the_share_of_delay(value, held, aimed, switched);
}

/// Where a tenth is rounded, the mode still follows the share of the queueing delay in the
/// range of the round-trip time: a share that is not below some number that is held and
/// at least a tenth is competition, and one that is not above a number that is held and
/// smaller than another such number below a tenth is not.
pub proof fn mode_follows_a_rounded_share<R: Scalar>(
    value: spec_fn(R) -> real,
    held: spec_fn(real) -> bool,
    copa: Copa<R>,
    after: Copa<R>,
    low: real,
    middle: real,
    high: real,
)
    requires
        is_faithful(value, held),
        holds_range(held, copa.queueing_delay, copa.max_rtt(), copa.min_rtt()),
        held(0 as real),
        held(1 as real),
        held(10 as real),
        held(low),
        held(middle),
        held(high),
        low < middle,
        middle * 10 as real <= 1 as real <= high * 10 as real,
        copa.min_rtt().nanos < copa.max_rtt().nanos,
        copa.queueing_delay.nanos <= copa.max_rtt().nanos - copa.min_rtt().nanos,
        copa.mode_updated(after),
    ensures
        copa.queueing_delay.nanos as real >= high * (copa.max_rtt().nanos
            - copa.min_rtt().nanos) as real ==> after.mode == CompetingMode::Competitive,
        copa.queueing_delay.nanos as real <= low * (copa.max_rtt().nanos
            - copa.min_rtt().nanos) as real ==> after.mode == CompetingMode::Default,
{
    let queued = secs(copa.queueing_delay);
    let range = secs(copa.max_rtt()) - secs(copa.min_rtt());
    let share = queued / range;
    let nanos = (copa.max_rtt().nanos - copa.min_rtt().nanos) as real;
    assert(range * 1_000_000_000 as real == nanos);
    assert(queued * 1_000_000_000 as real == copa.queueing_delay.nanos as real);
    let tenth = 1 as real / 10 as real;
    assert(0 as real <= share <= 1 as real) by (nonlinear_arith)
        requires
            share == queued / range,
            range > 0 as real,
            0 as real <= queued <= range,
    ;
    if copa.queueing_delay.nanos as real >= high * nanos {
        assert(high <= share) by (nonlinear_arith)
            requires
                share == queued / range,
                range > 0 as real,
                queued * 1_000_000_000 as real >= high * (range * 1_000_000_000 as real),
        ;
    }
    if copa.queueing_delay.nanos as real <= low * nanos {
        assert(share <= low) by (nonlinear_arith)
            requires
                share == queued / range,
                range > 0 as real,
                queued * 1_000_000_000 as real <= low * (range * 1_000_000_000 as real),
        ;
    }
    assert(middle <= tenth <= high);
    assert(0 as real <= tenth <= 1 as real);
}

/// Where nothing sets the longest round-trip time apart from the shortest one, any delay
/// is competition and none is not, as long as every number is at most the quotient of
/// something by the difference of a span to itself, and none is at most that of nothing.
pub proof fn delay_on_a_steady_path_is_competition<R: Scalar>(
    value: spec_fn(R) -> real,
    held: spec_fn(real) -> bool,
    copa: Copa<R>,
    after: Copa<R>,
)
    requires
        is_faithful(value, held),
        forall|span: Duration, m: R, n: R, a: R, b: R, unbounded: R, number: R, out: bool|
            #[trigger] call_ensures(R::from_secs, (span,), m) && #[trigger] call_ensures(
                R::from_secs,
                (span,),
                n,
            ) && #[trigger] call_ensures(R::minus, (m, n), b) && #[trigger] call_ensures(
                R::over,
                (a, b),
                unbounded,
            ) && #[trigger] call_ensures(R::at_most, (number, unbounded), out) && held(value(a))
                && value(a) >= 0 as real && held(value(number)) ==> out == (value(a) > 0 as real),
        held(0 as real),
        held(1 as real),
        held(10 as real),
        held(secs(copa.queueing_delay)),
        copa.min_rtt() == copa.max_rtt(),
        copa.mode_updated(after),
    ensures
        after.mode == CompetingMode::Competitive <==> copa.queueing_delay.nanos > 0,
{
    assert(secs(copa.queueing_delay) * 1_000_000_000 as real == copa.queueing_delay.nanos as real);
    assert((0 as real) <= 1 as real / 10 as real <= 1 as real);
}

/// A window that is empty calls for the largest step, as long as the quotient of something
/// by any share of nothing is beyond every integer: a window that is to grow becomes the
/// largest and one that is to shrink the minimal one.
pub proof fn empty_window_moves_all_the_way<R: Scalar>(
    value: spec_fn(R) -> real,
    held: spec_fn(real) -> bool,
    copa: Copa<R>,
    after: Copa<R>,
)
    requires
        is_faithful(value, held),
        forall|share: R, none: R, a: R, b: R, unbounded: R, out: u64|
            #[trigger] call_ensures(R::from_u64, (0u64,), none) && #[trigger] call_ensures(
                R::times,
                (share, none),
                b,
            ) && #[trigger] call_ensures(R::over, (a, b), unbounded) && #[trigger] call_ensures(
                R::to_u64,
                (unbounded,),
                out,
            ) && held(value(share)) && value(share) > 0 as real && held(value(a)) && value(a)
                > 0 as real ==> out == u64::MAX,
        holds_step(
            held,
            copa.velocity.velocity,
            copa.config.max_datagram_size,
            value(copa.delta),
            copa.cwnd,
        ),
        copa.velocity.velocity > 0,
        copa.config.max_datagram_size > 0,
        value(copa.delta) > 0 as real,
        copa.cwnd == 0,
        !(copa.slow_start && copa.increase_cwnd),
        copa.cwnd_updated(after),
    ensures
        copa.increase_cwnd ==> after.cwnd == u64::MAX,
        !copa.increase_cwnd ==> after.cwnd == copa.config.min_cwnd,
{
    let velocity = copa.velocity.velocity as real;
    let datagram = copa.config.max_datagram_size as real;
    assert(4 as real * velocity * datagram > 0 as real) by (nonlinear_arith)
        requires
            velocity > 0 as real,
            datagram > 0 as real,
    ;
}

/// In competition the delay weight `d` becomes `d / (1 + d)`, at most one half; otherwise
/// it is one half.
pub proof fn weight_follows_the_mode<R: Scalar>(
    value: spec_fn(R) -> real,
    held: spec_fn(real) -> bool,
    copa: Copa<R>,
    after: Copa<R>,
)
    requires
        is_faithful(value, held),
        held(1 as real),
        held(2 as real),
        held(1 as real / 2 as real),
        held(value(copa.delta)),
        held(1 as real + value(copa.delta)),
        held(value(copa.delta) / (1 as real + value(copa.delta))),
        value(copa.delta) > 0 as real,
        copa.mode_updated(after),
    ensures
        after.mode == CompetingMode::Default ==> value(after.delta) * 2 as real == 1 as real,
        after.mode == CompetingMode::Competitive && value(copa.delta) <= 1 as real ==> value(
            after.delta,
        ) * (1 as real + value(copa.delta)) == value(copa.delta),
        after.mode == CompetingMode::Competitive && value(copa.delta) > 1 as real ==> value(
            after.delta,
        ) * 2 as real == 1 as real,
        after.mode == CompetingMode::Competitive ==> (0 as real) < value(after.delta) < value(
            copa.delta,
        ),
{
    let d = value(copa.delta);
    let less = d / (1 as real + d);
    assert(less * (1 as real + d) == d && (0 as real) < less < d && (less <= 1 as real / 2 as real
        <==> d <= 1 as real)) by (nonlinear_arith)
        requires
            less == d / (1 as real + d),
            d > 0 as real,
    ;
    assert forall|half: R| #[trigger] is_fraction(1, 2, half) implies value(half)
        == 1 as real / 2 as real by {
        fraction_is_the_quotient(value, held, 1, 2, half);
    }
    if after.mode == CompetingMode::Competitive {
        assert(is_lighter(copa.delta, after.delta));
    } else {
        assert(is_default_delta(after.delta));
    }
}

/// A loss doubles the delay weight in competition, up to one half. While nothing competes
/// it changes nothing.
pub proof fn loss_doubles_the_weight<R: Scalar>(
    value: spec_fn(R) -> real,
    held: spec_fn(real) -> bool,
    copa: Copa<R>,
    after: Copa<R>,
)
    requires
        is_faithful(value, held),
        held(1 as real),
        held(2 as real),
        held(1 as real / 2 as real),
        held(value(copa.delta)),
        held(value(copa.delta) * 2 as real),
        copa.congested(after),
    ensures
        after == (Copa { delta: after.delta, ..copa }),
        copa.mode == CompetingMode::Default ==> after.delta == copa.delta,
        copa.mode == CompetingMode::Competitive && value(copa.delta) * 4 as real <= 1 as real
            ==> value(after.delta) == value(copa.delta) * 2 as real,
        copa.mode == CompetingMode::Competitive && value(copa.delta) * 4 as real > 1 as real
            ==> value(after.delta) * 2 as real == 1 as real,
{
    assert forall|half: R| #[trigger] is_fraction(1, 2, half) implies value(half)
        == 1 as real / 2 as real by {
        fraction_is_the_quotient(value, held, 1, 2, half);
    }
    if copa.mode == CompetingMode::Competitive {
        assert(is_heavier(copa.delta, after.delta));
    }
}

/// A rate of `rate` in `span` comes to `bytes`, up to less than one byte per second more.
/// The highest rate may come to less.
pub open spec fn is_rate_over(rate: u64, span: Duration, bytes: u64) -> bool {
    &&& rate * span.nanos <= bytes * 1_000_000_000
    &&& rate < u64::MAX ==> bytes * 1_000_000_000 < (rate + 1) * span.nanos
}

proof fn rate_is_quotient<R: Scalar>(
    value: spec_fn(R) -> real,
    held: spec_fn(real) -> bool,
    cwnd: u64,
    rtt: Duration,
    out: u64,
)
    requires
        is_faithful(value, held),
        held(cwnd as real),
        held(secs(rtt)),
        held(cwnd as real / secs(rtt)),
        rtt.nanos > 0,
        is_rate::<R>(cwnd, rtt, out),
    ensures
        is_rate_over(out, rtt, cwnd),
{
    let span = secs(rtt);
    whole_part_of_quotient(cwnd as real, span, out);
    assert(span * 1_000_000_000 as real == rtt.nanos as real);
    let (low, top, high) = (out * rtt.nanos, cwnd * 1_000_000_000int, (out + 1) * rtt.nanos);
    assert(low as real == out as real * rtt.nanos as real) by (nonlinear_arith)
        requires
            low == out * rtt.nanos,
    ;
    assert(high as real == (out + 1) as real * rtt.nanos as real) by (nonlinear_arith)
        requires
            high == (out + 1) * rtt.nanos,
    ;
    assert(low as real <= top as real) by (nonlinear_arith)
        requires
            low as real == out as real * rtt.nanos as real,
            top == cwnd * 1_000_000_000,
            span * 1_000_000_000 as real == rtt.nanos as real,
            out as real * span <= cwnd as real,
    ;
    if out < u64::MAX {
        assert((top as real) < high as real) by (nonlinear_arith)
            requires
                high as real == (out + 1) as real * rtt.nanos as real,
                top == cwnd * 1_000_000_000,
                span * 1_000_000_000 as real == rtt.nanos as real,
                (cwnd as real) < (out + 1) as real * span,
        ;
    }
}

/// The rate that an acknowledgement gives is that of the window before it in a standing
/// round trip. While nothing waits in queues it is also the target.
pub proof fn ack_gives_the_rate_of_the_window<R: Scalar>(
    value: spec_fn(R) -> real,
    held: spec_fn(real) -> bool,
    copa: Copa<R>,
    now: Instant,
    latest: Duration,
    smoothed: Duration,
    rate: u64,
    after: Copa<R>,
)
    requires
        is_faithful(value, held),
        held(copa.cwnd as real),
        held(secs(after.standing_rtt())),
        held(copa.cwnd as real / secs(after.standing_rtt())),
        after.standing_rtt().nanos > 0,
        copa.acknowledged(now, latest, smoothed, rate, after),
    ensures
        is_rate_over(rate, after.standing_rtt(), copa.cwnd),
        after.queueing_delay.nanos == 0 ==> is_rate_over(
            after.target_rate,
            after.standing_rtt(),
            copa.cwnd,
        ),
{
    let (aimed, switched) = choose|aimed: Copa<R>, switched: Copa<R>|
        {
            &&& #[trigger] copa.sampled(now, latest, smoothed, rate, aimed)
            &&& #[trigger] aimed.mode_updated(switched)
            &&& switched.velocity_updated().cwnd_updated(after)
        };
    assert(is_rate::<R>(copa.cwnd, after.standing_rtt(), rate));
    rate_is_quotient(value, held, copa.cwnd, after.standing_rtt(), rate);
    if after.queueing_delay.nanos == 0 {
        assert(is_rate::<R>(copa.cwnd, after.standing_rtt(), after.target_rate));
        rate_is_quotient(value, held, copa.cwnd, after.standing_rtt(), after.target_rate);
    }
}

/// A round trip that takes no time gives the highest rate, as long as the quotient of
/// something by no time is beyond every integer.
pub proof fn instant_round_trip_gives_the_highest_rate<R: Scalar>(
    value: spec_fn(R) -> real,
    held: spec_fn(real) -> bool,
    copa: Copa<R>,
    now: Instant,
    latest: Duration,
    smoothed: Duration,
    rate: u64,
    after: Copa<R>,
)
    requires
        is_faithful(value, held),
        forall|span: Duration, a: R, b: R, unbounded: R, out: u64|
            #[trigger] call_ensures(R::from_secs, (span,), b) && #[trigger] call_ensures(
                R::over,
                (a, b),
                unbounded,
            ) && #[trigger] call_ensures(R::to_u64, (unbounded,), out) && span.nanos == 0 && held(
                value(a),
            ) && value(a) > 0 as real ==> out == u64::MAX,
        held(copa.cwnd as real),
        copa.cwnd > 0,
        copa.acknowledged(now, latest, smoothed, rate, after),
        after.standing_rtt().nanos == 0,
    ensures
        rate == u64::MAX,
{
    assert(is_rate::<R>(copa.cwnd, after.standing_rtt(), rate));
}

/// The queueing delay that counts: no less than a microsecond.
pub open spec fn counted_delay(queueing_delay: Duration) -> Duration {
    Duration {
        nanos: if queueing_delay.nanos < 1000 {
            1000
        } else {
            queueing_delay.nanos
        },
    }
}

/// While data waits in queues, the target is `1 / (delta * delay)` datagrams per second,
/// with the delay weight before the acknowledgement and a delay of at least a microsecond.
pub proof fn target_falls_with_the_delay<R: Scalar>(
    value: spec_fn(R) -> real,
    held: spec_fn(real) -> bool,
    copa: Copa<R>,
    now: Instant,
    latest: Duration,
    smoothed: Duration,
    rate: u64,
    after: Copa<R>,
)
    requires
        is_faithful(value, held),
        held(copa.config.max_datagram_size as real),
        held(value(copa.delta)),
        held(copa.config.max_datagram_size as real / value(copa.delta)),
        held(secs(counted_delay(after.queueing_delay))),
        held(
            copa.config.max_datagram_size as real / value(copa.delta) / secs(
                counted_delay(after.queueing_delay),
            ),
        ),
        value(copa.delta) > 0 as real,
        after.queueing_delay.nanos > 0,
        copa.acknowledged(now, latest, smoothed, rate, after),
    ensures
        is_clamped_quotient(
            after.target_rate,
            value(copa.delta) * secs(counted_delay(after.queueing_delay)),
            copa.config.max_datagram_size as real,
        ),
{
    let (aimed, switched) = choose|aimed: Copa<R>, switched: Copa<R>|
        {
            &&& #[trigger] copa.sampled(now, latest, smoothed, rate, aimed)
            &&& #[trigger] aimed.mode_updated(switched)
            &&& switched.velocity_updated().cwnd_updated(after)
        };
    let size = copa.config.max_datagram_size as real;
    let delta = value(copa.delta);
    let span = secs(counted_delay(after.queueing_delay));
    let weighted = size / delta;
    assert(is_queued_target(
        copa.config.max_datagram_size,
        copa.delta,
        after.queueing_delay,
        after.target_rate,
    ));
    assert(after.queueing_delay.longer_spec(Duration::of(1000)) == counted_delay(
        after.queueing_delay,
    ));
    assert(weighted >= 0 as real && weighted * delta == size) by (nonlinear_arith)
        requires
            weighted == size / delta,
            delta > 0 as real,
            size >= 0 as real,
    ;
    whole_part_of_quotient(weighted, span, after.target_rate);
    let n = after.target_rate;
    assert(n as real * (delta * span) <= size) by (nonlinear_arith)
        requires
            n as real * span <= weighted,
            weighted * delta == size,
            delta > 0 as real,
    ;
    if n < u64::MAX {
        assert(is_quotient(n as int, delta * span, size)) by (nonlinear_arith)
            requires
                is_quotient(n as int, span, weighted),
                weighted * delta == size,
                delta > 0 as real,
        ;
    }
}

/// A controller as it is made is in slow start, with the configured window and a delay
/// weight of one half, competes with nothing and has seen no sample.
pub proof fn fresh_controller_starts_slowly<R: Scalar>(
    value: spec_fn(R) -> real,
    held: spec_fn(real) -> bool,
    config: Arc<CopaConfig<R>>,
    now: Instant,
    current_mtu: u16,
    copa: Copa<R>,
)
    requires
        is_faithful(value, held),
        held(1 as real),
        held(2 as real),
        held(1 as real / 2 as real),
        call_ensures(Copa::<R>::new, (config, now, current_mtu), copa),
    ensures
        copa.config == config,
        copa.cwnd == config.initial_cwnd,
        copa.slow_start,
        copa.mode == CompetingMode::Default,
        value(copa.delta) * 2 as real == 1 as real,
        copa.velocity.velocity == 1,
        copa.velocity.last_cwnd == 0,
        copa.queueing_delay.nanos == 0,
        copa.max_rtt().nanos == 0,
        copa.min_rtt().nanos == MAX_SPAN_NANOS,
        copa.standing_rtt().nanos == MAX_SPAN_NANOS,
{
    fraction_is_the_quotient(value, held, 1, 2, copa.delta);
    longest_is_attained(copa.rtt_max@);
    shortest_is_attained(copa.rtt_min@.buckets);
    assert(rtts(copa.rtt_standing@).len() == 0);
}

/// Pacing goes by the congestion window, and the initial window is the configured one.
pub proof fn pacing_goes_by_the_window<R: Scalar>(
    copa: Copa<R>,
    paced: u64,
    window: u64,
    initial: u64,
)
    requires
        call_ensures(Copa::<R>::pacing_window, (&copa,), paced),
        call_ensures(Copa::<R>::window, (&copa,), window),
        call_ensures(Copa::<R>::initial_window, (&copa,), initial),
    ensures
        window == copa.cwnd,
        paced == window,
        initial == copa.config.initial_cwnd,
{
}

/// On an acknowledgement the delay weight `d` becomes `d / (1 + d)` where the controller
/// then competes, at most one half, and one half where it does not.
pub proof fn ack_sets_the_weight<R: Scalar>(
    value: spec_fn(R) -> real,
    held: spec_fn(real) -> bool,
    copa: Copa<R>,
    now: Instant,
    latest: Duration,
    smoothed: Duration,
    rate: u64,
    after: Copa<R>,
)
    requires
        is_faithful(value, held),
        held(1 as real),
        held(2 as real),
        held(1 as real / 2 as real),
        held(value(copa.delta)),
        held(1 as real + value(copa.delta)),
        held(value(copa.delta) / (1 as real + value(copa.delta))),
        value(copa.delta) > 0 as real,
        copa.acknowledged(now, latest, smoothed, rate, after),
    ensures
        after.mode == CompetingMode::Default ==> value(after.delta) * 2 as real == 1 as real,
        after.mode == CompetingMode::Competitive && value(copa.delta) <= 1 as real ==> value(
            after.delta,
        ) * (1 as real + value(copa.delta)) == value(copa.delta),
        after.mode == CompetingMode::Competitive && value(copa.delta) > 1 as real ==> value(
            after.delta,
        ) * 2 as real == 1 as real,
{
    let (aimed, switched) = choose|aimed: Copa<R>, switched: Copa<R>|
        {
            &&& #[trigger] copa.sampled(now, latest, smoothed, rate, aimed)
            &&& #[trigger] aimed.mode_updated(switched)
            &&& switched.velocity_updated().cwnd_updated(after)
        };
    assert(aimed.delta == copa.delta && switched.delta == after.delta && switched.mode
        == after.mode);
    weight_follows_the_mode(value, held, aimed, switched);
}

} // verus!
