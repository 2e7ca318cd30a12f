//! What the Copa controller promises over all its inputs.
use vstd::prelude::*;

use crate::copa::rtt::{
    longest_is_attained, recent, rtts, shortest_is_attained, RttTracker, Slots, MAX_FILTER_SAMPLES,
};
use crate::copa::rtt_laws::{
    fed, in_order, minimum_is_that_of_ten_seconds, slot_minimum_covers_newest,
    standing_minimum_covers_newest, standing_window_is_exact,
};
use crate::copa::{
    is_default_delta, is_heavier, is_lighter, next_velocity, CompetingMode, Copa, Direction, Velocity,
};
use crate::scalar::{is_deterministic, is_fraction, Scalar};
use crate::time::{Duration, Instant, MAX_SPAN_NANOS};

verus! {

/// A window that is small enough to be doubled, and any window after slow start, can
/// take an acknowledgement.
pub proof fn small_window_takes_acks<R: Scalar>(
    copa: Copa<R>,
    now: Instant,
    latest: Duration,
    smoothed: Duration,
)
    requires
        copa.slow_start ==> copa.cwnd * 2 <= u64::MAX,
    ensures
        forall|rate: u64, aimed: Copa<R>| #[trigger]
            copa.sampled(now, latest, smoothed, rate, aimed) ==> aimed.doubling_fits(),
{
}

/// A window that is not empty stays so, as long as the configured minimum is not zero.
pub proof fn window_never_empties<R: Scalar>(
    copa: Copa<R>,
    now: Instant,
    latest: Duration,
    smoothed: Duration,
    rate: u64,
    after: Copa<R>,
)
    requires
        copa.cwnd > 0,
        copa.config.min_cwnd > 0,
        copa.acknowledged(now, latest, smoothed, rate, after),
        forall|rate: u64, aimed: Copa<R>| #[trigger]
            copa.sampled(now, latest, smoothed, rate, aimed) ==> aimed.doubling_fits(),
    ensures
        after.cwnd > 0,
{
}

/// A window that is not below the configured minimum stays so.
pub proof fn window_keeps_its_minimum<R: Scalar>(
    copa: Copa<R>,
    now: Instant,
    latest: Duration,
    smoothed: Duration,
    rate: u64,
    after: Copa<R>,
)
    requires
        copa.cwnd >= copa.config.min_cwnd,
        copa.acknowledged(now, latest, smoothed, rate, after),
        forall|rate: u64, aimed: Copa<R>| #[trigger]
            copa.sampled(now, latest, smoothed, rate, aimed) ==> aimed.doubling_fits(),
    ensures
        after.cwnd >= after.config.min_cwnd,
{
}

/// An acknowledgement keeps the configuration and the time at which the controller was
/// made.
pub proof fn configuration_is_kept<R: Scalar>(
    copa: Copa<R>,
    now: Instant,
    latest: Duration,
    smoothed: Duration,
    rate: u64,
    after: Copa<R>,
)
    requires
        copa.acknowledged(now, latest, smoothed, rate, after),
    ensures
        after.config == copa.config,
        after.init_time == copa.init_time,
        after.last_sent_pkt_num == copa.last_sent_pkt_num,
{
}

/// Slow start goes on exactly while the window is to grow, and never comes back.
pub proof fn slow_start_ends_for_good<R: Scalar>(
    copa: Copa<R>,
    now: Instant,
    latest: Duration,
    smoothed: Duration,
    rate: u64,
    after: Copa<R>,
)
    requires
        copa.acknowledged(now, latest, smoothed, rate, after),
    ensures
        after.slow_start == (copa.slow_start && after.increase_cwnd),
{
}

/// In slow start the window doubles with every acknowledgement that lets it grow, and
/// the velocity waits.
pub proof fn slow_start_doubles<R: Scalar>(
    copa: Copa<R>,
    now: Instant,
    latest: Duration,
    smoothed: Duration,
    rate: u64,
    after: Copa<R>,
)
    requires
        copa.acknowledged(now, latest, smoothed, rate, after),
        forall|rate: u64, aimed: Copa<R>| #[trigger]
            copa.sampled(now, latest, smoothed, rate, aimed) ==> aimed.doubling_fits(),
        after.slow_start,
    ensures
        after.cwnd == copa.cwnd * 2,
        after.velocity == copa.velocity,
{
}

/// After slow start the window moves the way that the target calls for: it does not
/// shrink while it is to grow, and while it is to shrink it does not grow unless it was
/// below its minimum; it then stops at that minimum.
pub proof fn window_follows_target<R: Scalar>(
    copa: Copa<R>,
    now: Instant,
    latest: Duration,
    smoothed: Duration,
    rate: u64,
    after: Copa<R>,
)
    requires
        copa.acknowledged(now, latest, smoothed, rate, after),
        !after.slow_start,
    ensures
        after.increase_cwnd ==> after.cwnd >= copa.cwnd,
        !after.increase_cwnd ==> after.cwnd <= copa.cwnd || after.cwnd == copa.config.min_cwnd,
        !after.increase_cwnd ==> after.cwnd >= copa.config.min_cwnd,
{
}

/// Where nothing waits in queues, the window is to grow.
pub proof fn empty_queue_means_growth<R: Scalar>(
    copa: Copa<R>,
    now: Instant,
    latest: Duration,
    smoothed: Duration,
    rate: u64,
    after: Copa<R>,
)
    requires
        copa.acknowledged(now, latest, smoothed, rate, after),
        after.queueing_delay.nanos == 0,
    ensures
        after.increase_cwnd,
{
}

/// The window is to grow exactly where nothing waits in queues or the rate at which it
/// sent is below the target.
pub proof fn growth_follows_target<R: Scalar>(
    copa: Copa<R>,
    now: Instant,
    latest: Duration,
    smoothed: Duration,
    rate: u64,
    after: Copa<R>,
)
    requires
        copa.acknowledged(now, latest, smoothed, rate, after),
    ensures
        after.increase_cwnd == (after.queueing_delay.nanos == 0 || after.target_rate > rate),
{
}

/// While nothing competes, the delay weight is one half.
pub proof fn default_mode_has_default_weight<R: Scalar>(
    copa: Copa<R>,
    now: Instant,
    latest: Duration,
    smoothed: Duration,
    rate: u64,
    after: Copa<R>,
)
    requires
        copa.acknowledged(now, latest, smoothed, rate, after),
        after.mode == CompetingMode::Default,
    ensures
        is_default_delta(after.delta),
{
}

/// Two controllers that agree in every field and in what their filters hold.
pub open spec fn alike<R>(a: Copa<R>, b: Copa<R>) -> bool {
    &&& a.rtt_max@ == b.rtt_max@
    &&& a.rtt_min@ == b.rtt_min@
    &&& a.rtt_standing@ == b.rtt_standing@
    &&& b == (Copa {
        rtt_max: b.rtt_max,
        rtt_min: b.rtt_min,
        rtt_standing: b.rtt_standing,
        ..a
    })
}

proof fn alike_when_aimed<R: Scalar>(
    a: Copa<R>,
    b: Copa<R>,
    now: Instant,
    latest: Duration,
    smoothed: Duration,
    a_rate: u64,
    b_rate: u64,
    a_aimed: Copa<R>,
    b_aimed: Copa<R>,
)
    requires
        is_deterministic::<R>(),
        alike(a, b),
        a.sampled(now, latest, smoothed, a_rate, a_aimed),
        b.sampled(now, latest, smoothed, b_rate, b_aimed),
    ensures
        a_rate == b_rate,
        alike(a_aimed, b_aimed),
{
}

proof fn alike_when_switched<R: Scalar>(
    a: Copa<R>,
    b: Copa<R>,
    a_after: Copa<R>,
    b_after: Copa<R>,
)
    requires
        is_deterministic::<R>(),
        alike(a, b),
        a.mode_updated(a_after),
        b.mode_updated(b_after),
    ensures
        alike(a_after, b_after),
{
}

proof fn alike_when_moved<R: Scalar>(a: Copa<R>, b: Copa<R>, a_after: Copa<R>, b_after: Copa<R>)
    requires
        is_deterministic::<R>(),
        alike(a, b),
        a.cwnd_updated(a_after),
        b.cwnd_updated(b_after),
    ensures
        alike(a_after, b_after),
{
}

/// Nothing but the time and the round-trip times has an influence: on arithmetic that is
/// deterministic, controllers that are alike stay alike under the same acknowledgement,
/// and so have the same window.
pub proof fn alike_controllers_stay_alike<R: Scalar>(
    a: Copa<R>,
    b: Copa<R>,
    now: Instant,
    latest: Duration,
    smoothed: Duration,
    a_rate: u64,
    b_rate: u64,
    a_after: Copa<R>,
    b_after: Copa<R>,
)
    requires
        is_deterministic::<R>(),
        alike(a, b),
        a.acknowledged(now, latest, smoothed, a_rate, a_after),
        b.acknowledged(now, latest, smoothed, b_rate, b_after),
    ensures
        a_rate == b_rate,
        alike(a_after, b_after),
        a_after.cwnd == b_after.cwnd,
{
    let (a_aimed, a_switched) = choose|aimed: Copa<R>, switched: Copa<R>|
        {
            &&& #[trigger] a.sampled(now, latest, smoothed, a_rate, aimed)
            &&& #[trigger] aimed.mode_updated(switched)
            &&& switched.velocity_updated().cwnd_updated(a_after)
        };
    let (b_aimed, b_switched) = choose|aimed: Copa<R>, switched: Copa<R>|
        {
            &&& #[trigger] b.sampled(now, latest, smoothed, b_rate, aimed)
            &&& #[trigger] aimed.mode_updated(switched)
            &&& switched.velocity_updated().cwnd_updated(b_after)
        };
    alike_when_aimed(a, b, now, latest, smoothed, a_rate, b_rate, a_aimed, b_aimed);
    alike_when_switched(a_aimed, b_aimed, a_switched, b_switched);
    assert(alike(a_switched.velocity_updated(), b_switched.velocity_updated()));
    alike_when_moved(
        a_switched.velocity_updated(),
        b_switched.velocity_updated(),
        a_after,
        b_after,
    );
}

/// What `positive` and `le` have to do with the arithmetic for the delay weight to stay
/// in its bounds: `le` is transitive, the smaller of two numbers is one of them and not
/// above either, one half is positive and not above itself, and of a positive weight of at
/// most one half both `weight / (1 + weight)` and `weight * 2` are positive, and the
/// former is not above the weight.
pub open spec fn orders_weights<R: Scalar>(
    positive: spec_fn(R) -> bool,
    le: spec_fn(R, R) -> bool,
) -> bool {
    &&& forall|a: R, b: R, c: R| #[trigger] le(a, b) && #[trigger] le(b, c) ==> le(a, c)
    &&& forall|a: R, b: R, out: R| #[trigger]
        call_ensures(R::least, (a, b), out) ==> (out == a || out == b) && le(out, a) && le(out, b)
    &&& forall|half: R| #[trigger] is_default_delta(half) ==> positive(half)
    &&& forall|half: R, other: R| #[trigger]
        is_default_delta(half) && #[trigger] is_default_delta(other) ==> le(half, other)
    &&& forall|weight: R, one: R, more: R, less: R|
        in_bounds(positive, le, weight) && call_ensures(R::from_u64, (1u64,), one)
            && #[trigger] call_ensures(R::plus, (one, weight), more) && #[trigger] call_ensures(
            R::over,
            (weight, more),
            less,
        ) ==> positive(less) && le(less, weight)
    &&& forall|weight: R, two: R, double: R|
        in_bounds(positive, le, weight) && call_ensures(R::from_u64, (2u64,), two)
            && #[trigger] call_ensures(R::times, (weight, two), double) ==> positive(double)
}

/// A delay weight that is positive and at most one half.
pub open spec fn in_bounds<R: Scalar>(
    positive: spec_fn(R) -> bool,
    le: spec_fn(R, R) -> bool,
    weight: R,
) -> bool {
    positive(weight) && forall|half: R| #[trigger] is_default_delta(half) ==> le(weight, half)
}

/// The weight at the start is positive and at most one half.
pub proof fn default_weight_is_in_bounds<R: Scalar>(
    positive: spec_fn(R) -> bool,
    le: spec_fn(R, R) -> bool,
    weight: R,
)
    requires
        orders_weights(positive, le),
        is_default_delta(weight),
    ensures
        in_bounds(positive, le, weight),
{
}

/// An update of the mode keeps the delay weight positive and at most one half. In
/// competition it does not raise the weight, and in default mode the weight is one half,
/// whatever it was.
pub proof fn update_keeps_weight_in_bounds<R: Scalar>(
    positive: spec_fn(R) -> bool,
    le: spec_fn(R, R) -> bool,
    copa: Copa<R>,
    after: Copa<R>,
)
    requires
        orders_weights(positive, le),
        in_bounds(positive, le, copa.delta),
        copa.mode_updated(after),
    ensures
        in_bounds(positive, le, after.delta),
        after.mode == CompetingMode::Competitive ==> le(after.delta, copa.delta),
        after.mode == CompetingMode::Default ==> is_default_delta(after.delta),
{
    if after.mode == CompetingMode::Competitive {
        assert(is_lighter(copa.delta, after.delta));
        let (one, more, less, half) = choose|one: R, more: R, less: R, half: R|
            #![auto]
            {
                &&& call_ensures(R::from_u64, (1u64,), one)
                &&& call_ensures(R::plus, (one, copa.delta), more)
                &&& call_ensures(R::over, (copa.delta, more), less)
                &&& is_fraction(1, 2, half)
                &&& call_ensures(R::least, (less, half), after.delta)
            };
        assert(is_default_delta(half));
    }
}

/// A loss keeps the delay weight positive and at most one half.
pub proof fn loss_keeps_weight_in_bounds<R: Scalar>(
    positive: spec_fn(R) -> bool,
    le: spec_fn(R, R) -> bool,
    copa: Copa<R>,
    after: Copa<R>,
)
    requires
        orders_weights(positive, le),
        in_bounds(positive, le, copa.delta),
        copa.congested(after),
    ensures
        in_bounds(positive, le, after.delta),
{
    if copa.mode == CompetingMode::Competitive {
        assert(is_heavier(copa.delta, after.delta));
        let (two, double, half) = choose|two: R, double: R, half: R|
            #![auto]
            {
                &&& call_ensures(R::from_u64, (2u64,), two)
                &&& call_ensures(R::times, (copa.delta, two), double)
                &&& is_fraction(1, 2, half)
                &&& call_ensures(R::least, (double, half), after.delta)
            };
        assert(is_default_delta(half));
    }
}

/// An acknowledgement as a whole keeps the delay weight positive and at most one half.
pub proof fn acks_keep_weight_in_bounds<R: Scalar>(
    positive: spec_fn(R) -> bool,
    le: spec_fn(R, R) -> bool,
    copa: Copa<R>,
    now: Instant,
    latest: Duration,
    smoothed: Duration,
    rate: u64,
    after: Copa<R>,
)
    requires
        orders_weights(positive, le),
        in_bounds(positive, le, copa.delta),
        copa.acknowledged(now, latest, smoothed, rate, after),
    ensures
        in_bounds(positive, le, after.delta),
{
    let (aimed, switched) = choose|aimed: Copa<R>, switched: Copa<R>|
        {
            &&& #[trigger] copa.sampled(now, latest, smoothed, rate, aimed)
            &&& #[trigger] aimed.mode_updated(switched)
            &&& switched.velocity_updated().cwnd_updated(after)
        };
    assert(aimed.delta == copa.delta);
    update_keeps_weight_in_bounds(positive, le, aimed, switched);
    assert(after.delta == switched.delta);
}

/// Every filter counts the newest sample, so the queueing delay is no longer than the
/// latest round trip.
pub proof fn newest_sample_counts<R: Scalar>(
    copa: Copa<R>,
    now: Instant,
    latest: Duration,
    smoothed: Duration,
    rate: u64,
    after: Copa<R>,
)
    requires
        copa.rtt_max@.len() == MAX_FILTER_SAMPLES,
        copa.rtt_min@.valid(),
        copa.acknowledged(now, latest, smoothed, rate, after),
    ensures
        after.min_rtt().nanos <= latest.nanos,
        after.standing_rtt().nanos <= latest.nanos,
        latest.nanos <= after.max_rtt().nanos,
        after.queueing_delay.nanos <= latest.nanos,
{
    let aimed = choose|aimed: Copa<R>|
        copa.sampled(now, latest, smoothed, rate, aimed) && after.rtt_max == aimed.rtt_max
            && after.rtt_min == aimed.rtt_min && after.rtt_standing == aimed.rtt_standing
            && after.queueing_delay == aimed.queueing_delay;
    let (two, window, seen, target) = choose|two: R, window: Duration, seen: Copa<R>, target: u64|
        {
            &&& #[trigger] call_ensures(R::from_u64, (2u64,), two)
            &&& #[trigger] call_ensures(R::shorten, (smoothed, two), window)
            &&& #[trigger] copa.observed(latest, now, window, seen)
            &&& #[trigger] seen.is_target(target)
            &&& aimed == seen.aimed(rate, target)
        };
    standing_minimum_covers_newest(copa.rtt_standing@, latest, now, window);
    slot_minimum_covers_newest(copa.rtt_min@, latest, now);
    longest_is_attained(seen.rtt_max@);
    assert(seen.rtt_max@[seen.rtt_max@.len() - 1] == latest);
}

/// The velocity is never zero.
pub proof fn velocity_stays_positive<R: Scalar>(
    copa: Copa<R>,
    now: Instant,
    latest: Duration,
    smoothed: Duration,
    rate: u64,
    after: Copa<R>,
)
    requires
        copa.velocity.velocity >= 1,
        copa.acknowledged(now, latest, smoothed, rate, after),
    ensures
        after.velocity.velocity >= 1,
{
}

/// A turn resets the velocity.
pub proof fn turning_resets_velocity(
    velocity: Velocity,
    increase_cwnd: bool,
    cwnd: u64,
    min_cwnd: u64,
)
    requires
        velocity.last_cwnd > 0,
        increase_cwnd != (velocity.direction == Direction::Up),
    ensures
        ({
            let next = next_velocity(velocity, increase_cwnd, cwnd, min_cwnd);
            &&& next.velocity == 1
            &&& next.same_direction_cnt == 0
            &&& next.direction != velocity.direction
        }),
{
}

/// After a turn, the third step that keeps the direction is the first that speeds up:
/// it doubles the velocity.
pub proof fn third_step_doubles_velocity(
    velocity: Velocity,
    increase_cwnd: bool,
    min_cwnd: u64,
    first: u64,
    second: u64,
    third: u64,
)
    requires
        velocity.last_cwnd > 0,
        first > 0,
        second > 0,
        velocity.same_direction_cnt == 0,
        velocity.velocity == 1,
        increase_cwnd == (velocity.direction == Direction::Up),
    ensures
        ({
            let one = next_velocity(velocity, increase_cwnd, first, min_cwnd);
            let two = next_velocity(one, increase_cwnd, second, min_cwnd);
            let three = next_velocity(two, increase_cwnd, third, min_cwnd);
            one.velocity == 1 && two.velocity == 1 && three.velocity == 2
        }),
{
}

/// The queueing delay is what the round-trip time exceeds the shortest one by: the standing
/// one, or the latest where the controller is so configured.
pub proof fn queueing_delay_is_above_the_minimum<R: Scalar>(
    copa: Copa<R>,
    now: Instant,
    latest: Duration,
    smoothed: Duration,
    rate: u64,
    after: Copa<R>,
)
    requires
        copa.rtt_min@.valid(),
        copa.acknowledged(now, latest, smoothed, rate, after),
    ensures
        !copa.config.use_standing_rtt ==> after.min_rtt().nanos + after.queueing_delay.nanos
            == latest.nanos,
        copa.config.use_standing_rtt && after.standing_rtt().nanos >= after.min_rtt().nanos
            ==> after.min_rtt().nanos + after.queueing_delay.nanos == after.standing_rtt().nanos,
        copa.config.use_standing_rtt && after.standing_rtt().nanos < after.min_rtt().nanos
            ==> after.queueing_delay.nanos == 0,
{
    slot_minimum_covers_newest(copa.rtt_min@, latest, now);
    assert(after.rtt_min@ == copa.rtt_min@.sample(latest, now));
}

/// The longest round-trip time is that of the last four acknowledgements.
pub proof fn maximum_is_that_of_four_acks<R: Scalar>(
    copa: Copa<R>,
    acks: Seq<(Instant, Duration, Duration)>,
    rates: Seq<u64>,
    states: Seq<Copa<R>>,
)
    requires
        copa.rtt_max@.len() == MAX_FILTER_SAMPLES,
        acks.len() == 4,
        rates.len() == 4,
        states.len() == 4,
        copa.acknowledged(acks[0].0, acks[0].1, acks[0].2, rates[0], states[0]),
        forall|i: int|
            0 < i < 4 ==> states[i - 1].acknowledged(
                (#[trigger] acks[i]).0,
                acks[i].1,
                acks[i].2,
                rates[i],
                states[i],
            ),
    ensures
        forall|i: int|
            0 <= i < 4 ==> (#[trigger] acks[i]).1.nanos <= states[3].max_rtt().nanos,
        exists|i: int| 0 <= i < 4 && (#[trigger] acks[i]).1 == states[3].max_rtt(),
{
    assert(states[0].rtt_max@ == copa.rtt_max@.drop_first().push(acks[0].1));
    assert(states[1].rtt_max@ == states[0].rtt_max@.drop_first().push(acks[1].1));
    assert(states[2].rtt_max@ == states[1].rtt_max@.drop_first().push(acks[2].1));
    assert(states[3].rtt_max@ == states[2].rtt_max@.drop_first().push(acks[3].1));
    let last = states[3].rtt_max@;
    assert(last =~= seq![acks[0].1, acks[1].1, acks[2].1, acks[3].1]);
    longest_is_attained(last);
    assert forall|i: int| 0 <= i < 4 implies (#[trigger] acks[i]).1 == last[i] by {}
    let k = choose|k: int| 0 <= k < last.len() && last[k] == states[3].max_rtt();
    assert(acks[k].1 == states[3].max_rtt());
}

/// The shortest round-trip time of a controller that is fed with acknowledgements is that
/// of the last ten seconds: it is not above any sample that is less than ten seconds old,
/// and it is one of those that are less than ten seconds and the length of a slot old.
pub proof fn minimum_is_that_of_recent_acks<R: Scalar>(
    copa: Copa<R>,
    from: Instant,
    feed: Seq<(Duration, Instant)>,
    now: Instant,
    latest: Duration,
    smoothed: Duration,
    rate: u64,
    after: Copa<R>,
)
    requires
        copa.rtt_min@ == fed(Slots::empty(from), feed),
        in_order(from, feed.push((latest, now))),
        latest.nanos <= MAX_SPAN_NANOS,
        forall|i: int| 0 <= i < feed.len() ==> (#[trigger] feed[i]).0.nanos <= MAX_SPAN_NANOS,
        copa.acknowledged(now, latest, smoothed, rate, after),
    ensures
        after.rtt_min@ == fed(Slots::empty(from), feed.push((latest, now))),
        forall|i: int|
            0 <= i < feed.len() && now.nanos < (#[trigger] feed[i]).1.nanos + 10_000_000_000
                ==> after.min_rtt().nanos <= feed[i].0.nanos,
        after.min_rtt() == latest || exists|i: int|
            0 <= i < feed.len() && after.min_rtt() == (#[trigger] feed[i]).0 && now.nanos
                < feed[i].1.nanos + 10_100_000_000,
{
    let all = feed.push((latest, now));
    assert(all.drop_last() =~= feed);
    assert(after.rtt_min@ == copa.rtt_min@.sample(latest, now));
    assert forall|i: int| 0 <= i < all.len() implies (#[trigger] all[i]).0.nanos
        <= MAX_SPAN_NANOS by {
        if i < feed.len() {
            assert(all[i] == feed[i]);
        }
    }
    minimum_is_that_of_ten_seconds(from, all);
    assert forall|i: int|
        0 <= i < feed.len() && now.nanos < (#[trigger] feed[i]).1.nanos
            + 10_000_000_000 implies after.min_rtt().nanos <= feed[i].0.nanos by {
        assert(all[i] == feed[i]);
    }
    let k = choose|k: int|
        0 <= k < all.len() && after.min_rtt() == (#[trigger] all[k]).0 && now.nanos
            < all[k].1.nanos + 10_100_000_000;
    if k < feed.len() {
        assert(all[k] == feed[k]);
    }
}

/// The standing round-trip time is that of half a smoothed round trip, up to `slack`
/// nanoseconds by which halving a span may be off: a sample that is more than `slack`
/// younger counts, one that is more than `slack` older does not, and the newest does.
pub proof fn standing_rtt_is_that_of_half_a_round_trip<R: Scalar>(
    copa: Copa<R>,
    now: Instant,
    latest: Duration,
    smoothed: Duration,
    rate: u64,
    after: Copa<R>,
    slack: nat,
    sample: RttTracker,
)
    requires
        forall|two: R, half: Duration|
            #[trigger] call_ensures(R::from_u64, (2u64,), two) && #[trigger] call_ensures(
                R::shorten,
                (smoothed, two),
                half,
            ) ==> smoothed.nanos - 2 * slack <= 2 * half.nanos <= smoothed.nanos + 2 * slack,
        copa.acknowledged(now, latest, smoothed, rate, after),
    ensures
        after.rtt_standing@.contains(RttTracker { rtt: latest, time: now }),
        copa.rtt_standing@.contains(sample) && 2 * (now.since(sample.time).nanos + slack)
            < smoothed.nanos ==> after.rtt_standing@.contains(sample),
        after.rtt_standing@.contains(sample) && sample != (RttTracker { rtt: latest, time: now })
            ==> copa.rtt_standing@.contains(sample) && 2 * now.since(sample.time).nanos
            < smoothed.nanos + 2 * slack,
        after.rtt_standing@.contains(sample) ==> after.standing_rtt().nanos <= sample.rtt.nanos,
        exists|kept: RttTracker|
            after.rtt_standing@.contains(kept) && #[trigger] kept.rtt == after.standing_rtt(),
{
    let aimed = choose|aimed: Copa<R>|
        #[trigger] copa.sampled(now, latest, smoothed, rate, aimed) && after.rtt_standing
            == aimed.rtt_standing;
    let (two, window, seen, target) = choose|two: R, window: Duration, seen: Copa<R>, target: u64|
        {
            &&& #[trigger] call_ensures(R::from_u64, (2u64,), two)
            &&& #[trigger] call_ensures(R::shorten, (smoothed, two), window)
            &&& #[trigger] copa.observed(latest, now, window, seen)
            &&& #[trigger] seen.is_target(target)
            &&& aimed == seen.aimed(rate, target)
        };
    let newest = RttTracker { rtt: latest, time: now };
    let kept = recent(copa.rtt_standing@, now, window);
    let all = after.rtt_standing@;
    assert(all == kept.push(newest));
    assert(all[kept.len() as int] == newest);
    standing_window_is_exact(copa.rtt_standing@, now, window, sample);
    if kept.contains(sample) {
        let k = choose|k: int| 0 <= k < kept.len() && kept[k] == sample;
        assert(all[k] == sample);
    }
    if all.contains(sample) && sample != newest {
        let k = choose|k: int| 0 <= k < all.len() && all[k] == sample;
        assert(kept[k] == sample);
    }
    shortest_is_attained(rtts(all));
    if all.contains(sample) {
        let k = choose|k: int| 0 <= k < all.len() && all[k] == sample;
        assert(rtts(all)[k] == sample.rtt);
    }
    let j = choose|j: int| 0 <= j < rtts(all).len() && rtts(all)[j] == after.standing_rtt();
    assert(all[j].rtt == after.standing_rtt() && all.contains(all[j]));
}

/// A step that keeps its direction counts one more. From the third one in a row each such
/// step doubles the velocity, and before it none changes it.
pub proof fn steady_steps_double_the_velocity<R: Scalar>(copa: Copa<R>)
    requires
        !(copa.slow_start && copa.increase_cwnd),
        copa.velocity.last_cwnd > 0,
        copa.increase_cwnd == (copa.velocity.direction == Direction::Up),
        copa.velocity.same_direction_cnt < u64::MAX,
    ensures
        ({
            let next = copa.velocity_updated().velocity;
            &&& next.direction == copa.velocity.direction
            &&& next.last_cwnd == copa.cwnd
            &&& next.same_direction_cnt == copa.velocity.same_direction_cnt + 1
            &&& copa.velocity.same_direction_cnt < 2 ==> next.velocity == copa.velocity.velocity
            &&& copa.velocity.same_direction_cnt >= 2 && 2 * copa.velocity.velocity <= u64::MAX
                ==> next.velocity == 2 * copa.velocity.velocity
            &&& copa.velocity.same_direction_cnt >= 2 && 2 * copa.velocity.velocity > u64::MAX
                ==> next.velocity == u64::MAX
        }),
{
}

/// The first step and every turn begin again at a velocity of one, with nothing counted.
/// The first step counts as one down; a turn takes the new direction.
pub proof fn turns_begin_again<R: Scalar>(copa: Copa<R>)
    requires
        !(copa.slow_start && copa.increase_cwnd),
        copa.velocity.last_cwnd == 0 || copa.increase_cwnd != (copa.velocity.direction
            == Direction::Up),
    ensures
        ({
            let next = copa.velocity_updated().velocity;
            &&& next.velocity == 1
            &&& next.same_direction_cnt == 0
            &&& copa.velocity.last_cwnd == 0 ==> {
                &&& next.direction == Direction::Down
                &&& next.last_cwnd >= copa.cwnd && next.last_cwnd >= copa.config.min_cwnd
                &&& next.last_cwnd == copa.cwnd || next.last_cwnd == copa.config.min_cwnd
            }
            &&& copa.velocity.last_cwnd > 0 ==> {
                &&& (next.direction == Direction::Up) == copa.increase_cwnd
                &&& next.last_cwnd == copa.cwnd
            }
        }),
{
}

/// A window that a step down uses up comes back to its minimum and to a velocity of one.
pub proof fn exhausted_window_begins_again<R: Scalar>(copa: Copa<R>, step: u64)
    requires
        !copa.increase_cwnd,
    ensures
        step >= copa.cwnd ==> copa.moved(step).cwnd == copa.config.min_cwnd && copa.moved(
            step,
        ).velocity.velocity == 1,
        step < copa.cwnd ==> copa.moved(step).velocity == copa.velocity,
        step < copa.cwnd && copa.cwnd - step >= copa.config.min_cwnd ==> copa.moved(step).cwnd
            + step == copa.cwnd,
        step < copa.cwnd && copa.cwnd - step < copa.config.min_cwnd ==> copa.moved(step).cwnd
            == copa.config.min_cwnd,
        copa.moved(step) == (Copa {
            cwnd: copa.moved(step).cwnd,
            velocity: copa.moved(step).velocity,
            ..copa
        }),
{
}

/// An acknowledgement after slow start takes one step of the velocity. It counts one more
/// where the direction stays, doubles the velocity from the third such step in a row, and
/// begins again at one where the direction turns, at the first step, and where the window
/// is used up.
pub proof fn ack_keeps_up_the_velocity<R: Scalar>(
    copa: Copa<R>,
    now: Instant,
    latest: Duration,
    smoothed: Duration,
    rate: u64,
    after: Copa<R>,
)
    requires
        copa.acknowledged(now, latest, smoothed, rate, after),
        !after.slow_start,
        copa.velocity.same_direction_cnt < u64::MAX,
        2 * copa.velocity.velocity <= u64::MAX,
    ensures
        ({
            let (v, next) = (copa.velocity, after.velocity);
            let steady = v.last_cwnd > 0 && after.increase_cwnd == (v.direction == Direction::Up);
            let moved = after.increase_cwnd && copa.cwnd > 0 || after.cwnd > copa.config.min_cwnd;
            &&& steady ==> {
                &&& next.direction == v.direction
                &&& next.same_direction_cnt == v.same_direction_cnt + 1
                &&& next.last_cwnd == copa.cwnd
                &&& moved && v.same_direction_cnt < 2 ==> next.velocity == v.velocity
                &&& moved && v.same_direction_cnt >= 2 ==> next.velocity == 2 * v.velocity
                &&& !moved ==> next.velocity == 1 || next.velocity == v.velocity || next.velocity
                    == 2 * v.velocity
            }
            &&& !steady ==> next.velocity == 1 && next.same_direction_cnt == 0
            &&& !steady && v.last_cwnd > 0 ==> next.last_cwnd == copa.cwnd && (next.direction
                == Direction::Up) == after.increase_cwnd
            &&& v.last_cwnd == 0 ==> next.direction == Direction::Down
        }),
{
    let (aimed, switched) = choose|aimed: Copa<R>, switched: Copa<R>|
        {
            &&& #[trigger] copa.sampled(now, latest, smoothed, rate, aimed)
            &&& #[trigger] aimed.mode_updated(switched)
            &&& switched.velocity_updated().cwnd_updated(after)
        };
    assert(switched.velocity == copa.velocity && switched.cwnd == copa.cwnd);
}

/// What the controller leaves of an acknowledgement is what the laws on acknowledgements
/// speak of.
pub proof fn on_ack_acknowledges<R: Scalar>(
    copa: &mut Copa<R>,
    now: Instant,
    latest: Duration,
    smoothed: Duration,
    rate: u64,
)
    requires
        call_ensures(Copa::<R>::on_ack, (copa, now, latest, smoothed), rate),
    ensures
        old(copa).acknowledged(now, latest, smoothed, rate, *final(copa)),
{
}

/// What an update of the mode leaves is what the laws on it speak of.
pub proof fn update_mode_updates_the_mode<R: Scalar>(copa: &mut Copa<R>)
    requires
        call_ensures(Copa::<R>::update_mode, (copa,), ()),
    ensures
        old(copa).mode_updated(*final(copa)),
{
}

/// What a step of the velocity leaves is what the laws on it speak of.
pub proof fn update_velocity_updates_the_velocity<R: Scalar>(copa: &mut Copa<R>)
    requires
        call_ensures(Copa::<R>::update_velocity, (copa,), ()),
    ensures
        *final(copa) == old(copa).velocity_updated(),
{
}

/// What a move of the window leaves is what the laws on it speak of.
pub proof fn update_cwnd_updates_the_window<R: Scalar>(copa: &mut Copa<R>)
    requires
        call_ensures(Copa::<R>::update_cwnd, (copa,), ()),
    ensures
        old(copa).cwnd_updated(*final(copa)),
{
}

/// What a loss leaves is what the laws on losses speak of, whatever was lost and when.
pub proof fn on_congestion_event_congests<R: Scalar>(
    copa: &mut Copa<R>,
    now: Instant,
    sent: Instant,
    persistent: bool,
    lost_bytes: u64,
)
    requires
        call_ensures(
            Copa::<R>::on_congestion_event,
            (copa, now, sent, persistent, lost_bytes),
            (),
        ),
    ensures
        old(copa).congested(*final(copa)),
{
}

/// Sending notes the last packet, and nothing else.
pub proof fn sending_notes_the_packet<R: Scalar>(
    copa: &mut Copa<R>,
    now: Instant,
    bytes: u64,
    last_packet_number: u64,
)
    requires
        call_ensures(Copa::<R>::on_sent, (copa, now, bytes, last_packet_number), ()),
    ensures
        final(copa).last_sent_pkt_num == last_packet_number,
        *final(copa) == (Copa {
            last_sent_pkt_num: final(copa).last_sent_pkt_num,
            ..*old(copa)
        }),
{
}

/// A change of the datagram size changes nothing.
pub proof fn resizing_changes_nothing<R: Scalar>(copa: &mut Copa<R>, new_mtu: u16)
    requires
        call_ensures(Copa::<R>::on_mtu_update, (copa, new_mtu), ()),
    ensures
        *final(copa) == *old(copa),
{
}

} // verus!
