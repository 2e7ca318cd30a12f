//! What the Sprout controller computes, read as real numbers.
//!
//! The laws hold on every arithmetic that is faithful to the real numbers. Where a law
//! calls for numbers that are held, floating point meets it on those that it does not round.
use std::sync::Arc;
use vstd::prelude::*;

use crate::scalar::{fraction_is_the_quotient, is_faithful, is_whole_part, Scalar};
use crate::sprout::{
    is_gap, is_multiple, is_smoothed, target_tick, tick_at, ticks_are_exact, Sprout, SproutConfig,
};
use crate::time::Instant;

verus! {

/// The two parts of the mean of `estimate` and `count` and all that they are computed from
/// are held, and so is the mean.
pub open spec fn holds_mean(
    held: spec_fn(real) -> bool,
    alpha: real,
    estimate: real,
    count: u64,
) -> bool {
    &&& held(1 as real)
    &&& held(alpha)
    &&& held(1 as real - alpha)
    &&& held(estimate)
    &&& held((1 as real - alpha) * estimate)
    &&& held(count as real)
    &&& held(alpha * count as real)
    &&& held(estimate + alpha * (count as real - estimate))
}

/// The estimate moves towards what the tick delivered, by the share `alpha` of what the
/// two differ by. For a share between none and all of it, the new estimate lies between
/// the two.
pub proof fn estimate_moves_by_its_share<R: Scalar>(
    value: spec_fn(R) -> real,
    held: spec_fn(real) -> bool,
    sprout: Sprout<R>,
    after: Sprout<R>,
)
    requires
        is_faithful(value, held),
        holds_mean(
            held,
            value(sprout.config.alpha),
            value(sprout.ewma_rate_estimate),
            sprout.count_this_tick,
        ),
        sprout.measured(after),
    ensures
        ({
            let alpha = value(sprout.config.alpha);
            let estimate = value(sprout.ewma_rate_estimate);
            let count = sprout.count_this_tick as real;
            let next = value(after.ewma_rate_estimate);
            &&& next - estimate == alpha * (count - estimate)
            &&& (0 as real) < alpha && alpha < 1 as real && count < estimate ==> count < next
                && next < estimate
            &&& (0 as real) < alpha && alpha < 1 as real && estimate < count ==> estimate < next
                && next < count
            &&& count == estimate ==> next == estimate
        }),
{
    let alpha = value(sprout.config.alpha);
    let estimate = value(sprout.ewma_rate_estimate);
    let count = sprout.count_this_tick as real;
    let next = value(after.ewma_rate_estimate);
    assert(is_smoothed(
        sprout.config.alpha,
        sprout.ewma_rate_estimate,
        sprout.count_this_tick,
        after.ewma_rate_estimate,
    ));
    let mean = estimate + alpha * (count - estimate);
    assert((1 as real - alpha) * estimate + alpha * count == mean) by (nonlinear_arith)
        requires
            mean == estimate + alpha * (count - estimate),
    ;
    assert(next == mean);
    assert((0 as real) < alpha && alpha < 1 as real && count < estimate ==> count < mean && mean
        < estimate) by (nonlinear_arith)
        requires
            mean == estimate + alpha * (count - estimate),
    ;
    assert((0 as real) < alpha && alpha < 1 as real && estimate < count ==> estimate < mean && mean
        < count) by (nonlinear_arith)
        requires
            mean == estimate + alpha * (count - estimate),
    ;
    assert(count == estimate ==> mean == estimate) by (nonlinear_arith)
        requires
            mean == estimate + alpha * (count - estimate),
    ;
}

/// Ticks deliver alike: by the end of the tick at `i`, the forecast is `i + 1` times the
/// estimate.
pub proof fn forecast_is_steady<R: Scalar>(
    value: spec_fn(R) -> real,
    held: spec_fn(real) -> bool,
    sprout: Sprout<R>,
    after: Sprout<R>,
    i: int,
)
    requires
        is_faithful(value, held),
        0 <= i < 16,
        held(value(after.ewma_rate_estimate)),
        held((i + 1) as real),
        held(value(after.ewma_rate_estimate) * (i + 1) as real),
        sprout.measured(after),
    ensures
        value(after.counts@[i]) == value(after.ewma_rate_estimate) * (i + 1) as real,
        after.count_this_tick == 0,
{
    assert(is_multiple(after.ewma_rate_estimate, (i + 1) as u64, after.counts@[i]));
    assert(((i + 1) as u64) as real == (i + 1) as real);
}

/// `tick` is the tick of twenty milliseconds that `at` lies in, counted from `from`; the
/// ticks end with the sixteenth.
pub open spec fn is_tick(from: Instant, at: Instant, tick: int) -> bool {
    &&& 0 <= tick <= 15
    &&& tick > 0 ==> from.nanos + tick * 20_000_000 <= at.nanos
    &&& tick < 15 ==> at.nanos < from.nanos + (tick + 1) * 20_000_000
}

/// How many ticks the window looks ahead from `tick`: six, or those that are left.
pub open spec fn ticks_ahead(tick: int) -> int {
    if tick <= 9 {
        6
    } else {
        15 - tick
    }
}

proof fn tick_is_where_it_lies(from: Instant, at: Instant, tick: int)
    requires
        is_tick(from, at, tick),
        at.since(from).nanos / 1_000_000 <= usize::MAX,
    ensures
        tick_at(from, at) == tick,
        target_tick(tick) == tick + ticks_ahead(tick),
{
    let nanos = at.since(from).nanos as int;
    let millis = nanos / 1_000_000;
    assert(0 <= millis <= usize::MAX);
    assert((at.since(from).nanos / 1_000_000) as usize == millis);
    assert(millis / 20 == nanos / 20_000_000);
}

/// When a tick with deliveries has ended, the window is what the new estimate delivers in
/// the ticks ahead, in whole bytes, and never less than the initial one.
pub proof fn window_is_what_the_ticks_ahead_deliver<R: Scalar>(
    value: spec_fn(R) -> real,
    held: spec_fn(real) -> bool,
    sprout: Sprout<R>,
    now: Instant,
    bytes: u64,
    read_at: Instant,
    restart_at: Instant,
    after: Sprout<R>,
    tick: int,
)
    requires
        is_faithful(value, held),
        sprout.can_advance(now),
        sprout.last_tick.nanos + sprout.config.tick_interval.nanos < now.nanos,
        sprout.count_this_tick > 0,
        sprout.acknowledged(now, bytes, read_at, restart_at, after),
        is_tick(sprout.last_forecast, read_at, tick),
        read_at.since(sprout.last_forecast).nanos / 1_000_000 <= usize::MAX,
        holds_mean(
            held,
            value(sprout.config.alpha),
            value(sprout.ewma_rate_estimate),
            sprout.count_this_tick,
        ),
        held(value(after.ewma_rate_estimate)),
        held((tick + 1) as real),
        held((tick + ticks_ahead(tick) + 1) as real),
        held(value(after.ewma_rate_estimate) * (tick + 1) as real),
        held(value(after.ewma_rate_estimate) * (tick + ticks_ahead(tick) + 1) as real),
        held(value(after.ewma_rate_estimate) * ticks_ahead(tick) as real),
    ensures
        value(after.ewma_rate_estimate) - value(sprout.ewma_rate_estimate) == value(
            sprout.config.alpha,
        ) * (sprout.count_this_tick as real - value(sprout.ewma_rate_estimate)),
        after.last_forecast == restart_at,
        after.cwnd >= sprout.initial_cwnd,
        after.cwnd < u64::MAX ==> (value(after.ewma_rate_estimate) * ticks_ahead(tick) as real)
            < after.cwnd as real + 1 as real,
        after.cwnd > sprout.initial_cwnd ==> after.cwnd as real <= value(after.ewma_rate_estimate)
            * ticks_ahead(tick) as real,
{
    ticks_are_exact(sprout, now, 0);
    assert(0 * sprout.config.tick_interval.nanos == 0);
    let advanced = choose|advanced: Sprout<R>|
        {
            &&& #[trigger] sprout.advanced(now, read_at, restart_at, advanced)
            &&& after == (Sprout {
                count_this_tick: (advanced.count_this_tick + bytes) as u64,
                ..advanced
            })
        };
    let (measured, forecast) = choose|measured: Sprout<R>, forecast: Sprout<R>|
        {
            &&& #[trigger] sprout.measured(measured)
            &&& #[trigger] measured.forecasted(read_at, restart_at, forecast)
            &&& advanced == (Sprout { last_tick: advanced.last_tick, ..forecast })
        };
    estimate_moves_by_its_share(value, held, sprout, measured);
    tick_is_where_it_lies(sprout.last_forecast, read_at, tick);
    let far = tick + ticks_ahead(tick);
    forecast_is_steady(value, held, sprout, measured, tick);
    forecast_is_steady(value, held, sprout, measured, far);
    let estimate = value(measured.ewma_rate_estimate);
    let due = choose|due: u64|
        {
            &&& #[trigger] is_gap(measured.counts@[far], measured.counts@[tick], due)
            &&& forecast == (Sprout {
                last_forecast: restart_at,
                cwnd: measured.window_for(due),
                ..measured
            })
        };
    let gap = estimate * ticks_ahead(tick) as real;
    assert(estimate * (far + 1) as real - estimate * (tick + 1) as real == gap)
        by (nonlinear_arith)
        requires
            gap == estimate * ticks_ahead(tick) as real,
            far == tick + ticks_ahead(tick),
    ;
    assert(is_whole_part(gap, due));
}

/// A controller as it is made has the configured window, expects nothing and has counted
/// nothing.
pub proof fn fresh_controller_expects_nothing<R: Scalar>(
    value: spec_fn(R) -> real,
    held: spec_fn(real) -> bool,
    config: Arc<SproutConfig<R>>,
    now: Instant,
    current_mtu: u16,
    sprout: Sprout<R>,
)
    requires
        is_faithful(value, held),
        held(0 as real),
        call_ensures(Sprout::<R>::new, (config, now, current_mtu), sprout),
    ensures
        sprout.config == config,
        sprout.cwnd == config.initial_cwnd,
        sprout.initial_cwnd == config.initial_cwnd,
        sprout.count_this_tick == 0,
        sprout.last_tick == now,
        sprout.last_forecast == now,
        value(sprout.ewma_rate_estimate) == 0 as real,
        forall|i: int| 0 <= i < 16 ==> value(#[trigger] sprout.counts@[i]) == 0 as real,
{
}

/// Unless configured otherwise, a tick of twenty milliseconds moves the estimate by an
/// eighth, and the window starts with four datagrams.
pub proof fn default_share_is_an_eighth<R: Scalar>(
    value: spec_fn(R) -> real,
    held: spec_fn(real) -> bool,
    config: SproutConfig<R>,
)
    requires
        is_faithful(value, held),
        held(1 as real),
        held(8 as real),
        held(1 as real / 8 as real),
        call_ensures(<SproutConfig<R> as Default>::default, (), config),
    ensures
        value(config.alpha) * 8 as real == 1 as real,
        config.tick_interval.nanos == 20_000_000,
        config.initial_cwnd == 4800,
{
    fraction_is_the_quotient(value, held, 1, 8, config.alpha);
}

/// Pacing goes by the congestion window, and the initial window is the configured one.
pub proof fn pacing_goes_by_the_window<R: Scalar>(
    sprout: Sprout<R>,
    paced: u64,
    window: u64,
    initial: u64,
)
    requires
        call_ensures(Sprout::<R>::pacing_window, (&sprout,), paced),
        call_ensures(Sprout::<R>::window, (&sprout,), window),
        call_ensures(Sprout::<R>::initial_window, (&sprout,), initial),
    ensures
        window == sprout.cwnd,
        paced == window,
        initial == sprout.config.initial_cwnd,
{
}

} // verus!
