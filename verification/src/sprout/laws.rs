//! What the Sprout controller promises over all its inputs.
use vstd::prelude::*;

use crate::scalar::Scalar;
use crate::sprout::{
    target_tick, tick_at, ticks_are_exact, Sprout, NUM_TICKS, TARGET_DELAY_TICKS,
};
use crate::time::Instant;

verus! {

/// The window never falls below the initial one.
pub proof fn window_stays_open<R: Scalar>(
    sprout: Sprout<R>,
    now: Instant,
    bytes: u64,
    read_at: Instant,
    restart_at: Instant,
    after: Sprout<R>,
)
    requires
        sprout.cwnd >= sprout.initial_cwnd,
        sprout.acknowledged(now, bytes, read_at, restart_at, after),
    ensures
        after.cwnd >= after.initial_cwnd,
        after.initial_cwnd == sprout.initial_cwnd,
        after.config == sprout.config,
{
}

/// An acknowledgement leaves the window alone while no tick with deliveries has ended.
pub proof fn window_changes_with_ticks_only<R: Scalar>(
    sprout: Sprout<R>,
    now: Instant,
    bytes: u64,
    read_at: Instant,
    restart_at: Instant,
    after: Sprout<R>,
)
    requires
        sprout.acknowledged(now, bytes, read_at, restart_at, after),
        sprout.ticks(now) == 0 || sprout.count_this_tick == 0,
    ensures
        after.cwnd == sprout.cwnd,
        after.ewma_rate_estimate == sprout.ewma_rate_estimate,
        after.last_forecast == sprout.last_forecast,
{
}

/// Every delivered byte is counted in exactly one tick: a count starts anew when a tick
/// has ended and adds up until then.
pub proof fn bytes_are_counted_once<R: Scalar>(
    sprout: Sprout<R>,
    now: Instant,
    bytes: u64,
    read_at: Instant,
    restart_at: Instant,
    after: Sprout<R>,
)
    requires
        sprout.can_advance(now),
        sprout.counted(now) + bytes <= u64::MAX,
        sprout.acknowledged(now, bytes, read_at, restart_at, after),
    ensures
        after.count_this_tick == sprout.counted(now) + bytes,
{
}

/// After an advance the clock has been caught up with: the current tick began before
/// `now`, unless no tick has ended, and ends at `now` or later.
pub proof fn advance_catches_up<R: Scalar>(
    sprout: Sprout<R>,
    now: Instant,
    read_at: Instant,
    restart_at: Instant,
    after: Sprout<R>,
)
    requires
        sprout.can_advance(now),
        sprout.advanced(now, read_at, restart_at, after),
    ensures
        sprout.ticks(now) >= 0,
        after.last_tick.nanos >= sprout.last_tick.nanos,
        sprout.ticks(now) > 0 ==> after.last_tick.nanos < now.nanos,
        now.nanos <= after.last_tick.nanos + after.config.tick_interval.nanos,
        after.config == sprout.config,
{
    let step = sprout.config.tick_interval.nanos as int;
    let k = sprout.ticks(now);
    if now.nanos > sprout.last_tick.nanos {
        let span = now.nanos - sprout.last_tick.nanos - 1;
        vstd::arithmetic::div_mod::lemma_fundamental_div_mod(span, step);
        assert(k >= 0 && k * step <= span && span < k * step + step) by (nonlinear_arith)
            requires
                span == step * k + span % step,
                0 <= span % step < step,
                span >= 0,
                step > 0,
        ;
    } else {
        assert(k * step == 0) by (nonlinear_arith)
            requires
                k == 0,
        ;
    }
}

/// Advancing again to the same time changes nothing.
pub proof fn advance_is_idempotent<R: Scalar>(
    sprout: Sprout<R>,
    now: Instant,
    first: (Instant, Instant),
    second: (Instant, Instant),
    once: Sprout<R>,
    twice: Sprout<R>,
)
    requires
        sprout.can_advance(now),
        sprout.advanced(now, first.0, first.1, once),
        once.advanced(now, second.0, second.1, twice),
    ensures
        twice == once,
{
    advance_catches_up(sprout, now, first.0, first.1, once);
    let step = once.config.tick_interval.nanos as int;
    if now.nanos > once.last_tick.nanos {
        let span = now.nanos - once.last_tick.nanos - 1;
        vstd::arithmetic::div_mod::lemma_basic_div(span, step);
    }
    assert(once.ticks(now) == 0);
    assert(0 * step == 0);
    assert(once.tick_start(now) == once.last_tick.nanos);
}

/// A forecast looks at two of its ticks, the later one at most the target delay ahead.
pub proof fn forecast_stays_in_range(from: Instant, at: Instant)
    ensures
        ({
            let tick = tick_at(from, at);
            &&& 0 <= tick < NUM_TICKS
            &&& tick <= target_tick(tick) < NUM_TICKS
            &&& target_tick(tick) <= tick + TARGET_DELAY_TICKS
        }),
{
}

/// Deliveries count for the tick that they fall into: where the current tick has ended
/// before `now`, the count begins anew, and otherwise it goes on.
pub proof fn count_begins_anew_with_a_tick<R: Scalar>(
    sprout: Sprout<R>,
    now: Instant,
    bytes: u64,
    read_at: Instant,
    restart_at: Instant,
    after: Sprout<R>,
)
    requires
        sprout.can_advance(now),
        sprout.count_this_tick + bytes <= u64::MAX,
        sprout.acknowledged(now, bytes, read_at, restart_at, after),
    ensures
        sprout.last_tick.nanos + sprout.config.tick_interval.nanos < now.nanos
            ==> after.count_this_tick == bytes,
        sprout.last_tick.nanos + sprout.config.tick_interval.nanos >= now.nanos ==> {
            &&& after.count_this_tick == sprout.count_this_tick + bytes
            &&& after == (Sprout { count_this_tick: after.count_this_tick, ..sprout })
        },
{
    ticks_are_exact(sprout, now, 0);
    assert(0 * sprout.config.tick_interval.nanos == 0);
}

/// Ticks keep their beat: from the start of one that is current to the start of a later
/// one there are whole ticks.
pub proof fn ticks_keep_their_beat<R: Scalar>(
    sprout: Sprout<R>,
    now: Instant,
    read_at: Instant,
    restart_at: Instant,
    after: Sprout<R>,
)
    requires
        sprout.can_advance(now),
        sprout.config.tick_interval.nanos > 0,
        sprout.advanced(now, read_at, restart_at, after),
    ensures
        (after.last_tick.nanos - sprout.last_tick.nanos) % (
        sprout.config.tick_interval.nanos as int) == 0,
{
    let step = sprout.config.tick_interval.nanos as int;
    advance_catches_up(sprout, now, read_at, restart_at, after);
    let k = sprout.ticks(now);
    vstd::arithmetic::div_mod::lemma_mod_multiples_basic(k, step);
    assert(0 <= k * step) by (nonlinear_arith)
        requires
            k >= 0,
            step > 0,
    ;
    assert(after.last_tick.nanos == sprout.tick_start(now));
}

/// Time can move on to every point from which a tick does not lead beyond the clock.
pub proof fn any_clock_within_range_can_be_reached<R: Scalar>(sprout: Sprout<R>, now: Instant)
    requires
        sprout.config.tick_interval.nanos > 0,
        sprout.last_tick.nanos + sprout.config.tick_interval.nanos <= u128::MAX,
        now.nanos + sprout.config.tick_interval.nanos <= u128::MAX,
    ensures
        sprout.can_advance(now),
{
    let step = sprout.config.tick_interval.nanos as int;
    let k = sprout.ticks(now);
    if now.nanos > sprout.last_tick.nanos {
        let span = now.nanos - sprout.last_tick.nanos - 1;
        vstd::arithmetic::div_mod::lemma_fundamental_div_mod(span, step);
        assert(k * step <= span) by (nonlinear_arith)
            requires
                span == step * k + span % step,
                0 <= span % step,
        ;
    } else {
        assert(k * step == 0) by (nonlinear_arith)
            requires
                k == 0,
        ;
    }
}

/// What the controller leaves of an acknowledgement is what the laws on acknowledgements
/// speak of.
pub proof fn on_ack_acknowledges<R: Scalar>(
    sprout: &mut Sprout<R>,
    now: Instant,
    bytes: u64,
    read_at: Instant,
    restart_at: Instant,
)
    requires
        call_ensures(Sprout::<R>::on_ack, (sprout, now, bytes, read_at, restart_at), ()),
    ensures
        old(sprout).acknowledged(now, bytes, read_at, restart_at, *final(sprout)),
{
}

/// What an advance leaves is what the laws on advances speak of.
pub proof fn advance_to_advances<R: Scalar>(
    sprout: &mut Sprout<R>,
    now: Instant,
    read_at: Instant,
    restart_at: Instant,
)
    requires
        call_ensures(Sprout::<R>::advance_to, (sprout, now, read_at, restart_at), ()),
    ensures
        old(sprout).advanced(now, read_at, restart_at, *final(sprout)),
{
}

/// What a measurement leaves is what the laws on measurements speak of.
pub proof fn measure_measures<R: Scalar>(sprout: &mut Sprout<R>)
    requires
        call_ensures(Sprout::<R>::measure, (sprout,), ()),
    ensures
        old(sprout).measured(*final(sprout)),
{
}

/// What a forecast leaves is what the laws on forecasts speak of.
pub proof fn forecast_forecasts<R: Scalar>(
    sprout: &mut Sprout<R>,
    read_at: Instant,
    restart_at: Instant,
)
    requires
        call_ensures(Sprout::<R>::forecast, (sprout, read_at, restart_at), ()),
    ensures
        old(sprout).forecasted(read_at, restart_at, *final(sprout)),
{
}

/// Receiving adds to the count of the tick, and changes nothing else.
pub proof fn receiving_adds_to_the_count<R: Scalar>(sprout: &mut Sprout<R>, bytes: u64)
    requires
        old(sprout).count_this_tick + bytes <= u64::MAX,
        call_ensures(Sprout::<R>::recv, (sprout, bytes), ()),
    ensures
        final(sprout).count_this_tick == old(sprout).count_this_tick + bytes,
        *final(sprout) == (Sprout {
            count_this_tick: final(sprout).count_this_tick,
            ..*old(sprout)
        }),
{
}

/// Neither sending nor a loss changes anything.
pub proof fn only_deliveries_count<R: Scalar>(
    sending: &mut Sprout<R>,
    losing: &mut Sprout<R>,
    now: Instant,
    sent: Instant,
    bytes: u64,
    last_packet_number: u64,
    persistent: bool,
)
    requires
        call_ensures(Sprout::<R>::on_sent, (sending, now, bytes, last_packet_number), ()),
        call_ensures(
            Sprout::<R>::on_congestion_event,
            (losing, now, sent, persistent, bytes),
            (),
        ),
    ensures
        *final(sending) == *old(sending),
        *final(losing) == *old(losing),
{
}

} // verus!
