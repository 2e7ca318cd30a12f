//! The Sprout congestion controller: a window forecast from the rate of delivery.
use std::sync::Arc;
use vstd::prelude::*;

use crate::scalar::{fraction, is_fraction, Scalar};
use crate::time::{Duration, Instant, NANOS_PER_MILLI};
use crate::BASE_DATAGRAM_SIZE;

pub mod exact_laws;
pub mod laws;

verus! {

/// How many ticks a forecast covers.
pub const NUM_TICKS: usize = 16;

/// How many ticks the window looks ahead.
pub const TARGET_DELAY_TICKS: usize = 6;

/// The length of a tick of the forecast.
pub const FORECAST_TICK_MILLIS: usize = 20;

/// Configuration of a [`Sprout`] controller.
#[derive(Debug, Clone)]
pub struct SproutConfig<R> {
    /// The window, in bytes, at the start; it never gets smaller.
    pub initial_cwnd: u64,
    /// How often the rate is estimated.
    pub tick_interval: Duration,
    /// The weight of the newest tick in the estimate.
    pub alpha: R,
}

impl<R: Scalar> Default for SproutConfig<R> {
    fn default() -> (config: Self)
        ensures
            config.initial_cwnd == 4800,
            config.tick_interval == (Duration { nanos: 20_000_000 }),
            is_fraction(1, 8, config.alpha),
    {
        SproutConfig {
            initial_cwnd: 4 * BASE_DATAGRAM_SIZE,
            tick_interval: Duration::from_millis(20),
            alpha: fraction(1, 8),
        }
    }
}

/// The Sprout congestion controller.
#[derive(Debug, Clone)]
pub struct Sprout<R> {
    /// The congestion window in bytes.
    pub cwnd: u64,
    /// The window in bytes at the start.
    pub initial_cwnd: u64,
    /// The bytes delivered in the current tick.
    pub count_this_tick: u64,
    /// When the current tick began.
    pub last_tick: Instant,
    /// The estimated bytes per tick.
    pub ewma_rate_estimate: R,
    /// The bytes forecast to be delivered by the end of each tick.
    pub counts: [R; 16],
    /// When the last forecast was made.
    pub last_forecast: Instant,
    /// The configuration.
    pub config: Arc<SproutConfig<R>>,
}

/// `out` is `(1 - alpha) * estimate + alpha * count`.
pub open spec fn is_smoothed<R: Scalar>(alpha: R, estimate: R, count: u64, out: R) -> bool {
    exists|one: R, rest: R, kept: R, newest: R, added: R|
        #![auto]
        {
            &&& call_ensures(R::from_u64, (1u64,), one)
            &&& call_ensures(R::minus, (one, alpha), rest)
            &&& call_ensures(R::times, (rest, estimate), kept)
            &&& call_ensures(R::from_u64, (count,), newest)
            &&& call_ensures(R::times, (alpha, newest), added)
            &&& call_ensures(R::plus, (kept, added), out)
        }
}

/// The estimate `(1 - alpha) * estimate + alpha * count`.
fn smoothed<R: Scalar>(alpha: R, estimate: R, count: u64) -> (out: R)
    ensures
        is_smoothed(alpha, estimate, count, out),
{
    let one = R::from_u64(1);
    let rest = one.minus(alpha);
    let kept = rest.times(estimate);
    let newest = R::from_u64(count);
    let added = alpha.times(newest);
    kept.plus(added)
}

/// `out` is `n` times `estimate`.
pub open spec fn is_multiple<R: Scalar>(estimate: R, n: u64, out: R) -> bool {
    exists|factor: R|
        #![auto]
        {
            &&& call_ensures(R::from_u64, (n,), factor)
            &&& call_ensures(R::times, (estimate, factor), out)
        }
}

/// `n` times `estimate`.
fn multiple<R: Scalar>(estimate: R, n: u64) -> (out: R)
    ensures
        is_multiple(estimate, n, out),
{
    let factor = R::from_u64(n);
    estimate.times(factor)
}

/// `out` is `high - low`, in whole bytes.
pub open spec fn is_gap<R: Scalar>(high: R, low: R, out: u64) -> bool {
    exists|gap: R|
        #![auto]
        {
            &&& call_ensures(R::minus, (high, low), gap)
            &&& call_ensures(R::to_u64, (gap,), out)
        }
}

/// The difference `high - low`, in whole bytes.
fn gap<R: Scalar>(high: R, low: R) -> (out: u64)
    ensures
        is_gap(high, low, out),
{
    high.minus(low).to_u64()
}

/// The tick of a forecast made at `from` that `at` lies in, the last one where `at` lies
/// beyond them all.
pub open spec fn tick_at(from: Instant, at: Instant) -> int {
    let tick = (at.since(from).nanos / NANOS_PER_MILLI) as usize / FORECAST_TICK_MILLIS;
    if tick < NUM_TICKS - 1 {
        tick as int
    } else {
        NUM_TICKS - 1
    }
}

/// The tick up to which the window looks ahead from `tick`.
pub open spec fn target_tick(tick: int) -> int {
    if tick + TARGET_DELAY_TICKS >= NUM_TICKS {
        NUM_TICKS - 1
    } else {
        tick + TARGET_DELAY_TICKS
    }
}

impl<R: Scalar> Sprout<R> {
    /// A controller that has seen no delivery.
    pub fn new(config: Arc<SproutConfig<R>>, now: Instant, _current_mtu: u16) -> (sprout: Self)
        ensures
            sprout == (Sprout {
                cwnd: config.initial_cwnd,
                initial_cwnd: config.initial_cwnd,
                count_this_tick: 0,
                last_tick: now,
                ewma_rate_estimate: sprout.ewma_rate_estimate,
                counts: sprout.counts,
                last_forecast: now,
                config,
            }),
            call_ensures(R::from_u64, (0u64,), sprout.ewma_rate_estimate),
            forall|i: int|
                0 <= i < NUM_TICKS ==> call_ensures(
                    R::from_u64,
                    (0u64,),
                    #[trigger] sprout.counts@[i],
                ),
    {
        let nothing = R::from_u64(0);
        Sprout {
            cwnd: config.initial_cwnd,
            initial_cwnd: config.initial_cwnd,
            count_this_tick: 0,
            last_tick: now,
            ewma_rate_estimate: R::from_u64(0),
            counts: [nothing;16],
            last_forecast: now,
            config,
        }
    }

    /// The window for a forecast of `bytes`: at least the initial one.
    pub open spec fn window_for(self, bytes: u64) -> u64 {
        if bytes < self.initial_cwnd {
            self.initial_cwnd
        } else {
            bytes
        }
    }

    /// Sets the window for a forecast of `bytes`: at least the initial one.
    pub fn open_window(&mut self, bytes: u64)
        ensures
            *final(self) == (Sprout { cwnd: old(self).window_for(bytes), ..*old(self) }),
    {
        self.cwnd = bytes;
        if self.cwnd < self.initial_cwnd {
            self.cwnd = self.initial_cwnd;
        }
    }

    /// `after` has the window that is forecast for the ticks ahead of `read_at`, and its
    /// forecast begins at `restart_at`.
    pub open spec fn forecasted(self, read_at: Instant, restart_at: Instant, after: Self) -> bool {
        let tick = tick_at(self.last_forecast, read_at);
        exists|bytes: u64|
            {
                &&& #[trigger] is_gap(self.counts@[target_tick(tick)], self.counts@[tick], bytes)
                &&& after == (Sprout {
                    last_forecast: restart_at,
                    cwnd: self.window_for(bytes),
                    ..self
                })
            }
    }

    /// The tick that `read_at` lies in, and the one up to which the window looks ahead.
    pub fn forecast_ticks(&self, read_at: Instant) -> (ticks: (usize, usize))
        ensures
            ticks.0 == tick_at(self.last_forecast, read_at),
            ticks.1 == target_tick(ticks.0 as int),
            ticks.0 <= ticks.1 < NUM_TICKS,
    {
        let elapsed: usize = read_at.saturating_duration_since(self.last_forecast).as_millis() as usize
            / FORECAST_TICK_MILLIS;
        let current: usize = if elapsed < NUM_TICKS - 1 {
            elapsed
        } else {
            NUM_TICKS - 1
        };
        let cumulative: usize = if current + TARGET_DELAY_TICKS >= NUM_TICKS {
            NUM_TICKS - 1
        } else {
            current + TARGET_DELAY_TICKS
        };
        (current, cumulative)
    }

    /// Sets the window to what is forecast to be delivered in the ticks ahead. The clock
    /// reads `read_at` when the forecast is looked up and `restart_at` when the next one
    /// begins.
    pub fn forecast(&mut self, read_at: Instant, restart_at: Instant)
        ensures
            old(self).forecasted(read_at, restart_at, *final(self)),
    {
        let (current_forecast_tick, cumulative_delivery_tick) = self.forecast_ticks(read_at);
        self.last_forecast = restart_at;
        let bytes = gap(self.counts[cumulative_delivery_tick], self.counts[current_forecast_tick]);
        assert(is_gap(
            old(self).counts@[target_tick(current_forecast_tick as int)],
            old(self).counts@[current_forecast_tick as int],
            bytes,
        ));
        self.open_window(bytes);
    }

    /// `after` has taken the bytes of the current tick into its estimate and has counted
    /// the estimate up over all ticks.
    pub open spec fn measured(self, after: Self) -> bool {
        &&& is_smoothed(
            self.config.alpha,
            self.ewma_rate_estimate,
            self.count_this_tick,
            after.ewma_rate_estimate,
        )
        &&& forall|i: int|
            0 <= i < NUM_TICKS ==> is_multiple(
                after.ewma_rate_estimate,
                (i + 1) as u64,
                #[trigger] after.counts@[i],
            )
        &&& after == (Sprout {
            ewma_rate_estimate: after.ewma_rate_estimate,
            counts: after.counts,
            count_this_tick: 0,
            ..self
        })
    }

    /// Takes the bytes of the current tick into the estimate.
    pub fn measure(&mut self)
        ensures
            old(self).measured(*final(self)),
    {
        self.ewma_rate_estimate = smoothed(
            self.config.alpha,
            self.ewma_rate_estimate,
            self.count_this_tick,
        );
        self.count_this_tick = 0;
        let ghost begun = *self;
        let mut i: usize = 1;
        while i <= NUM_TICKS
            invariant
                1 <= i <= NUM_TICKS + 1,
                *self == (Sprout { counts: self.counts, ..begun }),
                forall|j: int|
                    0 <= j < i - 1 ==> is_multiple(
                        begun.ewma_rate_estimate,
                        (j + 1) as u64,
                        #[trigger] self.counts@[j],
                    ),
            decreases NUM_TICKS + 1 - i,
        {
            self.counts[i - 1] = multiple(self.ewma_rate_estimate, i as u64);
            i += 1;
        }
    }

    /// How many whole ticks have ended before `now`.
    pub open spec fn ticks(self, now: Instant) -> int {
        if now.nanos <= self.last_tick.nanos {
            0
        } else {
            (now.nanos - self.last_tick.nanos - 1) / (self.config.tick_interval.nanos as int)
        }
    }

    /// When the tick began that is current at `now`, in nanoseconds.
    pub open spec fn tick_start(self, now: Instant) -> int {
        self.last_tick.nanos + self.ticks(now) * self.config.tick_interval.nanos
    }

    /// Whether the ticks up to `now` can be counted: they take time, and the end of the
    /// last one can be represented.
    pub open spec fn can_advance(self, now: Instant) -> bool {
        &&& self.config.tick_interval.nanos > 0 || now.nanos <= self.last_tick.nanos
        &&& self.tick_start(now) + self.config.tick_interval.nanos <= u128::MAX
    }

    /// `after` is in the tick of `now`. If a tick has ended in between and bytes were
    /// delivered, it has taken them into its estimate and made one forecast.
    pub open spec fn advanced(
        self,
        now: Instant,
        read_at: Instant,
        restart_at: Instant,
        after: Self,
    ) -> bool {
        let last_tick = Instant { nanos: self.tick_start(now) as u128 };
        if self.ticks(now) > 0 && self.count_this_tick > 0 {
            exists|measured: Self, forecast: Self|
                {
                    &&& #[trigger] self.measured(measured)
                    &&& #[trigger] measured.forecasted(read_at, restart_at, forecast)
                    &&& after == (Sprout { last_tick, ..forecast })
                }
        } else {
            after == (Sprout { last_tick, ..self })
        }
    }

    /// Moves on to the tick of `now`. The clock reads `read_at` and `restart_at` if a
    /// forecast is made.
    pub fn advance_to(&mut self, now: Instant, read_at: Instant, restart_at: Instant)
        requires
            old(self).can_advance(now),
        ensures
            old(self).advanced(now, read_at, restart_at, *final(self)),
    {
        let ghost start = *self;
        let ghost k: int = start.ticks(now);
        let ghost step: int = self.config.tick_interval.nanos as int;
        let ghost mut done: int = 0;
        let ghost mut measured = *self;
        let ghost mut forecast = *self;
        proof {
            ticks_are_exact(start, now, 0);
        }
        while self.last_tick.after(self.config.tick_interval).nanos < now.nanos
            invariant
                start.can_advance(now),
                k == start.ticks(now),
                step == start.config.tick_interval.nanos,
                0 <= done <= k,
                done * step + step <= k * step + step,
                self.config == start.config,
                self.last_tick.nanos == start.last_tick.nanos + done * step,
                self.last_tick.reaches(self.config.tick_interval),
                done > 0 && start.count_this_tick > 0 ==> {
                    &&& start.measured(measured)
                    &&& measured.forecasted(read_at, restart_at, forecast)
                    &&& *self == (Sprout { last_tick: self.last_tick, ..forecast })
                    &&& self.count_this_tick == 0
                },
                !(done > 0 && start.count_this_tick > 0) ==> *self == (Sprout {
                    last_tick: self.last_tick,
                    ..start
                }),
            decreases k - done,
        {
            proof {
                ticks_are_exact(start, now, done);
            }
            if self.count_this_tick > 0 {
                proof {
                    assert(done == 0);
                    assert(self.last_tick == start.last_tick);
                    assert(*self == start);
                }
                self.measure();
                proof {
                    measured = *self;
                }
                self.forecast(read_at, restart_at);
                proof {
                    forecast = *self;
                }
            }
            self.last_tick = self.last_tick.after(self.config.tick_interval);
            proof {
                done = done + 1;
                ticks_are_exact(start, now, done);
                assert(done * step == (done - 1) * step + step) by (nonlinear_arith);
            }
        }
        proof {
            ticks_are_exact(start, now, done);
            assert(done == k);
        }
    }

    /// Counts bytes that were delivered.
    pub fn recv(&mut self, bytes: u64)
        requires
            old(self).count_this_tick + bytes <= u64::MAX,
        ensures
            *final(self) == (Sprout {
                count_this_tick: (old(self).count_this_tick + bytes) as u64,
                ..*old(self)
            }),
    {
        self.count_this_tick = self.count_this_tick + bytes;
    }

    /// The bytes counted for the tick of `now`, before anything is delivered at `now`.
    pub open spec fn counted(self, now: Instant) -> u64 {
        if self.ticks(now) > 0 {
            0
        } else {
            self.count_this_tick
        }
    }

    /// `after` is in the tick of `now` and has counted `bytes` into it.
    pub open spec fn acknowledged(
        self,
        now: Instant,
        bytes: u64,
        read_at: Instant,
        restart_at: Instant,
        after: Self,
    ) -> bool {
        exists|advanced: Self|
            {
                &&& #[trigger] self.advanced(now, read_at, restart_at, advanced)
                &&& after == (Sprout {
                    count_this_tick: (advanced.count_this_tick + bytes) as u64,
                    ..advanced
                })
            }
    }

    /// Deals with an acknowledgement of `bytes` that arrived at `now`. The clock reads
    /// `read_at` and `restart_at` if a forecast is made.
    pub fn on_ack(&mut self, now: Instant, bytes: u64, read_at: Instant, restart_at: Instant)
        requires
            old(self).can_advance(now),
            old(self).counted(now) + bytes <= u64::MAX,
        ensures
            old(self).acknowledged(now, bytes, read_at, restart_at, *final(self)),
    {
        self.advance_to(now, read_at, restart_at);
        self.recv(bytes);
    }

    /// Sending changes nothing.
    pub fn on_sent(&mut self, _now: Instant, _bytes: u64, _last_packet_number: u64)
        ensures
            *final(self) == *old(self),
    {
    }

    /// A loss changes nothing.
    pub fn on_congestion_event(
        &mut self,
        _now: Instant,
        _sent: Instant,
        _is_persistent_congestion: bool,
        _lost_bytes: u64,
    )
        ensures
            *final(self) == *old(self),
    {
    }

    /// A change of the path's datagram size changes nothing.
    pub fn on_mtu_update(&mut self, _new_mtu: u16)
        ensures
            *final(self) == *old(self),
    {
    }

    /// The congestion window in bytes.
    pub fn window(&self) -> (bytes: u64)
        ensures
            bytes == self.cwnd,
    {
        self.cwnd
    }

    /// The window in bytes at the start.
    pub fn initial_window(&self) -> (bytes: u64)
        ensures
            bytes == self.config.initial_cwnd,
    {
        self.config.initial_cwnd
    }

    /// The window in bytes that pacing goes by: the congestion window.
    pub fn pacing_window(&self) -> (bytes: u64)
        ensures
            bytes == self.cwnd,
    {
        self.window()
    }
}

/// The tick after the first `done` ends before `now` exactly if it is among those that
/// `ticks` counts.
proof fn ticks_are_exact<R: Scalar>(sprout: Sprout<R>, now: Instant, done: int)
    requires
        sprout.can_advance(now),
        0 <= done <= sprout.ticks(now),
    ensures
        sprout.ticks(now) >= 0,
        done * sprout.config.tick_interval.nanos <= sprout.ticks(now)
            * sprout.config.tick_interval.nanos,
        sprout.last_tick.nanos + done * sprout.config.tick_interval.nanos
            + sprout.config.tick_interval.nanos < now.nanos <==> done < sprout.ticks(now),
{
    let step = sprout.config.tick_interval.nanos as int;
    let k = sprout.ticks(now);
    assert(done * step <= k * step) by (nonlinear_arith)
        requires
            done <= k,
            step >= 0,
    ;
    if now.nanos > sprout.last_tick.nanos {
        let span = now.nanos - sprout.last_tick.nanos - 1;
        vstd::arithmetic::div_mod::lemma_fundamental_div_mod(span, step);
        assert((done + 1) * step <= span <==> done < k) by (nonlinear_arith)
            requires
                span == step * k + span % step,
                0 <= span % step < step,
                done <= k,
                step > 0,
        ;
        assert((done + 1) * step == done * step + step) by (nonlinear_arith);
    }
}

} // verus!
