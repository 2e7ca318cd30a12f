//! The Copa congestion controller: a window steered by queueing delay.
use std::sync::Arc;
use vstd::prelude::*;

use crate::copa::rtt::{
    longest, recent, rtts, shortest, BucketRttMinTracker, RttMaxTracker, RttMinTracker, RttTracker,
    Slots, MAX_FILTER_SAMPLES,
};
use crate::scalar::{fraction, is_fraction, Scalar};
use crate::time::{Duration, Instant, NANOS_PER_MICRO};

pub mod exact_laws;
pub mod laws;
pub mod rtt;
pub mod rtt_laws;

verus! {

/// How often the window has to move in one direction before it speeds up.
pub const SPEED_UP_THRESHOLD: u64 = 3;

/// The payload of a datagram in bytes, unless configured otherwise.
pub const DEFAULT_SEND_UDP_PAYLOAD_SIZE: u64 = 1200;

/// The round-trip time in milliseconds that is assumed before the first sample.
pub const INITIAL_RTT_MILLIS: u64 = 333;

/// How the controller deals with other flows on the path.
#[derive(Debug, Clone, Copy, PartialEq, Eq, Structural)]
pub enum CompetingMode {
    /// No competing flows.
    Default,
    /// Competing flows: the delay weight adapts.
    Competitive,
}

/// Which way the congestion window moves.
#[derive(Debug, Clone, Copy, PartialEq, Eq, Structural)]
pub enum Direction {
    /// The window grows.
    Up,
    /// The window shrinks.
    Down,
}

/// How fast the congestion window moves.
#[derive(Debug, Clone, Copy)]
pub struct Velocity {
    /// Which way the window moves.
    pub direction: Direction,
    /// The factor on each step of the window.
    pub velocity: u64,
    /// The window at the last step, zero before the first.
    pub last_cwnd: u64,
    /// How often in a row the direction has been the same.
    pub same_direction_cnt: u64,
}

impl Default for Velocity {
    fn default() -> (v: Self)
        ensures
            v == (Velocity {
                direction: Direction::Up,
                velocity: 1,
                last_cwnd: 0,
                same_direction_cnt: 0,
            }),
    {
        Velocity { direction: Direction::Up, velocity: 1, last_cwnd: 0, same_direction_cnt: 0 }
    }
}

/// Configuration of a [`Copa`] controller.
#[derive(Debug, Clone)]
pub struct CopaConfig<R> {
    /// The minimal congestion window in bytes.
    pub min_cwnd: u64,
    /// The window, in bytes, at the start.
    pub initial_cwnd: u64,
    /// A smoothed round-trip time to start with. It has no effect: the smoothed time comes
    /// with each acknowledgement.
    pub initial_rtt: Option<Duration>,
    /// The largest datagram, in bytes.
    pub max_datagram_size: u64,
    /// A delay weight for slow start. The larger a weight is, the more a low delay is
    /// preferred to throughput. It has no effect: while nothing competes the weight is one
    /// half, and in competition it adapts.
    pub slow_start_delta: R,
    /// A delay weight for the time after slow start. It has no effect either.
    pub steady_delta: R,
    /// Whether the queueing delay comes from the standing round-trip time. If not, it
    /// comes from the latest one.
    pub use_standing_rtt: bool,
}

/// `out` is the delay weight that holds while nothing competes, one half.
pub open spec fn is_default_delta<R: Scalar>(out: R) -> bool {
    is_fraction(1, 2, out)
}

/// The delay weight that holds while nothing competes, one half.
fn default_delta<R: Scalar>() -> (out: R)
    ensures
        is_default_delta(out),
{
    fraction(1, 2)
}

impl<R: Scalar> Default for CopaConfig<R> {
    fn default() -> (config: Self)
        ensures
            config == (CopaConfig {
                min_cwnd: 4800,
                initial_cwnd: 4800,
                initial_rtt: Some(Duration { nanos: 333_000_000 }),
                max_datagram_size: 1200,
                slow_start_delta: config.slow_start_delta,
                steady_delta: config.steady_delta,
                use_standing_rtt: true,
            }),
            is_default_delta(config.slow_start_delta),
            is_default_delta(config.steady_delta),
    {
        CopaConfig {
            min_cwnd: 4 * DEFAULT_SEND_UDP_PAYLOAD_SIZE,
            initial_cwnd: 4 * DEFAULT_SEND_UDP_PAYLOAD_SIZE,
            initial_rtt: Some(Duration::from_millis(INITIAL_RTT_MILLIS)),
            max_datagram_size: DEFAULT_SEND_UDP_PAYLOAD_SIZE,
            slow_start_delta: default_delta(),
            steady_delta: default_delta(),
            use_standing_rtt: true,
        }
    }
}

/// The Copa congestion controller.
#[derive(Debug, Clone)]
pub struct Copa<R> {
    /// The configuration.
    pub config: Arc<CopaConfig<R>>,
    /// When the controller was made.
    pub init_time: Instant,
    /// How it deals with other flows.
    pub mode: CompetingMode,
    /// Whether it is in slow start.
    pub slow_start: bool,
    /// The congestion window in bytes.
    pub cwnd: u64,
    /// How fast the window moves.
    pub velocity: Velocity,
    /// The delay weight.
    pub delta: R,
    /// Whether the window is to grow.
    pub increase_cwnd: bool,
    /// The rate aimed at, in bytes per second.
    pub target_rate: u64,
    /// The last packet number sent. It is zero before the first.
    pub last_sent_pkt_num: u64,
    /// How long data waits in queues on the path.
    pub queueing_delay: Duration,
    /// The longest round-trip time of the last samples.
    pub rtt_max: RttMaxTracker,
    /// The shortest round-trip time over a long time.
    pub rtt_min: BucketRttMinTracker,
    /// The shortest round-trip time over a short time.
    pub rtt_standing: RttMinTracker,
}

/// `out` is the window `cwnd` per round trip `rtt`, in bytes per second.
pub open spec fn is_rate<R: Scalar>(cwnd: u64, rtt: Duration, out: u64) -> bool {
    exists|window: R, secs: R, rate: R|
        #![auto]
        {
            &&& call_ensures(R::from_u64, (cwnd,), window)
            &&& call_ensures(R::from_secs, (rtt,), secs)
            &&& call_ensures(R::over, (window, secs), rate)
            &&& call_ensures(R::to_u64, (rate,), out)
        }
}

/// The window `cwnd` per round trip `rtt`, in bytes per second.
fn rate<R: Scalar>(cwnd: u64, rtt: Duration) -> (out: u64)
    ensures
        is_rate::<R>(cwnd, rtt, out),
{
    let window = R::from_u64(cwnd);
    let secs = R::from_secs(rtt);
    window.over(secs).to_u64()
}

/// `out` is one datagram per `delta` and per `queueing_delay`, in bytes per second. A
/// delay of less than a microsecond counts as one.
pub open spec fn is_queued_target<R: Scalar>(
    datagram: u64,
    delta: R,
    queueing_delay: Duration,
    out: u64,
) -> bool {
    exists|size: R, weighted: R, secs: R, rate: R|
        #![auto]
        {
            &&& call_ensures(R::from_u64, (datagram,), size)
            &&& call_ensures(R::over, (size, delta), weighted)
            &&& call_ensures(
                R::from_secs,
                (queueing_delay.longer_spec(Duration::of(NANOS_PER_MICRO as int)),),
                secs,
            )
            &&& call_ensures(R::over, (weighted, secs), rate)
            &&& call_ensures(R::to_u64, (rate,), out)
        }
}

/// One datagram per `delta` and per `queueing_delay`, in bytes per second. A delay of
/// less than a microsecond counts as one.
fn queued_target<R: Scalar>(datagram: u64, delta: R, queueing_delay: Duration) -> (out: u64)
    ensures
        is_queued_target(datagram, delta, queueing_delay, out),
{
    let size = R::from_u64(datagram);
    let weighted = size.over(delta);
    let secs = R::from_secs(queueing_delay.max(Duration::from_micros(1)));
    weighted.over(secs).to_u64()
}

/// `out` tells whether the queueing delay makes up at least a tenth of the range of the
/// round-trip time.
pub open spec fn is_contended<R: Scalar>(
    queueing_delay: Duration,
    max_rtt: Duration,
    min_rtt: Duration,
    out: bool,
) -> bool {
    exists|queued: R, max: R, min: R, range: R, share: R, tenth: R|
        #![auto]
        {
            &&& call_ensures(R::from_secs, (queueing_delay,), queued)
            &&& call_ensures(R::from_secs, (max_rtt,), max)
            &&& call_ensures(R::from_secs, (min_rtt,), min)
            &&& call_ensures(R::minus, (max, min), range)
            &&& call_ensures(R::over, (queued, range), share)
            &&& is_fraction(1, 10, tenth)
            &&& call_ensures(R::at_most, (tenth, share), out)
        }
}

/// Whether the queueing delay makes up at least a tenth of the range of the round-trip
/// time.
fn contended<R: Scalar>(queueing_delay: Duration, max_rtt: Duration, min_rtt: Duration) -> (out:
    bool)
    ensures
        is_contended::<R>(queueing_delay, max_rtt, min_rtt, out),
{
    let queued = R::from_secs(queueing_delay);
    let max = R::from_secs(max_rtt);
    let min = R::from_secs(min_rtt);
    let range = max.minus(min);
    let share = queued.over(range);
    let tenth: R = fraction(1, 10);
    tenth.at_most(share)
}

/// `out` is `delta / (1 + delta)`, at most one half.
pub open spec fn is_lighter<R: Scalar>(delta: R, out: R) -> bool {
    exists|one: R, more: R, less: R, half: R|
        #![auto]
        {
            &&& call_ensures(R::from_u64, (1u64,), one)
            &&& call_ensures(R::plus, (one, delta), more)
            &&& call_ensures(R::over, (delta, more), less)
            &&& is_fraction(1, 2, half)
            &&& call_ensures(R::least, (less, half), out)
        }
}

/// The weight `delta / (1 + delta)`, at most one half.
fn lighter<R: Scalar>(delta: R) -> (out: R)
    ensures
        is_lighter(delta, out),
{
    let one = R::from_u64(1);
    let more = one.plus(delta);
    let less = delta.over(more);
    let half: R = fraction(1, 2);
    less.least(half)
}

/// `out` is twice `delta`, at most one half.
pub open spec fn is_heavier<R: Scalar>(delta: R, out: R) -> bool {
    exists|two: R, double: R, half: R|
        #![auto]
        {
            &&& call_ensures(R::from_u64, (2u64,), two)
            &&& call_ensures(R::times, (delta, two), double)
            &&& is_fraction(1, 2, half)
            &&& call_ensures(R::least, (double, half), out)
        }
}

/// Twice `delta`, at most one half.
fn heavier<R: Scalar>(delta: R) -> (out: R)
    ensures
        is_heavier(delta, out),
{
    let two = R::from_u64(2);
    let double = delta.times(two);
    let half: R = fraction(1, 2);
    double.least(half)
}

/// `out` is the step of the window: `4 * velocity * datagram / (delta * cwnd)`.
pub open spec fn is_step<R: Scalar>(
    velocity: u64,
    datagram: u64,
    delta: R,
    cwnd: u64,
    out: u64,
) -> bool {
    exists|four: R, speed: R, fast: R, size: R, top: R, window: R, bottom: R, step: R|
        #![auto]
        {
            &&& call_ensures(R::from_u64, (4u64,), four)
            &&& call_ensures(R::from_u64, (velocity,), speed)
            &&& call_ensures(R::times, (four, speed), fast)
            &&& call_ensures(R::from_u64, (datagram,), size)
            &&& call_ensures(R::times, (fast, size), top)
            &&& call_ensures(R::from_u64, (cwnd,), window)
            &&& call_ensures(R::times, (delta, window), bottom)
            &&& call_ensures(R::over, (top, bottom), step)
            &&& call_ensures(R::to_u64, (step,), out)
        }
}

/// The step of the window: `4 * velocity * datagram / (delta * cwnd)`.
fn step<R: Scalar>(velocity: u64, datagram: u64, delta: R, cwnd: u64) -> (out: u64)
    ensures
        is_step(velocity, datagram, delta, cwnd, out),
{
    let four = R::from_u64(4);
    let speed = R::from_u64(velocity);
    let fast = four.times(speed);
    let size = R::from_u64(datagram);
    let top = fast.times(size);
    let window = R::from_u64(cwnd);
    let bottom = delta.times(window);
    let step = top.over(bottom);
    step.to_u64()
}

/// The state of the velocity after a step that is to grow the window or to shrink it.
pub open spec fn next_velocity(
    velocity: Velocity,
    increase_cwnd: bool,
    cwnd: u64,
    min_cwnd: u64,
) -> Velocity {
    let direction = if increase_cwnd {
        Direction::Up
    } else {
        Direction::Down
    };
    if velocity.last_cwnd == 0 {
        Velocity {
            direction: Direction::Down,
            velocity: 1,
            last_cwnd: if cwnd > min_cwnd {
                cwnd
            } else {
                min_cwnd
            },
            same_direction_cnt: 0,
        }
    } else if direction != velocity.direction {
        Velocity { direction, velocity: 1, last_cwnd: cwnd, same_direction_cnt: 0 }
    } else {
        let times = saturated(velocity.same_direction_cnt + 1);
        Velocity {
            direction,
            velocity: if times >= SPEED_UP_THRESHOLD {
                saturated(velocity.velocity * 2)
            } else {
                velocity.velocity
            },
            last_cwnd: cwnd,
            same_direction_cnt: times,
        }
    }
}

/// `n`, or the nearest number that the integer type holds.
pub open spec fn saturated(n: int) -> u64 {
    if n < 0 {
        0
    } else if n > u64::MAX {
        u64::MAX
    } else {
        n as u64
    }
}

impl<R: Scalar> Copa<R> {
    /// A controller in slow start, made at `now`.
    pub fn new(config: Arc<CopaConfig<R>>, now: Instant, _current_mtu: u16) -> (copa: Self)
        ensures
            copa == (Copa {
                config,
                init_time: now,
                mode: CompetingMode::Default,
                slow_start: true,
                cwnd: config.initial_cwnd,
                velocity: Velocity {
                    direction: Direction::Up,
                    velocity: 1,
                    last_cwnd: 0,
                    same_direction_cnt: 0,
                },
                increase_cwnd: false,
                target_rate: 0,
                last_sent_pkt_num: 0,
                queueing_delay: Duration::of(0),
                ..copa
            }),
            is_default_delta(copa.delta),
            copa.rtt_max@ == Seq::new(MAX_FILTER_SAMPLES as nat, |i: int| Duration::of(0)),
            copa.rtt_min@ == Slots::empty(now),
            copa.rtt_standing@ == Seq::<RttTracker>::empty(),
    {
        let initial_cwnd: u64 = config.initial_cwnd;
        Copa {
            config,
            init_time: now,
            mode: CompetingMode::Default,
            slow_start: true,
            cwnd: initial_cwnd,
            velocity: Velocity::default(),
            delta: default_delta(),
            increase_cwnd: false,
            target_rate: 0,
            last_sent_pkt_num: 0,
            queueing_delay: Duration::zero(),
            rtt_max: RttMaxTracker::new(),
            rtt_min: BucketRttMinTracker::new(now),
            rtt_standing: RttMinTracker::new(),
        }
    }

    /// The shortest round-trip time over the short window.
    pub open spec fn standing_rtt(self) -> Duration {
        shortest(rtts(self.rtt_standing@))
    }

    /// The shortest round-trip time over the long window.
    pub open spec fn min_rtt(self) -> Duration {
        shortest(self.rtt_min@.buckets)
    }

    /// The longest round-trip time of the last samples.
    pub open spec fn max_rtt(self) -> Duration {
        longest(self.rtt_max@)
    }

    /// `after` has taken the sample `latest` at `now` into its filters, the short one
    /// over `window`, and knows the queueing delay that follows.
    pub open spec fn observed(
        self,
        latest: Duration,
        now: Instant,
        window: Duration,
        after: Self,
    ) -> bool {
        &&& after.rtt_max@ == self.rtt_max@.drop_first().push(latest)
        &&& after.rtt_min@ == self.rtt_min@.sample(latest, now)
        &&& after.rtt_standing@ == recent(self.rtt_standing@, now, window).push(
            RttTracker { rtt: latest, time: now },
        )
        &&& after.queueing_delay == (if self.config.use_standing_rtt {
            after.standing_rtt()
        } else {
            latest
        }).minus_spec(after.min_rtt())
        &&& after == (Copa {
            rtt_max: after.rtt_max,
            rtt_min: after.rtt_min,
            rtt_standing: after.rtt_standing,
            queueing_delay: after.queueing_delay,
            ..self
        })
    }

    /// Takes a sample into the filters and updates the queueing delay.
    pub fn observe(&mut self, latest: Duration, now: Instant, window: Duration)
        ensures
            old(self).observed(latest, now, window, *final(self)),
            final(self).rtt_max@.len() == MAX_FILTER_SAMPLES,
            final(self).rtt_min@.valid(),
    {
        self.rtt_max.update(latest);
        self.rtt_min.update(latest, now);
        self.rtt_standing.update(latest, now, window);
        let rtt = if self.config.use_standing_rtt {
            self.rtt_standing.min_rtt()
        } else {
            latest
        };
        let min_rtt = self.rtt_min.min_rtt();
        self.queueing_delay = rtt.saturating_sub(min_rtt);
    }

    /// The state in which the rate aimed at is `target_rate`. The window is to grow
    /// where nothing waits in queues, or where `current_rate` is below the target.
    pub open spec fn aimed(self, current_rate: u64, target_rate: u64) -> Self {
        Copa {
            target_rate,
            increase_cwnd: self.queueing_delay.nanos == 0 || target_rate > current_rate,
            ..self
        }
    }

    /// Sets the rate aimed at and whether the window is to grow.
    pub fn aim(&mut self, current_rate: u64, target_rate: u64)
        ensures
            *final(self) == old(self).aimed(current_rate, target_rate),
    {
        self.target_rate = target_rate;
        self.increase_cwnd = self.queueing_delay.is_zero() || target_rate > current_rate;
    }

    /// `target_rate` is the rate to aim at: the current one while nothing waits in
    /// queues, and otherwise one that falls as the queueing delay rises.
    pub open spec fn is_target(self, target_rate: u64) -> bool {
        if self.queueing_delay.nanos == 0 {
            is_rate::<R>(self.cwnd, self.standing_rtt(), target_rate)
        } else {
            is_queued_target(
                self.config.max_datagram_size,
                self.delta,
                self.queueing_delay,
                target_rate,
            )
        }
    }

    /// The mode for a path that is contended or is not.
    pub open spec fn mode_for(contended: bool) -> CompetingMode {
        if contended {
            CompetingMode::Competitive
        } else {
            CompetingMode::Default
        }
    }

    /// `after` has the mode for a path that is contended or is not, and the delay
    /// weight for that mode.
    pub open spec fn switched(self, contended: bool, after: Self) -> bool {
        &&& after == (Copa { mode: Self::mode_for(contended), delta: after.delta, ..self })
        &&& if contended {
            is_lighter(self.delta, after.delta)
        } else {
            is_default_delta(after.delta)
        }
    }

    /// Takes the mode for a path that is contended or is not.
    pub fn switch_mode(&mut self, contended: bool)
        ensures
            old(self).switched(contended, *final(self)),
    {
        self.mode = if contended {
            CompetingMode::Competitive
        } else {
            CompetingMode::Default
        };
        match self.mode {
            CompetingMode::Default => {
                self.delta = default_delta();
            },
            CompetingMode::Competitive => {
                self.delta = lighter(self.delta);
            },
        }
    }

    /// `after` has the mode and the weight that the queueing delay calls for.
    pub open spec fn mode_updated(self, after: Self) -> bool {
        exists|competing: bool|
            {
                &&& #[trigger] is_contended::<R>(
                    self.queueing_delay,
                    self.max_rtt(),
                    self.min_rtt(),
                    competing,
                )
                &&& self.switched(competing, after)
            }
    }

    /// Competes with other flows where the queueing delay is high.
    pub fn update_mode(&mut self)
        ensures
            old(self).mode_updated(*final(self)),
    {
        let competing = contended::<R>(
            self.queueing_delay,
            self.rtt_max.max_rtt(),
            self.rtt_min.min_rtt(),
        );
        assert(is_contended::<R>(
            old(self).queueing_delay,
            old(self).max_rtt(),
            old(self).min_rtt(),
            competing,
        ));
        self.switch_mode(competing);
    }

    /// The state after a step of the velocity. While slow start goes on, nothing
    /// changes.
    pub open spec fn velocity_updated(self) -> Self {
        if self.slow_start && self.increase_cwnd {
            self
        } else {
            Copa {
                velocity: next_velocity(
                    self.velocity,
                    self.increase_cwnd,
                    self.cwnd,
                    self.config.min_cwnd,
                ),
                ..self
            }
        }
    }

    /// Speeds up while the window keeps its direction, slows down when it turns.
    pub fn update_velocity(&mut self)
        ensures
            *final(self) == old(self).velocity_updated(),
    {
        if self.slow_start && self.increase_cwnd {
            return ;
        }
        if self.velocity.last_cwnd == 0 {
            self.velocity.direction = Direction::Down;
            self.velocity.last_cwnd = if self.cwnd > self.config.min_cwnd {
                self.cwnd
            } else {
                self.config.min_cwnd
            };
            self.velocity.velocity = 1;
            self.velocity.same_direction_cnt = 0;
            return ;
        }
        let new_direction = if self.increase_cwnd {
            Direction::Up
        } else {
            Direction::Down
        };
        if new_direction != self.velocity.direction {
            self.velocity.velocity = 1;
            self.velocity.same_direction_cnt = 0;
        } else {
            self.velocity.same_direction_cnt = self.velocity.same_direction_cnt.saturating_add(1);
            if self.velocity.same_direction_cnt >= SPEED_UP_THRESHOLD {
                self.velocity.velocity = match self.velocity.velocity.checked_mul(2) {
                    Some(doubled) => doubled,
                    None => u64::MAX,
                };
            }
        }
        self.velocity.direction = new_direction;
        self.velocity.last_cwnd = self.cwnd;
    }

    /// Whether the window can be doubled if slow start calls for it.
    pub open spec fn doubling_fits(self) -> bool {
        self.slow_start && self.increase_cwnd ==> self.cwnd * 2 <= u64::MAX
    }

    /// The window after a move by `step`. It does not shrink below the minimal one.
    pub open spec fn next_cwnd(self, step: u64) -> u64 {
        let cwnd = if self.increase_cwnd {
            saturated(self.cwnd + step)
        } else {
            saturated(self.cwnd - step)
        };
        if cwnd == 0 || !self.increase_cwnd && cwnd < self.config.min_cwnd {
            self.config.min_cwnd
        } else {
            cwnd
        }
    }

    /// Whether a move by `step` uses the window up.
    pub open spec fn exhausted_by(self, step: u64) -> bool {
        if self.increase_cwnd {
            self.cwnd == 0 && step == 0
        } else {
            self.cwnd <= step
        }
    }

    /// The state after the window has moved by `step`. A window that was used up starts
    /// again slowly.
    pub open spec fn moved(self, step: u64) -> Self {
        Copa {
            cwnd: self.next_cwnd(step),
            velocity: if self.exhausted_by(step) {
                Velocity { velocity: 1, ..self.velocity }
            } else {
                self.velocity
            },
            ..self
        }
    }

    /// Moves the window by `step`.
    pub fn move_cwnd(&mut self, step: u64)
        ensures
            *final(self) == old(self).moved(step),
    {
        self.cwnd = if self.increase_cwnd {
            self.cwnd.saturating_add(step)
        } else {
            self.cwnd.saturating_sub(step)
        };
        if self.cwnd == 0 {
            self.cwnd = self.config.min_cwnd;
            self.velocity.velocity = 1;
        }
        if !self.increase_cwnd && self.cwnd < self.config.min_cwnd {
            self.cwnd = self.config.min_cwnd;
        }
    }

    /// `after` has the next window. In slow start the window doubles for as long as it
    /// is to grow; once it is to shrink, slow start is over and the window moves in
    /// steps, down to the minimal window.
    pub open spec fn cwnd_updated(self, after: Self) -> bool {
        if self.slow_start && self.increase_cwnd {
            after == (Copa { cwnd: (self.cwnd * 2) as u64, ..self })
        } else {
            exists|by: u64|
                {
                    &&& #[trigger] is_step(
                        self.velocity.velocity,
                        self.config.max_datagram_size,
                        self.delta,
                        self.cwnd,
                        by,
                    )
                    &&& after == (Copa { slow_start: false, ..self }).moved(by)
                }
        }
    }

    /// Moves the congestion window on.
    pub fn update_cwnd(&mut self)
        requires
            old(self).doubling_fits(),
        ensures
            old(self).cwnd_updated(*final(self)),
    {
        if self.slow_start && !self.increase_cwnd {
            self.slow_start = false;
        }
        if self.slow_start {
            if self.increase_cwnd {
                self.cwnd = self.cwnd * 2;
            }
        } else {
            let by = step(
                self.velocity.velocity,
                self.config.max_datagram_size,
                self.delta,
                self.cwnd,
            );
            self.move_cwnd(by);
        }
    }

    /// `after` has taken in a sample and aims at the rate that follows, where
    /// `current_rate` is the rate at which the window sends.
    pub open spec fn sampled(
        self,
        now: Instant,
        latest: Duration,
        smoothed: Duration,
        current_rate: u64,
        after: Self,
    ) -> bool {
        exists|two: R, window: Duration, seen: Self, target_rate: u64|
            {
                &&& #[trigger] call_ensures(R::from_u64, (2u64,), two)
                &&& #[trigger] call_ensures(R::shorten, (smoothed, two), window)
                &&& #[trigger] self.observed(latest, now, window, seen)
                &&& is_rate::<R>(seen.cwnd, seen.standing_rtt(), current_rate)
                &&& #[trigger] seen.is_target(target_rate)
                &&& after == seen.aimed(current_rate, target_rate)
            }
    }

    /// `after` has dealt with an acknowledgement, where `current_rate` is the rate at
    /// which the window sent.
    pub open spec fn acknowledged(
        self,
        now: Instant,
        latest: Duration,
        smoothed: Duration,
        current_rate: u64,
        after: Self,
    ) -> bool {
        exists|aimed: Self, switched: Self|
            {
                &&& #[trigger] self.sampled(now, latest, smoothed, current_rate, aimed)
                &&& #[trigger] aimed.mode_updated(switched)
                &&& switched.velocity_updated().cwnd_updated(after)
            }
    }

    /// Deals with an acknowledgement that arrived at `now`, where the latest round trip
    /// took `latest` and the smoothed round-trip time is `smoothed`. Gives the rate at
    /// which the window sent, in bytes per second.
    pub fn on_ack(&mut self, now: Instant, latest: Duration, smoothed: Duration) -> (current_rate:
        u64)
        requires
            forall|rate: u64, aimed: Self| #[trigger]
                old(self).sampled(now, latest, smoothed, rate, aimed) ==> aimed.doubling_fits(),
        ensures
            old(self).acknowledged(now, latest, smoothed, current_rate, *final(self)),
    {
        let two = R::from_u64(2);
        let window = R::shorten(smoothed, two);
        self.observe(latest, now, window);
        let ghost seen = *self;
        let standing_rtt = self.rtt_standing.min_rtt();
        let current_rate = rate::<R>(self.cwnd, standing_rtt);
        let target_rate = if self.queueing_delay.is_zero() {
            rate::<R>(self.cwnd, standing_rtt)
        } else {
            queued_target(self.config.max_datagram_size, self.delta, self.queueing_delay)
        };
        assert(seen.is_target(target_rate));
        self.aim(current_rate, target_rate);
        let ghost aimed = *self;
        assert(old(self).sampled(now, latest, smoothed, current_rate, aimed));
        self.update_mode();
        self.update_velocity();
        self.update_cwnd();
        current_rate
    }

    /// The state after a loss: one that competes gives the delay more weight again.
    pub open spec fn congested(self, after: Self) -> bool {
        if self.mode == CompetingMode::Competitive {
            &&& is_heavier(self.delta, after.delta)
            &&& after == (Copa { delta: after.delta, ..self })
        } else {
            after == self
        }
    }

    /// Deals with a loss.
    pub fn on_congestion_event(
        &mut self,
        _now: Instant,
        _sent: Instant,
        _is_persistent_congestion: bool,
        _lost_bytes: u64,
    )
        ensures
            old(self).congested(*final(self)),
    {
        if self.mode == CompetingMode::Competitive {
            self.delta = heavier(self.delta);
        }
    }

    /// Notes the last packet number sent. Sending changes nothing else.
    pub fn on_sent(&mut self, _now: Instant, _bytes: u64, last_packet_number: u64)
        ensures
            *final(self) == (Copa { last_sent_pkt_num: last_packet_number, ..*old(self) }),
    {
        self.last_sent_pkt_num = last_packet_number;
    }

    /// A change of the path's datagram size changes nothing.
    pub fn on_mtu_update(&mut self, _new_mtu: u16)
        ensures
            *final(self) == *old(self),
    {
    }

    /// The congestion window in bytes.
    pub fn window(&self) -> (bytes: u64)
        ensures
            bytes == self.cwnd,
    {
        self.cwnd
    }

    /// The window in bytes at the start.
    pub fn initial_window(&self) -> (bytes: u64)
        ensures
            bytes == self.config.initial_cwnd,
    {
        self.config.initial_cwnd
    }

    /// The window in bytes that pacing goes by: the congestion window.
    pub fn pacing_window(&self) -> (bytes: u64)
        ensures
            bytes == self.cwnd,
    {
        self.window()
    }
}

} // verus!
