use std::sync::Arc;

use congestion::scalar::Scalar;
use congestion::sprout::{Sprout, SproutConfig};
use congestion::time::{Duration, Instant};

#[derive(Debug, Clone, Copy, PartialEq)]
struct F64(f64);

impl Scalar for F64 {
    fn from_u64(n: u64) -> Self {
        F64(n as f64)
    }

    fn to_u64(self) -> u64 {
        self.0 as u64
    }

    fn from_secs(span: Duration) -> Self {
        F64((span.nanos / 1_000_000_000) as f64 + (span.nanos % 1_000_000_000) as f64 / 1e9)
    }

    fn shorten(span: Duration, divisor: Self) -> Duration {
        let secs = F64::from_secs(span).0 / divisor.0;
        Duration { nanos: std::time::Duration::from_secs_f64(secs).as_nanos() }
    }

    fn plus(self, other: Self) -> Self {
        F64(self.0 + other.0)
    }

    fn minus(self, other: Self) -> Self {
        F64(self.0 - other.0)
    }

    fn times(self, other: Self) -> Self {
        F64(self.0 * other.0)
    }

    fn over(self, other: Self) -> Self {
        F64(self.0 / other.0)
    }

    fn least(self, other: Self) -> Self {
        F64(self.0.min(other.0))
    }

    fn at_most(self, other: Self) -> bool {
        self.0 <= other.0
    }
}

fn at(n: u64) -> Instant {
    Instant { nanos: 5_000_000_000 + n as u128 * 1_000_000 }
}

fn controller() -> Sprout<F64> {
    Sprout::new(Arc::new(SproutConfig::default()), at(0), 1200)
}

#[test]
fn sprout_default_configuration() {
    let config: SproutConfig<F64> = SproutConfig::default();
    assert_eq!(config.initial_cwnd, 4800);
    assert_eq!(config.tick_interval, Duration::from_millis(20));
    assert_eq!(config.alpha, F64(0.125));
}

#[test]
fn sprout_starts_with_the_initial_window() {
    let sprout = controller();
    assert_eq!(sprout.window(), 4800);
    assert_eq!(sprout.initial_window(), 4800);
    assert_eq!(sprout.pacing_window(), 4800);
    assert_eq!(sprout.count_this_tick, 0);
    assert_eq!(sprout.last_tick, at(0));
    assert_eq!(sprout.last_forecast, at(0));
    assert_eq!(sprout.ewma_rate_estimate, F64(0.0));
    assert_eq!(sprout.counts, [F64(0.0); 16]);
}

#[test]
fn sprout_counts_within_a_tick() {
    let mut sprout = controller();
    sprout.on_ack(at(5), 1000, at(5), at(5));
    sprout.on_ack(at(20), 500, at(20), at(20));
    assert_eq!(sprout.count_this_tick, 1500);
    assert_eq!(sprout.last_tick, at(0));
    assert_eq!(sprout.window(), 4800);
}

#[test]
fn sprout_forecasts_when_a_tick_has_ended() {
    let mut sprout = controller();
    sprout.on_ack(at(5), 80_000, at(5), at(5));
    sprout.on_ack(at(21), 700, at(21), at(22));
    // An eighth of 80000 per tick, six ticks ahead.
    assert_eq!(sprout.ewma_rate_estimate, F64(10_000.0));
    assert_eq!(sprout.counts[0], F64(10_000.0));
    assert_eq!(sprout.counts[15], F64(160_000.0));
    assert_eq!(sprout.window(), 60_000);
    assert_eq!(sprout.last_tick, at(20));
    assert_eq!(sprout.last_forecast, at(22));
    assert_eq!(sprout.count_this_tick, 700);
}

#[test]
fn sprout_smooths_the_estimate() {
    let mut sprout = controller();
    sprout.ewma_rate_estimate = F64(8000.0);
    sprout.recv(16_000);
    sprout.measure();
    assert_eq!(sprout.ewma_rate_estimate, F64(9000.0));
    assert_eq!(sprout.count_this_tick, 0);
    assert_eq!(sprout.counts[2], F64(27_000.0));
}

#[test]
fn sprout_skips_silent_ticks() {
    let mut sprout = controller();
    sprout.advance_to(at(1000), at(1000), at(1000));
    assert_eq!(sprout.last_tick, at(980));
    assert_eq!(sprout.last_forecast, at(0));
    assert_eq!(sprout.window(), 4800);
    sprout.advance_to(at(1001), at(1001), at(1001));
    assert_eq!(sprout.last_tick, at(1000));
    sprout.advance_to(at(3), at(3), at(3));
    assert_eq!(sprout.last_tick, at(1000));
}

#[test]
fn sprout_advances_once() {
    let mut sprout = controller();
    sprout.recv(80_000);
    sprout.advance_to(at(250), at(250), at(251));
    let (window, last_tick) = (sprout.window(), sprout.last_tick);
    // 250 ms after the last forecast is tick 12; the forecast ends three ticks later.
    assert_eq!(window, 30_000);
    assert_eq!(last_tick, at(240));
    sprout.advance_to(at(250), at(300), at(300));
    assert_eq!(sprout.window(), window);
    assert_eq!(sprout.last_tick, last_tick);
    assert_eq!(sprout.last_forecast, at(251));
}

#[test]
fn sprout_window_has_a_floor() {
    let mut sprout = controller();
    sprout.recv(80);
    sprout.advance_to(at(21), at(21), at(21));
    assert_eq!(sprout.window(), 4800);
    sprout.open_window(4799);
    assert_eq!(sprout.window(), 4800);
    sprout.open_window(4801);
    assert_eq!(sprout.window(), 4801);
}

#[test]
fn sprout_forecast_beyond_its_ticks_is_empty() {
    let mut sprout = controller();
    sprout.recv(80_000);
    sprout.measure();
    sprout.forecast(at(299), at(0));
    // Tick 14, then tick 15.
    assert_eq!(sprout.window(), 10_000);
    sprout.forecast(at(10_000), at(0));
    assert_eq!(sprout.window(), 4800);
    sprout.forecast(at(180), at(0));
    // Tick 9 is the last from which the whole target delay is ahead.
    assert_eq!(sprout.window(), 60_000);
}

#[test]
fn sprout_ignores_all_else() {
    let mut sprout = controller();
    sprout.on_sent(at(0), 1200, 7);
    sprout.on_congestion_event(at(0), at(0), true, 1200);
    sprout.on_mtu_update(9000);
    assert_eq!(sprout.window(), 4800);
    assert_eq!(sprout.count_this_tick, 0);
}

#[test]
fn sprout_ticks_of_a_forecast() {
    let sprout = controller();
    assert_eq!(sprout.forecast_ticks(at(0)), (0, 6));
    assert_eq!(sprout.forecast_ticks(at(39)), (1, 7));
    assert_eq!(sprout.forecast_ticks(at(180)), (9, 15));
    assert_eq!(sprout.forecast_ticks(at(200)), (10, 15));
    assert_eq!(sprout.forecast_ticks(at(9_000)), (15, 15));
}
