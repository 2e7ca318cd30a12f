use std::sync::Arc;

use congestion::copa::{CompetingMode, Copa, CopaConfig, Direction, Velocity};
use congestion::scalar::{fraction, Scalar};
use congestion::time::{Duration, Instant};

#[derive(Debug, Clone, Copy, PartialEq)]
struct F64(f64);

impl Scalar for F64 {
    fn from_u64(n: u64) -> Self {
        F64(n as f64)
    }

    fn to_u64(self) -> u64 {
        self.0 as u64
    }

    fn from_secs(span: Duration) -> Self {
        F64((span.nanos / 1_000_000_000) as f64 + (span.nanos % 1_000_000_000) as f64 / 1e9)
    }

    fn shorten(span: Duration, divisor: Self) -> Duration {
        let secs = F64::from_secs(span).0 / divisor.0;
        Duration { nanos: std::time::Duration::from_secs_f64(secs).as_nanos() }
    }

    fn plus(self, other: Self) -> Self {
        F64(self.0 + other.0)
    }

    fn minus(self, other: Self) -> Self {
        F64(self.0 - other.0)
    }

    fn times(self, other: Self) -> Self {
        F64(self.0 * other.0)
    }

    fn over(self, other: Self) -> Self {
        F64(self.0 / other.0)
    }

    fn least(self, other: Self) -> Self {
        F64(self.0.min(other.0))
    }

    fn at_most(self, other: Self) -> bool {
        self.0 <= other.0
    }
}

fn ms(n: u64) -> Duration {
    Duration::from_millis(n)
}

fn at(n: u64) -> Instant {
    Instant { nanos: 5_000_000_000 + n as u128 * 1_000_000 }
}

fn controller() -> Copa<F64> {
    Copa::new(Arc::new(CopaConfig::default()), at(1), 1200)
}

#[test]
fn fractions_are_those_of_literals() {
    assert_eq!(fraction::<F64>(1, 10), F64(0.1));
    assert_eq!(fraction::<F64>(1, 2), F64(0.5));
    assert_eq!(fraction::<F64>(1, 5), F64(0.2));
    assert_eq!(fraction::<F64>(1, 8), F64(0.125));
}

#[test]
fn copa_default_configuration() {
    let config: CopaConfig<F64> = CopaConfig::default();
    assert_eq!(config.min_cwnd, 4800);
    assert_eq!(config.initial_cwnd, 4800);
    assert_eq!(config.initial_rtt, Some(ms(333)));
    assert_eq!(config.max_datagram_size, 1200);
    assert_eq!(config.slow_start_delta, F64(0.5));
    assert_eq!(config.steady_delta, F64(0.5));
    assert!(config.use_standing_rtt);
}

#[test]
fn copa_starts_in_slow_start() {
    let copa = controller();
    assert_eq!(copa.window(), 4800);
    assert_eq!(copa.initial_window(), 4800);
    assert_eq!(copa.pacing_window(), 4800);
    assert_eq!(copa.mode, CompetingMode::Default);
    assert!(copa.slow_start);
    assert!(!copa.increase_cwnd);
    assert_eq!(copa.delta, F64(0.5));
    assert_eq!(copa.target_rate, 0);
    assert_eq!(copa.init_time, at(1));
    assert_eq!(copa.queueing_delay, Duration::zero());
    assert_eq!(copa.velocity.velocity, 1);
    assert_eq!(copa.velocity.direction, Direction::Up);
    assert_eq!(copa.velocity.last_cwnd, 0);
    assert_eq!(copa.rtt_min.min_rtt(), Duration::longest());
    assert_eq!(copa.rtt_standing.min_rtt(), Duration::longest());
    assert_eq!(copa.rtt_max.max_rtt(), Duration::zero());
}

#[test]
fn copa_doubles_without_a_queue() {
    let mut copa = controller();
    let rate = copa.on_ack(at(50), ms(50), ms(50));
    assert_eq!(rate, 96_000);
    assert_eq!(copa.target_rate, 96_000);
    assert!(copa.increase_cwnd);
    assert!(copa.slow_start);
    assert_eq!(copa.mode, CompetingMode::Default);
    assert_eq!(copa.window(), 9600);
    copa.on_ack(at(100), ms(50), ms(50));
    assert_eq!(copa.window(), 19_200);
    assert_eq!(copa.velocity.last_cwnd, 0);
}

#[test]
fn copa_leaves_slow_start_when_a_queue_builds() {
    let mut copa = controller();
    copa.on_ack(at(50), ms(50), ms(50));
    let rate = copa.on_ack(at(80), ms(100), ms(56));
    assert_eq!(copa.queueing_delay, ms(50));
    assert_eq!(rate, 96_000);
    assert_eq!(copa.target_rate, 48_000);
    assert!(!copa.increase_cwnd);
    assert!(!copa.slow_start);
    assert_eq!(copa.mode, CompetingMode::Competitive);
    assert_eq!(copa.delta, F64(0.5 / 1.5));
    assert_eq!(copa.velocity.direction, Direction::Down);
    assert_eq!(copa.velocity.last_cwnd, 9600);
    // 4 * 1 * 1200 / (9600 / 3) is 1.5.
    assert_eq!(copa.window(), 9599);
    // An empty queue afterwards grows the window in steps: slow start is over.
    copa.on_ack(at(200), ms(50), ms(10));
    assert!(copa.increase_cwnd);
    assert!(!copa.slow_start);
    assert_eq!(copa.mode, CompetingMode::Default);
    assert_eq!(copa.delta, F64(0.5));
    assert_eq!(copa.window(), 9600);
}

#[test]
fn copa_loss_counts_in_competition_only() {
    let mut copa = controller();
    copa.on_congestion_event(at(0), at(0), false, 1200);
    assert_eq!(copa.delta, F64(0.5));
    copa.mode = CompetingMode::Competitive;
    copa.delta = F64(0.125);
    copa.on_congestion_event(at(0), at(0), true, 1200);
    assert_eq!(copa.delta, F64(0.25));
    copa.delta = F64(0.375);
    copa.on_congestion_event(at(0), at(0), true, 1200);
    assert_eq!(copa.delta, F64(0.5));
}

#[test]
fn copa_weight_in_competition_is_capped() {
    let mut copa = controller();
    copa.delta = F64(3.0);
    copa.switch_mode(true);
    assert_eq!(copa.delta, F64(0.5));
    copa.switch_mode(true);
    assert_eq!(copa.delta, F64(0.5 / 1.5));
    assert_eq!(copa.mode, CompetingMode::Competitive);
    copa.switch_mode(false);
    assert_eq!(copa.delta, F64(0.5));
    assert_eq!(copa.mode, CompetingMode::Default);
}

#[test]
fn copa_competes_from_a_tenth_of_the_range() {
    let mut copa = controller();
    copa.observe(ms(100), at(10), ms(50));
    copa.observe(ms(200), at(20), ms(50));
    copa.queueing_delay = ms(9);
    copa.update_mode();
    assert_eq!(copa.mode, CompetingMode::Default);
    copa.queueing_delay = ms(11);
    copa.update_mode();
    assert_eq!(copa.mode, CompetingMode::Competitive);
}

#[test]
fn copa_observes_samples() {
    let mut copa = controller();
    copa.observe(ms(100), at(10), ms(50));
    assert_eq!(copa.queueing_delay, Duration::zero());
    copa.observe(ms(130), at(100), ms(50));
    assert_eq!(copa.queueing_delay, ms(30));
    assert_eq!(copa.rtt_max.max_rtt(), ms(130));
    assert_eq!(copa.rtt_min.min_rtt(), ms(100));
    assert_eq!(copa.rtt_standing.min_rtt(), ms(130));
}

#[test]
fn copa_aims_at_the_target() {
    let mut copa = controller();
    copa.queueing_delay = ms(1);
    copa.aim(100, 99);
    assert!(!copa.increase_cwnd);
    assert_eq!(copa.target_rate, 99);
    copa.aim(100, 100);
    assert!(!copa.increase_cwnd);
    copa.aim(100, 101);
    assert!(copa.increase_cwnd);
    copa.queueing_delay = Duration::zero();
    copa.aim(100, 99);
    assert!(copa.increase_cwnd);
}

#[test]
fn copa_velocity_first_step() {
    let mut copa = controller();
    copa.increase_cwnd = true;
    copa.update_velocity();
    assert_eq!(copa.velocity.last_cwnd, 0);
    copa.slow_start = false;
    copa.cwnd = 100;
    copa.update_velocity();
    assert_eq!(copa.velocity.direction, Direction::Down);
    assert_eq!(copa.velocity.last_cwnd, 4800);
    assert_eq!(copa.velocity.velocity, 1);
}

#[test]
fn copa_velocity_doubles_from_the_third_step() {
    let mut copa = controller();
    copa.slow_start = false;
    copa.increase_cwnd = true;
    copa.velocity = Velocity { direction: Direction::Down, velocity: 8, last_cwnd: 1, same_direction_cnt: 9 };
    copa.update_velocity();
    assert_eq!((copa.velocity.velocity, copa.velocity.same_direction_cnt), (1, 0));
    assert_eq!(copa.velocity.direction, Direction::Up);
    assert_eq!(copa.velocity.last_cwnd, 4800);
    copa.update_velocity();
    assert_eq!((copa.velocity.velocity, copa.velocity.same_direction_cnt), (1, 1));
    copa.update_velocity();
    assert_eq!((copa.velocity.velocity, copa.velocity.same_direction_cnt), (1, 2));
    copa.update_velocity();
    assert_eq!((copa.velocity.velocity, copa.velocity.same_direction_cnt), (2, 3));
    copa.update_velocity();
    assert_eq!((copa.velocity.velocity, copa.velocity.same_direction_cnt), (4, 4));
    copa.increase_cwnd = false;
    copa.update_velocity();
    assert_eq!((copa.velocity.velocity, copa.velocity.same_direction_cnt), (1, 0));
}

#[test]
fn copa_velocity_saturates() {
    let mut copa = controller();
    copa.slow_start = false;
    copa.increase_cwnd = false;
    copa.velocity = Velocity {
        direction: Direction::Down,
        velocity: u64::MAX / 2 + 1,
        last_cwnd: 1,
        same_direction_cnt: u64::MAX,
    };
    copa.update_velocity();
    assert_eq!(copa.velocity.velocity, u64::MAX);
    assert_eq!(copa.velocity.same_direction_cnt, u64::MAX);
}

#[test]
fn copa_exhausted_window_starts_again() {
    let mut copa = controller();
    copa.slow_start = false;
    copa.increase_cwnd = false;
    copa.velocity.velocity = 64;
    copa.cwnd = 6000;
    copa.move_cwnd(6000);
    assert_eq!(copa.window(), 4800);
    assert_eq!(copa.velocity.velocity, 1);
    copa.cwnd = 6000;
    copa.move_cwnd(10_000);
    assert_eq!(copa.window(), 4800);
    copa.velocity.velocity = 64;
    copa.increase_cwnd = true;
    copa.cwnd = 0;
    copa.move_cwnd(0);
    assert_eq!(copa.window(), 4800);
    assert_eq!(copa.velocity.velocity, 1);
}

#[test]
fn copa_window_stops_at_its_minimum() {
    let mut copa = controller();
    copa.update_cwnd();
    assert_eq!(copa.window(), 4800);
    assert!(!copa.slow_start);
    copa.velocity.velocity = 64;
    copa.cwnd = 4801;
    copa.move_cwnd(1);
    assert_eq!(copa.window(), 4800);
    copa.move_cwnd(2);
    assert_eq!(copa.window(), 4800);
    assert_eq!(copa.velocity.velocity, 64);
    copa.cwnd = 100;
    copa.move_cwnd(1);
    assert_eq!(copa.window(), 4800);
}

#[test]
fn copa_grows_from_below_its_minimum_in_steps() {
    let mut copa = controller();
    copa.slow_start = false;
    copa.increase_cwnd = true;
    copa.cwnd = 100;
    copa.move_cwnd(7);
    assert_eq!(copa.window(), 107);
}

#[test]
fn copa_latest_sample_gives_the_delay_if_configured() {
    let mut config: CopaConfig<F64> = CopaConfig::default();
    config.use_standing_rtt = false;
    let mut latest = Copa::new(Arc::new(config), at(1), 1200);
    let mut standing = controller();
    latest.observe(ms(100), at(10), ms(50));
    standing.observe(ms(100), at(10), ms(50));
    latest.observe(ms(130), at(20), ms(50));
    standing.observe(ms(130), at(20), ms(50));
    assert_eq!(latest.queueing_delay, ms(30));
    assert_eq!(standing.queueing_delay, Duration::zero());
}

#[test]
fn copa_leaves_slow_start_when_the_target_is_reached() {
    let mut copa = controller();
    copa.on_ack(at(50), ms(50), ms(50));
    copa.cwnd = 4800;
    // 4800 bytes in 100 ms, and 1200 / 0.5 bytes in 50 ms.
    let rate = copa.on_ack(at(80), ms(100), ms(56));
    assert_eq!(rate, 48_000);
    assert_eq!(copa.target_rate, 48_000);
    assert!(!copa.increase_cwnd);
    assert!(!copa.slow_start);
}

#[test]
fn copa_same_acknowledgements_same_window() {
    let (mut a, mut b) = (controller(), controller());
    let mut n = 1;
    while n < 50 {
        let rtt = ms(50 + (n * 37) % 60);
        assert_eq!(a.on_ack(at(n * 30), rtt, rtt), b.on_ack(at(n * 30), rtt, rtt));
        assert_eq!(a.window(), b.window());
        assert!(a.window() >= 4800);
        assert!(a.delta.0 > 0.0 && a.delta.0 <= 0.5);
        n += 1;
    }
}

#[test]
fn copa_window_saturates() {
    let mut copa = controller();
    copa.slow_start = false;
    copa.increase_cwnd = true;
    copa.cwnd = u64::MAX - 1;
    copa.move_cwnd(5);
    assert_eq!(copa.window(), u64::MAX);
}

#[test]
fn copa_step_of_the_window() {
    let mut copa = controller();
    copa.slow_start = false;
    copa.increase_cwnd = true;
    copa.velocity.velocity = 16;
    copa.cwnd = 4800;
    // 4 * 16 * 1200 / (0.5 * 4800) is 32.
    copa.update_cwnd();
    assert_eq!(copa.window(), 4832);
}

#[test]
fn copa_notes_the_last_packet_sent_and_ignores_the_datagram_size() {
    let mut copa = controller();
    copa.on_sent(at(0), 1200, 7);
    copa.on_mtu_update(9000);
    assert_eq!(copa.window(), 4800);
    assert_eq!(copa.last_sent_pkt_num, 7);
}
