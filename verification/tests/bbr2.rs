use std::sync::Arc;

use congestion::bbr2::aggregation::{AckAggregationState, MaxFilter};
use congestion::bbr2::model::{BandwidthModel, PathModel};
use congestion::bbr2::recovery::{LossState, RecoveryState};
use congestion::bbr2::state::{Acked, BBR2AckPhase, BBR2StateMachine, State};
use congestion::bbr2::{calculate_min_window, Bbr2, BbrConfig2};
use congestion::scalar::Scalar;
use congestion::time::{Duration, Instant};

#[derive(Debug, Clone, Copy, PartialEq)]
struct F64(f64);

impl Scalar for F64 {
    fn from_u64(n: u64) -> Self {
        F64(n as f64)
    }

    fn to_u64(self) -> u64 {
        self.0 as u64
    }

    fn from_secs(span: Duration) -> Self {
        F64((span.nanos / 1_000_000_000) as f64 + (span.nanos % 1_000_000_000) as f64 / 1e9)
    }

    fn shorten(span: Duration, divisor: Self) -> Duration {
        let secs = F64::from_secs(span).0 / divisor.0;
        Duration { nanos: std::time::Duration::from_secs_f64(secs).as_nanos() }
    }

    fn plus(self, other: Self) -> Self {
        F64(self.0 + other.0)
    }

    fn minus(self, other: Self) -> Self {
        F64(self.0 - other.0)
    }

    fn times(self, other: Self) -> Self {
        F64(self.0 * other.0)
    }

    fn over(self, other: Self) -> Self {
        F64(self.0 / other.0)
    }

    fn least(self, other: Self) -> Self {
        F64(self.0.min(other.0))
    }

    fn at_most(self, other: Self) -> bool {
        self.0 <= other.0
    }
}

/// A bandwidth estimate that is set by hand and keeps a record of its calls.
#[derive(Debug, Clone, Default)]
struct Bandwidth {
    acked: u64,
    estimate: u64,
    calls: Vec<String>,
}

impl Bandwidth {
    fn called(&self, call: String) -> Self {
        let mut next = self.clone();
        next.calls.push(call);
        next
    }
}

impl BandwidthModel for Bandwidth {
    fn initial() -> Self {
        Bandwidth::default()
    }

    fn on_sent(&self, _now: Instant, bytes: u64) -> Self {
        self.called(format!("sent {}", bytes))
    }

    fn on_ack(&self, _now: Instant, _sent: Instant, bytes: u64, round: u64, app_limited: bool) -> Self {
        self.called(format!("ack {} {} {}", bytes, round, app_limited))
    }

    fn bytes_acked_this_window(&self) -> u64 {
        self.acked
    }

    fn get_estimate(&self) -> u64 {
        self.estimate
    }

    fn end_acks(&self, round: u64, app_limited: bool) -> Self {
        self.called(format!("end {} {}", round, app_limited))
    }
}

/// A filter that keeps all it is given.
#[derive(Debug, Clone, Default, PartialEq)]
struct Kept(Vec<(u64, u64)>);

impl MaxFilter for Kept {
    fn initial() -> Self {
        Kept::default()
    }

    fn update_max(&self, round: u64, value: u64) -> Self {
        let mut next = self.clone();
        next.0.push((round, value));
        next
    }
}

/// A path model that leaves traces in fields that nothing else writes.
struct Trace;

type Controller = Bbr2<F64, Bandwidth, Kept>;

impl PathModel<F64, Bandwidth, Kept> for Trace {
    fn bbr2_init(controller: &Controller) -> Controller {
        let mut next = controller.clone();
        next.bbr2_state.pacing_rate = 777;
        next
    }

    fn bbr2_on_transmit(controller: &Controller, bytes_in_flight: usize, _now: Instant) -> Controller {
        let mut next = controller.clone();
        next.bbr2_state.tx_in_flight = bytes_in_flight;
        next
    }

    fn bbr2_update_model_and_state(controller: &Controller, bytes_in_flight: usize, _now: Instant) -> Controller {
        let mut next = controller.clone();
        next.bbr2_state.inflight_latest = bytes_in_flight + next.bbr2_state.newly_acked_bytes;
        next
    }

    fn bbr2_update_control_parameters(controller: &Controller, _bytes_in_flight: usize, _now: Instant) -> Controller {
        let mut next = controller.clone();
        next.send_quantum += 1;
        next
    }

    fn bbr2_update_on_loss(controller: &Controller, lost_bytes: usize, _now: Instant) -> Controller {
        let mut next = controller.clone();
        next.bbr2_state.lost += lost_bytes;
        next
    }

    fn bbr2_save_cwnd(controller: &Controller) -> usize {
        controller.congestion_window
    }

    fn bbr2_restore_cwnd(controller: &Controller) -> Controller {
        let mut next = controller.clone();
        next.congestion_window = next.bbr2_state.prior_cwnd;
        next
    }
}

fn at(n: u64) -> Instant {
    Instant { nanos: 5_000_000_000 + n as u128 * 1_000_000 }
}

fn controller() -> Controller {
    Bbr2::new::<Trace>(Arc::new(BbrConfig2::default()), 1400, at(0))
}

#[test]
fn bbr2_configuration() {
    let mut config = BbrConfig2::default();
    assert_eq!(config.initial_window, 240_000);
    config.initial_window(1).initial_window(20_000);
    assert_eq!(config.initial_window, 20_000);
}

#[test]
fn bbr2_min_window() {
    assert_eq!(calculate_min_window(1200), 4800);
    assert_eq!(calculate_min_window(0), 0);
}

#[test]
fn bbr2_initial_state() {
    let state: State<F64> = State::new(at(3));
    assert_eq!(state.state, BBR2StateMachine::Startup);
    assert_eq!(state.ack_phase, BBR2AckPhase::Init);
    assert_eq!(state.pacing_gain, F64(0.0));
    assert_eq!(state.cwnd_gain, F64(0.0));
    assert_eq!((state.bw_hi, state.bw_lo, state.bw), (u64::MAX, u64::MAX, 0));
    assert_eq!((state.inflight_hi, state.inflight_lo), (usize::MAX, usize::MAX));
    assert_eq!(state.min_rtt, Duration::longest());
    assert_eq!(state.probe_rtt_min_delay, Duration::longest());
    assert_eq!(state.bw_probe_wait, Duration::zero());
    assert_eq!(state.min_rtt_stamp, at(3));
    assert_eq!(state.probe_rtt_min_stamp, at(3));
    assert_eq!(state.extra_acked_interval_start, at(3));
    assert_eq!(state.start_time, at(3));
    assert_eq!(state.cycle_stamp, at(3));
    assert_eq!(state.probe_rtt_done_stamp, None);
    assert!(!state.filled_pipe && !state.in_recovery && !state.packet_conservation);
    assert_eq!((state.prior_cwnd, state.full_bw, state.cycle_count), (0, 0, 0));
}

#[test]
fn bbr2_starts_with_the_configured_window() {
    let bbr2 = controller();
    assert_eq!(bbr2.window(), 240_000);
    assert_eq!(bbr2.initial_window(), 240_000);
    assert_eq!(bbr2.init_cwnd, 240_000);
    assert_eq!(bbr2.min_cwnd, 5600);
    assert_eq!(bbr2.current_mtu, 1400);
    assert_eq!(bbr2.max_datagram_size, 1200);
    assert_eq!(bbr2.send_quantum, 1200);
    assert_eq!(bbr2.initial_congestion_window_packets, 10);
    assert_eq!(bbr2.min_rtt, Duration::longest());
    assert_eq!(bbr2.congestion_recovery_start_time, None);
    assert_eq!(bbr2.ack_aggregation.max_ack_height, Kept(vec![]));
    // The path model has set the controller up.
    assert_eq!(bbr2.bbr2_state.pacing_rate, 777);
}

#[test]
fn bbr2_sending_and_acknowledging() {
    let mut bbr2 = controller();
    bbr2.on_sent::<Trace>(at(1), 1000, 4);
    bbr2.on_sent::<Trace>(at(2), 500, 5);
    assert_eq!(bbr2.estimated_flight_size, 1500);
    assert_eq!(bbr2.bbr2_state.tx_in_flight, 1500);
    assert_eq!(bbr2.max_sent_packet_number, 5);
    bbr2.round_count = 3;
    bbr2.on_ack(at(40), at(1), 1000, true, Duration::from_millis(20));
    assert_eq!(bbr2.estimated_flight_size, 500);
    assert_eq!(bbr2.acked_bytes, 1000);
    bbr2.on_ack(at(41), at(2), 1500, false, Duration::from_millis(20));
    assert_eq!(bbr2.estimated_flight_size, 0);
    assert_eq!(bbr2.acked_bytes, 2500);
    assert_eq!(bbr2.max_bandwidth.calls, vec!["sent 1000", "sent 500", "ack 1000 3 true", "ack 1500 3 false"]);
}

#[test]
fn bbr2_flight_size_saturates() {
    let mut bbr2 = controller();
    bbr2.estimated_flight_size = usize::MAX - 1;
    bbr2.on_sent::<Trace>(at(1), 1000, 4);
    assert_eq!(bbr2.estimated_flight_size, usize::MAX);
}

#[test]
fn bbr2_min_rtt_is_replaced_when_it_expires_or_falls() {
    let mut bbr2 = controller();
    // The first sample is taken at once.
    bbr2.on_ack(at(200), at(100), 1, false, Duration::from_millis(100));
    assert_eq!(bbr2.min_rtt, Duration::from_millis(100));
    // A longer one is not, for ten seconds.
    bbr2.on_ack(at(10_000), at(0), 1, false, Duration::from_millis(120));
    assert_eq!(bbr2.min_rtt, Duration::from_millis(100));
    // Expired, but the application limits the flow.
    bbr2.on_ack(at(10_001), at(0), 1, true, Duration::from_millis(120));
    assert_eq!(bbr2.min_rtt, Duration::from_millis(100));
    bbr2.on_ack(at(10_001), at(0), 1, false, Duration::from_millis(120));
    assert_eq!(bbr2.min_rtt, Duration::from_millis(120));
    // A shorter one counts at once, a longer one does not.
    bbr2.on_ack(at(1), at(0), 1, true, Duration::from_millis(10));
    assert_eq!(bbr2.min_rtt, Duration::from_millis(10));
    bbr2.on_ack(at(9_000), at(0), 1, false, Duration::from_millis(30));
    assert_eq!(bbr2.min_rtt, Duration::from_millis(10));
}

#[test]
fn bbr2_resizing_keeps_the_cap_on_the_initial_window() {
    let mut config = BbrConfig2::default();
    config.initial_window(1_000_000);
    let mut bbr2: Controller = Bbr2::new::<Trace>(Arc::new(config), 1200, at(0));
    bbr2.on_mtu_update(1200);
    assert_eq!((bbr2.init_cwnd, bbr2.initial_window()), (240_000, 240_000));
    // Four datagrams of this size take more than two hundred packets.
    bbr2.on_mtu_update(65_000);
    assert_eq!((bbr2.init_cwnd, bbr2.initial_window()), (260_000, 240_000));
}

#[test]
fn bbr2_first_sample_counts_in_a_limited_flow() {
    let mut bbr2 = controller();
    bbr2.on_ack(at(0), at(0), 1, true, Duration::from_millis(100));
    assert_eq!(bbr2.min_rtt, Duration::from_millis(100));
}

#[test]
fn bbr2_initial_window_is_at_most_two_hundred_packets() {
    let mut config = BbrConfig2::default();
    config.initial_window(240_001);
    let bbr2: Controller = Bbr2::new::<Trace>(Arc::new(config), 1400, at(0));
    assert_eq!((bbr2.init_cwnd, bbr2.window()), (240_000, 240_000));
    assert_eq!(bbr2.initial_window(), 240_000);
    let mut bbr2 = bbr2;
    bbr2.on_mtu_update(1500);
    assert_eq!((bbr2.init_cwnd, bbr2.window()), (240_000, 240_000));
    config.initial_window(239_999);
    let bbr2: Controller = Bbr2::new::<Trace>(Arc::new(config), 1400, at(0));
    assert_eq!((bbr2.init_cwnd, bbr2.window()), (239_999, 239_999));
    assert_eq!(bbr2.initial_window(), 239_999);
}

#[test]
fn bbr2_loss_begins_recovery_once() {
    let mut bbr2 = controller();
    bbr2.on_sent::<Trace>(at(1), 50_000, 9);
    bbr2.bbr2_state.newly_acked_bytes = 100;
    bbr2.delivered = 77;
    bbr2.on_congestion_event::<Trace>(at(5), at(1), false, 2000);
    assert_eq!(bbr2.window(), 48_000 + 4800);
    assert_eq!(bbr2.bbr2_state.prior_cwnd, 240_000);
    assert_eq!(bbr2.congestion_recovery_start_time, Some(at(5)));
    assert_eq!(bbr2.end_recovery_at_packet_number, 9);
    assert_eq!(bbr2.bbr2_state.newly_lost_bytes, 2000);
    assert_eq!(bbr2.bbr2_state.lost, 2000);
    assert_eq!(bbr2.bbr2_state.next_round_delivered, 77);
    assert_eq!(bbr2.loss_state.lost_bytes, 2000);
    assert!(bbr2.bbr2_state.in_recovery && bbr2.bbr2_state.packet_conservation);
    assert!(bbr2.in_congestion_recovery(at(5)));
    assert!(!bbr2.in_congestion_recovery(at(6)));
    // A loss at the same time does not begin it again.
    bbr2.max_sent_packet_number = 12;
    bbr2.on_congestion_event::<Trace>(at(5), at(1), false, 1000);
    assert_eq!(bbr2.window(), 52_800);
    assert_eq!(bbr2.end_recovery_at_packet_number, 12);
    assert_eq!(bbr2.loss_state.lost_bytes, 3000);
    // A later one does.
    bbr2.bbr2_state.newly_acked_bytes = 9000;
    bbr2.on_congestion_event::<Trace>(at(6), at(1), false, 1000);
    assert_eq!(bbr2.window(), 49_000 + 9000);
    assert_eq!(bbr2.bbr2_state.prior_cwnd, 52_800);
}

#[test]
fn bbr2_loss_of_nothing_changes_no_window() {
    let mut bbr2 = controller();
    bbr2.max_sent_packet_number = 9;
    bbr2.on_congestion_event::<Trace>(at(5), at(1), false, 0);
    assert_eq!(bbr2.window(), 240_000);
    assert_eq!(bbr2.end_recovery_at_packet_number, 0);
    assert_eq!(bbr2.congestion_recovery_start_time, None);
}

#[test]
fn bbr2_recovery_ends_when_all_is_acknowledged() {
    let mut bbr2 = controller();
    bbr2.on_sent::<Trace>(at(1), 50_000, 9);
    bbr2.on_congestion_event::<Trace>(at(5), at(1), false, 2000);
    bbr2.max_bandwidth.acked = 3000;
    bbr2.max_bandwidth.estimate = 1_000_000;
    // Losses are outstanding.
    bbr2.on_end_acks::<Trace>(at(10), 40_000, false, Some(10));
    assert!(bbr2.bbr2_state.in_recovery);
    assert_eq!(bbr2.loss_state.lost_bytes, 0);
    assert_eq!(bbr2.bbr2_state.newly_lost_bytes, 0);
    assert_eq!(bbr2.prev_in_flight_count, 40_000);
    assert_eq!(bbr2.bbr2_state.inflight_latest, 43_000);
    assert_eq!(bbr2.send_quantum, 1201);
    // Packet 9 was sent before the loss.
    bbr2.on_end_acks::<Trace>(at(20), 30_000, false, Some(9));
    assert!(bbr2.bbr2_state.in_recovery);
    bbr2.on_end_acks::<Trace>(at(30), 30_000, false, Some(10));
    assert!(!bbr2.bbr2_state.in_recovery && !bbr2.bbr2_state.packet_conservation);
    assert_eq!(bbr2.congestion_recovery_start_time, None);
    assert_eq!(bbr2.window(), 240_000);
}

#[test]
fn bbr2_batches_are_counted() {
    let mut bbr2 = controller();
    bbr2.max_bandwidth.acked = 3000;
    bbr2.max_bandwidth.estimate = 1_000_000;
    bbr2.max_sent_packet_number = 20;
    bbr2.on_end_acks::<Trace>(at(10), 40_000, true, Some(7));
    assert_eq!(bbr2.delivered, 3000);
    assert_eq!((bbr2.in_flight_size, bbr2.estimated_flight_size), (40_000, 40_000));
    assert_eq!(bbr2.max_acked_packet_number, 7);
    assert_eq!(bbr2.round_count, 1);
    assert_eq!(bbr2.current_round_trip_end_packet_number, 20);
    assert_eq!(bbr2.bbr2_state.newly_acked_bytes, 3000);
    assert_eq!(bbr2.bbr2_state.prior_bytes_in_flight, 40_000);
    assert_eq!(bbr2.bbr2_state.extra_acked, 0);
    // One millisecond later a thousand bytes are accounted for.
    bbr2.on_end_acks::<Trace>(at(11), 40_000, false, None);
    assert_eq!(bbr2.round_count, 1);
    assert_eq!(bbr2.bbr2_state.extra_acked, 5000);
    assert_eq!(bbr2.bbr2_state.extra_acked_delivered, 5000);
    assert_eq!(bbr2.max_acked_packet_number, 7);
    assert_eq!(bbr2.ack_aggregation.max_ack_height, Kept(vec![(1, 5000)]));
    bbr2.on_end_acks::<Trace>(at(11), 40_000, false, Some(21));
    assert_eq!(bbr2.round_count, 2);
    assert_eq!(bbr2.bbr2_state.extra_acked_delivered, 13_000);
    assert_eq!(bbr2.max_bandwidth.calls, vec!["end 0 true", "end 1 false", "end 1 false"]);
}

#[test]
fn bbr2_batch_without_bytes_begins_no_round() {
    let mut bbr2 = controller();
    bbr2.on_end_acks::<Trace>(at(10), 40_000, true, Some(7));
    assert_eq!(bbr2.round_count, 0);
    assert_eq!(bbr2.max_acked_packet_number, 7);
}

#[test]
fn aggregation_begins_a_new_epoch_when_caught_up() {
    let mut epoch: AckAggregationState<Kept> = AckAggregationState::initial();
    assert_eq!(epoch.update_ack_aggregation_bytes(2000, at(0), 0, 1_000_000), 0);
    assert_eq!(epoch.aggregation_epoch_start_time, Some(at(0)));
    assert_eq!(epoch.aggregation_epoch_bytes, 2000);
    assert_eq!(epoch.update_ack_aggregation_bytes(500, at(1), 1, 1_000_000), 1500);
    assert_eq!(epoch.aggregation_epoch_bytes, 2500);
    // 2500 bytes take 2.5 milliseconds.
    assert_eq!(epoch.update_ack_aggregation_bytes(10, at(2), 2, 1_000_000), 510);
    assert_eq!(epoch.update_ack_aggregation_bytes(400, at(3), 3, 1_000_000), 0);
    assert_eq!(epoch.aggregation_epoch_start_time, Some(at(3)));
    assert_eq!(epoch.aggregation_epoch_bytes, 400);
    assert_eq!(epoch.max_ack_height, Kept(vec![(1, 1500), (2, 510)]));
}

#[test]
fn aggregation_burst_is_all_ahead() {
    let mut epoch: AckAggregationState<Kept> = AckAggregationState::initial();
    epoch.update_ack_aggregation_bytes(2000, at(0), 0, u64::MAX);
    assert_eq!(epoch.update_ack_aggregation_bytes(500, at(0), 0, u64::MAX), 2500);
}

#[test]
fn bbr2_datagram_size_sets_the_floor() {
    let mut bbr2 = controller();
    bbr2.congestion_window = 5000;
    bbr2.on_mtu_update(1300);
    assert_eq!((bbr2.current_mtu, bbr2.min_cwnd, bbr2.init_cwnd), (1300, 5200, 240_000));
    assert_eq!(bbr2.window(), 5200);
    bbr2.on_mtu_update(1200);
    assert_eq!((bbr2.min_cwnd, bbr2.window()), (4800, 5200));
    bbr2.on_mtu_update(65_535);
    assert_eq!((bbr2.init_cwnd, bbr2.window()), (262_140, 262_140));
}

#[test]
fn bbr2_pacing_window() {
    let mut bbr2 = controller();
    bbr2.bbr2_state.min_rtt = Duration::from_millis(100);
    bbr2.bbr2_state.pacing_rate = 0;
    assert_eq!(bbr2.pacing_window(), 240_000);
    bbr2.bbr2_state.pacing_rate = 1_000_000;
    assert_eq!(bbr2.pacing_window(), 100_000);
    // 48000 is a fifth of the window.
    bbr2.bbr2_state.pacing_rate = 480_000;
    assert_eq!(bbr2.pacing_window(), 48_000);
    bbr2.bbr2_state.pacing_rate = 479_980;
    assert_eq!(bbr2.pacing_window(), 240_000);
    bbr2.bbr2_state.pacing_rate = 100_000_000;
    bbr2.bbr2_state.min_rtt = Duration { nanos: 9_999_999 };
    assert_eq!(bbr2.pacing_window(), 240_000);
    bbr2.bbr2_state.min_rtt = Duration::from_millis(10);
    assert_eq!(bbr2.pacing_window(), 1_000_000);
    assert_eq!(bbr2.paced_window(4, 5), 240_000);
    assert_eq!(bbr2.paced_window(5, 5), 5);
}

#[test]
fn ten_milliseconds_are_a_hundredth_of_a_second() {
    assert!(!(F64::from_secs(Duration::from_millis(10)).0 < 0.01));
    assert!(F64::from_secs(Duration { nanos: 9_999_999 }).0 < 0.01);
}

#[test]
fn bbr2_rates_in_kilobits() {
    assert_eq!(Controller::rate_kbps(u64::MAX), -1);
    assert_eq!(Controller::rate_kbps(0), 0);
    assert_eq!(Controller::rate_kbps(1_000_000), 8000);
    assert_eq!(Controller::rate_kbps(124), 0);
    assert_eq!(Controller::rate_kbps(125), 1);
}

#[test]
fn bbr2_has_no_checkpoints() {
    let mut bbr2 = controller();
    bbr2.checkpoint();
    assert!(!bbr2.rollback());
    assert!(Controller::has_custom_pacing());
    assert_eq!(bbr2.window(), 240_000);
}

#[test]
fn loss_state_remembers_until_reset() {
    let mut state = LossState::default();
    assert!(!state.has_losses());
    state.lost_bytes = 1;
    assert!(state.has_losses());
    state.reset();
    assert!(!state.has_losses());
}

#[test]
fn recovery_states() {
    assert!(!RecoveryState::NotInRecovery.in_recovery());
    assert!(RecoveryState::Conservation.in_recovery());
    assert!(RecoveryState::Growth.in_recovery());
}

#[test]
fn acknowledged_packets_are_plain_values() {
    let packet = Acked {
        pkt_num: 1,
        time_sent: Some(at(0)),
        size: 1200,
        rtt: Duration::from_millis(30),
        delivered: 0,
        delivered_time: at(0),
        first_sent_time: at(0),
        is_app_limited: false,
    };
    let copy = packet;
    assert_eq!((copy.pkt_num, copy.size, copy.rtt), (1, 1200, packet.rtt));
}

#[test]
fn bbr2_refuses_a_batch_that_cannot_be_counted() {
    let mut bbr2 = controller();
    bbr2.max_bandwidth.acked = 3000;
    bbr2.max_bandwidth.estimate = u64::MAX;
    assert!(bbr2.try_on_end_acks::<Trace>(at(10), 40_000, true, Some(7)));
    assert_eq!(bbr2.delivered, 3000);
    // The bandwidth times the microseconds is out of range.
    assert!(!bbr2.try_on_end_acks::<Trace>(at(11), 30_000, true, Some(8)));
    assert_eq!(bbr2.delivered, 3000);
    assert_eq!(bbr2.max_acked_packet_number, 7);
    bbr2.max_bandwidth.estimate = 1_000_000;
    bbr2.delivered = usize::MAX - 2999;
    assert!(!bbr2.try_on_end_acks::<Trace>(at(11), 30_000, true, Some(8)));
    bbr2.delivered = usize::MAX - 3000;
    assert!(bbr2.try_on_end_acks::<Trace>(at(11), 30_000, true, Some(8)));
    assert_eq!(bbr2.delivered, usize::MAX);
}

#[test]
fn bbr2_refuses_to_lose_more_than_is_in_flight() {
    let mut bbr2 = controller();
    bbr2.on_sent::<Trace>(at(1), 1000, 9);
    assert!(!bbr2.try_on_congestion_event::<Trace>(at(5), 1001));
    assert_eq!(bbr2.loss_state.lost_bytes, 0);
    assert_eq!(bbr2.bbr2_state.newly_lost_bytes, 0);
    assert_eq!(bbr2.window(), 240_000);
    assert!(bbr2.try_on_congestion_event::<Trace>(at(5), 1000));
    assert_eq!(bbr2.window(), 4800);
    // In recovery nothing has to begin.
    assert!(bbr2.try_on_congestion_event::<Trace>(at(5), 2000));
    assert_eq!(bbr2.loss_state.lost_bytes, 3000);
    assert!(!bbr2.try_on_congestion_event::<Trace>(at(5), u64::MAX));
    assert_eq!(bbr2.loss_state.lost_bytes, 3000);
}

#[test]
fn aggregation_refuses_what_cannot_be_counted() {
    let mut epoch: AckAggregationState<Kept> = AckAggregationState::initial();
    assert_eq!(epoch.try_excess(2000, at(0), 1_000_000), Some(0));
    epoch.update_ack_aggregation_bytes(2000, at(0), 0, 1_000_000);
    assert_eq!(epoch.try_excess(500, at(1), 1_000_000), Some(1500));
    assert_eq!(epoch.try_excess(500, at(1), u64::MAX), None);
    assert_eq!(epoch.try_excess(u64::MAX, at(1), 1_000_000), None);
    assert_eq!(epoch.try_excess(u64::MAX, at(2), 1_000_000), Some(0));
}
