//! The state of the path model.
use vstd::prelude::*;

use crate::scalar::Scalar;
use crate::time::{Duration, Instant, MAX_SPAN_NANOS};

verus! {

/// The phases of a flow.
#[derive(Debug, Clone, Copy, PartialEq, Eq, Structural)]
pub enum BBR2StateMachine {
    Startup,
    Drain,
    ProbeBWDOWN,
    ProbeBWCRUISE,
    ProbeBWREFILL,
    ProbeBWUP,
    ProbeRTT,
}

/// What acknowledgements tell of a bandwidth probe.
#[derive(Debug, Clone, Copy, PartialEq, Eq, Structural)]
pub enum BBR2AckPhase {
    Init,
    ProbeFeedback,
    ProbeStarting,
    ProbeStopping,
    Refilling,
}

/// One packet, or several at once, that an acknowledgement covers.
#[derive(Debug, Clone, Copy)]
pub struct Acked {
    /// The packet number.
    pub pkt_num: u64,
    /// When the packet was sent.
    pub time_sent: Option<Instant>,
    /// The bytes acknowledged.
    pub size: usize,
    /// The round-trip time.
    pub rtt: Duration,
    /// The bytes delivered on the connection when the packet was sent.
    pub delivered: usize,
    /// When those had been delivered.
    pub delivered_time: Instant,
    /// When the first packet of the sample was sent.
    pub first_sent_time: Instant,
    /// Whether the application had no more to send.
    pub is_app_limited: bool,
}

/// The variables of the path model.
#[derive(Debug, Clone, Copy)]
pub struct State<R> {
    /// The bytes estimated to be in flight when the packet just acknowledged was sent.
    pub tx_in_flight: usize,
    /// The bytes declared lost between the sending of that packet and its acknowledgement.
    pub lost: usize,
    /// The bytes acknowledged by the last acknowledgement.
    pub newly_acked_bytes: usize,
    /// The bytes marked lost by the last acknowledgement.
    pub newly_lost_bytes: usize,
    /// The rate at which packets are sent, in bytes per second.
    pub pacing_rate: u64,
    /// The pacing rate at the start.
    pub init_pacing_rate: u64,
    /// The factor on the bandwidth that gives the pacing rate.
    pub pacing_gain: R,
    /// The factor on the bandwidth-delay product that gives the window.
    pub cwnd_gain: R,
    /// Whether the window is bound by packet conservation.
    pub packet_conservation: bool,
    /// The phase of the flow.
    pub state: BBR2StateMachine,
    /// How many round trips have passed.
    pub round_count: u64,
    /// Whether the last acknowledgement began a round trip.
    pub round_start: bool,
    /// The delivered bytes at which the current round trip ends.
    pub next_round_delivered: usize,
    /// Whether the connection restarts after being idle.
    pub idle_restart: bool,
    /// The highest recent bandwidth sample.
    pub max_bw: u64,
    /// The bandwidth that the long-term model allows.
    pub bw_hi: u64,
    /// The bandwidth that the short-term model allows.
    pub bw_lo: u64,
    /// The bandwidth that the whole model allows.
    pub bw: u64,
    /// The shortest recent round-trip time.
    pub min_rtt: Duration,
    /// The bandwidth-delay product.
    pub bdp: usize,
    /// The bytes by which acknowledgements are ahead of the bandwidth.
    pub extra_acked: usize,
    /// The bytes that keep offload mechanisms busy.
    pub offload_budget: usize,
    /// The bytes in flight that use the bandwidth in full.
    pub max_inflight: usize,
    /// The bytes in flight that the long-term model allows.
    pub inflight_hi: usize,
    /// The bytes in flight that the short-term model allows.
    pub inflight_lo: usize,
    /// The highest bandwidth sample of the last round trip.
    pub bw_latest: u64,
    /// The most bytes delivered in the last round trip.
    pub inflight_latest: usize,
    /// The virtual time of the bandwidth filter.
    pub cycle_count: u64,
    /// When the measuring of early acknowledgements began.
    pub extra_acked_interval_start: Instant,
    /// The bytes counted since then.
    pub extra_acked_delivered: usize,
    /// Whether the bandwidth has ever been used in full.
    pub filled_pipe: bool,
    /// The bandwidth that growth in the startup phase is held against.
    pub full_bw: u64,
    /// The round trips without much growth.
    pub full_bw_count: usize,
    /// When `min_rtt` was sampled.
    pub min_rtt_stamp: Instant,
    /// The shortest round-trip time since the last probe for it.
    pub probe_rtt_min_delay: Duration,
    /// When `probe_rtt_min_delay` was sampled.
    pub probe_rtt_min_stamp: Instant,
    /// Whether `probe_rtt_min_delay` is due for a refresh.
    pub probe_rtt_expired: bool,
    /// Whether the flow is in recovery.
    pub in_recovery: bool,
    /// When the connection started.
    pub start_time: Instant,
    /// The window before recovery.
    pub prior_cwnd: usize,
    /// Whether there are samples of a bandwidth probe.
    pub bw_probe_samples: bool,
    /// The bytes to be acknowledged before `inflight_hi` grows.
    pub probe_up_cnt: usize,
    /// The bytes in flight before the last acknowledgement.
    pub prior_bytes_in_flight: usize,
    /// When the probe for the round-trip time may end.
    pub probe_rtt_done_stamp: Option<Instant>,
    /// Whether that probe has taken a round trip.
    pub probe_rtt_round_done: bool,
    /// The time between two bandwidth probes.
    pub bw_probe_wait: Duration,
    /// The round trips since the last bandwidth probe.
    pub rounds_since_probe: usize,
    /// When the current probing cycle began.
    pub cycle_stamp: Instant,
    /// What acknowledgements tell of the bandwidth probe.
    pub ack_phase: BBR2AckPhase,
    /// The round trips in which the probe has gone up.
    pub bw_probe_up_rounds: usize,
    /// The bytes acknowledged while it goes up.
    pub bw_probe_up_acks: usize,
    /// Whether the last acknowledgement began a round of losses.
    pub loss_round_start: bool,
    /// The delivered bytes at which that round ends.
    pub loss_round_delivered: usize,
    /// Whether data was lost in that round.
    pub loss_in_round: bool,
    /// How often.
    pub loss_events_in_round: usize,
}

impl<R: Scalar> State<R> {
    /// The state at the start of a flow, at `now`: no limit is known, and both gains are
    /// zero.
    pub fn new(now: Instant) -> (state: Self)
        ensures
            state == (State {
                tx_in_flight: 0,
                lost: 0,
                newly_acked_bytes: 0,
                newly_lost_bytes: 0,
                pacing_rate: 0,
                init_pacing_rate: 0,
                pacing_gain: state.pacing_gain,
                cwnd_gain: state.cwnd_gain,
                packet_conservation: false,
                state: BBR2StateMachine::Startup,
                round_count: 0,
                round_start: false,
                next_round_delivered: 0,
                idle_restart: false,
                max_bw: 0,
                bw_hi: u64::MAX,
                bw_lo: u64::MAX,
                bw: 0,
                min_rtt: Duration::of(MAX_SPAN_NANOS as int),
                bdp: 0,
                extra_acked: 0,
                offload_budget: 0,
                max_inflight: 0,
                inflight_hi: usize::MAX,
                inflight_lo: usize::MAX,
                bw_latest: 0,
                inflight_latest: 0,
                cycle_count: 0,
                extra_acked_interval_start: now,
                extra_acked_delivered: 0,
                filled_pipe: false,
                full_bw: 0,
                full_bw_count: 0,
                min_rtt_stamp: now,
                probe_rtt_min_delay: Duration::of(MAX_SPAN_NANOS as int),
                probe_rtt_min_stamp: now,
                probe_rtt_expired: false,
                in_recovery: false,
                start_time: now,
                prior_cwnd: 0,
                bw_probe_samples: false,
                probe_up_cnt: 0,
                prior_bytes_in_flight: 0,
                probe_rtt_done_stamp: None,
                probe_rtt_round_done: false,
                bw_probe_wait: Duration::of(0),
                rounds_since_probe: 0,
                cycle_stamp: now,
                ack_phase: BBR2AckPhase::Init,
                bw_probe_up_rounds: 0,
                bw_probe_up_acks: 0,
                loss_round_start: false,
                loss_round_delivered: 0,
                loss_in_round: false,
                loss_events_in_round: 0,
            }),
            call_ensures(R::from_u64, (0u64,), state.pacing_gain),
            call_ensures(R::from_u64, (0u64,), state.cwnd_gain),
    {
        State {
            tx_in_flight: 0,
            lost: 0,
            newly_acked_bytes: 0,
            newly_lost_bytes: 0,
            pacing_rate: 0,
            init_pacing_rate: 0,
            pacing_gain: R::from_u64(0),
            cwnd_gain: R::from_u64(0),
            packet_conservation: false,
            state: BBR2StateMachine::Startup,
            round_count: 0,
            round_start: false,
            next_round_delivered: 0,
            idle_restart: false,
            max_bw: 0,
            bw_hi: u64::MAX,
            bw_lo: u64::MAX,
            bw: 0,
            min_rtt: Duration::longest(),
            bdp: 0,
            extra_acked: 0,
            offload_budget: 0,
            max_inflight: 0,
            inflight_hi: usize::MAX,
            inflight_lo: usize::MAX,
            bw_latest: 0,
            inflight_latest: 0,
            cycle_count: 0,
            extra_acked_interval_start: now,
            extra_acked_delivered: 0,
            filled_pipe: false,
            full_bw: 0,
            full_bw_count: 0,
            min_rtt_stamp: now,
            probe_rtt_min_delay: Duration::longest(),
            probe_rtt_min_stamp: now,
            probe_rtt_expired: false,
            in_recovery: false,
            start_time: now,
            prior_cwnd: 0,
            bw_probe_samples: false,
            probe_up_cnt: 0,
            prior_bytes_in_flight: 0,
            probe_rtt_done_stamp: None,
            probe_rtt_round_done: false,
            bw_probe_wait: Duration::zero(),
            rounds_since_probe: 0,
            cycle_stamp: now,
            ack_phase: BBR2AckPhase::Init,
            bw_probe_up_rounds: 0,
            bw_probe_up_acks: 0,
            loss_round_start: false,
            loss_round_delivered: 0,
            loss_in_round: false,
            loss_events_in_round: 0,
        }
    }

    /// The state in which acknowledgements are ahead by `excess` bytes.
    pub open spec fn with_excess(self, excess: usize) -> Self {
        State {
            extra_acked: excess,
            extra_acked_delivered: (self.extra_acked_delivered + excess) as usize,
            ..self
        }
    }

    /// Notes that acknowledgements are ahead by `excess` bytes.
    pub fn add_excess(&mut self, excess: usize)
        requires
            old(self).extra_acked_delivered + excess <= usize::MAX,
        ensures
            *final(self) == old(self).with_excess(excess),
    {
        self.extra_acked = excess;
        self.extra_acked_delivered = self.extra_acked_delivered + excess;
    }
}

} // verus!
