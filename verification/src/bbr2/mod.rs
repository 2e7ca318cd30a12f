//! The BBR version 2 congestion controller: a window that follows a model of the path.
//!
//! The controller keeps count of what is sent, acknowledged and lost and decides when
//! recovery begins and ends. The bandwidth estimate, the filter for early acknowledgements
//! and the model of the path are supplied by [`BandwidthModel`], [`MaxFilter`] and
//! [`PathModel`]; the contracts say what these are given and what becomes of their results.
use std::sync::Arc;
use vstd::prelude::*;

use crate::bbr2::aggregation::{AckAggregationState, MaxFilter};
use crate::bbr2::model::{BandwidthModel, PathModel};
use crate::bbr2::recovery::LossState;
use crate::bbr2::state::State;
use crate::scalar::{fraction, is_fraction, Scalar};
use crate::time::{Duration, Instant, MAX_SPAN_NANOS, NANOS_PER_MILLI, NANOS_PER_SEC};
use crate::BASE_DATAGRAM_SIZE;

pub mod aggregation;
pub mod count_laws;
pub mod laws;
pub mod model;
pub mod recovery;
pub mod state;

verus! {

/// The largest initial window in packets. It is also the one that holds unless a smaller
/// one is configured.
pub const K_MAX_INITIAL_CONGESTION_WINDOW: u64 = 200;

/// The length of the filter for the shortest round-trip time, in seconds.
pub const MIN_RTT_FILTER_LEN: u64 = 10;

/// The round-trip time in milliseconds below which pacing goes by the congestion window.
pub const MIN_PACED_RTT_MILLIS: u128 = 10;

/// Configuration of a [`Bbr2`] controller.
#[derive(Debug, Clone, Copy)]
pub struct BbrConfig2 {
    /// The window in bytes to start with. A flow starts with at most
    /// [`K_MAX_INITIAL_CONGESTION_WINDOW`] packets of it.
    pub initial_window: u64,
}

impl BbrConfig2 {
    /// Sets the limit on the amount of outstanding data, in bytes, at the start.
    ///
    /// Recommended value: `min(10 * max_datagram_size, max(2 * max_datagram_size, 14720))`
    pub fn initial_window(&mut self, value: u64) -> (config: &mut Self)
        ensures
            *config == (BbrConfig2 { initial_window: value }),
            *final(self) == *final(config),
    {
        self.initial_window = value;
        self
    }
}

impl Default for BbrConfig2 {
    fn default() -> (config: Self)
        ensures
            config.initial_window == 240_000,
    {
        BbrConfig2 { initial_window: K_MAX_INITIAL_CONGESTION_WINDOW * BASE_DATAGRAM_SIZE }
    }
}

/// The window in bytes that a flow starts with when `configured` bytes are asked for: no
/// more than [`K_MAX_INITIAL_CONGESTION_WINDOW`] packets.
pub open spec fn capped_window(configured: u64) -> u64 {
    if configured > K_MAX_INITIAL_CONGESTION_WINDOW * BASE_DATAGRAM_SIZE {
        (K_MAX_INITIAL_CONGESTION_WINDOW * BASE_DATAGRAM_SIZE) as u64
    } else {
        configured
    }
}

/// The window in bytes that a flow starts with when `configured` bytes are asked for.
fn cap_window(configured: u64) -> (bytes: u64)
    ensures
        bytes == capped_window(configured),
{
    if configured > K_MAX_INITIAL_CONGESTION_WINDOW * BASE_DATAGRAM_SIZE {
        K_MAX_INITIAL_CONGESTION_WINDOW * BASE_DATAGRAM_SIZE
    } else {
        configured
    }
}

/// The smallest window in bytes for datagrams of `current_mtu` bytes: four of them.
pub fn calculate_min_window(current_mtu: u64) -> (bytes: u64)
    requires
        4 * current_mtu <= u64::MAX,
    ensures
        bytes == 4 * current_mtu,
{
    4 * current_mtu
}

/// The BBR version 2 congestion controller.
#[derive(Debug, Clone)]
pub struct Bbr2<R, B, F> {
    /// The configuration.
    pub config: Arc<BbrConfig2>,
    /// The datagram size, in bytes, that the path carries.
    pub current_mtu: u64,
    /// The bandwidth estimate.
    pub max_bandwidth: B,
    /// The bytes acknowledged so far.
    pub acked_bytes: u64,
    /// The variables of the path model.
    pub bbr2_state: State<R>,
    /// The bytes lost since the last acknowledgement.
    pub loss_state: LossState,
    /// The window in bytes to start with.
    pub init_cwnd: u64,
    /// The smallest window in bytes.
    pub min_cwnd: u64,
    /// The bytes in flight after the last acknowledgement.
    pub prev_in_flight_count: u64,
    /// The shortest round-trip time. It is the longest span before the first sample, so
    /// that the first one is taken at once.
    pub min_rtt: Duration,
    /// The highest packet number acknowledged.
    pub max_acked_packet_number: u64,
    /// The last packet number sent.
    pub max_sent_packet_number: u64,
    /// The packet number whose acknowledgement ends recovery.
    pub end_recovery_at_packet_number: u64,
    /// The packet number whose acknowledgement ends the round trip.
    pub current_round_trip_end_packet_number: u64,
    /// The round trips so far.
    pub round_count: u64,
    /// How far acknowledgements are ahead of the bandwidth.
    pub ack_aggregation: AckAggregationState<F>,
    /// The largest datagram in bytes.
    pub max_datagram_size: usize,
    /// The bytes sent at once.
    pub send_quantum: usize,
    /// The bytes delivered so far.
    pub delivered: usize,
    /// The bytes by which acknowledgements are ahead.
    pub extra_acked: usize,
    /// The congestion window in bytes.
    pub congestion_window: usize,
    /// When recovery began.
    pub congestion_recovery_start_time: Option<Instant>,
    /// The bytes in flight at the last acknowledgement.
    pub in_flight_size: usize,
    /// Whether the application has no more to send.
    pub app_limited: bool,
    /// The initial window in packets.
    pub initial_congestion_window_packets: usize,
    /// The bytes estimated to be in flight.
    pub estimated_flight_size: usize,
    /// The latest round-trip time.
    pub latest_rtt: Duration,
}

/// `out` is what is sent at `rate` in `rtt`, in whole bytes.
pub open spec fn is_paced<R: Scalar>(rate: u64, rtt: Duration, out: u64) -> bool {
    exists|secs: R, speed: R, bytes: R|
        #![auto]
        {
            &&& call_ensures(R::from_secs, (rtt,), secs)
            &&& call_ensures(R::from_u64, (rate,), speed)
            &&& call_ensures(R::times, (speed, secs), bytes)
            &&& call_ensures(R::to_u64, (bytes,), out)
        }
}

/// What is sent at `rate` in `rtt`, in whole bytes.
fn paced<R: Scalar>(rate: u64, rtt: Duration) -> (out: u64)
    ensures
        is_paced::<R>(rate, rtt, out),
{
    let secs = R::from_secs(rtt);
    let speed = R::from_u64(rate);
    speed.times(secs).to_u64()
}

/// `out` is a fifth of `bytes`, in whole bytes.
pub open spec fn is_fifth<R: Scalar>(bytes: u64, out: u64) -> bool {
    exists|fifth: R, all: R, part: R|
        #![auto]
        {
            &&& is_fraction(1, 5, fifth)
            &&& call_ensures(R::from_u64, (bytes,), all)
            &&& call_ensures(R::times, (fifth, all), part)
            &&& call_ensures(R::to_u64, (part,), out)
        }
}

/// A fifth of `bytes`, in whole bytes.
fn fifth<R: Scalar>(bytes: u64) -> (out: u64)
    ensures
        is_fifth::<R>(bytes, out),
{
    let fifth: R = fraction(1, 5);
    let all = R::from_u64(bytes);
    fifth.times(all).to_u64()
}

impl<R: Scalar, B: BandwidthModel, F: MaxFilter> Bbr2<R, B, F> {
    /// `fresh` is a controller as it is made, before the path model has seen it.
    pub open spec fn is_fresh(
        config: Arc<BbrConfig2>,
        current_mtu: u16,
        now: Instant,
        fresh: Self,
    ) -> bool {
        &&& call_ensures(B::initial, (), fresh.max_bandwidth)
        &&& call_ensures(State::<R>::new, (now,), fresh.bbr2_state)
        &&& call_ensures(F::initial, (), fresh.ack_aggregation.max_ack_height)
        &&& fresh.ack_aggregation.aggregation_epoch_start_time is None
        &&& fresh.ack_aggregation.aggregation_epoch_bytes == 0
        &&& fresh == (Bbr2 {
            config,
            current_mtu: current_mtu as u64,
            max_bandwidth: fresh.max_bandwidth,
            acked_bytes: 0,
            bbr2_state: fresh.bbr2_state,
            loss_state: LossState { lost_bytes: 0 },
            init_cwnd: capped_window(config.initial_window),
            min_cwnd: (4 * current_mtu) as u64,
            prev_in_flight_count: 0,
            min_rtt: Duration::of(MAX_SPAN_NANOS as int),
            max_acked_packet_number: 0,
            max_sent_packet_number: 0,
            end_recovery_at_packet_number: 0,
            current_round_trip_end_packet_number: 0,
            round_count: 0,
            ack_aggregation: fresh.ack_aggregation,
            max_datagram_size: BASE_DATAGRAM_SIZE as usize,
            send_quantum: BASE_DATAGRAM_SIZE as usize,
            delivered: 0,
            extra_acked: 0,
            congestion_window: capped_window(config.initial_window) as usize,
            congestion_recovery_start_time: None,
            in_flight_size: 0,
            app_limited: false,
            initial_congestion_window_packets: 10,
            estimated_flight_size: 0,
            latest_rtt: Duration::of(0),
        })
    }

    /// A controller made at `now`, as the path model `M` sets it up.
    pub fn new<M: PathModel<R, B, F>>(
        config: Arc<BbrConfig2>,
        current_mtu: u16,
        now: Instant,
    ) -> (bbr2: Self)
        ensures
            exists|fresh: Self|
                {
                    &&& Self::is_fresh(config, current_mtu, now, fresh)
                    &&& #[trigger] call_ensures(M::bbr2_init, (&fresh,), bbr2)
                },
    {
        let initial_window: u64 = cap_window(config.initial_window);
        let mut bbr2 = Bbr2 {
            config,
            current_mtu: current_mtu as u64,
            max_bandwidth: B::initial(),
            acked_bytes: 0,
            bbr2_state: State::new(now),
            loss_state: LossState::default(),
            init_cwnd: initial_window,
            min_cwnd: calculate_min_window(current_mtu as u64),
            prev_in_flight_count: 0,
            min_rtt: Duration::longest(),
            max_acked_packet_number: 0,
            max_sent_packet_number: 0,
            end_recovery_at_packet_number: 0,
            current_round_trip_end_packet_number: 0,
            round_count: 0,
            ack_aggregation: AckAggregationState::initial(),
            max_datagram_size: BASE_DATAGRAM_SIZE as usize,
            send_quantum: BASE_DATAGRAM_SIZE as usize,
            delivered: 0,
            extra_acked: 0,
            congestion_window: initial_window as usize,
            congestion_recovery_start_time: None,
            in_flight_size: 0,
            app_limited: false,
            initial_congestion_window_packets: 10,
            estimated_flight_size: 0,
            latest_rtt: Duration::zero(),
        };
        assert(Self::is_fresh(config, current_mtu, now, bbr2));
        bbr2.on_init::<M>();
        bbr2
    }

    /// Lets the path model set the controller up.
    pub fn on_init<M: PathModel<R, B, F>>(&mut self)
        ensures
            call_ensures(M::bbr2_init, (&*old(self),), *final(self)),
    {
        *self = M::bbr2_init(self);
    }

    /// The bytes by which the window exceeds the bytes in flight when recovery begins.
    pub open spec fn recovery_allowance(self) -> int {
        if self.bbr2_state.newly_acked_bytes > self.max_datagram_size * 4 {
            self.bbr2_state.newly_acked_bytes as int
        } else {
            self.max_datagram_size * 4
        }
    }

    /// The state in which recovery has begun at `now`, with `prior_cwnd` to come back to.
    pub open spec fn recovery_entered(
        self,
        in_flight: usize,
        now: Instant,
        prior_cwnd: usize,
    ) -> Self {
        Bbr2 {
            congestion_window: (in_flight + self.recovery_allowance()) as usize,
            congestion_recovery_start_time: Some(now),
            bbr2_state: State {
                prior_cwnd,
                packet_conservation: true,
                in_recovery: true,
                next_round_delivered: self.delivered,
                ..self.bbr2_state
            },
            ..self
        }
    }

    /// Begins recovery at `now`, with `prior_cwnd` to come back to: the window is what is
    /// in flight and what was just acknowledged, but at least four datagrams.
    pub fn begin_recovery(&mut self, in_flight: usize, now: Instant, prior_cwnd: usize)
        requires
            in_flight + old(self).recovery_allowance() <= usize::MAX,
        ensures
            *final(self) == old(self).recovery_entered(in_flight, now, prior_cwnd),
    {
        self.bbr2_state.prior_cwnd = prior_cwnd;
        let four: usize = self.max_datagram_size * 4;
        self.congestion_window = in_flight + if self.bbr2_state.newly_acked_bytes > four {
            self.bbr2_state.newly_acked_bytes
        } else {
            four
        };
        self.congestion_recovery_start_time = Some(now);
        self.bbr2_state.packet_conservation = true;
        self.bbr2_state.in_recovery = true;
        self.bbr2_state.next_round_delivered = self.delivered;
    }

    /// `after` has begun recovery at `now`, with the window to come back to that the path
    /// model `M` gives.
    pub open spec fn entered<M: PathModel<R, B, F>>(
        self,
        in_flight: usize,
        now: Instant,
        after: Self,
    ) -> bool {
        exists|prior_cwnd: usize|
            {
                &&& #[trigger] call_ensures(M::bbr2_save_cwnd, (&self,), prior_cwnd)
                &&& after == self.recovery_entered(in_flight, now, prior_cwnd)
            }
    }

    /// Begins recovery at `now`.
    pub fn bbr2_enter_recovery<M: PathModel<R, B, F>>(&mut self, in_flight: usize, now: Instant)
        requires
            in_flight + old(self).recovery_allowance() <= usize::MAX,
        ensures
            old(self).entered::<M>(in_flight, now, *final(self)),
    {
        let prior_cwnd = M::bbr2_save_cwnd(self);
        self.begin_recovery(in_flight, now, prior_cwnd);
    }

    /// The state in which recovery is over.
    pub open spec fn recovery_ended(self) -> Self {
        Bbr2 {
            congestion_recovery_start_time: None,
            bbr2_state: State {
                packet_conservation: false,
                in_recovery: false,
                ..self.bbr2_state
            },
            ..self
        }
    }

    /// Ends recovery. The path model brings the window back.
    pub fn bbr2_exit_recovery<M: PathModel<R, B, F>>(&mut self)
        ensures
            call_ensures(M::bbr2_restore_cwnd, (&old(self).recovery_ended(),), *final(self)),
    {
        self.congestion_recovery_start_time = None;
        self.bbr2_state.packet_conservation = false;
        self.bbr2_state.in_recovery = false;
        *self = M::bbr2_restore_cwnd(self);
    }

    /// Whether what was sent at `sent_time` was sent before recovery began or just then.
    pub open spec fn in_recovery_at(self, sent_time: Instant) -> bool {
        match self.congestion_recovery_start_time {
            Some(start) => sent_time.nanos <= start.nanos,
            None => false,
        }
    }

    /// Whether what was sent at `sent_time` was sent before recovery began or just then.
    pub fn in_congestion_recovery(&self, sent_time: Instant) -> (recovering: bool)
        ensures
            recovering == self.in_recovery_at(sent_time),
    {
        match self.congestion_recovery_start_time {
            Some(start) => sent_time.nanos <= start.nanos,
            None => false,
        }
    }

    /// Tells the path model that packets were sent.
    pub fn on_packet_sent<M: PathModel<R, B, F>>(
        &mut self,
        _sent_bytes: usize,
        bytes_in_flight: usize,
        now: Instant,
    )
        ensures
            call_ensures(
                M::bbr2_on_transmit,
                (&*old(self), bytes_in_flight, now),
                *final(self),
            ),
    {
        *self = M::bbr2_on_transmit(self, bytes_in_flight, now);
    }

    /// Whether recovery is over: nothing was lost since the last acknowledgement, and
    /// what was sent before the loss has been acknowledged.
    pub open spec fn is_recovered(self) -> bool {
        &&& self.loss_state.lost_bytes == 0
        &&& self.max_acked_packet_number > self.end_recovery_at_packet_number
    }

    /// The state that is shown to the path model on an acknowledgement.
    pub open spec fn ack_noted(self, bytes_in_flight: usize, newly_acked: usize) -> Self {
        Bbr2 {
            bbr2_state: State {
                newly_acked_bytes: newly_acked,
                prior_bytes_in_flight: bytes_in_flight,
                ..self.bbr2_state
            },
            ..self
        }
    }

    /// Notes what an acknowledgement covers.
    fn note_ack(&mut self, bytes_in_flight: usize, newly_acked: usize)
        ensures
            *final(self) == old(self).ack_noted(bytes_in_flight, newly_acked),
    {
        self.bbr2_state.newly_acked_bytes = newly_acked;
        self.bbr2_state.prior_bytes_in_flight = bytes_in_flight;
    }

    /// The state that is shown to the path model on a loss.
    pub open spec fn loss_noted(self, lost_bytes: usize) -> Self {
        Bbr2 { bbr2_state: State { newly_lost_bytes: lost_bytes, ..self.bbr2_state }, ..self }
    }

    /// Notes what was lost.
    fn note_loss(&mut self, lost_bytes: usize)
        ensures
            *final(self) == old(self).loss_noted(lost_bytes),
    {
        self.bbr2_state.newly_lost_bytes = lost_bytes;
    }

    /// `after` has been through an acknowledgement of `newly_acked` bytes: the path model
    /// `M` is brought up to date, recovery ends if it is over, and `M` sets the window.
    pub open spec fn packets_acked<M: PathModel<R, B, F>>(
        self,
        bytes_in_flight: usize,
        newly_acked: usize,
        now: Instant,
        after: Self,
    ) -> bool {
        let noted = self.ack_noted(bytes_in_flight, newly_acked);
        exists|modelled: Self, settled: Self, controlled: Self|
            {
                &&& #[trigger] call_ensures(
                    M::bbr2_update_model_and_state,
                    (&noted, bytes_in_flight, now),
                    modelled,
                )
                &&& #[trigger] modelled.settled::<M>(settled)
                &&& #[trigger] call_ensures(
                    M::bbr2_update_control_parameters,
                    (&settled, bytes_in_flight, now),
                    controlled,
                )
                &&& after == controlled.loss_noted(0)
            }
    }

    /// `after` has ended recovery if it is over.
    pub open spec fn settled<M: PathModel<R, B, F>>(self, after: Self) -> bool {
        if self.is_recovered() {
            call_ensures(M::bbr2_restore_cwnd, (&self.recovery_ended(),), after)
        } else {
            after == self
        }
    }

    /// Ends recovery if it is over.
    pub fn settle<M: PathModel<R, B, F>>(&mut self)
        ensures
            old(self).settled::<M>(*final(self)),
    {
        if !self.loss_state.has_losses() && self.max_acked_packet_number
            > self.end_recovery_at_packet_number {
            self.bbr2_exit_recovery::<M>();
        }
    }

    /// Deals with an acknowledgement of `newly_acked_size` bytes.
    pub fn on_packets_acked<M: PathModel<R, B, F>>(
        &mut self,
        bytes_in_flight: usize,
        newly_acked_size: usize,
        now: Instant,
    )
        ensures
            old(self).packets_acked::<M>(bytes_in_flight, newly_acked_size, now, *final(self)),
    {
        self.note_ack(bytes_in_flight, newly_acked_size);
        *self = M::bbr2_update_model_and_state(self, bytes_in_flight, now);
        self.settle::<M>();
        *self = M::bbr2_update_control_parameters(self, bytes_in_flight, now);
        self.note_loss(0);
    }

    /// Whether recovery can begin if the path model's reaction to the loss calls for it:
    /// no more is lost than is in flight, and the window can be represented.
    pub open spec fn can_lose<M: PathModel<R, B, F>>(
        self,
        bytes_in_flight: usize,
        lost_bytes: usize,
        now: Instant,
    ) -> bool {
        forall|modelled: Self| #[trigger]
            call_ensures(
                M::bbr2_update_on_loss,
                (&self.loss_noted(lost_bytes), lost_bytes, now),
                modelled,
            ) ==> modelled.can_enter(bytes_in_flight, lost_bytes, now)
    }

    /// Whether a loss calls for no recovery, or recovery can begin: no more is lost than
    /// is in flight, and the window can be represented.
    pub open spec fn can_enter(
        self,
        bytes_in_flight: usize,
        lost_bytes: usize,
        now: Instant,
    ) -> bool {
        ||| lost_bytes == 0
        ||| self.in_recovery_at(now)
        ||| {
            &&& lost_bytes <= bytes_in_flight
            &&& bytes_in_flight - lost_bytes + self.recovery_allowance() <= usize::MAX
        }
    }

    /// Whether a loss calls for no recovery, or recovery can begin.
    pub fn is_enterable(&self, bytes_in_flight: usize, lost_bytes: usize, now: Instant) -> (
    enterable: bool)
        ensures
            enterable == self.can_enter(bytes_in_flight, lost_bytes, now),
    {
        if lost_bytes == 0 || self.in_congestion_recovery(now) {
            return true;
        }
        if lost_bytes > bytes_in_flight {
            return false;
        }
        let room: usize = usize::MAX - (bytes_in_flight - lost_bytes);
        match self.max_datagram_size.checked_mul(4) {
            Some(four) => four <= room && self.bbr2_state.newly_acked_bytes <= room,
            None => false,
        }
    }

    /// `after` has come out of a loss to which the path model `M` has reacted: recovery
    /// lasts until all that was sent is acknowledged, and it begins now if it has not
    /// begun yet.
    pub open spec fn marked<M: PathModel<R, B, F>>(
        self,
        bytes_in_flight: usize,
        lost_bytes: usize,
        now: Instant,
        after: Self,
    ) -> bool {
        let marked = Bbr2 {
            end_recovery_at_packet_number: self.max_sent_packet_number,
            ..self
        };
        if lost_bytes == 0 {
            after == self
        } else if self.in_recovery_at(now) {
            after == marked
        } else {
            marked.entered::<M>((bytes_in_flight - lost_bytes) as usize, now, after)
        }
    }

    /// Comes out of a loss to which the path model has reacted.
    pub fn mark_loss<M: PathModel<R, B, F>>(
        &mut self,
        bytes_in_flight: usize,
        lost_bytes: usize,
        now: Instant,
    )
        requires
            old(self).can_enter(bytes_in_flight, lost_bytes, now),
        ensures
            old(self).marked::<M>(bytes_in_flight, lost_bytes, now, *final(self)),
    {
        if lost_bytes != 0 {
            self.end_recovery_at_packet_number = self.max_sent_packet_number;
            if !self.in_congestion_recovery(now) {
                self.bbr2_enter_recovery::<M>(bytes_in_flight - lost_bytes, now);
            }
        }
    }

    /// `after` has been through a loss of `lost_bytes`: the path model `M` has reacted,
    /// recovery lasts until all that was sent is acknowledged, and it begins now if it
    /// has not begun yet.
    pub open spec fn lost<M: PathModel<R, B, F>>(
        self,
        bytes_in_flight: usize,
        lost_bytes: usize,
        now: Instant,
        after: Self,
    ) -> bool {
        exists|modelled: Self|
            {
                &&& #[trigger] call_ensures(
                    M::bbr2_update_on_loss,
                    (&self.loss_noted(lost_bytes), lost_bytes, now),
                    modelled,
                )
                &&& modelled.can_enter(bytes_in_flight, lost_bytes, now)
                &&& modelled.marked::<M>(bytes_in_flight, lost_bytes, now, after)
            }
    }

    /// Deals with a loss of `lost_bytes` of the `bytes_in_flight`.
    pub fn congestion_event<M: PathModel<R, B, F>>(
        &mut self,
        bytes_in_flight: usize,
        lost_bytes: usize,
        now: Instant,
    )
        requires
            old(self).can_lose::<M>(bytes_in_flight, lost_bytes, now),
        ensures
            old(self).lost::<M>(bytes_in_flight, lost_bytes, now, *final(self)),
    {
        self.note_loss(lost_bytes);
        *self = M::bbr2_update_on_loss(self, lost_bytes, now);
        self.mark_loss::<M>(bytes_in_flight, lost_bytes, now);
    }

    /// There is nothing to save.
    pub fn checkpoint(&mut self)
        ensures
            *final(self) == *old(self),
    {
    }

    /// There is nothing to come back to.
    pub fn rollback(&mut self) -> (done: bool)
        ensures
            !done,
            *final(self) == *old(self),
    {
        false
    }

    /// Pacing goes by the controller's own rate.
    pub fn has_custom_pacing() -> (custom: bool)
        ensures
            custom,
    {
        true
    }

    /// A rate of `rate` bytes per second in kilobits per second, -1 for the highest.
    pub fn rate_kbps(rate: u64) -> (kbps: isize)
        requires
            rate == u64::MAX || rate * 8 <= u64::MAX,
        ensures
            kbps == if rate == u64::MAX {
                -1isize
            } else {
                (rate * 8 / 1000) as isize
            },
    {
        if rate == u64::MAX {
            -1
        } else {
            (rate * 8 / 1000) as isize
        }
    }

    /// The sum of two byte counts, or the largest one.
    pub open spec fn raised(count: usize, by: usize) -> usize {
        if count + by > usize::MAX {
            usize::MAX
        } else {
            (count + by) as usize
        }
    }

    /// The difference of two byte counts, or zero.
    pub open spec fn lowered(count: usize, by: usize) -> usize {
        if count < by {
            0
        } else {
            (count - by) as usize
        }
    }

    /// `after` has counted `bytes` as in flight, and the bandwidth estimate and the path
    /// model `M` know of them.
    pub open spec fn sent<M: PathModel<R, B, F>>(
        self,
        now: Instant,
        bytes: u64,
        last_packet_number: u64,
        after: Self,
    ) -> bool {
        let in_flight = Self::raised(self.estimated_flight_size, bytes as usize);
        exists|max_bandwidth: B|
            {
                &&& #[trigger] call_ensures(
                    B::on_sent,
                    (&self.max_bandwidth, now, bytes),
                    max_bandwidth,
                )
                &&& call_ensures(
                    M::bbr2_on_transmit,
                    (
                        &(Bbr2 {
                            max_sent_packet_number: last_packet_number,
                            max_bandwidth,
                            estimated_flight_size: in_flight,
                            ..self
                        }),
                        in_flight,
                        now,
                    ),
                    after,
                )
            }
    }

    /// Deals with `bytes` sent at `now`, the last in packet `last_packet_number`.
    pub fn on_sent<M: PathModel<R, B, F>>(
        &mut self,
        now: Instant,
        bytes: u64,
        last_packet_number: u64,
    )
        ensures
            old(self).sent::<M>(now, bytes, last_packet_number, *final(self)),
    {
        self.max_sent_packet_number = last_packet_number;
        self.max_bandwidth = self.max_bandwidth.on_sent(now, bytes);
        self.estimated_flight_size = self.estimated_flight_size.saturating_add(bytes as usize);
        let in_flight: usize = self.estimated_flight_size;
        self.on_packet_sent::<M>(bytes as usize, in_flight, now);
    }

    /// The length of the filter for the shortest round-trip time.
    pub open spec fn min_rtt_window() -> Duration {
        Duration::of(MIN_RTT_FILTER_LEN * NANOS_PER_SEC)
    }

    /// Whether the sample of the shortest round-trip time is replaced: it is older than
    /// the filter window and the application keeps the path busy, or there is a shorter
    /// one.
    pub open spec fn replaces_min_rtt(
        self,
        now: Instant,
        app_limited: bool,
        min_rtt: Duration,
    ) -> bool {
        ||| now.nanos > self.bbr2_state.min_rtt_stamp.nanos + Self::min_rtt_window().nanos
            && !app_limited
        ||| self.min_rtt.nanos > min_rtt.nanos
    }

    /// `after` has counted `bytes` as acknowledged.
    pub open spec fn acked(
        self,
        now: Instant,
        sent: Instant,
        bytes: u64,
        app_limited: bool,
        min_rtt: Duration,
        after: Self,
    ) -> bool {
        &&& call_ensures(
            B::on_ack,
            (&self.max_bandwidth, now, sent, bytes, self.round_count, app_limited),
            after.max_bandwidth,
        )
        &&& after == (Bbr2 {
            max_bandwidth: after.max_bandwidth,
            acked_bytes: (self.acked_bytes + bytes) as u64,
            estimated_flight_size: Self::lowered(self.estimated_flight_size, bytes as usize),
            min_rtt: if self.replaces_min_rtt(now, app_limited, min_rtt) {
                min_rtt
            } else {
                self.min_rtt
            },
            ..self
        })
    }

    /// Deals with an acknowledgement at `now` of `bytes` that were sent at `sent`, where
    /// `min_rtt` is the shortest round-trip time seen.
    pub fn on_ack(
        &mut self,
        now: Instant,
        sent: Instant,
        bytes: u64,
        app_limited: bool,
        min_rtt: Duration,
    )
        requires
            old(self).acked_bytes + bytes <= u64::MAX,
            old(self).bbr2_state.min_rtt_stamp.reaches(Self::min_rtt_window()),
        ensures
            old(self).acked(now, sent, bytes, app_limited, min_rtt, *final(self)),
    {
        self.max_bandwidth = self.max_bandwidth.on_ack(
            now,
            sent,
            bytes,
            self.round_count,
            app_limited,
        );
        self.acked_bytes = self.acked_bytes + bytes;
        self.estimated_flight_size = self.estimated_flight_size.saturating_sub(bytes as usize);
        let expiry = self.bbr2_state.min_rtt_stamp.after(Duration::from_secs(MIN_RTT_FILTER_LEN));
        if (now.nanos > expiry.nanos && !app_limited) || self.min_rtt.nanos > min_rtt.nanos {
            self.min_rtt = min_rtt;
        }
    }

    /// The highest packet number acknowledged once `largest_acked` is known.
    pub open spec fn largest_after(self, largest_acked: Option<u64>) -> u64 {
        match largest_acked {
            Some(largest) => largest,
            None => self.max_acked_packet_number,
        }
    }

    /// Whether a batch of acknowledgements begins a round trip.
    pub open spec fn begins_round(self, bytes_acked: u64, largest_acked: Option<u64>) -> bool {
        bytes_acked > 0 && self.largest_after(largest_acked)
            > self.current_round_trip_end_packet_number
    }

    /// Whether a batch of acknowledgements can be counted.
    pub open spec fn can_count(
        self,
        now: Instant,
        largest_acked: Option<u64>,
        bytes_acked: u64,
        bandwidth: u64,
    ) -> bool {
        &&& self.delivered + (bytes_acked as usize) <= usize::MAX
        &&& self.ack_aggregation.can_count(bytes_acked, now, bandwidth)
        &&& self.bbr2_state.extra_acked_delivered + (self.ack_aggregation.excess(
            bytes_acked,
            now,
            bandwidth,
        ) as usize) <= usize::MAX
        &&& self.begins_round(bytes_acked, largest_acked) ==> self.round_count < u64::MAX
    }

    /// Whether a batch of acknowledgements can be counted.
    pub fn is_countable(
        &self,
        now: Instant,
        largest_acked: Option<u64>,
        bytes_acked: u64,
        bandwidth: u64,
    ) -> (countable: bool)
        ensures
            countable == self.can_count(now, largest_acked, bytes_acked, bandwidth),
    {
        let largest: u64 = match largest_acked {
            Some(largest) => largest,
            None => self.max_acked_packet_number,
        };
        let begins = bytes_acked > 0 && largest > self.current_round_trip_end_packet_number;
        match self.ack_aggregation.try_excess(bytes_acked, now, bandwidth) {
            Some(excess) => {
                bytes_acked as usize <= usize::MAX - self.delivered && excess as usize
                    <= usize::MAX - self.bbr2_state.extra_acked_delivered && (!begins
                    || self.round_count < u64::MAX)
            },
            None => false,
        }
    }

    /// `after` has counted a batch of acknowledgements of `bytes_acked`, which left
    /// `in_flight` bytes in flight.
    pub open spec fn batch_counted(
        self,
        now: Instant,
        in_flight: u64,
        app_limited: bool,
        largest_acked: Option<u64>,
        bytes_acked: u64,
        bandwidth: u64,
        after: Self,
    ) -> bool {
        let excess = self.ack_aggregation.excess(bytes_acked, now, bandwidth) as usize;
        let begins = self.begins_round(bytes_acked, largest_acked);
        &&& self.ack_aggregation.counted(
            bytes_acked,
            now,
            self.round_count,
            bandwidth,
            after.ack_aggregation,
        )
        &&& call_ensures(
            B::end_acks,
            (&self.max_bandwidth, self.round_count, app_limited),
            after.max_bandwidth,
        )
        &&& after == (Bbr2 {
            ack_aggregation: after.ack_aggregation,
            max_bandwidth: after.max_bandwidth,
            delivered: (self.delivered + (bytes_acked as usize)) as usize,
            in_flight_size: in_flight as usize,
            estimated_flight_size: in_flight as usize,
            bbr2_state: self.bbr2_state.with_excess(excess),
            max_acked_packet_number: self.largest_after(largest_acked),
            current_round_trip_end_packet_number: if begins {
                self.max_sent_packet_number
            } else {
                self.current_round_trip_end_packet_number
            },
            round_count: if begins {
                (self.round_count + 1) as u64
            } else {
                self.round_count
            },
            ..self
        })
    }

    /// Counts a batch of acknowledgements of `bytes_acked` at a bandwidth of `bandwidth`
    /// bytes per second.
    pub fn count_batch(
        &mut self,
        now: Instant,
        in_flight: u64,
        app_limited: bool,
        largest_acked: Option<u64>,
        bytes_acked: u64,
        bandwidth: u64,
    )
        requires
            old(self).can_count(now, largest_acked, bytes_acked, bandwidth),
        ensures
            old(self).batch_counted(
                now,
                in_flight,
                app_limited,
                largest_acked,
                bytes_acked,
                bandwidth,
                *final(self),
            ),
    {
        self.delivered = self.delivered + bytes_acked as usize;
        let excess: u64 = self.ack_aggregation.update_ack_aggregation_bytes(
            bytes_acked,
            now,
            self.round_count,
            bandwidth,
        );
        self.in_flight_size = in_flight as usize;
        self.estimated_flight_size = in_flight as usize;
        self.bbr2_state.add_excess(excess as usize);
        self.max_bandwidth = self.max_bandwidth.end_acks(self.round_count, app_limited);
        if let Some(largest) = largest_acked {
            self.max_acked_packet_number = largest;
        }
        if bytes_acked > 0 && self.max_acked_packet_number
            > self.current_round_trip_end_packet_number {
            self.current_round_trip_end_packet_number = self.max_sent_packet_number;
            self.round_count = self.round_count + 1;
        }
    }

    /// `after` has been through a batch of acknowledgements: it is counted, the path
    /// model `M` has reacted, and the losses before it are forgotten.
    pub open spec fn acks_ended<M: PathModel<R, B, F>>(
        self,
        now: Instant,
        in_flight: u64,
        app_limited: bool,
        largest_acked: Option<u64>,
        after: Self,
    ) -> bool {
        exists|bytes_acked: u64, bandwidth: u64|
            {
                &&& #[trigger] call_ensures(
                    B::bytes_acked_this_window,
                    (&self.max_bandwidth,),
                    bytes_acked,
                )
                &&& #[trigger] call_ensures(B::get_estimate, (&self.max_bandwidth,), bandwidth)
                &&& self.batch_ended::<M>(
                    now,
                    in_flight,
                    app_limited,
                    largest_acked,
                    bytes_acked,
                    bandwidth,
                    after,
                )
            }
    }

    /// `after` has been through a batch of acknowledgements of `bytes_acked`, at a
    /// bandwidth of `bandwidth` bytes per second.
    pub open spec fn batch_ended<M: PathModel<R, B, F>>(
        self,
        now: Instant,
        in_flight: u64,
        app_limited: bool,
        largest_acked: Option<u64>,
        bytes_acked: u64,
        bandwidth: u64,
        after: Self,
    ) -> bool {
        exists|counted: Self, reacted: Self|
            {
                &&& #[trigger] self.batch_counted(
                    now,
                    in_flight,
                    app_limited,
                    largest_acked,
                    bytes_acked,
                    bandwidth,
                    counted,
                )
                &&& #[trigger] counted.packets_acked::<M>(
                    counted.estimated_flight_size,
                    bytes_acked as usize,
                    now,
                    reacted,
                )
                &&& after == (Bbr2 {
                    prev_in_flight_count: in_flight,
                    loss_state: LossState { lost_bytes: 0 },
                    ..reacted
                })
            }
    }

    /// Deals with a batch of acknowledgements of `bytes_acked`, at a bandwidth of
    /// `bandwidth` bytes per second.
    pub fn end_batch<M: PathModel<R, B, F>>(
        &mut self,
        now: Instant,
        in_flight: u64,
        app_limited: bool,
        largest_acked: Option<u64>,
        bytes_acked: u64,
        bandwidth: u64,
    )
        requires
            old(self).can_count(now, largest_acked, bytes_acked, bandwidth),
        ensures
            old(self).batch_ended::<M>(
                now,
                in_flight,
                app_limited,
                largest_acked,
                bytes_acked,
                bandwidth,
                *final(self),
            ),
    {
        self.count_batch(now, in_flight, app_limited, largest_acked, bytes_acked, bandwidth);
        let in_flight_size: usize = self.estimated_flight_size;
        self.on_packets_acked::<M>(in_flight_size, bytes_acked as usize, now);
        self.prev_in_flight_count = in_flight;
        self.loss_state.reset();
    }

    /// Deals with the end of a batch of acknowledgements, which leaves `in_flight` bytes
    /// in flight.
    pub fn on_end_acks<M: PathModel<R, B, F>>(
        &mut self,
        now: Instant,
        in_flight: u64,
        app_limited: bool,
        largest_packet_num_acked: Option<u64>,
    )
        requires
            forall|bytes_acked: u64, bandwidth: u64|
                #[trigger] call_ensures(
                    B::bytes_acked_this_window,
                    (&old(self).max_bandwidth,),
                    bytes_acked,
                ) && #[trigger] call_ensures(
                    B::get_estimate,
                    (&old(self).max_bandwidth,),
                    bandwidth,
                ) ==> old(self).can_count(now, largest_packet_num_acked, bytes_acked, bandwidth),
        ensures
            old(self).acks_ended::<M>(
                now,
                in_flight,
                app_limited,
                largest_packet_num_acked,
                *final(self),
            ),
    {
        let bytes_acked: u64 = self.max_bandwidth.bytes_acked_this_window();
        let bandwidth: u64 = self.max_bandwidth.get_estimate();
        self.end_batch::<M>(
            now,
            in_flight,
            app_limited,
            largest_packet_num_acked,
            bytes_acked,
            bandwidth,
        );
    }

    /// Does what [`Bbr2::on_end_acks`] does where the batch can be counted. Where it
    /// cannot, changes nothing and gives `false`.
    pub fn try_on_end_acks<M: PathModel<R, B, F>>(
        &mut self,
        now: Instant,
        in_flight: u64,
        app_limited: bool,
        largest_packet_num_acked: Option<u64>,
    ) -> (done: bool)
        ensures
            done ==> old(self).acks_ended::<M>(
                now,
                in_flight,
                app_limited,
                largest_packet_num_acked,
                *final(self),
            ),
            !done ==> *final(self) == *old(self) && exists|bytes_acked: u64, bandwidth: u64|
                {
                    &&& #[trigger] call_ensures(
                        B::bytes_acked_this_window,
                        (&old(self).max_bandwidth,),
                        bytes_acked,
                    )
                    &&& #[trigger] call_ensures(
                        B::get_estimate,
                        (&old(self).max_bandwidth,),
                        bandwidth,
                    )
                    &&& !old(self).can_count(now, largest_packet_num_acked, bytes_acked, bandwidth)
                },
    {
        let bytes_acked: u64 = self.max_bandwidth.bytes_acked_this_window();
        let bandwidth: u64 = self.max_bandwidth.get_estimate();
        if self.is_countable(now, largest_packet_num_acked, bytes_acked, bandwidth) {
            self.end_batch::<M>(
                now,
                in_flight,
                app_limited,
                largest_packet_num_acked,
                bytes_acked,
                bandwidth,
            );
            true
        } else {
            false
        }
    }

    /// The state in which `lost_bytes` more are counted as lost.
    pub open spec fn losses_added(self, lost_bytes: u64) -> Self {
        Bbr2 {
            loss_state: LossState { lost_bytes: (self.loss_state.lost_bytes + lost_bytes) as u64 },
            ..self
        }
    }

    /// Deals with a loss of `lost_bytes`.
    pub fn on_congestion_event<M: PathModel<R, B, F>>(
        &mut self,
        now: Instant,
        _sent: Instant,
        _is_persistent_congestion: bool,
        lost_bytes: u64,
    )
        requires
            old(self).loss_state.lost_bytes + lost_bytes <= u64::MAX,
            old(self).losses_added(lost_bytes).can_lose::<M>(
                old(self).estimated_flight_size,
                lost_bytes as usize,
                now,
            ),
        ensures
            old(self).losses_added(lost_bytes).lost::<M>(
                old(self).estimated_flight_size,
                lost_bytes as usize,
                now,
                *final(self),
            ),
    {
        self.loss_state.lost_bytes = self.loss_state.lost_bytes + lost_bytes;
        let in_flight: usize = self.estimated_flight_size;
        self.congestion_event::<M>(in_flight, lost_bytes as usize, now);
    }

    /// Does what [`Bbr2::on_congestion_event`] does where the loss can be counted and
    /// recovery can begin if it has to. Where not, changes nothing and gives `false`.
    pub fn try_on_congestion_event<M: PathModel<R, B, F>>(
        &mut self,
        now: Instant,
        lost_bytes: u64,
    ) -> (done: bool)
        ensures
            done ==> old(self).losses_added(lost_bytes).lost::<M>(
                old(self).estimated_flight_size,
                lost_bytes as usize,
                now,
                *final(self),
            ),
            !done ==> *final(self) == *old(self),
            !done ==> old(self).loss_state.lost_bytes + lost_bytes > u64::MAX || !old(
                self,
            ).losses_added(lost_bytes).can_lose::<M>(
                old(self).estimated_flight_size,
                lost_bytes as usize,
                now,
            ),
            old(self).loss_state.lost_bytes + lost_bytes > u64::MAX ==> !done,
    {
        let lost_before: u64 = self.loss_state.lost_bytes;
        let noted_before: usize = self.bbr2_state.newly_lost_bytes;
        match self.loss_state.lost_bytes.checked_add(lost_bytes) {
            Some(total) => {
                self.loss_state.lost_bytes = total;
            },
            None => {
                return false;
            },
        }
        let in_flight: usize = self.estimated_flight_size;
        let lost: usize = lost_bytes as usize;
        self.note_loss(lost);
        let modelled = M::bbr2_update_on_loss(self, lost, now);
        if modelled.is_enterable(in_flight, lost, now) {
            *self = modelled;
            self.mark_loss::<M>(in_flight, lost, now);
            true
        } else {
            self.note_loss(noted_before);
            self.loss_state.lost_bytes = lost_before;
            false
        }
    }

    /// The state for datagrams of `new_mtu` bytes: no window is smaller than four of them.
    pub open spec fn resized(self, new_mtu: u16) -> Self {
        let min_cwnd = (4 * new_mtu) as u64;
        Bbr2 {
            current_mtu: new_mtu as u64,
            min_cwnd,
            init_cwnd: if capped_window(self.config.initial_window) > min_cwnd {
                capped_window(self.config.initial_window)
            } else {
                min_cwnd
            },
            congestion_window: if self.congestion_window > min_cwnd as usize {
                self.congestion_window
            } else {
                min_cwnd as usize
            },
            ..self
        }
    }

    /// Deals with a change of the path's datagram size.
    pub fn on_mtu_update(&mut self, new_mtu: u16)
        ensures
            *final(self) == old(self).resized(new_mtu),
    {
        self.current_mtu = new_mtu as u64;
        self.min_cwnd = calculate_min_window(self.current_mtu);
        let initial_window: u64 = cap_window(self.config.initial_window);
        self.init_cwnd = if initial_window > self.min_cwnd {
            initial_window
        } else {
            self.min_cwnd
        };
        if self.congestion_window <= self.min_cwnd as usize {
            self.congestion_window = self.min_cwnd as usize;
        }
    }

    /// The congestion window in bytes.
    pub fn window(&self) -> (bytes: u64)
        ensures
            bytes == self.congestion_window,
    {
        self.congestion_window as u64
    }

    /// The window in bytes that a flow starts with: the configured one, up to
    /// [`K_MAX_INITIAL_CONGESTION_WINDOW`] packets.
    pub fn initial_window(&self) -> (bytes: u64)
        ensures
            bytes == capped_window(self.config.initial_window),
    {
        cap_window(self.config.initial_window)
    }

    /// Whether pacing goes by the congestion window, for want of a rate or of a round
    /// trip that is long enough.
    pub open spec fn paces_by_window(self) -> bool {
        ||| self.bbr2_state.pacing_rate == 0
        ||| self.bbr2_state.min_rtt.nanos < MIN_PACED_RTT_MILLIS * NANOS_PER_MILLI
    }

    /// The window that pacing goes by: `paced`, unless it is below `floor`.
    pub fn paced_window(&self, paced: u64, floor: u64) -> (bytes: u64)
        ensures
            bytes == if paced < floor {
                self.congestion_window as u64
            } else {
                paced
            },
    {
        if paced < floor {
            self.congestion_window as u64
        } else {
            paced
        }
    }

    /// The window in bytes that pacing goes by: what is sent at the pacing rate in a
    /// round trip, or the congestion window where that is not known or is less than a
    /// fifth of the window.
    pub fn pacing_window(&self) -> (bytes: u64)
        ensures
            self.paces_by_window() ==> bytes == self.congestion_window,
            !self.paces_by_window() ==> exists|sent: u64, floor: u64|
                {
                    &&& #[trigger] is_paced::<R>(
                        self.bbr2_state.pacing_rate,
                        self.bbr2_state.min_rtt,
                        sent,
                    )
                    &&& #[trigger] is_fifth::<R>(self.congestion_window as u64, floor)
                    &&& bytes == if sent < floor {
                        self.congestion_window as u64
                    } else {
                        sent
                    }
                },
    {
        if self.bbr2_state.pacing_rate == 0 || self.bbr2_state.min_rtt.nanos < MIN_PACED_RTT_MILLIS
            * NANOS_PER_MILLI {
            self.congestion_window as u64
        } else {
            let sent = paced::<R>(self.bbr2_state.pacing_rate, self.bbr2_state.min_rtt);
            let floor = fifth::<R>(self.congestion_window as u64);
            self.paced_window(sent, floor)
        }
    }
}

} // verus!
