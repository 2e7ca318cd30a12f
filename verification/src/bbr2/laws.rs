//! What the BBR version 2 controller promises over all its inputs, whatever the path model.
use std::sync::Arc;
use vstd::prelude::*;

use crate::bbr2::aggregation::{AckAggregationState, MaxFilter};
use crate::bbr2::model::{BandwidthModel, PathModel};
use crate::bbr2::state::{BBR2AckPhase, BBR2StateMachine, State};
use crate::bbr2::{capped_window, Bbr2, BbrConfig2, K_MAX_INITIAL_CONGESTION_WINDOW};
use crate::scalar::Scalar;
use crate::time::{Duration, Instant, MAX_SPAN_NANOS};
use crate::BASE_DATAGRAM_SIZE;

verus! {

/// A controller as it is made has the configured window, up to two hundred packets, is in the startup phase and not
/// in recovery, and knows of no limit.
pub proof fn fresh_controller_is_unlimited<R: Scalar, B: BandwidthModel, F: MaxFilter>(
    config: Arc<BbrConfig2>,
    current_mtu: u16,
    now: Instant,
    fresh: Bbr2<R, B, F>,
)
    requires
        Bbr2::is_fresh(config, current_mtu, now, fresh),
    ensures
        fresh.congestion_window == fresh.init_cwnd,
        fresh.init_cwnd <= K_MAX_INITIAL_CONGESTION_WINDOW * BASE_DATAGRAM_SIZE,
        config.initial_window <= K_MAX_INITIAL_CONGESTION_WINDOW * BASE_DATAGRAM_SIZE
            ==> fresh.init_cwnd == config.initial_window,
        fresh.min_cwnd == 4 * current_mtu,
        fresh.estimated_flight_size == 0,
        fresh.min_rtt == Duration::of(MAX_SPAN_NANOS as int),
        !fresh.in_recovery_at(now),
        !fresh.bbr2_state.in_recovery,
        !fresh.is_recovered(),
        fresh.bbr2_state.state == BBR2StateMachine::Startup,
        fresh.bbr2_state.ack_phase == BBR2AckPhase::Init,
        fresh.bbr2_state.bw_hi == u64::MAX,
        fresh.bbr2_state.bw_lo == u64::MAX,
        fresh.bbr2_state.inflight_hi == usize::MAX,
        fresh.bbr2_state.inflight_lo == usize::MAX,
        fresh.bbr2_state.min_rtt_stamp == now,
        fresh.paces_by_window(),
{
}

/// What is acknowledged after it was sent is no longer in flight.
pub proof fn acknowledging_undoes_sending<R: Scalar, B: BandwidthModel, F: MaxFilter>(
    in_flight: usize,
    bytes: usize,
)
    requires
        in_flight + bytes <= usize::MAX,
    ensures
        Bbr2::<R, B, F>::lowered(Bbr2::<R, B, F>::raised(in_flight, bytes), bytes) == in_flight,
{
}

/// Recovery that begins at `now` covers what was sent up to then and nothing later, and
/// leaves room for what is in flight and four datagrams.
pub proof fn recovery_covers_the_past<R: Scalar, B: BandwidthModel, F: MaxFilter>(
    controller: Bbr2<R, B, F>,
    in_flight: usize,
    now: Instant,
    prior_cwnd: usize,
    sent: Instant,
)
    requires
        in_flight + controller.recovery_allowance() <= usize::MAX,
    ensures
        ({
            let after = controller.recovery_entered(in_flight, now, prior_cwnd);
            &&& after.in_recovery_at(sent) <==> sent.nanos <= now.nanos
            &&& after.congestion_window >= in_flight + 4 * controller.max_datagram_size
            &&& after.bbr2_state.in_recovery && after.bbr2_state.packet_conservation
        }),
{
}

/// Leaving recovery undoes entering it, but for the window, the window to come back to
/// and the start of the round trip.
pub proof fn leaving_undoes_entering<R: Scalar, B: BandwidthModel, F: MaxFilter>(
    controller: Bbr2<R, B, F>,
    in_flight: usize,
    now: Instant,
    prior_cwnd: usize,
    sent: Instant,
)
    requires
        controller.congestion_recovery_start_time is None,
        !controller.bbr2_state.in_recovery,
        !controller.bbr2_state.packet_conservation,
    ensures
        ({
            let after = controller.recovery_entered(in_flight, now, prior_cwnd).recovery_ended();
            &&& !after.in_recovery_at(sent)
            &&& after.bbr2_state.prior_cwnd == prior_cwnd
            &&& after == (Bbr2 {
                congestion_window: after.congestion_window,
                bbr2_state: State {
                    prior_cwnd: after.bbr2_state.prior_cwnd,
                    next_round_delivered: after.bbr2_state.next_round_delivered,
                    ..controller.bbr2_state
                },
                ..controller
            })
        }),
{
}

/// After any loss, what was sent up to now is covered by recovery, which lasts until the
/// last packet sent is acknowledged.
pub proof fn loss_leads_to_recovery<
    R: Scalar,
    B: BandwidthModel,
    F: MaxFilter,
    M: PathModel<R, B, F>,
>(
    controller: Bbr2<R, B, F>,
    bytes_in_flight: usize,
    lost_bytes: usize,
    now: Instant,
    after: Bbr2<R, B, F>,
)
    requires
        lost_bytes != 0,
        controller.lost::<M>(bytes_in_flight, lost_bytes, now, after),
    ensures
        after.in_recovery_at(now),
        after.end_recovery_at_packet_number == after.max_sent_packet_number,
{
}

/// Once recovery is over no time is in recovery, whatever the state before. This is the
/// state that the path model is shown to bring the window back.
pub proof fn ended_recovery_covers_nothing<R: Scalar, B: BandwidthModel, F: MaxFilter>(
    controller: Bbr2<R, B, F>,
    sent: Instant,
)
    ensures
        controller.recovery_ended().congestion_recovery_start_time is None,
        !controller.recovery_ended().bbr2_state.in_recovery,
        !controller.recovery_ended().bbr2_state.packet_conservation,
        !controller.recovery_ended().in_recovery_at(sent),
{
}

/// The first sample of the round-trip time is taken at once, whenever it comes and
/// whatever limits the flow.
pub proof fn first_sample_is_taken<R: Scalar, B: BandwidthModel, F: MaxFilter>(
    controller: Bbr2<R, B, F>,
    now: Instant,
    sent: Instant,
    bytes: u64,
    app_limited: bool,
    min_rtt: Duration,
    after: Bbr2<R, B, F>,
)
    requires
        controller.min_rtt == Duration::of(MAX_SPAN_NANOS as int),
        min_rtt.nanos <= MAX_SPAN_NANOS,
        controller.acked(now, sent, bytes, app_limited, min_rtt, after),
    ensures
        after.min_rtt == min_rtt,
{
}

/// Leaving recovery leaves it, from any state: where the path model touches none of the
/// marks of recovery when it brings the window back, none is left afterwards, and no time
/// is in recovery.
pub proof fn exit_leaves_recovery<
    R: Scalar,
    B: BandwidthModel,
    F: MaxFilter,
    M: PathModel<R, B, F>,
>(controller: Bbr2<R, B, F>, after: Bbr2<R, B, F>, sent: Instant)
    requires
        call_ensures(M::bbr2_restore_cwnd, (&controller.recovery_ended(),), after),
        forall|shown: Bbr2<R, B, F>, result: Bbr2<R, B, F>| #[trigger]
            call_ensures(M::bbr2_restore_cwnd, (&shown,), result) ==> {
                &&& result.congestion_recovery_start_time == shown.congestion_recovery_start_time
                &&& result.bbr2_state.in_recovery == shown.bbr2_state.in_recovery
                &&& result.bbr2_state.packet_conservation == shown.bbr2_state.packet_conservation
            },
    ensures
        after.congestion_recovery_start_time is None,
        !after.bbr2_state.in_recovery,
        !after.bbr2_state.packet_conservation,
        !after.in_recovery_at(sent),
{
}

/// Losses add up from one loss to the next, and neither changes the bytes estimated to be
/// in flight, where the path model touches neither count when it reacts to a loss.
pub proof fn losses_add_up<
    R: Scalar,
    B: BandwidthModel,
    F: MaxFilter,
    M: PathModel<R, B, F>,
>(
    controller: Bbr2<R, B, F>,
    first_lost: u64,
    first_at: Instant,
    between: Bbr2<R, B, F>,
    second_lost: u64,
    second_at: Instant,
    after: Bbr2<R, B, F>,
)
    requires
        controller.loss_state.lost_bytes + first_lost + second_lost <= u64::MAX,
        controller.losses_added(first_lost).lost::<M>(
            controller.estimated_flight_size,
            first_lost as usize,
            first_at,
            between,
        ),
        between.losses_added(second_lost).lost::<M>(
            between.estimated_flight_size,
            second_lost as usize,
            second_at,
            after,
        ),
        forall|shown: Bbr2<R, B, F>, lost: usize, now: Instant, result: Bbr2<R, B, F>| #[trigger]
            call_ensures(M::bbr2_update_on_loss, (&shown, lost, now), result) ==> {
                &&& result.loss_state == shown.loss_state
                &&& result.estimated_flight_size == shown.estimated_flight_size
            },
    ensures
        after.loss_state.lost_bytes == controller.loss_state.lost_bytes + first_lost + second_lost,
        after.estimated_flight_size == controller.estimated_flight_size,
{
}

/// After a batch of acknowledgements no loss is outstanding, and the bytes in flight are
/// remembered.
pub proof fn acknowledgements_clear_losses<
    R: Scalar,
    B: BandwidthModel,
    F: MaxFilter,
    M: PathModel<R, B, F>,
>(
    controller: Bbr2<R, B, F>,
    now: Instant,
    in_flight: u64,
    app_limited: bool,
    largest_acked: Option<u64>,
    after: Bbr2<R, B, F>,
)
    requires
        controller.acks_ended::<M>(now, in_flight, app_limited, largest_acked, after),
    ensures
        after.loss_state.lost_bytes == 0,
        after.bbr2_state.newly_lost_bytes == 0,
        after.prev_in_flight_count == in_flight,
{
}

/// Recovery does not end while a loss is outstanding: the path model is then shown the
/// same controller before and after.
pub proof fn losses_hold_recovery<
    R: Scalar,
    B: BandwidthModel,
    F: MaxFilter,
    M: PathModel<R, B, F>,
>(controller: Bbr2<R, B, F>, after: Bbr2<R, B, F>)
    requires
        controller.loss_state.lost_bytes != 0,
        controller.settled::<M>(after),
    ensures
        after == controller,
{
}

/// A round trip ends once: what was sent before it began cannot begin another one.
pub proof fn round_begins_once<R: Scalar, B: BandwidthModel, F: MaxFilter>(
    controller: Bbr2<R, B, F>,
    now: Instant,
    in_flight: u64,
    app_limited: bool,
    largest_acked: Option<u64>,
    bytes_acked: u64,
    bandwidth: u64,
    after: Bbr2<R, B, F>,
    next_bytes: u64,
    next_largest: Option<u64>,
)
    requires
        controller.begins_round(bytes_acked, largest_acked),
        controller.largest_after(largest_acked) <= controller.max_sent_packet_number,
        next_largest is Some ==> next_largest->0 <= controller.max_sent_packet_number,
        controller.can_count(now, largest_acked, bytes_acked, bandwidth),
        controller.batch_counted(
            now,
            in_flight,
            app_limited,
            largest_acked,
            bytes_acked,
            bandwidth,
            after,
        ),
    ensures
        after.round_count == controller.round_count + 1,
        !after.begins_round(next_bytes, next_largest),
{
}

/// The shortest round-trip time is never above the shortest one seen. While the
/// application limits the flow, and within ten seconds of its sample, it never rises.
pub proof fn min_rtt_follows_samples<R: Scalar, B: BandwidthModel, F: MaxFilter>(
    controller: Bbr2<R, B, F>,
    now: Instant,
    sent: Instant,
    bytes: u64,
    app_limited: bool,
    min_rtt: Duration,
    after: Bbr2<R, B, F>,
)
    requires
        controller.acked(now, sent, bytes, app_limited, min_rtt, after),
    ensures
        after.min_rtt.nanos <= min_rtt.nanos,
        after.min_rtt == min_rtt || after.min_rtt == controller.min_rtt,
        app_limited ==> after.min_rtt.nanos <= controller.min_rtt.nanos,
        now.nanos <= controller.bbr2_state.min_rtt_stamp.nanos + 10_000_000_000
            ==> after.min_rtt.nanos <= controller.min_rtt.nanos,
{
}

/// A change of the datagram size never shrinks the window and leaves room for four
/// datagrams in each window. Unless these four call for more, the window to start with
/// stays within two hundred packets.
pub proof fn resizing_leaves_room<R: Scalar, B: BandwidthModel, F: MaxFilter>(
    controller: Bbr2<R, B, F>,
    new_mtu: u16,
)
    ensures
        ({
            let after = controller.resized(new_mtu);
            &&& after.congestion_window >= controller.congestion_window
            &&& after.congestion_window >= 4 * new_mtu
            &&& after.init_cwnd >= 4 * new_mtu
            &&& after.init_cwnd >= capped_window(controller.config.initial_window)
            &&& 4 * new_mtu <= K_MAX_INITIAL_CONGESTION_WINDOW * BASE_DATAGRAM_SIZE
                ==> after.init_cwnd <= K_MAX_INITIAL_CONGESTION_WINDOW * BASE_DATAGRAM_SIZE
            &&& after.resized(new_mtu) == after
        }),
{
}

/// Acknowledgements are ahead by something whenever they are ahead, and by no more than
/// the epoch holds.
pub proof fn excess_is_within_epoch<F: MaxFilter>(
    epoch: AckAggregationState<F>,
    newly_acked_bytes: u64,
    now: Instant,
    round: u64,
    max_bandwidth: u64,
    after: AckAggregationState<F>,
)
    requires
        epoch.can_count(newly_acked_bytes, now, max_bandwidth),
        epoch.counted(newly_acked_bytes, now, round, max_bandwidth, after),
    ensures
        epoch.is_ahead(now, max_bandwidth) <==> epoch.excess(
            newly_acked_bytes,
            now,
            max_bandwidth,
        ) > 0,
        epoch.excess(newly_acked_bytes, now, max_bandwidth) <= after.aggregation_epoch_bytes,
        epoch.is_ahead(now, max_bandwidth) ==> epoch.excess(newly_acked_bytes, now, max_bandwidth)
            > newly_acked_bytes,
{
    assert(max_bandwidth * epoch.epoch_micros(now) >= 0) by (nonlinear_arith);
}

/// Bytes that are acknowledged at the moment at which an epoch began are all ahead,
/// whatever the bandwidth.
pub proof fn burst_is_all_ahead<F: MaxFilter>(
    epoch: AckAggregationState<F>,
    first: u64,
    second: u64,
    now: Instant,
    round: u64,
    max_bandwidth: u64,
    after: AckAggregationState<F>,
)
    requires
        first > 0,
        first + second <= u64::MAX,
        !epoch.is_ahead(now, max_bandwidth),
        epoch.counted(first, now, round, max_bandwidth, after),
    ensures
        after.can_count(second, now, max_bandwidth),
        after.excess(second, now, max_bandwidth) == first + second,
{
    assert(max_bandwidth * 0 == 0) by (nonlinear_arith);
    assert(after.epoch_micros(now) == 0);
}

} // verus!
