//! What the BBR version 2 controller counts and computes, in bytes and nanoseconds.
//!
//! Laws that speak of a path model that only writes down what it is shown tell what the
//! controller does by itself, and what any path model is shown.
use std::sync::Arc;
use vstd::prelude::*;

use crate::bbr2::aggregation::{AckAggregationState, MaxFilter};
use crate::bbr2::model::{BandwidthModel, PathModel};
use crate::bbr2::state::State;
use crate::bbr2::{is_fifth, is_paced, Bbr2, BbrConfig2};
use crate::scalar::{fraction_is_the_quotient, is_faithful, secs, Scalar};
use crate::time::{Duration, Instant};

verus! {

proof fn expected_bytes(bandwidth: u64, nanos: int)
    requires
        nanos >= 0,
    ensures
        ({
            let accounted = bandwidth * (nanos / 1000) / 1_000_000;
            &&& accounted >= 0
            &&& accounted * 1_000_000_000 <= bandwidth * nanos
            &&& bandwidth * nanos < (accounted + 1) * 1_000_000_000 + bandwidth * 1000
            &&& nanos % 1000 == 0 ==> bandwidth * nanos < (accounted + 1) * 1_000_000_000
        }),
{
    let micros = nanos / 1000;
    let product = bandwidth * micros;
    assert(product >= 0) by (nonlinear_arith)
        requires
            product == bandwidth * micros,
            micros >= 0,
    ;
    assert(product * 1000 <= bandwidth * nanos <= product * 1000 + bandwidth * 1000 && (nanos
        == micros * 1000 ==> bandwidth * nanos == product * 1000)) by (nonlinear_arith)
        requires
            product == bandwidth * micros,
            micros * 1000 <= nanos < micros * 1000 + 1000,
    ;
}

/// Acknowledgements are ahead by what the epoch holds beyond the bandwidth times the time
/// that it has lasted, in whole bytes and microseconds. Where the epoch holds no more than
/// that, none is ahead, and a new epoch begins with the bytes just acknowledged.
pub proof fn excess_is_what_the_bandwidth_leaves<F: MaxFilter>(
    epoch: AckAggregationState<F>,
    start: Instant,
    newly_acked_bytes: u64,
    now: Instant,
    round: u64,
    max_bandwidth: u64,
    after: AckAggregationState<F>,
)
    requires
        epoch.aggregation_epoch_start_time == Some(start),
        start.nanos <= now.nanos,
        (now.nanos - start.nanos) / 1000 <= u64::MAX,
        epoch.can_count(newly_acked_bytes, now, max_bandwidth),
        epoch.counted(newly_acked_bytes, now, round, max_bandwidth, after),
    ensures
        ({
            let delivered = max_bandwidth * (now.nanos - start.nanos);
            let excess = epoch.excess(newly_acked_bytes, now, max_bandwidth);
            let accounted = epoch.aggregation_epoch_bytes + newly_acked_bytes - excess;
            &&& excess > 0 ==> {
                &&& 0 <= accounted < epoch.aggregation_epoch_bytes
                &&& accounted * 1_000_000_000 <= delivered
                &&& delivered < (accounted + 1) * 1_000_000_000 + max_bandwidth * 1000
                &&& (now.nanos - start.nanos) % 1000 == 0 ==> delivered < (accounted + 1)
                    * 1_000_000_000
                &&& after.aggregation_epoch_bytes == epoch.aggregation_epoch_bytes
                    + newly_acked_bytes
                &&& after.aggregation_epoch_start_time == Some(start)
                &&& call_ensures(
                    F::update_max,
                    (&epoch.max_ack_height, round, excess),
                    after.max_ack_height,
                )
            }
            &&& excess == 0 ==> {
                &&& epoch.aggregation_epoch_bytes * 1_000_000_000 <= delivered
                &&& after.aggregation_epoch_bytes == newly_acked_bytes
                &&& after.aggregation_epoch_start_time == Some(now)
                &&& after.max_ack_height == epoch.max_ack_height
            }
        }),
{
    let nanos = now.nanos - start.nanos;
    expected_bytes(max_bandwidth, nanos);
    assert(now.since(start).nanos == nanos);
    assert(epoch.epoch_micros(now) == nanos / 1000);
    let accounted = max_bandwidth * (nanos / 1000) / 1_000_000;
    assert(epoch.expected(now, max_bandwidth) == accounted);
}

/// After an epoch of one second, as many bytes are accounted for as the bandwidth says.
pub proof fn one_second_accounts_for_the_bandwidth<F: MaxFilter>(
    epoch: AckAggregationState<F>,
    start: Instant,
    newly_acked_bytes: u64,
    now: Instant,
    max_bandwidth: u64,
)
    requires
        epoch.aggregation_epoch_start_time == Some(start),
        now.nanos == start.nanos + 1_000_000_000,
        epoch.can_count(newly_acked_bytes, now, max_bandwidth),
    ensures
        epoch.aggregation_epoch_bytes > max_bandwidth ==> epoch.excess(
            newly_acked_bytes,
            now,
            max_bandwidth,
        ) == epoch.aggregation_epoch_bytes + newly_acked_bytes - max_bandwidth,
        epoch.aggregation_epoch_bytes <= max_bandwidth ==> epoch.excess(
            newly_acked_bytes,
            now,
            max_bandwidth,
        ) == 0,
{
    assert(now.since(start).nanos == 1_000_000_000);
    assert(epoch.epoch_micros(now) == 1_000_000);
}

/// Twice the bandwidth accounts for twice the bytes, up to one byte of rounding.
pub proof fn twice_the_bandwidth_accounts_for_twice_the_bytes<F: MaxFilter>(
    epoch: AckAggregationState<F>,
    newly_acked_bytes: u64,
    now: Instant,
    bandwidth: u64,
    double: u64,
)
    requires
        double == 2 * bandwidth,
        epoch.can_count(newly_acked_bytes, now, bandwidth),
        epoch.can_count(newly_acked_bytes, now, double),
        epoch.excess(newly_acked_bytes, now, double) > 0,
    ensures
        ({
            let held = epoch.aggregation_epoch_bytes + newly_acked_bytes;
            let once = held - epoch.excess(newly_acked_bytes, now, bandwidth);
            let twice = held - epoch.excess(newly_acked_bytes, now, double);
            2 * once <= twice <= 2 * once + 1
        }),
{
    let micros = epoch.epoch_micros(now);
    let product = bandwidth * micros;
    assert(double * micros == 2 * product && product >= 0) by (nonlinear_arith)
        requires
            double == 2 * bandwidth,
            product == bandwidth * micros,
    ;
}

/// Before the first epoch no time has passed, so nothing is accounted for.
pub proof fn no_epoch_accounts_for_nothing<F: MaxFilter>(
    epoch: AckAggregationState<F>,
    newly_acked_bytes: u64,
    now: Instant,
    max_bandwidth: u64,
)
    requires
        epoch.aggregation_epoch_start_time is None,
        epoch.can_count(newly_acked_bytes, now, max_bandwidth),
    ensures
        epoch.aggregation_epoch_bytes == 0 ==> epoch.excess(newly_acked_bytes, now, max_bandwidth)
            == 0,
        epoch.aggregation_epoch_bytes > 0 ==> epoch.excess(newly_acked_bytes, now, max_bandwidth)
            == epoch.aggregation_epoch_bytes + newly_acked_bytes,
{
    assert(max_bandwidth * 0 == 0) by (nonlinear_arith);
}

/// A batch of acknowledgements adds what it covers to the bytes delivered and what is ahead
/// of the bandwidth to the bytes ahead, takes over the bytes in flight, and begins a round
/// trip exactly if it covers something and its largest packet was sent after the last
/// round trip began.
pub proof fn batch_adds_up<R: Scalar, B: BandwidthModel, F: MaxFilter>(
    controller: Bbr2<R, B, F>,
    start: Instant,
    now: Instant,
    in_flight: u64,
    app_limited: bool,
    largest_acked: Option<u64>,
    bytes_acked: u64,
    bandwidth: u64,
    after: Bbr2<R, B, F>,
)
    requires
        controller.ack_aggregation.aggregation_epoch_bytes + bytes_acked <= usize::MAX,
        in_flight <= usize::MAX,
        controller.ack_aggregation.aggregation_epoch_start_time == Some(start),
        start.nanos <= now.nanos,
        (now.nanos - start.nanos) / 1000 <= u64::MAX,
        controller.can_count(now, largest_acked, bytes_acked, bandwidth),
        controller.batch_counted(
            now,
            in_flight,
            app_limited,
            largest_acked,
            bytes_acked,
            bandwidth,
            after,
        ),
    ensures
        after.delivered == controller.delivered + bytes_acked,
        after.in_flight_size == in_flight,
        after.estimated_flight_size == in_flight,
        largest_acked matches Some(largest) ==> after.max_acked_packet_number == largest,
        largest_acked is None ==> after.max_acked_packet_number
            == controller.max_acked_packet_number,
        bytes_acked > 0 && after.max_acked_packet_number
            > controller.current_round_trip_end_packet_number ==> {
            &&& after.round_count == controller.round_count + 1
            &&& after.current_round_trip_end_packet_number == controller.max_sent_packet_number
        },
        bytes_acked == 0 || after.max_acked_packet_number
            <= controller.current_round_trip_end_packet_number ==> {
            &&& after.round_count == controller.round_count
            &&& after.current_round_trip_end_packet_number
                == controller.current_round_trip_end_packet_number
        },
        ({
            let epoch = controller.ack_aggregation.aggregation_epoch_bytes;
            let delivered = bandwidth * (now.nanos - start.nanos);
            let excess = after.bbr2_state.extra_acked;
            let accounted = epoch + bytes_acked - excess;
            &&& after.bbr2_state.extra_acked_delivered
                == controller.bbr2_state.extra_acked_delivered + excess
            &&& excess == 0 ==> epoch * 1_000_000_000 <= delivered
            &&& excess > 0 ==> accounted < epoch && accounted * 1_000_000_000 <= delivered
                && delivered < (accounted + 1) * 1_000_000_000 + bandwidth * 1000
        }),
        call_ensures(
            B::end_acks,
            (&controller.max_bandwidth, controller.round_count, app_limited),
            after.max_bandwidth,
        ),
        after.congestion_window == controller.congestion_window,
        after.loss_state == controller.loss_state,
        after.bbr2_state == (State {
            extra_acked: after.bbr2_state.extra_acked,
            extra_acked_delivered: after.bbr2_state.extra_acked_delivered,
            ..controller.bbr2_state
        }),
{
    excess_is_what_the_bandwidth_leaves(
        controller.ack_aggregation,
        start,
        bytes_acked,
        now,
        controller.round_count,
        bandwidth,
        after.ack_aggregation,
    );
}

/// `after` is the controller `shown`, with what it was shown as packets were sent.
pub open spec fn writes_transmission<R, B, F>(
    shown: Bbr2<R, B, F>,
    flight: usize,
    now: Instant,
    after: Bbr2<R, B, F>,
) -> bool {
    after == (Bbr2 {
        bbr2_state: State { tx_in_flight: flight, cycle_stamp: now, ..shown.bbr2_state },
        ..shown
    })
}

/// `after` is the controller `shown`, with what it was shown as packets were acknowledged.
pub open spec fn writes_acknowledgement<R, B, F>(
    shown: Bbr2<R, B, F>,
    flight: usize,
    now: Instant,
    after: Bbr2<R, B, F>,
) -> bool {
    after == (Bbr2 {
        bbr2_state: State {
            inflight_latest: flight,
            min_rtt_stamp: now,
            round_start: shown.bbr2_state.in_recovery,
            ..shown.bbr2_state
        },
        ..shown
    })
}

/// `after` is the controller `shown`, with what it was shown to set the window.
pub open spec fn writes_control<R, B, F>(
    shown: Bbr2<R, B, F>,
    flight: usize,
    now: Instant,
    after: Bbr2<R, B, F>,
) -> bool {
    after == (Bbr2 {
        bbr2_state: State {
            max_inflight: flight,
            probe_rtt_min_stamp: now,
            loss_round_start: shown.bbr2_state.in_recovery,
            probe_up_cnt: shown.bbr2_state.newly_lost_bytes,
            ..shown.bbr2_state
        },
        ..shown
    })
}

/// `after` is the controller `shown`, with what it was shown as packets were lost.
pub open spec fn writes_loss<R, B, F>(
    shown: Bbr2<R, B, F>,
    lost: usize,
    now: Instant,
    after: Bbr2<R, B, F>,
) -> bool {
    after == (Bbr2 {
        bbr2_state: State {
            lost,
            extra_acked_interval_start: now,
            probe_up_cnt: shown.bbr2_state.newly_lost_bytes,
            max_bw: shown.loss_state.lost_bytes,
            ..shown.bbr2_state
        },
        ..shown
    })
}

/// Whether the path model `M` does no more than to write down what it is shown, in
/// variables of its own. What it leaves is then what the controller does by itself.
pub open spec fn only_writes_down<R, B, F, M: PathModel<R, B, F>>() -> bool {
    &&& forall|shown: Bbr2<R, B, F>, flight: usize, now: Instant, after: Bbr2<R, B, F>| #[trigger]
        call_ensures(M::bbr2_on_transmit, (&shown, flight, now), after) ==> writes_transmission(
            shown,
            flight,
            now,
            after,
        )
    &&& forall|shown: Bbr2<R, B, F>, flight: usize, now: Instant, after: Bbr2<R, B, F>| #[trigger]
        call_ensures(M::bbr2_update_model_and_state, (&shown, flight, now), after)
            ==> writes_acknowledgement(shown, flight, now, after)
    &&& forall|shown: Bbr2<R, B, F>, flight: usize, now: Instant, after: Bbr2<R, B, F>| #[trigger]
        call_ensures(M::bbr2_update_control_parameters, (&shown, flight, now), after)
            ==> writes_control(shown, flight, now, after)
    &&& forall|shown: Bbr2<R, B, F>, lost: usize, now: Instant, after: Bbr2<R, B, F>| #[trigger]
        call_ensures(M::bbr2_update_on_loss, (&shown, lost, now), after) ==> writes_loss(
            shown,
            lost,
            now,
            after,
        )
    &&& forall|shown: Bbr2<R, B, F>, after: Bbr2<R, B, F>| #[trigger]
        call_ensures(M::bbr2_restore_cwnd, (&shown,), after) ==> after == (Bbr2 {
            bbr2_state: State { idle_restart: true, ..shown.bbr2_state },
            ..shown
        })
    &&& forall|shown: Bbr2<R, B, F>, window: usize| #[trigger]
        call_ensures(M::bbr2_save_cwnd, (&shown,), window) ==> window == shown.congestion_window
}

/// What is sent is added to what is in flight, up to what can be counted, and the last
/// packet is noted. Nothing else changes but the bandwidth estimate, and the path model is
/// shown all of it.
pub proof fn sending_adds_to_the_flight<
    R: Scalar,
    B: BandwidthModel,
    F: MaxFilter,
    M: PathModel<R, B, F>,
>(
    controller: Bbr2<R, B, F>,
    now: Instant,
    bytes: u64,
    last_packet_number: u64,
    after: Bbr2<R, B, F>,
)
    requires
        bytes <= usize::MAX,
        only_writes_down::<R, B, F, M>(),
        controller.sent::<M>(now, bytes, last_packet_number, after),
    ensures
        controller.estimated_flight_size + bytes <= usize::MAX ==> after.estimated_flight_size
            == controller.estimated_flight_size + bytes,
        controller.estimated_flight_size + bytes > usize::MAX ==> after.estimated_flight_size
            == usize::MAX,
        after.max_sent_packet_number == last_packet_number,
        call_ensures(B::on_sent, (&controller.max_bandwidth, now, bytes), after.max_bandwidth),
        after.bbr2_state.tx_in_flight == after.estimated_flight_size,
        after.bbr2_state.cycle_stamp == now,
        after == (Bbr2 {
            estimated_flight_size: after.estimated_flight_size,
            max_sent_packet_number: after.max_sent_packet_number,
            max_bandwidth: after.max_bandwidth,
            bbr2_state: State {
                tx_in_flight: after.bbr2_state.tx_in_flight,
                cycle_stamp: after.bbr2_state.cycle_stamp,
                ..controller.bbr2_state
            },
            ..controller
        }),
{
}

/// What is acknowledged is added to the bytes acknowledged and taken off what is in flight.
/// A sample of the shortest round-trip time that is more than ten seconds old is replaced
/// unless the application limits the flow, and a longer one always is.
pub proof fn acknowledging_takes_off_the_flight<R: Scalar, B: BandwidthModel, F: MaxFilter>(
    controller: Bbr2<R, B, F>,
    now: Instant,
    sent: Instant,
    bytes: u64,
    app_limited: bool,
    min_rtt: Duration,
    after: Bbr2<R, B, F>,
)
    requires
        bytes <= usize::MAX,
        controller.acked_bytes + bytes <= u64::MAX,
        controller.acked(now, sent, bytes, app_limited, min_rtt, after),
    ensures
        after.acked_bytes == controller.acked_bytes + bytes,
        bytes <= controller.estimated_flight_size ==> after.estimated_flight_size + bytes
            == controller.estimated_flight_size,
        bytes > controller.estimated_flight_size ==> after.estimated_flight_size == 0,
        now.nanos > controller.bbr2_state.min_rtt_stamp.nanos + 10_000_000_000 && !app_limited
            ==> after.min_rtt == min_rtt,
        min_rtt.nanos < controller.min_rtt.nanos ==> after.min_rtt == min_rtt,
        call_ensures(
            B::on_ack,
            (&controller.max_bandwidth, now, sent, bytes, controller.round_count, app_limited),
            after.max_bandwidth,
        ),
        min_rtt.nanos >= controller.min_rtt.nanos && (app_limited || now.nanos
            <= controller.bbr2_state.min_rtt_stamp.nanos + 10_000_000_000) ==> after.min_rtt
            == controller.min_rtt,
        after == (Bbr2 {
            acked_bytes: after.acked_bytes,
            estimated_flight_size: after.estimated_flight_size,
            min_rtt: after.min_rtt,
            max_bandwidth: after.max_bandwidth,
            ..controller
        }),
{
}

/// A loss outside of recovery begins it: the window is what is still in flight and what was
/// just acknowledged, but at least four datagrams. A loss within recovery leaves the window
/// alone. Either lets recovery last until the last packet sent, and is noted and added to
/// what was lost before the path model is shown it.
pub proof fn loss_sets_the_window<
    R: Scalar,
    B: BandwidthModel,
    F: MaxFilter,
    M: PathModel<R, B, F>,
>(controller: Bbr2<R, B, F>, now: Instant, lost_bytes: u64, after: Bbr2<R, B, F>)
    requires
        lost_bytes <= usize::MAX,
        only_writes_down::<R, B, F, M>(),
        controller.loss_state.lost_bytes + lost_bytes <= u64::MAX,
        controller.losses_added(lost_bytes).lost::<M>(
            controller.estimated_flight_size,
            lost_bytes as usize,
            now,
            after,
        ),
    ensures
        after.loss_state.lost_bytes == controller.loss_state.lost_bytes + lost_bytes,
        after.bbr2_state.newly_lost_bytes == lost_bytes,
        after.bbr2_state.lost == lost_bytes,
        after.bbr2_state.extra_acked_interval_start == now,
        after.bbr2_state.probe_up_cnt == lost_bytes,
        after.bbr2_state.max_bw == controller.loss_state.lost_bytes + lost_bytes,
        after.estimated_flight_size == controller.estimated_flight_size,
        after.delivered == controller.delivered,
        lost_bytes > 0 ==> after.end_recovery_at_packet_number == controller.max_sent_packet_number,
        lost_bytes == 0 || controller.in_recovery_at(now) ==> {
            &&& after.congestion_window == controller.congestion_window
            &&& after.congestion_recovery_start_time == controller.congestion_recovery_start_time
            &&& after.bbr2_state.in_recovery == controller.bbr2_state.in_recovery
            &&& after.bbr2_state.packet_conservation == controller.bbr2_state.packet_conservation
            &&& after.bbr2_state.prior_cwnd == controller.bbr2_state.prior_cwnd
            &&& after.bbr2_state.next_round_delivered == controller.bbr2_state.next_round_delivered
        },
        lost_bytes == 0 ==> after.end_recovery_at_packet_number
            == controller.end_recovery_at_packet_number,
        lost_bytes > 0 && !controller.in_recovery_at(now) ==> {
            let room = after.congestion_window + lost_bytes - controller.estimated_flight_size;
            &&& room >= controller.bbr2_state.newly_acked_bytes
            &&& room >= 4 * controller.max_datagram_size
            &&& room == controller.bbr2_state.newly_acked_bytes || room == 4
                * controller.max_datagram_size
            &&& after.congestion_recovery_start_time == Some(now)
            &&& after.bbr2_state.in_recovery && after.bbr2_state.packet_conservation
            &&& after.bbr2_state.next_round_delivered == controller.delivered
            &&& after.bbr2_state.prior_cwnd == controller.congestion_window
        },
{
    let added = controller.losses_added(lost_bytes);
    let noted = added.loss_noted(lost_bytes as usize);
    let modelled = choose|modelled: Bbr2<R, B, F>|
        {
            &&& #[trigger] call_ensures(
                M::bbr2_update_on_loss,
                (&noted, lost_bytes as usize, now),
                modelled,
            )
            &&& modelled.can_enter(controller.estimated_flight_size, lost_bytes as usize, now)
            &&& modelled.marked::<M>(
                controller.estimated_flight_size,
                lost_bytes as usize,
                now,
                after,
            )
        };
    assert(writes_loss(noted, lost_bytes as usize, now, modelled));
}

/// The end of a batch of acknowledgements notes what it covers and what is in flight,
/// forgets the losses, and ends recovery exactly if nothing was lost since the last batch
/// and the largest packet acknowledged was sent after the last loss. The path model is shown
/// what is acknowledged before that, brings the window back, and sets the window after it.
pub proof fn batch_ends_recovery<
    R: Scalar,
    B: BandwidthModel,
    F: MaxFilter,
    M: PathModel<R, B, F>,
>(
    controller: Bbr2<R, B, F>,
    now: Instant,
    in_flight: u64,
    app_limited: bool,
    largest_acked: Option<u64>,
    bytes_acked: u64,
    bandwidth: u64,
    after: Bbr2<R, B, F>,
)
    requires
        bytes_acked <= usize::MAX,
        in_flight <= usize::MAX,
        only_writes_down::<R, B, F, M>(),
        controller.can_count(now, largest_acked, bytes_acked, bandwidth),
        controller.batch_ended::<M>(
            now,
            in_flight,
            app_limited,
            largest_acked,
            bytes_acked,
            bandwidth,
            after,
        ),
    ensures
        after.delivered == controller.delivered + bytes_acked,
        after.prev_in_flight_count == in_flight,
        after.estimated_flight_size == in_flight,
        after.bbr2_state.newly_acked_bytes == bytes_acked,
        after.bbr2_state.prior_bytes_in_flight == in_flight,
        after.bbr2_state.newly_lost_bytes == 0,
        after.loss_state.lost_bytes == 0,
        after.congestion_window == controller.congestion_window,
        controller.loss_state.lost_bytes == 0 && after.max_acked_packet_number
            > controller.end_recovery_at_packet_number ==> {
            &&& after.congestion_recovery_start_time is None
            &&& !after.bbr2_state.in_recovery
            &&& !after.bbr2_state.packet_conservation
            &&& after.bbr2_state.idle_restart
        },
        controller.loss_state.lost_bytes > 0 || after.max_acked_packet_number
            <= controller.end_recovery_at_packet_number ==> {
            &&& after.congestion_recovery_start_time == controller.congestion_recovery_start_time
            &&& after.bbr2_state.in_recovery == controller.bbr2_state.in_recovery
            &&& after.bbr2_state.packet_conservation == controller.bbr2_state.packet_conservation
            &&& after.bbr2_state.idle_restart == controller.bbr2_state.idle_restart
        },
        after.bbr2_state.inflight_latest == in_flight,
        after.bbr2_state.min_rtt_stamp == now,
        after.bbr2_state.round_start == controller.bbr2_state.in_recovery,
        after.bbr2_state.max_inflight == in_flight,
        after.bbr2_state.probe_rtt_min_stamp == now,
        after.bbr2_state.loss_round_start == after.bbr2_state.in_recovery,
        after.bbr2_state.probe_up_cnt == controller.bbr2_state.newly_lost_bytes,
{
    let (counted, reacted) = choose|counted: Bbr2<R, B, F>, reacted: Bbr2<R, B, F>|
        {
            &&& #[trigger] controller.batch_counted(
                now,
                in_flight,
                app_limited,
                largest_acked,
                bytes_acked,
                bandwidth,
                counted,
            )
            &&& #[trigger] counted.packets_acked::<M>(
                counted.estimated_flight_size,
                bytes_acked as usize,
                now,
                reacted,
            )
            &&& after.delivered == reacted.delivered
            &&& after.prev_in_flight_count == in_flight
            &&& after.loss_state.lost_bytes == 0
            &&& after.estimated_flight_size == reacted.estimated_flight_size
            &&& after.bbr2_state == reacted.bbr2_state
            &&& after.congestion_window == reacted.congestion_window
            &&& after.max_acked_packet_number == reacted.max_acked_packet_number
            &&& after.congestion_recovery_start_time == reacted.congestion_recovery_start_time
        };
    let noted = counted.ack_noted(counted.estimated_flight_size, bytes_acked as usize);
    assert(noted.is_recovered() <==> controller.loss_state.lost_bytes == 0
        && after.max_acked_packet_number > controller.end_recovery_at_packet_number) by {
        assert(noted.loss_state == controller.loss_state);
        assert(noted.end_recovery_at_packet_number == controller.end_recovery_at_packet_number);
    }
}

/// A change of the datagram size sets the smallest window to four datagrams, and raises
/// the others to it where they are below. The window to start with is otherwise the
/// configured one, up to two hundred packets.
pub proof fn resizing_raises_to_four_datagrams<R: Scalar, B: BandwidthModel, F: MaxFilter>(
    controller: Bbr2<R, B, F>,
    new_mtu: u16,
)
    ensures
        ({
            let after = controller.resized(new_mtu);
            let four = 4 * new_mtu;
            &&& after.current_mtu == new_mtu
            &&& after.min_cwnd == four
            &&& controller.congestion_window >= four ==> after.congestion_window
                == controller.congestion_window
            &&& controller.congestion_window < four ==> after.congestion_window == four
            &&& controller.config.initial_window >= 240_000 && four <= 240_000 ==> after.init_cwnd
                == 240_000
            &&& four <= controller.config.initial_window <= 240_000 ==> after.init_cwnd
                == controller.config.initial_window
            &&& controller.config.initial_window <= four || 240_000 <= four ==> after.init_cwnd
                == four
        }),
{
}

/// A rate in kilobits per second is eight times the rate in bytes per second, in
/// thousands and rounded down; the highest rate has none.
pub proof fn kilobits_are_eight_thousandths<R: Scalar, B: BandwidthModel, F: MaxFilter>(
    rate: u64,
    kbps: isize,
)
    requires
        rate == u64::MAX || rate * 8 / 1000 <= isize::MAX,
        call_ensures(Bbr2::<R, B, F>::rate_kbps, (rate,), kbps),
        rate == u64::MAX || rate * 8 <= u64::MAX,
    ensures
        rate == u64::MAX ==> kbps == -1,
        rate < u64::MAX ==> 1000 * kbps <= 8 * rate < 1000 * kbps + 1000,
{
}

/// The window that pacing goes by is what is sent at the pacing rate in the shortest round
/// trip, in whole bytes, unless that is less than a fifth of the window, in whole bytes
/// too. Then, and where the rate is not known or the round trip is shorter than ten
/// milliseconds, it is the window.
pub proof fn pacing_goes_by_rate_and_round_trip<R: Scalar, B: BandwidthModel, F: MaxFilter>(
    value: spec_fn(R) -> real,
    held: spec_fn(real) -> bool,
    controller: Bbr2<R, B, F>,
    bytes: u64,
    sent: u64,
)
    requires
        is_faithful(value, held),
        held(1 as real),
        held(5 as real),
        held(1 as real / 5 as real),
        held(secs(controller.bbr2_state.min_rtt)),
        held(controller.bbr2_state.pacing_rate as real),
        held(controller.bbr2_state.pacing_rate as real * secs(controller.bbr2_state.min_rtt)),
        held(controller.congestion_window as real),
        held(1 as real / 5 as real * controller.congestion_window as real),
        sent * 1_000_000_000 <= controller.bbr2_state.pacing_rate
            * controller.bbr2_state.min_rtt.nanos < (sent + 1) * 1_000_000_000,
        call_ensures(Bbr2::<R, B, F>::pacing_window, (&controller,), bytes),
    ensures
        controller.bbr2_state.pacing_rate == 0 || controller.bbr2_state.min_rtt.nanos < 10_000_000
            ==> bytes == controller.congestion_window,
        controller.bbr2_state.pacing_rate > 0 && controller.bbr2_state.min_rtt.nanos >= 10_000_000
            ==> bytes == if sent < controller.congestion_window / 5 {
            controller.congestion_window as u64
        } else {
            sent
        },
{
    if !controller.paces_by_window() {
        let rate = controller.bbr2_state.pacing_rate;
        let rtt = controller.bbr2_state.min_rtt;
        let (out, floor) = choose|out: u64, floor: u64|
            {
                &&& #[trigger] is_paced::<R>(rate, rtt, out)
                &&& #[trigger] is_fifth::<R>(controller.congestion_window as u64, floor)
                &&& bytes == if out < floor {
                    controller.congestion_window as u64
                } else {
                    out
                }
            };
        paced_bytes(value, held, rate, rtt, out, sent);
        fifth_of_bytes(value, held, controller.congestion_window as u64, floor);
    }
}

proof fn paced_bytes<R: Scalar>(
    value: spec_fn(R) -> real,
    held: spec_fn(real) -> bool,
    rate: u64,
    rtt: Duration,
    out: u64,
    sent: u64,
)
    requires
        is_faithful(value, held),
        held(secs(rtt)),
        held(rate as real),
        held(rate as real * secs(rtt)),
        sent * 1_000_000_000 <= rate * rtt.nanos < (sent + 1) * 1_000_000_000,
        is_paced::<R>(rate, rtt, out),
    ensures
        out == sent,
{
    let bytes = rate as real * secs(rtt);
    let product = rate * rtt.nanos;
    assert(secs(rtt) * 1_000_000_000 as real == rtt.nanos as real);
    assert(product as real == rate as real * rtt.nanos as real) by (nonlinear_arith)
        requires
            product == rate * rtt.nanos,
    ;
    assert(bytes * 1_000_000_000 as real == product as real) by (nonlinear_arith)
        requires
            bytes == rate as real * secs(rtt),
            secs(rtt) * 1_000_000_000 as real == rtt.nanos as real,
            product as real == rate as real * rtt.nanos as real,
    ;
    assert(sent as real <= bytes < sent as real + 1 as real);
    assert(out as real <= bytes < out as real + 1 as real);
}

proof fn fifth_of_bytes<R: Scalar>(
    value: spec_fn(R) -> real,
    held: spec_fn(real) -> bool,
    bytes: u64,
    out: u64,
)
    requires
        is_faithful(value, held),
        held(1 as real),
        held(5 as real),
        held(1 as real / 5 as real),
        held(bytes as real),
        held(1 as real / 5 as real * bytes as real),
        is_fifth::<R>(bytes, out),
    ensures
        out == bytes / 5,
{
    assert forall|fifth: R| #[trigger] crate::scalar::is_fraction(1, 5, fifth) implies value(fifth)
        == 1 as real / 5 as real by {
        fraction_is_the_quotient(value, held, 1, 5, fifth);
    }
    let part = 1 as real / 5 as real * bytes as real;
    assert(part * 5 as real == bytes as real);
    assert(out as real <= part < out as real + 1 as real);
}

/// The end of a batch goes by the bytes and by the bandwidth that the estimate gives.
pub proof fn batch_goes_by_the_estimate<
    R: Scalar,
    B: BandwidthModel,
    F: MaxFilter,
    M: PathModel<R, B, F>,
>(
    controller: Bbr2<R, B, F>,
    now: Instant,
    in_flight: u64,
    app_limited: bool,
    largest_acked: Option<u64>,
    bytes_acked: u64,
    bandwidth: u64,
    after: Bbr2<R, B, F>,
)
    requires
        forall|bytes: u64| #[trigger]
            call_ensures(B::bytes_acked_this_window, (&controller.max_bandwidth,), bytes) ==> bytes
                == bytes_acked,
        forall|rate: u64| #[trigger]
            call_ensures(B::get_estimate, (&controller.max_bandwidth,), rate) ==> rate == bandwidth,
        controller.acks_ended::<M>(now, in_flight, app_limited, largest_acked, after),
    ensures
        controller.batch_ended::<M>(
            now,
            in_flight,
            app_limited,
            largest_acked,
            bytes_acked,
            bandwidth,
            after,
        ),
{
}

/// A batch can be counted wherever the sums and the product of bandwidth and time fit.
pub proof fn batch_that_fits_can_be_counted<R: Scalar, B: BandwidthModel, F: MaxFilter>(
    controller: Bbr2<R, B, F>,
    now: Instant,
    largest_acked: Option<u64>,
    bytes_acked: u64,
    bandwidth: u64,
)
    requires
        controller.ack_aggregation.aggregation_epoch_start_time matches Some(start) ==> {
            &&& start.nanos <= now.nanos
            &&& (now.nanos - start.nanos) / 1000 <= u64::MAX
            &&& bandwidth * (now.nanos - start.nanos) <= u64::MAX * 1000
        },
        controller.ack_aggregation.aggregation_epoch_bytes + bytes_acked <= usize::MAX,
        controller.delivered + bytes_acked <= usize::MAX,
        controller.bbr2_state.extra_acked_delivered
            + controller.ack_aggregation.aggregation_epoch_bytes + bytes_acked <= usize::MAX,
        controller.round_count < u64::MAX,
    ensures
        controller.can_count(now, largest_acked, bytes_acked, bandwidth),
{
    assert(bandwidth * 0 == 0) by (nonlinear_arith);
    if let Some(start) = controller.ack_aggregation.aggregation_epoch_start_time {
        let nanos = now.nanos - start.nanos;
        let micros = nanos / 1000;
        assert(now.since(start).nanos == nanos);
        assert(0 <= bandwidth * micros && bandwidth * micros * 1000 <= bandwidth * nanos)
            by (nonlinear_arith)
            requires
                0 <= micros,
                micros * 1000 <= nanos,
                bandwidth >= 0,
        ;
        assert(controller.ack_aggregation.epoch_micros(now) == micros);
    }
}

/// Recovery can begin wherever no more is lost than is in flight and the window fits.
pub proof fn loss_that_fits_can_begin_recovery<R: Scalar, B: BandwidthModel, F: MaxFilter>(
    controller: Bbr2<R, B, F>,
    bytes_in_flight: usize,
    lost_bytes: usize,
    now: Instant,
)
    requires
        lost_bytes <= bytes_in_flight,
        bytes_in_flight - lost_bytes + 4 * controller.max_datagram_size <= usize::MAX,
        bytes_in_flight - lost_bytes + controller.bbr2_state.newly_acked_bytes <= usize::MAX,
    ensures
        controller.can_enter(bytes_in_flight, lost_bytes, now),
{
}

/// A controller as it is made has the configured window, or two hundred packets where
/// more is configured, and has counted nothing.
pub proof fn fresh_controller_has_counted_nothing<R: Scalar, B: BandwidthModel, F: MaxFilter>(
    config: Arc<BbrConfig2>,
    current_mtu: u16,
    now: Instant,
    fresh: Bbr2<R, B, F>,
)
    requires
        Bbr2::is_fresh(config, current_mtu, now, fresh),
    ensures
        config.initial_window <= 240_000 ==> fresh.congestion_window == config.initial_window,
        config.initial_window > 240_000 ==> fresh.congestion_window == 240_000,
        fresh.init_cwnd == fresh.congestion_window,
        fresh.current_mtu == current_mtu,
        fresh.max_datagram_size == 1200,
        fresh.send_quantum == 1200,
        fresh.initial_congestion_window_packets == 10,
        fresh.acked_bytes == 0 && fresh.delivered == 0 && fresh.extra_acked == 0,
        fresh.in_flight_size == 0 && fresh.prev_in_flight_count == 0,
        fresh.loss_state.lost_bytes == 0 && fresh.round_count == 0,
        fresh.max_acked_packet_number == 0 && fresh.max_sent_packet_number == 0,
        fresh.end_recovery_at_packet_number == 0 && fresh.current_round_trip_end_packet_number == 0,
        fresh.ack_aggregation.aggregation_epoch_bytes == 0,
        fresh.ack_aggregation.aggregation_epoch_start_time is None,
        fresh.congestion_recovery_start_time is None,
        !fresh.app_limited,
{
}

/// The window is the congestion window, and the initial one is what is configured, up to
/// two hundred packets.
pub proof fn initial_window_is_capped<R: Scalar, B: BandwidthModel, F: MaxFilter>(
    controller: Bbr2<R, B, F>,
    window: u64,
    initial: u64,
)
    requires
        call_ensures(Bbr2::<R, B, F>::window, (&controller,), window),
        call_ensures(Bbr2::<R, B, F>::initial_window, (&controller,), initial),
    ensures
        window == controller.congestion_window,
        initial <= controller.config.initial_window && initial <= 240_000,
        initial == controller.config.initial_window || initial == 240_000,
{
}

/// What counting acknowledged bytes leaves and gives is what the laws on epochs speak of.
pub proof fn update_counts_into_the_epoch<F: MaxFilter>(
    epoch: &mut AckAggregationState<F>,
    newly_acked_bytes: u64,
    now: Instant,
    round: u64,
    max_bandwidth: u64,
    excess: u64,
    tried: Option<u64>,
)
    requires
        call_ensures(
            AckAggregationState::<F>::update_ack_aggregation_bytes,
            (epoch, newly_acked_bytes, now, round, max_bandwidth),
            excess,
        ),
        call_ensures(
            AckAggregationState::<F>::try_excess,
            (&*old(epoch), newly_acked_bytes, now, max_bandwidth),
            tried,
        ),
    ensures
        excess == old(epoch).excess(newly_acked_bytes, now, max_bandwidth),
        old(epoch).counted(newly_acked_bytes, now, round, max_bandwidth, *final(epoch)),
        tried is Some <==> old(epoch).can_count(newly_acked_bytes, now, max_bandwidth),
        tried is Some ==> tried->0 == excess,
{
}

/// What the controller leaves of sent bytes is what the laws on sending speak of.
pub proof fn on_sent_sends<R: Scalar, B: BandwidthModel, F: MaxFilter, M: PathModel<R, B, F>>(
    controller: &mut Bbr2<R, B, F>,
    now: Instant,
    bytes: u64,
    last_packet_number: u64,
)
    requires
        call_ensures(
            Bbr2::<R, B, F>::on_sent::<M>,
            (controller, now, bytes, last_packet_number),
            (),
        ),
    ensures
        old(controller).sent::<M>(now, bytes, last_packet_number, *final(controller)),
{
}

/// What the controller leaves of acknowledged bytes is what the laws on them speak of.
pub proof fn on_ack_acknowledges<R: Scalar, B: BandwidthModel, F: MaxFilter>(
    controller: &mut Bbr2<R, B, F>,
    now: Instant,
    sent: Instant,
    bytes: u64,
    app_limited: bool,
    min_rtt: Duration,
)
    requires
        call_ensures(
            Bbr2::<R, B, F>::on_ack,
            (controller, now, sent, bytes, app_limited, min_rtt),
            (),
        ),
    ensures
        old(controller).acked(now, sent, bytes, app_limited, min_rtt, *final(controller)),
{
}

/// What the controller leaves of a batch is what the laws on batches speak of.
pub proof fn on_end_acks_ends_the_batch<
    R: Scalar,
    B: BandwidthModel,
    F: MaxFilter,
    M: PathModel<R, B, F>,
>(
    controller: &mut Bbr2<R, B, F>,
    now: Instant,
    in_flight: u64,
    app_limited: bool,
    largest_acked: Option<u64>,
)
    requires
        call_ensures(
            Bbr2::<R, B, F>::on_end_acks::<M>,
            (controller, now, in_flight, app_limited, largest_acked),
            (),
        ),
    ensures
        old(controller).acks_ended::<M>(
            now,
            in_flight,
            app_limited,
            largest_acked,
            *final(controller),
        ),
{
}

/// What the controller leaves of a loss is what the laws on losses speak of.
pub proof fn on_congestion_event_loses<
    R: Scalar,
    B: BandwidthModel,
    F: MaxFilter,
    M: PathModel<R, B, F>,
>(
    controller: &mut Bbr2<R, B, F>,
    now: Instant,
    sent: Instant,
    persistent: bool,
    lost_bytes: u64,
)
    requires
        call_ensures(
            Bbr2::<R, B, F>::on_congestion_event::<M>,
            (controller, now, sent, persistent, lost_bytes),
            (),
        ),
    ensures
        old(controller).losses_added(lost_bytes).lost::<M>(
            old(controller).estimated_flight_size,
            lost_bytes as usize,
            now,
            *final(controller),
        ),
{
}

/// What the controller leaves of a change of the datagram size is what the laws on it speak
/// of.
pub proof fn on_mtu_update_resizes<R: Scalar, B: BandwidthModel, F: MaxFilter>(
    controller: &mut Bbr2<R, B, F>,
    new_mtu: u16,
)
    requires
        call_ensures(Bbr2::<R, B, F>::on_mtu_update, (controller, new_mtu), ()),
    ensures
        *final(controller) == old(controller).resized(new_mtu),
{
}

} // verus!
