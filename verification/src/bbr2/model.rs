//! The parts of the controller that a path model supplies.
use vstd::prelude::*;

use crate::bbr2::Bbr2;
use crate::time::Instant;

verus! {

/// An estimate of the bandwidth at which data is delivered.
pub trait BandwidthModel: Sized {
    /// The estimate before anything is sent.
    fn initial() -> Self;

    /// The estimate after `bytes` were sent at `now`.
    fn on_sent(&self, now: Instant, bytes: u64) -> Self;

    /// The estimate after `bytes` that were sent at `sent` were acknowledged at `now`, in
    /// round trip `round`.
    fn on_ack(&self, now: Instant, sent: Instant, bytes: u64, round: u64, app_limited: bool) -> Self;

    /// The bytes acknowledged since the last call of `end_acks`.
    fn bytes_acked_this_window(&self) -> u64;

    /// The bandwidth in bytes per second.
    fn get_estimate(&self) -> u64;

    /// The estimate after a batch of acknowledgements has ended in round trip `round`.
    fn end_acks(&self, round: u64, app_limited: bool) -> Self;
}

/// How the model of the path reacts. Each method gives the controller as it is after the
/// reaction; a method that gives a number leaves it as it is.
pub trait PathModel<R, B, F> {
    /// At the start of a flow.
    fn bbr2_init(controller: &Bbr2<R, B, F>) -> Bbr2<R, B, F>;

    /// After packets were sent.
    fn bbr2_on_transmit(controller: &Bbr2<R, B, F>, bytes_in_flight: usize, now: Instant) -> Bbr2<
        R,
        B,
        F,
    >;

    /// On an acknowledgement: brings the model and the phase up to date.
    fn bbr2_update_model_and_state(
        controller: &Bbr2<R, B, F>,
        bytes_in_flight: usize,
        now: Instant,
    ) -> Bbr2<R, B, F>;

    /// On an acknowledgement: sets the window and the pacing rate.
    fn bbr2_update_control_parameters(
        controller: &Bbr2<R, B, F>,
        bytes_in_flight: usize,
        now: Instant,
    ) -> Bbr2<R, B, F>;

    /// On a loss of `lost_bytes`.
    fn bbr2_update_on_loss(controller: &Bbr2<R, B, F>, lost_bytes: usize, now: Instant) -> Bbr2<
        R,
        B,
        F,
    >;

    /// The window to come back to after recovery.
    fn bbr2_save_cwnd(controller: &Bbr2<R, B, F>) -> usize;

    /// Comes back to that window.
    fn bbr2_restore_cwnd(controller: &Bbr2<R, B, F>) -> Bbr2<R, B, F>;
}

} // verus!
