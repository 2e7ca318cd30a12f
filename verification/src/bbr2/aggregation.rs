//! How far acknowledgements arrive ahead of the bandwidth.
use vstd::prelude::*;

use crate::time::{Instant, NANOS_PER_MICRO};

verus! {

/// A filter that holds the maximum of a window of round trips.
pub trait MaxFilter: Sized {
    /// The filter that has seen no value.
    fn initial() -> Self;

    /// The filter after it has seen `value` in round trip `round`.
    fn update_max(&self, round: u64, value: u64) -> Self;
}

/// The bytes acknowledged in the current epoch. An epoch lasts for as long as
/// acknowledgements arrive faster than the bandwidth accounts for.
#[derive(Debug, Clone, Copy)]
pub struct AckAggregationState<F> {
    /// The most bytes by which acknowledgements were ahead.
    pub max_ack_height: F,
    /// When the epoch began.
    pub aggregation_epoch_start_time: Option<Instant>,
    /// The bytes acknowledged in the epoch.
    pub aggregation_epoch_bytes: u64,
}

impl<F: MaxFilter> AckAggregationState<F> {
    /// No epoch yet.
    pub fn initial() -> (state: Self)
        ensures
            call_ensures(F::initial, (), state.max_ack_height),
            state.aggregation_epoch_start_time is None,
            state.aggregation_epoch_bytes == 0,
    {
        AckAggregationState {
            max_ack_height: F::initial(),
            aggregation_epoch_start_time: None,
            aggregation_epoch_bytes: 0,
        }
    }

    /// How long the epoch has lasted at `now`, in whole microseconds.
    pub open spec fn epoch_micros(self, now: Instant) -> u64 {
        match self.aggregation_epoch_start_time {
            Some(start) => (now.since(start).nanos / NANOS_PER_MICRO) as u64,
            None => 0,
        }
    }

    /// The bytes that `max_bandwidth`, in bytes per second, accounts for in the epoch.
    pub open spec fn expected(self, now: Instant, max_bandwidth: u64) -> int {
        max_bandwidth * self.epoch_micros(now) / 1_000_000
    }

    /// Whether acknowledgements arrive faster than the bandwidth accounts for.
    pub open spec fn is_ahead(self, now: Instant, max_bandwidth: u64) -> bool {
        self.aggregation_epoch_bytes > self.expected(now, max_bandwidth)
    }

    /// Whether the bytes can be counted.
    pub open spec fn can_count(self, newly_acked_bytes: u64, now: Instant, max_bandwidth: u64) -> bool {
        &&& max_bandwidth * self.epoch_micros(now) <= u64::MAX
        &&& self.is_ahead(now, max_bandwidth) ==> self.aggregation_epoch_bytes + newly_acked_bytes
            <= u64::MAX
    }

    /// The bytes by which acknowledgements are ahead once `newly_acked_bytes` count.
    pub open spec fn excess(self, newly_acked_bytes: u64, now: Instant, max_bandwidth: u64) -> u64 {
        if self.is_ahead(now, max_bandwidth) {
            (self.aggregation_epoch_bytes + newly_acked_bytes - self.expected(
                now,
                max_bandwidth,
            )) as u64
        } else {
            0
        }
    }

    /// `after` has counted `newly_acked_bytes` at `now`, in round trip `round`: into the
    /// epoch and into the filter where acknowledgements are ahead, and into a new epoch
    /// where they are not.
    pub open spec fn counted(
        self,
        newly_acked_bytes: u64,
        now: Instant,
        round: u64,
        max_bandwidth: u64,
        after: Self,
    ) -> bool {
        if self.is_ahead(now, max_bandwidth) {
            &&& call_ensures(
                F::update_max,
                (&self.max_ack_height, round, self.excess(newly_acked_bytes, now, max_bandwidth)),
                after.max_ack_height,
            )
            &&& after == (AckAggregationState {
                max_ack_height: after.max_ack_height,
                aggregation_epoch_bytes: (self.aggregation_epoch_bytes + newly_acked_bytes) as u64,
                ..self
            })
        } else {
            after == (AckAggregationState {
                aggregation_epoch_bytes: newly_acked_bytes,
                aggregation_epoch_start_time: Some(now),
                ..self
            })
        }
    }

    /// How long the epoch has lasted at `now`, in whole microseconds.
    fn micros(&self, now: Instant) -> (micros: u64)
        ensures
            micros == self.epoch_micros(now),
    {
        let start = match self.aggregation_epoch_start_time {
            Some(start) => start,
            None => now,
        };
        now.saturating_duration_since(start).as_micros() as u64
    }

    /// The bytes by which acknowledgements are ahead once `newly_acked_bytes` count, or
    /// `None` where they cannot be counted.
    pub fn try_excess(&self, newly_acked_bytes: u64, now: Instant, max_bandwidth: u64) -> (excess:
        Option<u64>)
        ensures
            excess is Some <==> self.can_count(newly_acked_bytes, now, max_bandwidth),
            excess is Some ==> excess->0 == self.excess(newly_acked_bytes, now, max_bandwidth),
    {
        let expected: u64 = match max_bandwidth.checked_mul(self.micros(now)) {
            Some(product) => product / 1_000_000,
            None => {
                return None;
            },
        };
        if self.aggregation_epoch_bytes <= expected {
            return Some(0);
        }
        match self.aggregation_epoch_bytes.checked_add(newly_acked_bytes) {
            Some(bytes) => Some(bytes - expected),
            None => None,
        }
    }

    /// Counts `newly_acked_bytes` at `now`. Gives the bytes by which acknowledgements
    /// are ahead of `max_bandwidth`.
    pub fn update_ack_aggregation_bytes(
        &mut self,
        newly_acked_bytes: u64,
        now: Instant,
        round: u64,
        max_bandwidth: u64,
    ) -> (excess: u64)
        requires
            old(self).can_count(newly_acked_bytes, now, max_bandwidth),
        ensures
            excess == old(self).excess(newly_acked_bytes, now, max_bandwidth),
            old(self).counted(newly_acked_bytes, now, round, max_bandwidth, *final(self)),
    {
        let expected_bytes_acked: u64 = max_bandwidth * self.micros(now) / 1_000_000;
        if self.aggregation_epoch_bytes <= expected_bytes_acked {
            self.aggregation_epoch_bytes = newly_acked_bytes;
            self.aggregation_epoch_start_time = Some(now);
            return 0;
        }
        self.aggregation_epoch_bytes = self.aggregation_epoch_bytes + newly_acked_bytes;
        let diff: u64 = self.aggregation_epoch_bytes - expected_bytes_acked;
        self.max_ack_height = self.max_ack_height.update_max(round, diff);
        diff
    }
}

} // verus!
