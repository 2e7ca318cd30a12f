use congestion::copa::rtt::{BucketRttMinTracker, RttMaxTracker, RttMinTracker};
use congestion::time::{Duration, Instant};

fn ms(n: u64) -> Duration {
    Duration::from_millis(n)
}

fn at(n: u64) -> Instant {
    Instant { nanos: 5_000_000_000 + n as u128 * 1_000_000 }
}

#[test]
fn max_of_nothing_is_zero() {
    assert_eq!(RttMaxTracker::new().max_rtt(), Duration::zero());
}

#[test]
fn max_looks_back_four_samples() {
    let mut tracker = RttMaxTracker::new();
    tracker.update(ms(90));
    tracker.update(ms(20));
    tracker.update(ms(50));
    assert_eq!(tracker.max_rtt(), ms(90));
    tracker.update(ms(30));
    assert_eq!(tracker.max_rtt(), ms(90));
    tracker.update(ms(10));
    assert_eq!(tracker.max_rtt(), ms(50));
    tracker.update(ms(10));
    assert_eq!(tracker.max_rtt(), ms(50));
    tracker.update(ms(10));
    assert_eq!(tracker.max_rtt(), ms(30));
}

#[test]
fn standing_minimum_of_nothing_is_longest() {
    assert_eq!(RttMinTracker::new().min_rtt(), Duration::longest());
}

#[test]
fn standing_minimum_forgets_old_samples() {
    let mut tracker = RttMinTracker::new();
    tracker.update(ms(40), at(0), ms(50));
    tracker.update(ms(60), at(20), ms(50));
    assert_eq!(tracker.min_rtt(), ms(40));
    tracker.update(ms(70), at(49), ms(50));
    assert_eq!(tracker.min_rtt(), ms(40));
    tracker.update(ms(80), at(50), ms(50));
    assert_eq!(tracker.min_rtt(), ms(60));
    tracker.update(ms(90), at(200), ms(50));
    assert_eq!(tracker.min_rtt(), ms(90));
}

#[test]
fn standing_minimum_with_empty_window_is_newest() {
    let mut tracker = RttMinTracker::new();
    tracker.update(ms(40), at(0), ms(50));
    tracker.update(ms(60), at(0), Duration::zero());
    assert_eq!(tracker.min_rtt(), ms(60));
}

#[test]
fn standing_minimum_keeps_samples_from_the_future() {
    let mut tracker = RttMinTracker::new();
    tracker.update(ms(40), at(100), ms(50));
    tracker.update(ms(60), at(0), ms(50));
    assert_eq!(tracker.min_rtt(), ms(40));
}

#[test]
fn slot_minimum_of_nothing_is_longest() {
    assert_eq!(BucketRttMinTracker::new(at(0)).min_rtt(), Duration::longest());
}

#[test]
fn slot_minimum_within_one_slot() {
    let mut tracker = BucketRttMinTracker::new(at(0));
    tracker.update(ms(40), at(0));
    tracker.update(ms(60), at(99));
    assert_eq!(tracker.min_rtt(), ms(40));
    tracker.update(ms(30), at(99));
    assert_eq!(tracker.min_rtt(), ms(30));
}

#[test]
fn slot_minimum_covers_ten_seconds_after_the_sample() {
    let mut tracker = BucketRttMinTracker::new(at(0));
    tracker.update(ms(90), at(0));
    tracker.update(ms(40), at(99));
    tracker.update(ms(60), at(5_000));
    tracker.update(ms(60), at(10_098));
    assert_eq!(tracker.min_rtt(), ms(40));
    tracker.update(ms(60), at(10_100));
    assert_eq!(tracker.min_rtt(), ms(60));
}

#[test]
fn slot_minimum_forgets_after_a_long_silence() {
    let mut tracker = BucketRttMinTracker::new(at(0));
    tracker.update(ms(10), at(0));
    tracker.update(ms(50), at(20_000));
    assert_eq!(tracker.min_rtt(), ms(50));
    // One full round later the clock is back in the same slot.
    tracker.update(ms(70), at(30_100));
    assert_eq!(tracker.min_rtt(), ms(70));
}

#[test]
fn slot_minimum_slides_slot_by_slot() {
    let mut tracker = BucketRttMinTracker::new(at(0));
    let mut slot = 0;
    while slot <= 250 {
        tracker.update(ms(40 + slot), at(slot * 100));
        slot += 1;
    }
    // Slot 150 is the oldest that is less than ten seconds and a slot old.
    assert_eq!(tracker.min_rtt(), ms(190));
}

#[test]
fn slot_minimum_expires_with_slow_samples() {
    let mut tracker = BucketRttMinTracker::new(at(0));
    tracker.update(ms(10), at(0));
    let mut n = 1;
    // Each sample enters the next slot, but takes almost two slots of time.
    while n * 199 < 10_100 {
        tracker.update(ms(50), at(n * 199));
        assert_eq!(tracker.min_rtt(), ms(10));
        n += 1;
    }
    tracker.update(ms(50), at(n * 199));
    assert_eq!(tracker.min_rtt(), ms(50));
}

#[test]
fn slot_minimum_survives_a_clock_that_goes_back() {
    let mut tracker = BucketRttMinTracker::new(at(1_000));
    tracker.update(ms(40), at(1_000));
    tracker.update(ms(30), at(0));
    assert_eq!(tracker.min_rtt(), ms(30));
}
