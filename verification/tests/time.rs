use congestion::time::{Duration, Instant};

#[test]
fn units() {
    assert_eq!(Duration::from_millis(333).nanos, 333_000_000);
    assert_eq!(Duration::from_micros(7).nanos, 7_000);
    assert_eq!(Duration::from_secs(10).nanos, 10_000_000_000);
    assert_eq!(Duration { nanos: 1_999_999 }.as_millis(), 1);
    assert_eq!(Duration { nanos: 1_999_999 }.as_micros(), 1_999);
    assert!(Duration::zero().is_zero());
    assert!(!Duration { nanos: 1 }.is_zero());
    assert_eq!(Duration::longest().nanos, std::time::Duration::MAX.as_nanos());
}

#[test]
fn differences_stop_at_zero() {
    let (a, b) = (Duration { nanos: 5 }, Duration { nanos: 8 });
    assert_eq!(b.saturating_sub(a), Duration { nanos: 3 });
    assert_eq!(a.saturating_sub(b), Duration::zero());
    let (early, late) = (Instant { nanos: 5 }, Instant { nanos: 8 });
    assert_eq!(late.saturating_duration_since(early), Duration { nanos: 3 });
    assert_eq!(early.saturating_duration_since(late), Duration::zero());
}

#[test]
fn order_of_spans() {
    let (a, b) = (Duration { nanos: 5 }, Duration { nanos: 8 });
    assert_eq!(a.min(b), a);
    assert_eq!(b.min(a), a);
    assert_eq!(a.max(b), b);
    assert_eq!(b.max(a), b);
}

#[test]
fn points_after_spans() {
    assert_eq!(Instant { nanos: 5 }.after(Duration { nanos: 8 }), Instant { nanos: 13 });
}
