use fog_ingest::time::{Duration, Instant};

fn at_nanos(secs: u64, nanos: u32) -> Instant {
    Instant { since_origin: Duration::new(secs, nanos) }
}

#[test]
fn durations_have_their_lengths() {
    assert_eq!(Duration::from_secs(2), Duration::from_millis(2000));
    assert_eq!(Duration::from_millis(1500), Duration::new(1, 500_000_000));
    assert_eq!(Duration::new(0, 1_500_000_000), Duration::new(1, 500_000_000));
    assert_eq!(Duration::new(1, 999_999_999).as_secs(), 1);
    assert_eq!(Duration::new(1, 999_999_999).subsec_nanos(), 999_999_999);
    assert_eq!(Duration::from_secs(u64::MAX).as_secs(), u64::MAX);
    assert_eq!(Duration::from_millis(u64::MAX).as_secs(), u64::MAX / 1000);
    assert_eq!(Duration::from_millis(10).subsec_nanos(), 10_000_000);
}

#[test]
fn durations_are_compared_strictly() {
    assert!(Duration::new(300, 1).exceeds(&Duration::from_secs(300)));
    assert!(!Duration::from_secs(300).exceeds(&Duration::from_secs(300)));
    assert!(!Duration::from_secs(299).exceeds(&Duration::from_secs(300)));
}

#[test]
fn elapsed_time_is_never_negative() {
    assert_eq!(at_nanos(5, 900_000_000).elapsed(&at_nanos(7, 100)), Duration::new(1, 100_000_100));
    assert_eq!(at_nanos(7, 0).elapsed(&at_nanos(7, 0)), Duration::from_secs(0));
    assert_eq!(at_nanos(7, 0).elapsed(&at_nanos(6, 0)), Duration::from_secs(0));
}
