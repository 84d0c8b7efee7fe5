use recallgate::cadence::GateCadence;
use recallgate::time::Timestamp;

#[test]
fn timestamps_format_and_parse() {
    let t = Timestamp::from_millis(0);
    assert_eq!(t.to_rfc3339().as_deref(), Some("1970-01-01T00:00:00+00:00"));
    assert_eq!(Timestamp::parse_rfc3339("1970-01-01T00:00:01.5+00:00"), Some(Timestamp::from_millis(1_500)));
    assert_eq!(Timestamp::parse_rfc3339("2024-02-29T12:00:00+02:00"), Some(Timestamp::from_millis(1_709_200_800_000)));
    assert_eq!(Timestamp::parse_rfc3339("tomorrow"), None);
    assert_eq!(Timestamp::from_millis(i64::MAX).to_rfc3339(), None);
    assert_eq!(Timestamp::from_millis(-1), Timestamp { secs: -1, nanos: 999_000_000 });
    assert_eq!(Timestamp::from_millis(1_500), Timestamp { secs: 1, nanos: 500_000_000 });
    assert_eq!(
        Timestamp::parse_rfc3339("1970-01-01T00:00:00.000000001Z"),
        Some(Timestamp { secs: 0, nanos: 1 })
    );
    let leap = Timestamp::parse_rfc3339("2016-12-31T23:59:60.5Z").expect("leap second");
    assert_eq!(leap, Timestamp { secs: 1_483_228_799, nanos: 1_500_000_000 });
    assert!(leap.is_not_before(&Timestamp { secs: 1_483_228_799, nanos: 999_999_999 }));
    assert!(!leap.is_not_before(&Timestamp { secs: 1_483_228_800, nanos: 0 }));
    assert_eq!(Timestamp { secs: 0, nanos: 999_999_999 }.plus_millis(1), Some(Timestamp { secs: 1, nanos: 999_999 }));
    assert_eq!(Timestamp { secs: i64::MAX, nanos: 0 }.plus_millis(999), Some(Timestamp { secs: i64::MAX, nanos: 999_000_000 }));
    assert_eq!(Timestamp { secs: i64::MAX, nanos: 0 }.plus_millis(1_000), None);
    let now = Timestamp::now();
    let text = now.to_rfc3339().expect("now");
    assert_eq!(Timestamp::parse_rfc3339(&text), Some(now));
}

#[test]
fn cadence_counts_from_the_last_unlock() {
    let cadence = GateCadence::new(120_000);
    assert!(cadence.allows_lock_at(None, 0));
    assert!(!cadence.allows_lock_at(Some(1_000), 120_999));
    assert!(cadence.allows_lock_at(Some(1_000), 121_000));
    assert!(!cadence.allows_lock_at(Some(5_000), 1_000));
    let zero = GateCadence::new(0);
    assert!(zero.allows_lock_at(Some(5_000), 1_000));
    assert_eq!(cadence.lock_interval_ms, 120_000);
}
