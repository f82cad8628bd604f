use chrono::{DateTime, TimeDelta, Utc};
use flashcards::instant::{Instant, MAX_SECONDS, MIN_SECONDS};

#[test]
fn range_is_the_range_of_chrono() {
    assert_eq!(DateTime::<Utc>::MIN_UTC.timestamp(), MIN_SECONDS);
    assert_eq!(DateTime::<Utc>::MAX_UTC.timestamp(), MAX_SECONDS);
    assert!(DateTime::from_timestamp(MIN_SECONDS, 0).is_some());
    assert!(DateTime::from_timestamp(MIN_SECONDS - 1, 0).is_none());
    assert!(DateTime::from_timestamp(MAX_SECONDS, 999_999_999).is_some());
    assert!(DateTime::from_timestamp(MAX_SECONDS + 1, 0).is_none());
}

#[test]
fn an_instant_needs_a_timestamp_in_range_and_less_than_a_second_of_nanos() {
    assert_eq!(Instant::new(0, 0), Some(Instant { secs: 0, nanos: 0 }));
    assert_eq!(Instant::new(MIN_SECONDS, 0), Some(Instant { secs: MIN_SECONDS, nanos: 0 }));
    assert_eq!(
        Instant::new(MAX_SECONDS, 999_999_999),
        Some(Instant { secs: MAX_SECONDS, nanos: 999_999_999 })
    );
    assert_eq!(Instant::new(MIN_SECONDS - 1, 0), None);
    assert_eq!(Instant::new(MAX_SECONDS + 1, 0), None);
    assert_eq!(Instant::new(0, 1_000_000_000), None);
}

#[test]
fn adding_seconds_keeps_the_nanoseconds() {
    let start = Instant::new(1_000, 42).unwrap();
    assert_eq!(start.checked_add_seconds(500), Some(Instant { secs: 1_500, nanos: 42 }));
    assert_eq!(start.checked_add_seconds(-2_000), Some(Instant { secs: -1_000, nanos: 42 }));
    assert_eq!(start.checked_add_seconds(0), Some(start));
}

#[test]
fn adding_seconds_stops_at_the_ends_of_the_range() {
    let start = Instant::new(1_000, 42).unwrap();
    assert_eq!(
        start.checked_add_seconds(MAX_SECONDS - 1_000),
        Some(Instant { secs: MAX_SECONDS, nanos: 42 })
    );
    assert_eq!(start.checked_add_seconds(MAX_SECONDS - 999), None);
    assert_eq!(
        start.checked_add_seconds(MIN_SECONDS - 1_000),
        Some(Instant { secs: MIN_SECONDS, nanos: 42 })
    );
    assert_eq!(start.checked_add_seconds(MIN_SECONDS - 1_001), None);
    assert_eq!(start.checked_add_seconds(i64::MAX), None);
    assert_eq!(start.checked_add_seconds(i64::MIN), None);
    let first = Instant::new(MIN_SECONDS, 0).unwrap();
    assert_eq!(
        first.checked_add_seconds(MAX_SECONDS - MIN_SECONDS),
        Some(Instant { secs: MAX_SECONDS, nanos: 0 })
    );
}

#[test]
fn adding_seconds_agrees_with_chrono() {
    let start = DateTime::from_timestamp(1_700_000_000, 987_654_321).unwrap();
    let instant = Instant::new(start.timestamp(), start.timestamp_subsec_nanos()).unwrap();
    for offset in [0_i64, 1, -1, 60, 86_400, 280_800, -86_400 * 365 * 3000, 86_400 * 365 * 200_000] {
        let expected = start.checked_add_signed(TimeDelta::seconds(offset)).unwrap();
        assert_eq!(
            instant.checked_add_seconds(offset),
            Some(Instant { secs: expected.timestamp(), nanos: expected.timestamp_subsec_nanos() })
        );
    }
}

#[test]
fn instants_are_ordered_by_seconds_then_nanoseconds() {
    let early = Instant { secs: 5, nanos: 999_999_999 };
    let late = Instant { secs: 6, nanos: 0 };
    assert!(early.before(&late));
    assert!(!late.before(&early));
    assert!(!early.before(&early));
    assert!(Instant { secs: 5, nanos: 1 }.before(&Instant { secs: 5, nanos: 2 }));
    assert!(Instant { secs: -1, nanos: 5 }.before(&Instant { secs: 0, nanos: 0 }));
}
