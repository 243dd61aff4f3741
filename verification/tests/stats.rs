use touhou_tracker::snapshot::CardSnapshot;
use touhou_tracker::stats::{outcome, recent_cutoff, recent_performance, AttemptOutcome};
use touhou_tracker::timestamp::{Timestamp, MAX_UNIX_NANOS, MIN_UNIX_NANOS, NANOS_PER_HOUR};
use touhou_tracker::types::{Difficulty, ShotType};
use touhou_tracker::update::CardAttemptInfo;

fn card(nanos: i128, attempts: u32, captures: u32) -> CardSnapshot {
    CardSnapshot {
        card_id: 7,
        shot_type: ShotType::MarisaA,
        difficulty: Difficulty::Hard,
        timestamp: Timestamp::from_unix_nanos(nanos).unwrap(),
        attempts,
        captures,
    }
}

#[test]
fn timestamp_range_is_that_of_the_calendar() {
    assert!(Timestamp::from_unix_nanos(MIN_UNIX_NANOS).is_some());
    assert!(Timestamp::from_unix_nanos(MIN_UNIX_NANOS - 1).is_none());
    assert!(Timestamp::from_unix_nanos(MAX_UNIX_NANOS).is_some());
    assert!(Timestamp::from_unix_nanos(MAX_UNIX_NANOS + 1).is_none());
    assert!(Timestamp::from_unix_nanos(i128::MIN).is_none());
    assert!(Timestamp::from_unix_nanos(i128::MAX).is_none());
    assert_eq!(Timestamp::from_unix_nanos(-5).unwrap().unix_nanos(), -5);
    // the limits are those of the calendar crate
    assert_eq!(
        time::OffsetDateTime::from_unix_timestamp_nanos(MIN_UNIX_NANOS).unwrap(),
        time::PrimitiveDateTime::MIN.assume_utc()
    );
    assert_eq!(
        time::OffsetDateTime::from_unix_timestamp_nanos(MAX_UNIX_NANOS).unwrap(),
        time::PrimitiveDateTime::MAX.assume_utc()
    );
    assert!(time::OffsetDateTime::from_unix_timestamp_nanos(MIN_UNIX_NANOS - 1).is_err());
    assert!(time::OffsetDateTime::from_unix_timestamp_nanos(MAX_UNIX_NANOS + 1).is_err());
}

#[test]
fn hours_are_subtracted_exactly() {
    let t = Timestamp::from_unix_nanos(1_700_000_000_123_456_789).unwrap();
    assert_eq!(t.saturating_sub_hours(0), t);
    assert_eq!(
        t.saturating_sub_hours(1).unix_nanos(),
        1_700_000_000_123_456_789 - NANOS_PER_HOUR
    );
    assert_eq!(
        t.saturating_sub_hours(100_000).unix_nanos(),
        1_700_000_000_123_456_789 - 100_000 * NANOS_PER_HOUR
    );
    let before_epoch = Timestamp::from_unix_nanos(-1).unwrap();
    assert_eq!(before_epoch.saturating_sub_hours(24).unix_nanos(), -1 - 24 * NANOS_PER_HOUR);
}

#[test]
fn hours_subtraction_stops_at_the_first_instant() {
    let t = Timestamp::from_unix_nanos(MIN_UNIX_NANOS + 5 * NANOS_PER_HOUR + 1).unwrap();
    assert_eq!(t.saturating_sub_hours(5).unix_nanos(), MIN_UNIX_NANOS + 1);
    assert_eq!(t.saturating_sub_hours(6).unix_nanos(), MIN_UNIX_NANOS);
    assert_eq!(t.saturating_sub_hours(u32::MAX).unix_nanos(), MIN_UNIX_NANOS);
    let last = Timestamp::from_unix_nanos(MAX_UNIX_NANOS).unwrap();
    assert_eq!(last.saturating_sub_hours(u32::MAX).unix_nanos(), MIN_UNIX_NANOS);
    let first = Timestamp::from_unix_nanos(MIN_UNIX_NANOS).unwrap();
    assert_eq!(first.saturating_sub_hours(0), first);
    assert_eq!(first.saturating_sub_hours(1), first);
}

#[test]
fn recent_cutoff_is_twelve_hours_back() {
    let t = Timestamp::from_unix_nanos(1_700_000_000_000_000_000).unwrap();
    assert_eq!(
        recent_cutoff(t).unix_nanos(),
        1_700_000_000_000_000_000 - 12 * 3600 * 1_000_000_000
    );
    let early = Timestamp::from_unix_nanos(MIN_UNIX_NANOS + 1).unwrap();
    assert_eq!(recent_cutoff(early).unix_nanos(), MIN_UNIX_NANOS);
}

#[test]
fn recent_performance_counts_since_the_earliest_snapshot() {
    let current = card(50, 20, 9);
    let earliest = card(10, 15, 6);
    let info = recent_performance(&current, Some(&earliest)).unwrap();
    assert_eq!((info.delta_attempts(), info.delta_captures()), (5, 3));
    // captures beyond the attempts are cut down, captures that fell count as none
    let info = recent_performance(&card(50, 20, 19), Some(&earliest)).unwrap();
    assert_eq!((info.delta_attempts(), info.delta_captures()), (5, 5));
    let info = recent_performance(&card(50, 20, 1), Some(&earliest)).unwrap();
    assert_eq!((info.delta_attempts(), info.delta_captures(), info.is_capture()), (5, 0, false));
}

#[test]
fn recent_performance_is_omitted_without_attempts() {
    let current = card(50, 20, 9);
    assert!(recent_performance(&current, None).is_none());
    assert!(recent_performance(&current, Some(&current)).is_none());
    assert!(recent_performance(&current, Some(&card(10, 20, 0))).is_none());
    assert!(recent_performance(&current, Some(&card(10, 25, 0))).is_none());
}

#[test]
fn outcome_of_an_attempt() {
    let capture = CardAttemptInfo::between(&card(0, 1, 1), &card(1, 2, 2)).unwrap();
    let miss = CardAttemptInfo::between(&card(0, 1, 1), &card(1, 2, 1)).unwrap();
    assert_eq!(outcome(Some(&capture)), AttemptOutcome::Capture);
    assert_eq!(outcome(Some(&miss)), AttemptOutcome::Miss);
    assert_eq!(outcome(None), AttemptOutcome::NotAttempted);
}
