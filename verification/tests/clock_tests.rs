use kavita_discord_rpc::clock::{
    choose_event_time, event_time, has_lapsed, is_recent, seconds_since, TimeSource, Timestamp,
    DEFAULT_ACTIVITY_WINDOW_MINUTES, DEFAULT_CONTACT_WINDOW_MINUTES,
};

fn at(secs: i64, nanos: u32) -> Timestamp {
    Timestamp { secs, nanos }
}

#[test]
fn event_time_reads_a_text_with_offset() {
    let now = at(1_800_000_000, 0);
    assert_eq!(
        event_time("2024-05-01T12:00:00Z", now),
        (at(1_714_564_800, 0), TimeSource::WithOffset)
    );
    assert_eq!(
        event_time("2024-05-01T14:00:00.25+02:00", now),
        (at(1_714_564_800, 250_000_000), TimeSource::WithOffset)
    );
}

#[test]
fn event_time_reads_a_text_without_offset_up_to_the_full_stop() {
    let now = at(1_800_000_000, 0);
    assert_eq!(
        event_time("2024-05-01T12:00:00.1234567", now),
        (at(1_714_564_800, 0), TimeSource::WithoutOffset)
    );
    assert_eq!(
        event_time("2024-05-01T12:00:00", now),
        (at(1_714_564_800, 0), TimeSource::WithoutOffset)
    );
}

#[test]
fn event_time_falls_back_to_the_clock() {
    let now = at(1_800_000_000, 5);
    assert_eq!(event_time("yesterday", now), (now, TimeSource::Clock));
    assert_eq!(event_time("", now), (now, TimeSource::Clock));
    assert_eq!(event_time("2024-05-01 12:00:00", now), (now, TimeSource::Clock));
}

#[test]
fn choose_event_time_prefers_the_reading_with_offset() {
    let now = at(10, 0);
    assert_eq!(
        choose_event_time(Some((1, 2)), Some((3, 4)), now),
        (at(1, 2), TimeSource::WithOffset)
    );
    assert_eq!(choose_event_time(None, Some((3, 4)), now), (at(3, 4), TimeSource::WithoutOffset));
    assert_eq!(choose_event_time(None, None, now), (now, TimeSource::Clock));
}

#[test]
fn seconds_since_rounds_toward_zero() {
    assert_eq!(seconds_since(at(10, 0), at(4, 0)), 6);
    assert_eq!(seconds_since(at(10, 200_000_000), at(9, 900_000_000)), 0);
    assert_eq!(seconds_since(at(10, 900_000_000), at(9, 0)), 1);
    assert_eq!(seconds_since(at(9, 900_000_000), at(10, 200_000_000)), 0);
    assert_eq!(seconds_since(at(9, 0), at(10, 900_000_000)), -1);
    assert_eq!(seconds_since(at(-5, 0), at(5, 0)), -10);
    assert_eq!(seconds_since(at(i64::MAX, 0), at(i64::MIN, 0)), (i64::MAX as i128) - (i64::MIN as i128));
}

#[test]
fn is_recent_is_strict_at_the_edge_of_the_window() {
    let now = at(100_000, 0);
    assert!(is_recent(now, at(100_000 - 899, 0), 15));
    assert!(is_recent(now, at(100_000 - 900, 1), 15));
    assert!(!is_recent(now, at(100_000 - 900, 0), 15));
    assert!(!is_recent(now, at(100_000 - 1200, 0), 15));
    assert!(is_recent(now, at(100_500, 0), 15));
    assert!(!is_recent(now, now, 0));
    assert!(is_recent(now, at(0, 0), u64::MAX));
}

#[test]
fn has_lapsed_needs_more_than_the_window() {
    let now = at(100_000, 0);
    assert!(!has_lapsed(now, at(100_000 - 1800, 0), 30));
    assert!(has_lapsed(now, at(100_000 - 1801, 0), 30));
    assert!(!has_lapsed(now, at(100_000 - 1800, 1), 30));
    assert!(!has_lapsed(now, at(200_000, 0), 30));
    assert!(!has_lapsed(now, at(0, 0), u64::MAX));
}

#[test]
fn the_two_default_windows_differ() {
    assert_eq!(DEFAULT_ACTIVITY_WINDOW_MINUTES, 15);
    assert_eq!(DEFAULT_CONTACT_WINDOW_MINUTES, 30);
}
