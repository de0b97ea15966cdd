use chrono::{DateTime, Utc};
use cp_probe::ident::Uuid;
use cp_probe::time::{Timestamp, FIRST_SECOND, LAST_SECOND};

#[test]
fn timestamps_are_utc_milliseconds() {
    let text = |secs: i64, nanos: u32| Timestamp::from_unix(secs, nanos).unwrap().to_text();
    assert_eq!(text(0, 0), "1970-01-01T00:00:00.000Z");
    assert_eq!(text(1_700_000_000, 123_456_789), "2023-11-14T22:13:20.123Z");
    assert_eq!(text(1_700_000_000, 123_999_999), "2023-11-14T22:13:20.123Z");
    assert_eq!(text(-1, 999_000_000), "1969-12-31T23:59:59.999Z");
    assert_eq!(text(59, 1_500_000_000), "1970-01-01T00:00:60.500Z");
}

#[test]
fn the_range_is_the_calendar_s() {
    assert_eq!(FIRST_SECOND, DateTime::<Utc>::MIN_UTC.timestamp());
    assert_eq!(LAST_SECOND, DateTime::<Utc>::MAX_UTC.timestamp());
    let cases = [
        (FIRST_SECOND, 0),
        (FIRST_SECOND - 1, 0),
        (LAST_SECOND, 999_999_999),
        (LAST_SECOND + 1, 0),
        (59, 1_999_999_999),
        (59, 2_000_000_000),
        (58, 1_000_000_000),
        (-1, 1_000_000_000),
        (-2, 1_000_000_000),
        (i64::MIN, 0),
        (i64::MAX, 0),
    ];
    for (secs, nanos) in cases {
        let mine = Timestamp::from_unix(secs, nanos);
        let theirs = DateTime::<Utc>::from_timestamp(secs, nanos);
        assert_eq!(mine.is_some(), theirs.is_some(), "{secs} {nanos}");
        if let (Some(mine), Some(theirs)) = (mine, theirs) {
            let text = theirs.to_rfc3339_opts(chrono::SecondsFormat::Millis, true);
            assert_eq!(mine.to_text(), text);
        }
    }
}

#[test]
fn the_clock_runs() {
    let before = Utc::now().to_rfc3339_opts(chrono::SecondsFormat::Millis, true);
    let now = Timestamp::now().to_text();
    let after = Utc::now().to_rfc3339_opts(chrono::SecondsFormat::Millis, true);
    assert_eq!(now.len(), 24);
    assert!(now.ends_with('Z'));
    assert!(before <= now && now <= after);
}

#[test]
fn identifiers_are_hyphenated_lower_case() {
    let id = Uuid { bytes: [0xA1, 0xB2, 0xC3, 0xD4, 0, 1, 2, 3, 4, 5, 6, 7, 8, 9, 0xFE, 0xFF] };
    assert_eq!(id.to_text(), "a1b2c3d4-0001-0203-0405-06070809feff");
    assert_eq!(id.to_text(), uuid::Uuid::from_bytes(id.bytes).to_string());
}
