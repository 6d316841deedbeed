use linked_chat_bot::bot::{checked_export_event, EventError};
use linked_chat_bot::time::{CalendarDate, ClockTime, UtcDateTime, MAX_TIMESTAMP, MIN_TIMESTAMP};

fn date(year: i32, month: u32, day: u32) -> CalendarDate {
    CalendarDate { year, month, day }
}

fn clock(hour: u32, minute: u32) -> ClockTime {
    ClockTime { hour, minute }
}

fn start_of(d: &str, t: &str) -> Result<i64, EventError> {
    checked_export_event("t", "c", d, t, 0, "video", None, None).map(|e| e.start_time.timestamp())
}

#[test]
fn parses_dates_and_times() {
    assert_eq!(start_of("2024-12-15", "10:05"), Ok(1734257100));
    assert_eq!(start_of("2024-1-5", "9:05"), Ok(1704445500));
    assert_eq!(start_of("2024-02-30", "10:00"), Err(EventError::InvalidDate));
    assert_eq!(start_of("tomorrow", "10:00"), Err(EventError::InvalidDate));
    assert_eq!(start_of("2024-12-15", "25:00"), Err(EventError::InvalidTime));
    assert_eq!(start_of("2024-12-15", "10:60"), Err(EventError::InvalidTime));
}

#[test]
fn instant_of_a_date_and_time() {
    let start = UtcDateTime::from_date_and_clock(date(2024, 12, 15), clock(10, 0));
    assert_eq!(start.timestamp(), 1734256800);
    assert_eq!(start.timestamp_subsec_nanos(), 0);
    assert_eq!(start.format_minute(), "2024-12-15 10:00");
    let epoch = UtcDateTime::from_date_and_clock(date(1970, 1, 1), clock(0, 0));
    assert_eq!(epoch.timestamp(), 0);
    let before = UtcDateTime::from_date_and_clock(date(1969, 12, 31), clock(23, 59));
    assert_eq!(before.timestamp(), -60);
    assert_eq!(before.format_minute(), "1969-12-31 23:59");
    let leap_day = UtcDateTime::from_date_and_clock(date(2000, 2, 29), clock(12, 0));
    assert_eq!(leap_day.timestamp(), 951825600);
    let first = UtcDateTime::from_date_and_clock(date(-262143, 1, 1), clock(0, 0));
    assert_eq!(first.timestamp(), MIN_TIMESTAMP);
    let last = UtcDateTime::from_date_and_clock(date(262142, 12, 31), clock(23, 59));
    assert_eq!(last.timestamp(), MAX_TIMESTAMP - 59);
}

#[test]
fn range_and_leap_seconds() {
    assert!(UtcDateTime::from_timestamp(MIN_TIMESTAMP, 0).is_some());
    assert!(UtcDateTime::from_timestamp(MIN_TIMESTAMP - 1, 0).is_none());
    assert!(UtcDateTime::from_timestamp(MAX_TIMESTAMP, 999_999_999).is_some());
    assert!(UtcDateTime::from_timestamp(MAX_TIMESTAMP + 1, 0).is_none());
    assert!(UtcDateTime::from_timestamp(59, 1_500_000_000).is_some());
    assert!(UtcDateTime::from_timestamp(58, 1_500_000_000).is_none());
    assert!(UtcDateTime::from_timestamp(-1, 1_000_000_000).is_some());
    assert!(UtcDateTime::from_timestamp(0, 2_000_000_000).is_none());
    for (secs, nanos) in [(0i64, 0u32), (59, 1_500_000_000), (-1, 1_000_000_000), (MAX_TIMESTAMP, 0), (MAX_TIMESTAMP + 1, 0), (MIN_TIMESTAMP, 0), (MIN_TIMESTAMP - 1, 0), (58, 1_500_000_000)] {
        assert_eq!(
            UtcDateTime::from_timestamp(secs, nanos).is_some(),
            chrono::DateTime::from_timestamp(secs, nanos).is_some()
        );
    }
}

#[test]
fn adding_minutes() {
    let t = UtcDateTime::from_timestamp(1000, 5).unwrap();
    let u = t.plus_minutes(90);
    assert_eq!(u.timestamp(), 1000 + 5400);
    assert_eq!(u.timestamp_subsec_nanos(), 5);
    let leap = UtcDateTime::from_timestamp(59, 1_200_000_000).unwrap();
    let later = leap.plus_minutes(1);
    assert_eq!(later.timestamp(), 119);
    assert_eq!(later.timestamp_subsec_nanos(), 200_000_000);
    let same = leap.plus_minutes(0);
    assert_eq!(same.timestamp(), 59);
    assert_eq!(same.timestamp_subsec_nanos(), 1_200_000_000);
}

#[test]
fn now_is_after_epoch() {
    let now = UtcDateTime::now();
    assert!(now.timestamp() > 1_600_000_000);
    assert!(now.timestamp_subsec_nanos() < 1_000_000_000);
}

#[test]
fn years_are_padded_and_signed() {
    let cases = [
        (date(500, 3, 7), clock(4, 9), "0500-03-07 04:09"),
        (date(0, 1, 1), clock(0, 0), "0000-01-01 00:00"),
        (date(9999, 12, 31), clock(23, 59), "9999-12-31 23:59"),
        (date(10000, 1, 1), clock(0, 0), "+10000-01-01 00:00"),
        (date(-1, 6, 30), clock(12, 30), "-0001-06-30 12:30"),
        (date(-262143, 1, 1), clock(0, 0), "-262143-01-01 00:00"),
    ];
    for (d, t, text) in cases {
        assert_eq!(UtcDateTime::from_date_and_clock(d, t).format_minute(), text);
    }
    let leap_second = UtcDateTime::from_timestamp(59, 1_500_000_000).unwrap();
    assert_eq!(leap_second.format_minute(), "1970-01-01 00:00");
}
