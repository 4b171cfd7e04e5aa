use chrono::Datelike;
use chrono::NaiveDateTime;
use chrono::Timelike;
use tl2::error::OrlError;
use tl2::sources::orl::parse_timestamp::parse_timestamp;
use tl2::sources::orl::parse_timestamp::parse_timestamp_slow;
use tl2::time::OrlDate;
use tl2::time::Timestamp;

fn both(input: &str, expected: &str, millis: i64) {
    let fast = parse_timestamp(input).unwrap();
    assert_eq!(fast.to_rfc3339_millis(), expected);
    assert_eq!(fast.timestamp_millis(), millis);
    let slow = parse_timestamp_slow(input).unwrap();
    assert_eq!(slow.to_rfc3339_millis(), expected);
    assert_eq!(fast, slow);
}

fn neither(input: &str) {
    assert_eq!(parse_timestamp(input), Err(OrlError::InvalidTimestamp));
    assert_eq!(parse_timestamp_slow(input), Err(OrlError::InvalidTimestamp));
}

#[test]
fn timestamp_with_milliseconds_and_utc() {
    both("2021-08-03 17:40:27.313 UTC", "2021-08-03T17:40:27.313Z", 1628012427313);
}

#[test]
fn timestamp_with_milliseconds_no_utc() {
    both("2021-08-03 17:40:27.313", "2021-08-03T17:40:27.313Z", 1628012427313);
}

#[test]
fn timestamp_no_milliseconds_no_utc() {
    both("2021-08-03 17:40:27", "2021-08-03T17:40:27.000Z", 1628012427000);
}

#[test]
fn timestamp_no_milliseconds_and_utc() {
    both("2021-08-03 17:40:27 UTC", "2021-08-03T17:40:27.000Z", 1628012427000);
}

#[test]
fn timestamp_low_no_milliseconds_and_utc() {
    both("2021-08-03 02:00:00 UTC", "2021-08-03T02:00:00.000Z", 1627956000000);
}

#[test]
fn timestamp_low_with_milliseconds_and_utc() {
    both("2021-08-03 00:01:27.010 UTC", "2021-08-03T00:01:27.010Z", 1627948887010);
}

#[test]
fn timestamp_earliest_possible_date() {
    both("1970-01-01 00:00:00.000 UTC", "1970-01-01T00:00:00.000Z", 0);
}

#[test]
fn timestamp_latest_possible_date() {
    both("9999-12-31 23:59:59.999 UTC", "9999-12-31T23:59:59.999Z", 253402300799999);
}

#[test]
fn timestamp_leap_year_date() {
    both("2020-02-29 12:34:56 UTC", "2020-02-29T12:34:56.000Z", 1582979696000);
}

#[test]
fn timestamp_max_milliseconds() {
    both("2021-08-03 17:40:27.999 UTC", "2021-08-03T17:40:27.999Z", 1628012427999);
}

#[test]
fn timestamp_min_milliseconds() {
    both("2021-08-03 17:40:27.001 UTC", "2021-08-03T17:40:27.001Z", 1628012427001);
}

#[test]
fn timestamp_empty_string() {
    neither("");
}

#[test]
fn timestamp_space_string() {
    neither(" ");
}

#[test]
fn timestamp_missing_time() {
    neither("2021-08-03");
}

#[test]
fn timestamp_missing_date() {
    neither("17:40:27 UTC");
}

#[test]
fn timestamp_invalid_separator() {
    neither("2021-08-03T17:40:27.313 UTC");
}

#[test]
fn timestamp_invalid_day() {
    neither("2021-08-32 17:40:27 UTC");
}

#[test]
fn timestamp_invalid_month() {
    neither("2021-13-03 17:40:27 UTC");
}

#[test]
fn timestamp_invalid_hour() {
    neither("2021-08-03 24:40:27 UTC");
}

#[test]
fn timestamp_invalid_minute() {
    neither("2021-08-03 17:60:27 UTC");
}

#[test]
fn timestamp_invalid_second() {
    neither("2021-08-03 17:40:60 UTC");
}

#[test]
fn timestamp_invalid_second_2() {
    neither("2021-08-03 17:40:68 UTC");
}

#[test]
fn timestamp_non_leap_year_date() {
    neither("2022-02-29 12:34:56 UTC");
}

#[test]
fn timestamp_surrounding_whitespace() {
    let t = parse_timestamp("  2021-08-03   17:40:27.313 UTC  ").unwrap();
    assert_eq!(t.timestamp_millis(), 1628012427313);
}

#[test]
fn timestamp_anything_after_whitespace_is_passed_over() {
    let t = parse_timestamp("2021-08-03 17:40:27 whatever").unwrap();
    assert_eq!(t.timestamp_millis(), 1628012427000);
}

#[test]
fn timestamp_leap_millisecond_is_rejected() {
    assert_eq!(parse_timestamp("2021-08-03 23:59:59.1500"), Err(OrlError::InvalidTimestamp));
}

#[test]
fn timestamp_huge_numbers_are_rejected() {
    assert_eq!(
        parse_timestamp("99999999999999999999-08-03 17:40:27"),
        Err(OrlError::InvalidTimestamp)
    );
    assert_eq!(
        parse_timestamp("2021-08-03 17:40:27.99999999999999999999"),
        Err(OrlError::InvalidTimestamp)
    );
}

#[test]
fn timestamp_single_digits() {
    let t = parse_timestamp("2021-8-3 7:4:2.5").unwrap();
    assert_eq!(
        t.civil(),
        OrlDate { year: 2021, month: 8, day: 3, hour: 7, minute: 4, second: 2, ms: 5 }
    );
}

#[test]
fn timestamp_missing_month_digits() {
    assert_eq!(parse_timestamp("2021--03 17:40:27"), Err(OrlError::InvalidTimestamp));
}

#[test]
fn from_millis_and_back() {
    let t = Timestamp::from_millis(1628037852616).unwrap();
    assert_eq!(
        t.civil(),
        OrlDate { year: 2021, month: 8, day: 4, hour: 0, minute: 44, second: 12, ms: 616 }
    );
    assert_eq!(t.timestamp_millis(), 1628037852616);
    assert_eq!(t.timestamp(), 1628037852);
    assert_eq!(Timestamp::from_date(t.civil()), Some(t));
}

#[test]
fn from_millis_before_the_epoch() {
    let t = Timestamp::from_millis(-1).unwrap();
    assert_eq!(
        t.civil(),
        OrlDate { year: 1969, month: 12, day: 31, hour: 23, minute: 59, second: 59, ms: 999 }
    );
    assert_eq!(t.timestamp(), -1);
    assert_eq!(t.to_rfc3339_millis(), "1969-12-31T23:59:59.999Z");
}

#[test]
fn from_millis_out_of_range() {
    assert_eq!(Timestamp::from_millis(i64::MAX), None);
    assert_eq!(Timestamp::from_millis(i64::MIN), None);
    // the last and the first instant that have civil fields
    assert!(Timestamp::from_millis(8210266876799999).is_some());
    assert!(Timestamp::from_millis(8210266876800000).is_none());
    assert!(Timestamp::from_millis(-8334601228800000).is_some());
    assert!(Timestamp::from_millis(-8334601228800001).is_none());
}

#[test]
fn from_date_rejects_what_does_not_exist() {
    let good = OrlDate { year: 2024, month: 2, day: 29, hour: 23, minute: 59, second: 59, ms: 999 };
    assert!(Timestamp::from_date(good).is_some());
    assert!(Timestamp::from_date(OrlDate { year: 2023, ..good }).is_none());
    assert!(Timestamp::from_date(OrlDate { month: 0, ..good }).is_none());
    assert!(Timestamp::from_date(OrlDate { month: 13, ..good }).is_none());
    assert!(Timestamp::from_date(OrlDate { day: 0, ..good }).is_none());
    assert!(Timestamp::from_date(OrlDate { day: 30, ..good }).is_none());
    assert!(Timestamp::from_date(OrlDate { hour: 24, ..good }).is_none());
    assert!(Timestamp::from_date(OrlDate { minute: 60, ..good }).is_none());
    assert!(Timestamp::from_date(OrlDate { second: 60, ..good }).is_none());
    assert!(Timestamp::from_date(OrlDate { ms: 1000, ..good }).is_none());
    assert!(Timestamp::from_date(OrlDate { year: 262143, month: 1, day: 1, ..good }).is_none());
    assert!(Timestamp::from_date(OrlDate { year: 262142, month: 1, day: 1, ..good }).is_some());
    assert!(Timestamp::from_date(OrlDate { year: -262143, month: 1, day: 1, ..good }).is_some());
    assert!(Timestamp::from_date(OrlDate { year: -262144, month: 1, day: 1, ..good }).is_none());
}

#[test]
fn formats_of_a_timestamp() {
    let t = Timestamp::from_millis(1628037852616).unwrap();
    assert_eq!(t.format_orl(), "2021-08-04 00:44:12.616 UTC");
    assert_eq!(t.format_day(), "2021-08-04");
    assert_eq!(t.to_rfc3339_millis(), "2021-08-04T00:44:12.616Z");
}

#[test]
fn formats_of_years_outside_four_digits() {
    let early = Timestamp::from_date(OrlDate {
        year: 12,
        month: 3,
        day: 4,
        hour: 5,
        minute: 6,
        second: 7,
        ms: 8,
    })
    .unwrap();
    assert_eq!(early.format_orl(), "0012-03-04 05:06:07.008 UTC");
    assert_eq!(early.to_rfc3339_millis(), "0012-03-04T05:06:07.008Z");
    let late = Timestamp::from_date(OrlDate { year: 12345, ..early.civil() }).unwrap();
    assert_eq!(late.format_day(), "+12345-03-04");
    assert_eq!(late.to_rfc3339_millis(), "+12345-03-04T05:06:07.008Z");
    let before = Timestamp::from_date(OrlDate { year: -1, ..early.civil() }).unwrap();
    assert_eq!(before.format_day(), "-0001-03-04");
    assert_eq!(before.to_rfc3339_millis(), "-0001-03-04T05:06:07.008Z");
}

fn days_of(year: i32, month: u32) -> u32 {
    match month {
        2 if year % 4 == 0 && (year % 100 != 0 || year % 400 == 0) => 29,
        2 => 28,
        4 | 6 | 9 | 11 => 30,
        _ => 31,
    }
}

fn canonical(d: &OrlDate, with_millis: bool, with_zone: bool) -> String {
    let mut text = format!(
        "{:04}-{:02}-{:02} {:02}:{:02}:{:02}",
        d.year, d.month, d.day, d.hour, d.minute, d.second
    );
    if with_millis {
        text.push_str(&format!(".{:03}", d.ms));
    }
    if with_zone {
        text.push_str(" UTC");
    }
    text
}

fn sample_dates() -> Vec<OrlDate> {
    let mut dates = vec![];
    for year in [0, 1, 4, 99, 100, 400, 1900, 1970, 2000, 2020, 2021, 9999] {
        for month in 1..=12 {
            for day in [1, 9, 10, 28, days_of(year, month)] {
                for (hour, minute, second) in [(0, 0, 0), (9, 5, 7), (17, 40, 27), (23, 59, 59)] {
                    for ms in [0, 1, 10, 313, 999] {
                        dates.push(OrlDate { year, month, day, hour, minute, second, ms });
                    }
                }
            }
        }
    }
    dates
}

#[test]
fn both_parsers_agree_on_canonical_timestamps() {
    for d in sample_dates() {
        for (with_millis, with_zone) in [(false, false), (false, true), (true, false), (true, true)] {
            let text = canonical(&d, with_millis, with_zone);
            let said = if with_millis { d } else { OrlDate { ms: 0, ..d } };
            let expected = Timestamp::from_date(said).unwrap();
            assert_eq!(parse_timestamp(&text), Ok(expected), "{text}");
            assert_eq!(parse_timestamp_slow(&text), Ok(expected), "{text}");
        }
    }
}

fn read(text: &str, layout: &str) -> Option<OrlDate> {
    let t = NaiveDateTime::parse_from_str(text, layout).ok()?;
    Some(OrlDate {
        year: t.year(),
        month: t.month(),
        day: t.day(),
        hour: t.hour(),
        minute: t.minute(),
        second: t.second(),
        ms: t.and_utc().timestamp_subsec_millis(),
    })
}

#[test]
fn what_each_layout_reads_of_a_canonical_timestamp() {
    for d in sample_dates() {
        for with_millis in [false, true] {
            let said = Some(if with_millis { d } else { OrlDate { ms: 0, ..d } });
            let plain = canonical(&d, with_millis, false);
            let zoned = canonical(&d, with_millis, true);
            assert_eq!(read(&plain, "%Y-%m-%d %H:%M:%S%.f"), said, "{plain}");
            assert_eq!(read(&zoned, "%Y-%m-%d %H:%M:%S%.f"), None, "{zoned}");
            assert_eq!(read(&zoned, "%Y-%m-%d %H:%M:%S"), None, "{zoned}");
            assert_eq!(read(&zoned, "%Y-%m-%d %H:%M:%S%.f %Z"), said, "{zoned}");
        }
    }
}
