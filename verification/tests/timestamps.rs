use library_api::timestamp::{Timestamp, MAX_YEAR, MIN_YEAR};

fn leap(year: i32) -> bool {
    year.rem_euclid(4) == 0 && (year.rem_euclid(100) != 0 || year.rem_euclid(400) == 0)
}

fn days(year: i32, month: u32) -> u32 {
    match month {
        2 if leap(year) => 29,
        2 => 28,
        4 | 6 | 9 | 11 => 30,
        _ => 31,
    }
}

fn is_date(year: i32, month: u32, day: u32) -> bool {
    (MIN_YEAR..=MAX_YEAR).contains(&year)
        && (1..=12).contains(&month)
        && day >= 1
        && day <= days(year, month)
}

fn is_time(hour: u32, minute: u32, second: u32, nano: u32) -> bool {
    hour < 24
        && minute < 60
        && second < 60
        && nano < 2_000_000_000
        && (nano < 1_000_000_000 || second == 59)
}

fn chrono_has(y: i32, mo: u32, d: u32, h: u32, mi: u32, s: u32, n: u32) -> bool {
    chrono::NaiveDate::from_ymd_opt(y, mo, d).and_then(|date| date.and_hms_nano_opt(h, mi, s, n)).is_some()
}

const YEARS: [i32; 21] = [
    i32::MIN, -262144, -262143, -401, -400, -100, -4, -1, 0, 1, 4, 100, 400, 1900, 2000, 2023,
    2024, 2100, 262142, 262143, i32::MAX,
];

#[test]
fn year_bounds() {
    assert_eq!(MIN_YEAR, -262143);
    assert_eq!(MAX_YEAR, 262142);
}

#[test]
fn every_day_of_the_calendar_and_no_other() {
    for year in YEARS {
        for month in 0..=13 {
            for day in 0..=32 {
                let made = Timestamp::new(year, month, day, 0, 0, 0, 0).is_some();
                assert_eq!(made, is_date(year, month, day), "{}-{}-{}", year, month, day);
                assert_eq!(made, chrono_has(year, month, day, 0, 0, 0, 0));
            }
        }
        assert!(Timestamp::new(year, u32::MAX, 1, 0, 0, 0, 0).is_none());
        assert!(Timestamp::new(year, 1, u32::MAX, 0, 0, 0, 0).is_none());
    }
}

#[test]
fn every_time_of_day_and_no_other() {
    let nanos = [0, 1, 999_999_999, 1_000_000_000, 1_999_999_999, 2_000_000_000, u32::MAX];
    for hour in [0, 1, 12, 23, 24, 25, u32::MAX] {
        for minute in [0, 1, 59, 60, 61, u32::MAX] {
            for second in [0, 1, 58, 59, 60, 61, u32::MAX] {
                for nano in nanos {
                    let made = Timestamp::new(2024, 2, 29, hour, minute, second, nano).is_some();
                    assert_eq!(
                        made,
                        is_time(hour, minute, second, nano),
                        "{}:{}:{}.{}",
                        hour,
                        minute,
                        second,
                        nano
                    );
                    assert_eq!(made, chrono_has(2024, 2, 29, hour, minute, second, nano));
                }
            }
        }
    }
}

#[test]
fn leap_years() {
    assert!(Timestamp::new(2024, 2, 29, 0, 0, 0, 0).is_some());
    assert!(Timestamp::new(2000, 2, 29, 0, 0, 0, 0).is_some());
    assert!(Timestamp::new(1900, 2, 29, 0, 0, 0, 0).is_none());
    assert!(Timestamp::new(2100, 2, 29, 0, 0, 0, 0).is_none());
    assert!(Timestamp::new(2023, 2, 29, 0, 0, 0, 0).is_none());
    assert!(Timestamp::new(0, 2, 29, 0, 0, 0, 0).is_some());
    assert!(Timestamp::new(-4, 2, 29, 0, 0, 0, 0).is_some());
    assert!(Timestamp::new(-1, 2, 29, 0, 0, 0, 0).is_none());
    assert!(Timestamp::new(-100, 2, 29, 0, 0, 0, 0).is_none());
    assert!(Timestamp::new(-400, 2, 29, 0, 0, 0, 0).is_some());
}

#[test]
fn components_are_kept() {
    let t = Timestamp::new(-12, 11, 30, 1, 2, 3, 4).unwrap();
    assert_eq!(t.year(), -12);
    assert_eq!(t.month(), 11);
    assert_eq!(t.day(), 30);
    assert_eq!(t.hour(), 1);
    assert_eq!(t.minute(), 2);
    assert_eq!(t.second(), 3);
    assert_eq!(t.nano(), 4);
}

#[test]
fn text_of_ordinary_times() {
    let text = |y, mo, d, h, mi, s, n| Timestamp::new(y, mo, d, h, mi, s, n).unwrap().text();
    assert_eq!(text(2024, 1, 1, 0, 0, 0, 0), "2024-01-01T00:00:00");
    assert_eq!(text(2016, 11, 15, 7, 39, 24, 0), "2016-11-15T07:39:24");
    assert_eq!(text(1, 2, 3, 4, 5, 6, 0), "0001-02-03T04:05:06");
    assert_eq!(text(9999, 12, 31, 23, 59, 59, 0), "9999-12-31T23:59:59");
}

#[test]
fn text_of_fractions() {
    let text = |n| Timestamp::new(2024, 1, 1, 0, 0, 0, n).unwrap().text();
    assert_eq!(text(500_000_000), "2024-01-01T00:00:00.500");
    assert_eq!(text(1_000_000), "2024-01-01T00:00:00.001");
    assert_eq!(text(1_000), "2024-01-01T00:00:00.000001");
    assert_eq!(text(123_456_000), "2024-01-01T00:00:00.123456");
    assert_eq!(text(1), "2024-01-01T00:00:00.000000001");
    assert_eq!(text(999_999_999), "2024-01-01T00:00:00.999999999");
}

#[test]
fn text_of_years_with_more_or_fewer_digits() {
    let text = |y| Timestamp::new(y, 1, 1, 0, 0, 0, 0).unwrap().text();
    assert_eq!(text(0), "0000-01-01T00:00:00");
    assert_eq!(text(10000), "+10000-01-01T00:00:00");
    assert_eq!(text(-1), "-0001-01-01T00:00:00");
    assert_eq!(text(MAX_YEAR), "+262142-01-01T00:00:00");
    assert_eq!(text(MIN_YEAR), "-262143-01-01T00:00:00");
}

#[test]
fn text_of_a_leap_second() {
    let t = Timestamp::new(2016, 12, 31, 23, 59, 59, 1_000_000_000).unwrap();
    assert_eq!(t.text(), "2016-12-31T23:59:60");
    let t = Timestamp::new(2016, 12, 31, 23, 59, 59, 1_500_000_000).unwrap();
    assert_eq!(t.text(), "2016-12-31T23:59:60.500");
}

#[test]
fn text_is_what_chrono_serializes() {
    for (y, mo, d, h, mi, s, n) in [
        (2024, 1, 1, 0, 0, 0, 0),
        (1999, 12, 31, 23, 59, 59, 123_456_789),
        (-44, 3, 15, 12, 0, 0, 250_000_000),
        (12345, 6, 7, 8, 9, 10, 1_000),
    ] {
        let stamp = chrono::NaiveDate::from_ymd_opt(y, mo, d)
            .and_then(|date| date.and_hms_nano_opt(h, mi, s, n))
            .unwrap();
        let ours = Timestamp::new(y, mo, d, h, mi, s, n).unwrap();
        assert_eq!(
            library_api::prelude::time_to_json(&ours),
            serde_json::to_string(&stamp).unwrap()
        );
    }
}
