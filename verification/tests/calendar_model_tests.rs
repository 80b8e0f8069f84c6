//! Holds chrono to the calendar statements that the library's date contracts
//! make: which year, month and day triples exist, how day numbers advance,
//! and how dates are written.
use chrono::{Datelike, NaiveDate, TimeDelta};
use dimigomeal::calendar::date_string;

fn is_leap_year(y: i64) -> bool {
    (y.rem_euclid(4) == 0 && y.rem_euclid(100) != 0) || y.rem_euclid(400) == 0
}

fn days_in_month(y: i64, m: i64) -> i64 {
    match m {
        2 => {
            if is_leap_year(y) {
                29
            } else {
                28
            }
        }
        4 | 6 | 9 | 11 => 30,
        _ => 31,
    }
}

fn is_valid_ymd(y: i64, m: i64, d: i64) -> bool {
    (-262143..=262142).contains(&y) && (1..=12).contains(&m) && 1 <= d && d <= days_in_month(y, m)
}

fn days_before_year(y: i64) -> i64 {
    365 * y + (y + 3).div_euclid(4) - (y + 99).div_euclid(100) + (y + 399).div_euclid(400)
}

fn days_before_month(y: i64, m: i64) -> i64 {
    let base = [0, 0, 31, 59, 90, 120, 151, 181, 212, 243, 273, 304, 334][m as usize];
    if m > 2 && is_leap_year(y) {
        base + 1
    } else {
        base
    }
}

fn day_number(y: i64, m: i64, d: i64) -> i64 {
    days_before_year(y) + days_before_month(y, m) + d - 1
}

fn iso_text(y: i64, m: i64, d: i64) -> String {
    let year = if (0..=9999).contains(&y) {
        format!("{:04}", y)
    } else if y < 0 {
        format!("-{:04}", -y)
    } else {
        format!("+{:04}", y)
    };
    format!("{}-{:02}-{:02}", year, m, d)
}

#[test]
fn existing_days_match_chrono() {
    for y in [-262144i64, -262143, -401, -400, -100, -4, -1, 0, 1, 4, 100, 1900, 2000, 2023, 2024, 9999, 10000, 262142, 262143] {
        for m in 0..=13i64 {
            for d in 0..=32i64 {
                let ours = is_valid_ymd(y, m, d);
                let theirs = NaiveDate::from_ymd_opt(y as i32, m as u32, d as u32).is_some();
                assert_eq!(ours, theirs, "{y}-{m}-{d}");
            }
        }
    }
}

#[test]
fn day_numbers_advance_by_one_per_day() {
    let mut date = NaiveDate::from_ymd_opt(-801, 12, 20).unwrap();
    let mut n = day_number(-801, 12, 20);
    let end = NaiveDate::from_ymd_opt(2405, 1, 10).unwrap();
    while date < end {
        let next = date.checked_add_signed(TimeDelta::days(1)).unwrap();
        let m = day_number(next.year() as i64, next.month() as i64, next.day() as i64);
        assert_eq!(m, n + 1, "{next}");
        date = next;
        n = m;
    }
    assert_eq!(day_number(0, 1, 1), 0);
}

#[test]
fn range_ends_match_chrono() {
    assert_eq!(NaiveDate::MIN, NaiveDate::from_ymd_opt(-262143, 1, 1).unwrap());
    assert_eq!(NaiveDate::MAX, NaiveDate::from_ymd_opt(262142, 12, 31).unwrap());
    assert!(NaiveDate::MAX.checked_add_signed(TimeDelta::days(1)).is_none());
    assert!(NaiveDate::MIN.checked_add_signed(TimeDelta::days(-1)).is_none());
}

#[test]
fn written_dates_match_chrono() {
    for (y, m, d) in [(0, 1, 1), (7, 3, 9), (999, 12, 31), (2024, 2, 29), (9999, 12, 31), (10000, 1, 1), (-1, 1, 1), (-12345, 6, 7), (262142, 12, 31)] {
        let theirs = NaiveDate::from_ymd_opt(y as i32, m as u32, d as u32).unwrap().to_string();
        assert_eq!(iso_text(y, m, d), theirs);
        assert_eq!(date_string(y as i32, m as i32, d as i32), theirs);
    }
}
