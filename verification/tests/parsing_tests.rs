use dimigomeal::calendar::{date_string, today_text, today_text_at, week_range, CalendarDate, LocalClock};
use dimigomeal::error::ScrapeError;
use dimigomeal::pattern::{
    check_date_format, clean_text, number_from_match, parse_number, parse_string, read_number,
};

#[test]
fn parse_string_strips_tags_and_marks() {
    assert_eq!(parse_string("<b> 3월 *15일 </b>\t").unwrap(), "3월15일");
    assert_eq!(parse_string("<p\n class=\"x\">번호</p>").unwrap(), "번호");
    assert_eq!(parse_string("  plain  ").unwrap(), "plain");
}

#[test]
fn clean_text_trims_then_drops_marks() {
    assert_eq!(clean_text(" a * b\t"), "ab");
    assert_eq!(clean_text("*\u{3000}x"), "\u{3000}x");
}

#[test]
fn parse_number_reads_the_first_digit_run() {
    assert_eq!(parse_number("제 12 호 34"), 12);
    assert_eq!(parse_number("2024"), 2024);
    assert_eq!(parse_number("5일"), 5);
    assert_eq!(parse_number("ab12cd34"), 12);
    assert_eq!(parse_number("007"), 7);
}

#[test]
fn read_number_says_why_a_text_has_no_number() {
    assert_eq!(read_number("제 12 호 34"), Ok(12));
    assert_eq!(read_number("없음"), Err(ScrapeError::NoNumber));
    assert_eq!(read_number("99999999999"), Err(ScrapeError::BadNumber));
    assert_eq!(read_number("٣"), Err(ScrapeError::BadNumber));
}

#[test]
fn number_from_match_reads_found_digits() {
    assert_eq!(number_from_match(Some("15".to_string())), Ok(15));
    assert_eq!(number_from_match(None), Err(ScrapeError::NoNumber));
    assert_eq!(number_from_match(Some("٣".to_string())), Err(ScrapeError::BadNumber));
}

#[test]
fn date_format_check() {
    assert_eq!(check_date_format("2024-03-15"), Some(true));
    assert_eq!(check_date_format("2024-12-31"), Some(true));
    assert_eq!(check_date_format("2024-13-01"), Some(false));
    assert_eq!(check_date_format("2024-3-1"), Some(false));
    assert_eq!(check_date_format("x2024-03-15"), Some(false));
}

#[test]
fn date_string_writes_iso_dates() {
    assert_eq!(date_string(2024, 3, 5), "2024-03-05");
    assert_eq!(date_string(2024, 2, 29), "2024-02-29");
    assert_eq!(date_string(12345, 6, 7), "+12345-06-07");
    assert_eq!(date_string(-1, 1, 1), "-0001-01-01");
}

#[test]
fn week_range_spans_six_days_each_way() {
    assert_eq!(
        week_range("2024-03-01"),
        Some(("2024-02-24".to_string(), "2024-03-07".to_string()))
    );
    assert_eq!(
        week_range("2023-12-29"),
        Some(("2023-12-23".to_string(), "2024-01-04".to_string()))
    );
    assert_eq!(week_range("2024-02-30"), None);
    assert_eq!(week_range("not a date"), None);
}

#[test]
fn today_is_an_iso_date() {
    let t = today_text();
    assert_eq!(t.len(), 10);
    assert_eq!(check_date_format(&t), Some(true));
}

#[test]
fn today_text_at_writes_the_clock_date() {
    let now = LocalClock {
        date: CalendarDate { year: 2024, month: 3, day: 5 },
        hour: 9,
        minute: 0,
        date_after_a_day: CalendarDate { year: 2024, month: 3, day: 6 },
    };
    assert_eq!(today_text_at(now), "2024-03-05");
}
