//! Calendar dates, their text form and the local clock, through `chrono`.
use vstd::prelude::*;
use vstd::pervasive::unreached;

use chrono::{Datelike, Timelike};

verus! {

broadcast use vstd::string::group_string_axioms;

/// A date of the proleptic Gregorian calendar.
#[derive(Debug, Clone, Copy, PartialEq, Eq, Structural)]
pub struct CalendarDate {
    pub year: i32,
    pub month: u32,
    pub day: u32,
}

/// The earliest year that `chrono::NaiveDate` represents.
pub open spec fn min_year() -> int {
    -262143
}

/// The latest year that `chrono::NaiveDate` represents.
pub open spec fn max_year() -> int {
    262142
}

/// Leap years of the proleptic Gregorian calendar.
pub open spec fn is_leap_year(y: int) -> bool {
    (y % 4 == 0 && y % 100 != 0) || y % 400 == 0
}

/// The number of days of month `m` of year `y`.
pub open spec fn days_in_month(y: int, m: int) -> int {
    if m == 2 {
        if is_leap_year(y) {
            29
        } else {
            28
        }
    } else if m == 4 || m == 6 || m == 9 || m == 11 {
        30
    } else {
        31
    }
}

/// Year, month and day name a day that `chrono::NaiveDate` represents.
pub open spec fn is_valid_ymd(y: int, m: int, d: int) -> bool {
    &&& min_year() <= y <= max_year()
    &&& 1 <= m <= 12
    &&& 1 <= d <= days_in_month(y, m)
}

impl CalendarDate {
    /// The date names a day that `chrono::NaiveDate` represents.
    pub open spec fn valid(self) -> bool {
        is_valid_ymd(self.year as int, self.month as int, self.day as int)
    }
}

/// Days from 0000-01-01 to the first day of year `y`.
pub open spec fn days_before_year(y: int) -> int {
    365 * y + (y + 3) / 4 - (y + 99) / 100 + (y + 399) / 400
}

/// Days from the first day of year `y` to the first day of month `m`.
pub open spec fn days_before_month(y: int, m: int) -> int {
    let base: int = if m <= 1 {
        0
    } else if m == 2 {
        31
    } else if m == 3 {
        59
    } else if m == 4 {
        90
    } else if m == 5 {
        120
    } else if m == 6 {
        151
    } else if m == 7 {
        181
    } else if m == 8 {
        212
    } else if m == 9 {
        243
    } else if m == 10 {
        273
    } else if m == 11 {
        304
    } else {
        334
    };
    if m > 2 && is_leap_year(y) {
        base + 1
    } else {
        base
    }
}

/// The position of a date on the line of days: 0000-01-01 is day 0, and each
/// next calendar day is one more.
pub open spec fn day_number(d: CalendarDate) -> int {
    days_before_year(d.year as int) + days_before_month(d.year as int, d.month as int) + d.day
        - 1
}

/// The earliest date that `chrono::NaiveDate` represents.
pub open spec fn earliest_date() -> CalendarDate {
    CalendarDate { year: -262143i32, month: 1u32, day: 1u32 }
}

/// The latest date that `chrono::NaiveDate` represents.
pub open spec fn latest_date() -> CalendarDate {
    CalendarDate { year: 262142i32, month: 12u32, day: 31u32 }
}

/// Day numbers of valid dates lie within chrono's range.
pub proof fn lemma_day_number_bounds(d: CalendarDate)
    requires
        d.valid(),
    ensures
        day_number(earliest_date()) <= day_number(d),
        day_number(d) <= days_before_year(d.year as int + 1) - 1,
{
    let y = d.year as int;
    lemma_year_length(y);
    assert(days_before_year(y) >= days_before_year(-262143)) by {
        lemma_days_before_year_monotone(-262143, y);
    }
}

/// A year has 366 days when it is a leap year and 365 otherwise.
pub proof fn lemma_year_length(y: int)
    ensures
        days_before_year(y + 1) - days_before_year(y) == if is_leap_year(y) {
            366int
        } else {
            365int
        },
{
    lemma_quotient_step_4(y);
    lemma_quotient_step_100(y);
    lemma_quotient_step_400(y);
}

/// `(y + 4) / 4` passes `(y + 3) / 4` exactly when 4 divides `y`.
proof fn lemma_quotient_step_4(y: int)
    ensures
        (y + 4) / 4 - (y + 3) / 4 == if y % 4 == 0 {
            1int
        } else {
            0int
        },
{
}

/// `(y + 100) / 100` passes `(y + 99) / 100` exactly when 100 divides `y`.
proof fn lemma_quotient_step_100(y: int)
    ensures
        (y + 100) / 100 - (y + 99) / 100 == if y % 100 == 0 {
            1int
        } else {
            0int
        },
{
}

/// `(y + 400) / 400` passes `(y + 399) / 400` exactly when 400 divides `y`.
proof fn lemma_quotient_step_400(y: int)
    ensures
        (y + 400) / 400 - (y + 399) / 400 == if y % 400 == 0 {
            1int
        } else {
            0int
        },
{
}

/// `days_before_year` grows with the year.
pub proof fn lemma_days_before_year_monotone(a: int, b: int)
    requires
        a <= b,
    ensures
        days_before_year(a) <= days_before_year(b),
    decreases b - a,
{
    if a < b {
        lemma_days_before_year_monotone(a, b - 1);
        lemma_year_length(b - 1);
    }
}

/// Days before each month: the next month starts when this one ends.
pub proof fn lemma_days_before_next_month(y: int, m: int)
    requires
        1 <= m <= 11,
    ensures
        days_before_month(y, m + 1) == days_before_month(y, m) + days_in_month(y, m),
{
}

/// Days before a month grow with the month.
pub proof fn lemma_days_before_month_monotone(y: int, a: int, b: int)
    requires
        1 <= a <= b <= 12,
    ensures
        days_before_month(y, a) <= days_before_month(y, b),
    decreases b - a,
{
    if a < b {
        lemma_days_before_month_monotone(y, a, b - 1);
        lemma_days_before_next_month(y, b - 1);
    }
}

/// A valid date's day number lies within its year and month.
pub proof fn lemma_day_number_within_month(d: CalendarDate)
    requires
        d.valid(),
    ensures
        days_before_year(d.year as int) <= day_number(d),
        d.month < 12 ==> day_number(d) < days_before_year(d.year as int) + days_before_month(
            d.year as int,
            d.month as int + 1,
        ),
{
    if d.month < 12 {
        lemma_days_before_next_month(d.year as int, d.month as int);
    }
}

/// Valid dates with the same day number are the same date: a day number
/// names at most one calendar day.
pub proof fn lemma_day_number_injective(a: CalendarDate, b: CalendarDate)
    requires
        a.valid(),
        b.valid(),
        day_number(a) == day_number(b),
    ensures
        a == b,
{
    lemma_day_number_bounds(a);
    lemma_day_number_bounds(b);
    lemma_day_number_within_month(a);
    lemma_day_number_within_month(b);
    if a.year < b.year {
        lemma_days_before_year_monotone(a.year as int + 1, b.year as int);
    } else if b.year < a.year {
        lemma_days_before_year_monotone(b.year as int + 1, a.year as int);
    } else if a.month < b.month {
        lemma_days_before_month_monotone(a.year as int, a.month as int + 1, b.month as int);
    } else if b.month < a.month {
        lemma_days_before_month_monotone(b.year as int, b.month as int + 1, a.month as int);
    }
}

/// The decimal digit character for `n < 10`.
pub open spec fn digit_char(n: nat) -> char {
    (n + 48) as char
}

/// The decimal text of a natural number, without leading zeros.
pub open spec fn decimal_text(n: nat) -> Seq<char>
    decreases n,
{
    if n < 10 {
        seq![digit_char(n)]
    } else {
        decimal_text(n / 10).push(digit_char(n % 10))
    }
}

/// The decimal text of `n`, with zeros in front up to `width` characters.
pub open spec fn zero_padded(n: nat, width: nat) -> Seq<char> {
    let t = decimal_text(n);
    if t.len() < width {
        Seq::new((width - t.len()) as nat, |i: int| '0') + t
    } else {
        t
    }
}

/// The year as `%Y` writes it: four digits for years 0 to 9999, else a sign
/// and at least four digits.
pub open spec fn year_text(y: int) -> Seq<char> {
    if 0 <= y <= 9999 {
        zero_padded(y as nat, 4)
    } else if y < 0 {
        seq!['-'] + zero_padded((-y) as nat, 4)
    } else {
        seq!['+'] + zero_padded(y as nat, 4)
    }
}

/// The date as `%Y-%m-%d` writes it.
pub open spec fn iso_date_text(d: CalendarDate) -> Seq<char> {
    year_text(d.year as int) + seq!['-'] + zero_padded(d.month as nat, 2) + seq!['-']
        + zero_padded(d.day as nat, 2)
}

/// `chrono::NaiveDate::from_ymd_opt`, with the date read back by
/// `Datelike::year`, `month` and `day`. Claimed: a date is made exactly when
/// the day exists in the proleptic Gregorian calendar within chrono's year
/// range, and it holds the given year, month and day.
#[verifier::external_body]
pub(crate) fn date_from_ymd(year: i32, month: u32, day: u32) -> (r: Option<CalendarDate>)
    ensures
        r is Some <==> is_valid_ymd(year as int, month as int, day as int),
        r matches Some(d) ==> d == (CalendarDate { year, month, day }),
{
    match chrono::NaiveDate::from_ymd_opt(year, month, day) {
        Some(d) => Some(CalendarDate { year: d.year(), month: d.month(), day: d.day() }),
        None => None,
    }
}

/// `chrono::NaiveDate::checked_add_signed` with `chrono::TimeDelta::days`.
/// Claimed: the result is the date `days` days later (earlier when
/// negative), and `None` exactly when that day is outside chrono's range.
#[verifier::external_body]
pub(crate) fn date_add_days(date: CalendarDate, days: i32) -> (r: Option<CalendarDate>)
    requires
        date.valid(),
    ensures
        r is None <==> !(day_number(earliest_date()) <= day_number(date) + days <= day_number(
            latest_date(),
        )),
        r matches Some(e) ==> e.valid() && day_number(e) == day_number(date) + days,
{
    let naive = chrono::NaiveDate::from_ymd_opt(date.year, date.month, date.day).unwrap();
    match naive.checked_add_signed(chrono::TimeDelta::days(days as i64)) {
        Some(d) => Some(CalendarDate { year: d.year(), month: d.month(), day: d.day() }),
        None => None,
    }
}

/// `chrono::NaiveDate`'s `Display`, which chrono documents as the same as
/// `format("%Y-%m-%d")`. Claimed: the text is `iso_date_text` of the date.
#[verifier::external_body]
pub(crate) fn date_text(date: CalendarDate) -> (r: String)
    requires
        date.valid(),
    ensures
        r@ == iso_date_text(date),
{
    chrono::NaiveDate::from_ymd_opt(date.year, date.month, date.day).unwrap().to_string()
}

/// What `chrono::NaiveDate::parse_from_str(text, format)` gives, as year,
/// month and day; `None` when it returns an error.
pub uninterp spec fn chrono_parse_date(text: Seq<char>, format: Seq<char>) -> Option<
    (int, int, int),
>;

/// `chrono::NaiveDate::parse_from_str`, with the date read back by
/// `Datelike`. Claimed: the result is `chrono_parse_date` of the arguments
/// (parsing is deterministic), a parsed date is one that chrono represents,
/// and the call does not panic.
#[verifier::external_body]
pub(crate) fn parse_date(text: &str, format: &str) -> (r: Option<CalendarDate>)
    ensures
        match r {
            Some(d) => d.valid() && chrono_parse_date(text@, format@) == Some(
                (d.year as int, d.month as int, d.day as int),
            ),
            None => chrono_parse_date(text@, format@) is None,
        },
{
    match chrono::NaiveDate::parse_from_str(text, format) {
        Ok(d) => Some(CalendarDate { year: d.year(), month: d.month(), day: d.day() }),
        Err(_) => None,
    }
}

/// A reading of the local clock: the date and time of day, to the minute,
/// and the date that the same instant 24 hours later has in the local time
/// zone.
#[derive(Debug, Clone, Copy, PartialEq, Eq, Structural)]
pub struct LocalClock {
    pub date: CalendarDate,
    pub hour: u32,
    pub minute: u32,
    /// The local date 24 hours after the reading: the next calendar day,
    /// except across a change of the zone's offset.
    pub date_after_a_day: CalendarDate,
}

impl LocalClock {
    /// Real dates and a time of day.
    pub open spec fn valid(self) -> bool {
        self.date.valid() && self.date_after_a_day.valid() && self.hour < 24 && self.minute < 60
    }
}

/// `chrono::Local::now`, read back by `Datelike` and `Timelike`, and the
/// same instant plus `chrono::TimeDelta::days(1)` (24 hours, as
/// `DateTime + TimeDelta` adds) read back by `Datelike`. The result depends
/// on the time and the machine's time zone; claimed only that both dates
/// are real, with an hour below 24 and a minute below 60. The addition
/// panics only at the end of chrono's range, which the current time is not
/// near; `chrono::Utc::now`, under it, panics only when the machine's clock
/// reads before 1970, which no `requires` can exclude.
#[verifier::external_body]
pub(crate) fn local_now() -> (r: LocalClock)
    ensures
        r.valid(),
{
    let now = chrono::Local::now();
    let later = now + chrono::TimeDelta::days(1);
    LocalClock {
        date: CalendarDate { year: now.year(), month: now.month(), day: now.day() },
        hour: now.hour(),
        minute: now.minute(),
        date_after_a_day: CalendarDate {
            year: later.year(),
            month: later.month(),
            day: later.day(),
        },
    }
}

/// The text starts with a date written `%Y-%m-%d` and a space.
pub open spec fn starts_with_date(text: Seq<char>) -> bool {
    exists|d: CalendarDate| d.valid() && (iso_date_text(d) + seq![' ']).is_prefix_of(text)
}

/// `chrono::Local::now` written by its `Display`, which writes the local
/// date (as `NaiveDate`'s `Display` does), a space, the time of day, a space
/// and the offset. The time depends on the clock; claimed only that the text
/// starts with a real date and a space. `chrono::Utc::now`, under it, panics
/// only when the machine's clock reads before 1970, which no `requires` can
/// exclude.
#[verifier::external_body]
pub(crate) fn local_now_text() -> (r: String)
    ensures
        starts_with_date(r@),
{
    chrono::Local::now().to_string()
}

/// `chrono::Local::now` read by `DateTime::timestamp`, in seconds since the
/// Unix epoch. It depends on the time; claimed only that it is not negative,
/// since `chrono::Utc::now` panics when the machine's clock reads before
/// 1970.
#[verifier::external_body]
pub(crate) fn local_timestamp() -> (r: i64)
    ensures
        r >= 0,
{
    chrono::Local::now().timestamp()
}

/// The `%Y-%m-%d` text of year, month and day, if month and day are not
/// negative and the three name a date.
pub open spec fn date_string_spec(year: i32, month: i32, day: i32) -> Option<Seq<char>> {
    if month >= 0 && day >= 0 && is_valid_ymd(year as int, month as int, day as int) {
        Some(
            iso_date_text(CalendarDate { year: year, month: month as u32, day: day as u32 }),
        )
    } else {
        None
    }
}

/// Writes year, month and day as `YYYY-MM-DD`. Month and day must not be
/// negative and the three must name a date.
pub fn date_string(year: i32, month: i32, day: i32) -> (r: String)
    requires
        month >= 0,
        day >= 0,
        is_valid_ymd(year as int, month as int, day as int),
    ensures
        r@ == iso_date_text(CalendarDate { year: year, month: month as u32, day: day as u32 }),
{
    match date_from_ymd(year, month as u32, day as u32) {
        Some(d) => date_text(d),
        None => unreached(),
    }
}

/// The text format of dates in paths and storage.
pub const DATE_FORMAT: &'static str = "%Y-%m-%d";

/// The week around `date` is within chrono's range.
pub open spec fn week_in_range(date: CalendarDate) -> bool {
    day_number(earliest_date()) <= day_number(date) - 6 && day_number(date) + 6 <= day_number(
        latest_date(),
    )
}

/// `r` holds the texts of the days six days before and six days after
/// `date`, and is `None` exactly when one of them is outside chrono's range.
pub open spec fn is_week_range_of(date: CalendarDate, r: Option<(String, String)>) -> bool {
    &&& r is Some <==> week_in_range(date)
    &&& r matches Some((start, end)) ==> exists|a: CalendarDate, b: CalendarDate|
        #![trigger day_number(a), day_number(b)]
        a.valid() && b.valid() && day_number(a) == day_number(date) - 6 && day_number(b)
            == day_number(date) + 6 && start@ == iso_date_text(a) && end@ == iso_date_text(b)
}

/// The week around a date runs from the day six days before it to the day
/// six days after it: twelve days apart, with the date in the middle.
pub proof fn law_week_range(date: CalendarDate, start: String, end: String)
    requires
        date.valid(),
        is_week_range_of(date, Some((start, end))),
    ensures
        exists|a: CalendarDate, b: CalendarDate|
            #![trigger day_number(a), day_number(b)]
            a.valid() && b.valid() && start@ == iso_date_text(a) && end@ == iso_date_text(b)
                && day_number(a) + 6 == day_number(date) && day_number(date) + 6 == day_number(b)
                && day_number(b) - day_number(a) == 12,
{
}

/// The texts of the days six days before and six days after a date.
pub fn week_range_of(date: CalendarDate) -> (r: Option<(String, String)>)
    requires
        date.valid(),
    ensures
        is_week_range_of(date, r),
{
    let start = date_add_days(date, -6);
    let end = date_add_days(date, 6);
    match (start, end) {
        (Some(a), Some(b)) => {
            let ta = date_text(a);
            let tb = date_text(b);
            assert(day_number(a) == day_number(date) - 6 && day_number(b) == day_number(date) + 6);
            Some((ta, tb))
        },
        _ => None,
    }
}

/// The texts of the days six days before and six days after a date read with
/// `%Y-%m-%d`; `None` when the text is not read as a date or a bound is out
/// of range.
pub fn week_range(date: &str) -> (r: Option<(String, String)>)
    ensures
        match chrono_parse_date(date@, DATE_FORMAT@) {
            None => r is None,
            Some((y, m, d)) => is_week_range_of(
                CalendarDate { year: y as i32, month: m as u32, day: d as u32 },
                r,
            ),
        },
{
    match parse_date(date, DATE_FORMAT) {
        Some(d) => week_range_of(d),
        None => None,
    }
}

/// The date of a clock reading as `YYYY-MM-DD`.
pub fn today_text_at(now: LocalClock) -> (r: String)
    requires
        now.valid(),
    ensures
        r@ == iso_date_text(now.date),
{
    date_text(now.date)
}

/// Today's local date as `YYYY-MM-DD`.
pub fn today_text() -> (r: String)
    ensures
        exists|now: LocalClock| now.valid() && r@ == iso_date_text(now.date),
{
    let now = local_now();
    today_text_at(now)
}

} // verus!
