//! Text cleaning and checks built on the `regex` crate.
use vstd::prelude::*;
use vstd::pervasive::unreached;

use crate::error::ScrapeError;
use crate::text::{
    chars_of, drop_marks, drop_marks_spec, is_dropped_mark, law_drop_marks_leaves_none, occurs_at,
    parse_i32, parse_i32_spec, string_from_chars, trim_chars, trim_spec,
};

verus! {

broadcast use vstd::string::group_string_axioms;

/// Matches one HTML tag, from `<` to the nearest `>`.
pub const TAG_PATTERN: &'static str = "<(?:.|\n)*?>";

/// Matches one run of digits.
pub const DIGITS_PATTERN: &'static str = "\\d+";

/// Matches a date written `YYYY-MM-DD` with a month from 01 to 12 and a day
/// from 01 to 31.
pub const DATE_PATTERN: &'static str = "^\\d{4}\\-(0[1-9]|1[012])\\-(0[1-9]|[12][0-9]|3[01])$";

/// What `regex::Regex::new(pattern)` followed by `is_match(text)` gives:
/// `None` when the pattern is rejected, else whether it matches somewhere in
/// `text`.
pub uninterp spec fn regex_is_match(pattern: Seq<char>, text: Seq<char>) -> Option<bool>;

/// What `regex::Regex::new(pattern)` followed by `replace_all(text, replacement)`
/// gives: `None` when the pattern is rejected, else the text with every
/// leftmost non-overlapping match replaced.
pub uninterp spec fn regex_replace_all(
    pattern: Seq<char>,
    text: Seq<char>,
    replacement: Seq<char>,
) -> Option<Seq<char>>;

/// What `regex::Regex::new(pattern)` followed by `find(text)` gives: `None`
/// when the pattern is rejected, else the text of the leftmost match, if any.
pub uninterp spec fn regex_find(pattern: Seq<char>, text: Seq<char>) -> Option<Option<Seq<char>>>;

/// Compiles `pattern` with `regex::Regex::new` and asks `Regex::is_match` on
/// `text`. Claimed: the result is `regex_is_match` of the two arguments (the
/// engine is deterministic); neither call panics.
#[verifier::external_body]
fn pattern_is_match(pattern: &str, text: &str) -> (r: Option<bool>)
    ensures
        r == regex_is_match(pattern@, text@),
{
    match regex::Regex::new(pattern) {
        Ok(re) => Some(re.is_match(text)),
        Err(_) => None,
    }
}

/// Compiles `pattern` with `regex::Regex::new` and calls `Regex::replace_all`
/// on `text`. Claimed: the result is `regex_replace_all` of the three
/// arguments; neither call panics.
#[verifier::external_body]
fn pattern_replace_all(pattern: &str, text: &str, replacement: &str) -> (r: Option<String>)
    ensures
        match r {
            Some(t) => regex_replace_all(pattern@, text@, replacement@) == Some(t@),
            None => regex_replace_all(pattern@, text@, replacement@) is None,
        },
{
    match regex::Regex::new(pattern) {
        Ok(re) => Some(re.replace_all(text, replacement).to_string()),
        Err(_) => None,
    }
}

/// Compiles `pattern` with `regex::Regex::new` and calls `Regex::find` on
/// `text`. Claimed: the result is `regex_find` of the two arguments, and a
/// found match is a piece of `text` (`Match::as_str` is a slice of the
/// haystack); neither call panics.
#[verifier::external_body]
fn pattern_find(pattern: &str, text: &str) -> (r: Option<Option<String>>)
    ensures
        match r {
            Some(Some(m)) => regex_find(pattern@, text@) == Some(Some(m@)) && exists|i: int|
                occurs_at(text@, m@, i),
            Some(None) => regex_find(pattern@, text@) == Some(None::<Seq<char>>),
            None => regex_find(pattern@, text@) is None,
        },
{
    match regex::Regex::new(pattern) {
        Ok(re) => match re.find(text) {
            Some(m) => Some(Some(m.as_str().to_string())),
            None => Some(None),
        },
        Err(_) => None,
    }
}

/// Cleaned text: trimmed, then without tabs, spaces and asterisks.
pub open spec fn clean_text_spec(s: Seq<char>) -> Seq<char> {
    drop_marks_spec(trim_spec(s))
}

/// What `parse_string` gives: tags removed, then the text cleaned; `None`
/// when the tag pattern is rejected.
pub open spec fn parse_string_spec(s: Seq<char>) -> Option<Seq<char>> {
    match regex_replace_all(TAG_PATTERN@, s, ""@) {
        Some(t) => Some(clean_text_spec(t)),
        None => None,
    }
}

/// Trims a text whose tags are already removed, then drops its tabs, spaces
/// and asterisks.
pub fn clean_text(stripped: &str) -> (out: String)
    ensures
        out@ == clean_text_spec(stripped@),
{
    let cs = chars_of(stripped);
    let t = trim_chars(&cs);
    let d = drop_marks(&t);
    string_from_chars(&d)
}

/// A text cleaned by `parse_string` holds no tab, space or asterisk.
pub proof fn law_parse_string_has_no_marks(s: Seq<char>)
    ensures
        parse_string_spec(s) matches Some(t) ==> forall|i: int|
            0 <= i < t.len() ==> !is_dropped_mark(#[trigger] t[i]),
{
    if let Some(t) = regex_replace_all(TAG_PATTERN@, s, ""@) {
        law_drop_marks_leaves_none(trim_spec(t));
    }
}

/// Removes HTML tags from a text, trims it and drops its tabs, spaces and
/// asterisks.
pub fn parse_string(string: &str) -> (out: Result<String, ScrapeError>)
    ensures
        match out {
            Ok(t) => parse_string_spec(string@) == Some(t@),
            Err(e) => parse_string_spec(string@) is None && e == ScrapeError::PatternRejected,
        },
{
    match pattern_replace_all(TAG_PATTERN, string, "") {
        Some(stripped) => Ok(clean_text(stripped.as_str())),
        None => Err(ScrapeError::PatternRejected),
    }
}

/// The number that a found run of digits gives, as `str::parse::<i32>` reads it.
pub open spec fn number_from_match_spec(found: Option<Seq<char>>) -> Result<i32, ScrapeError> {
    match found {
        None => Err(ScrapeError::NoNumber),
        Some(m) => match parse_i32_spec(m) {
            Some(v) => Ok(v),
            None => Err(ScrapeError::BadNumber),
        },
    }
}

/// What `parse_number` gives: the first run of digits read as an `i32`.
pub open spec fn parse_number_spec(s: Seq<char>) -> Result<i32, ScrapeError> {
    match regex_find(DIGITS_PATTERN@, s) {
        None => Err(ScrapeError::PatternRejected),
        Some(found) => number_from_match_spec(found),
    }
}

/// Reads the number of a found run of digits.
pub fn number_from_match(found: Option<String>) -> (r: Result<i32, ScrapeError>)
    ensures
        r == number_from_match_spec(match found {
            Some(m) => Some(m@),
            None => None,
        }),
{
    match found {
        None => Err(ScrapeError::NoNumber),
        Some(m) => match parse_i32(m.as_str()) {
            Some(v) => Ok(v),
            None => Err(ScrapeError::BadNumber),
        },
    }
}

/// Reads the first run of digits in a text as an `i32`. The text must hold
/// a run of digits, and the first one must be ASCII digits whose value fits
/// in an `i32`.
pub fn parse_number(string: &str) -> (r: i32)
    requires
        parse_number_spec(string@) is Ok,
    ensures
        parse_number_spec(string@) == Ok::<i32, ScrapeError>(r),
{
    match pattern_find(DIGITS_PATTERN, string) {
        Some(Some(m)) => match parse_i32(m.as_str()) {
            Some(v) => v,
            None => unreached(),
        },
        _ => unreached(),
    }
}

/// Reads the first run of digits in a text as an `i32`, or says why it
/// cannot: the digit pattern is rejected, the text holds no digits, or the
/// first run does not parse as an `i32`.
pub fn read_number(string: &str) -> (r: Result<i32, ScrapeError>)
    ensures
        r == parse_number_spec(string@),
{
    let checked = match pattern_find(DIGITS_PATTERN, string) {
        None => Err(ScrapeError::PatternRejected),
        Some(found) => number_from_match(found),
    };
    match checked {
        Ok(_) => Ok(parse_number(string)),
        Err(e) => Err(e),
    }
}

/// Whether a date path segment has the form `YYYY-MM-DD`; `None` when the
/// date pattern is rejected.
pub fn check_date_format(date: &str) -> (r: Option<bool>)
    ensures
        r == regex_is_match(DATE_PATTERN@, date@),
{
    pattern_is_match(DATE_PATTERN, date)
}

} // verus!
