//! What the HTTP endpoints answer, decided before and after storage access.
use vstd::prelude::*;

use crate::error::ScrapeError;
use crate::ios::{check_device_token_format, token_format_ok};
use crate::pattern::{check_date_format, regex_is_match, DATE_PATTERN};

verus! {

broadcast use vstd::string::group_string_axioms;

/// The HTTP status of a reply.
#[derive(Debug, Clone, Copy, PartialEq, Eq, Structural)]
pub enum ReplyStatus {
    Success,
    BadRequest,
    NotFound,
}

/// A plain-text reply.
#[derive(Debug, Clone)]
pub struct Reply {
    pub status: ReplyStatus,
    pub body: String,
}

/// The reply has the given status and body.
pub open spec fn reply_is(r: Reply, status: ReplyStatus, body: Seq<char>) -> bool {
    r.status == status && r.body@ == body
}

/// The answer of the index page.
pub fn index_reply() -> (r: Reply)
    ensures
        reply_is(r, ReplyStatus::Success, "dimigomeal server"@),
{
    Reply { status: ReplyStatus::Success, body: String::from_str("dimigomeal server") }
}

/// A request naming a device token goes on only when the token is written in
/// hexadecimal digits; otherwise it is refused with a bad-request reply.
pub fn token_guard(token: &str) -> (r: Option<Reply>)
    ensures
        r is None <==> token_format_ok(token@),
        r matches Some(rep) ==> reply_is(rep, ReplyStatus::BadRequest, "Invalid token format"@),
{
    if check_device_token_format(token) {
        None
    } else {
        Some(Reply { status: ReplyStatus::BadRequest, body: String::from_str("Invalid token format") })
    }
}

/// The answer to a token deletion: refused when nothing was removed.
pub fn delete_reply(removed: bool) -> (r: Reply)
    ensures
        !removed ==> reply_is(r, ReplyStatus::BadRequest, "Token not found"@),
        removed ==> reply_is(r, ReplyStatus::Success, "Token deleted"@),
{
    if !removed {
        Reply { status: ReplyStatus::BadRequest, body: String::from_str("Token not found") }
    } else {
        Reply { status: ReplyStatus::Success, body: String::from_str("Token deleted") }
    }
}

/// A request naming a date goes on only when the date has the form
/// `YYYY-MM-DD`; otherwise it is refused with a bad-request reply. An error
/// when the date pattern is rejected.
pub fn date_guard(date: &str) -> (r: Result<Option<Reply>, ScrapeError>)
    ensures
        match regex_is_match(DATE_PATTERN@, date@) {
            None => r == Err::<Option<Reply>, ScrapeError>(ScrapeError::PatternRejected),
            Some(true) => r matches Ok(None),
            Some(false) => r matches Ok(Some(rep)) && reply_is(
                rep,
                ReplyStatus::BadRequest,
                "Invalid date format"@,
            ),
        },
{
    match check_date_format(date) {
        None => Err(ScrapeError::PatternRejected),
        Some(true) => Ok(None),
        Some(false) => Ok(
            Some(Reply { status: ReplyStatus::BadRequest, body: String::from_str("Invalid date format") }),
        ),
    }
}

/// The answer when no meal is stored for a date.
pub fn meal_not_found_reply() -> (r: Reply)
    ensures
        reply_is(r, ReplyStatus::NotFound, "Meal not found"@),
{
    Reply { status: ReplyStatus::NotFound, body: String::from_str("Meal not found") }
}

} // verus!
