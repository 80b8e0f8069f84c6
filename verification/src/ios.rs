//! Device tokens of iOS live activities and the payload pushed to them.
use vstd::prelude::*;

use crate::calendar::{local_now_text, local_timestamp, starts_with_date};
use crate::text::chars_of;

verus! {

broadcast use vstd::string::group_string_axioms;

/// A device registered for live activity updates.
#[derive(Debug, Clone)]
pub struct IosActivityDeviceToken {
    pub created_date: String,
    pub device_token: String,
}

/// A live activity key and the day it was last used.
#[derive(Debug, Clone)]
pub struct IosActivityKey {
    pub last_date: String,
    pub activity_key: String,
}

/// A hexadecimal digit: `0`-`9`, `a`-`f` or `A`-`F` (`char::is_digit(16)`).
pub open spec fn is_hex_digit(c: char) -> bool {
    let u = c as u32;
    ||| '0' as u32 <= u <= '9' as u32
    ||| 'a' as u32 <= u <= 'f' as u32
    ||| 'A' as u32 <= u <= 'F' as u32
}

/// Every character of the token is a hexadecimal digit.
pub open spec fn token_format_ok(key: Seq<char>) -> bool {
    forall|i: int| 0 <= i < key.len() ==> is_hex_digit(#[trigger] key[i])
}

/// Whether a device token is written in hexadecimal digits only (the empty
/// token included).
pub fn check_device_token_format(key: &str) -> (ok: bool)
    ensures
        ok == token_format_ok(key@),
{
    let cs = chars_of(key);
    for i in 0..cs.len()
        invariant
            cs@ == key@,
            forall|k: int| 0 <= k < i ==> is_hex_digit(#[trigger] cs@[k]),
    {
        let u = cs[i] as u32;
        let hex = (('0' as u32) <= u && u <= ('9' as u32)) || (('a' as u32) <= u && u <= ('f' as u32))
            || (('A' as u32) <= u && u <= ('F' as u32));
        if !hex {
            assert(!is_hex_digit(key@[i as int]));
            return false;
        }
    }
    true
}

/// A token is accepted exactly when each of its characters is `0`-`9`,
/// `a`-`f` or `A`-`F`, whatever its length: the empty token is accepted,
/// appending such a digit to an accepted token keeps it accepted, and
/// appending any other character refuses it.
pub proof fn law_token_format(s: Seq<char>, c: char)
    ensures
        token_format_ok(s) <==> forall|i: int|
            0 <= i < s.len() ==> {
                let u = #[trigger] s[i] as u32;
                (48 <= u <= 57) || (97 <= u <= 102) || (65 <= u <= 70)
            },
        token_format_ok(Seq::<char>::empty()),
        token_format_ok(s.push(c)) <==> token_format_ok(s) && {
            let u = c as u32;
            (48 <= u <= 57) || (97 <= u <= 102) || (65 <= u <= 70)
        },
{
    let t = s.push(c);
    assert(t[s.len() as int] == c);
    assert forall|i: int| 0 <= i < s.len() implies t[i] == s[i] by {}
    if token_format_ok(s) && is_hex_digit(c) {
        assert forall|i: int| 0 <= i < t.len() implies is_hex_digit(#[trigger] t[i]) by {
            if i < s.len() {
                assert(t[i] == s[i]);
            }
        }
    }
    if token_format_ok(t) {
        assert forall|i: int| 0 <= i < s.len() implies is_hex_digit(#[trigger] s[i]) by {
            assert(t[i] == s[i]);
        }
    }
}

/// The view of a stored token: creation date and token.
pub open spec fn token_view(t: IosActivityDeviceToken) -> (Seq<char>, Seq<char>) {
    (t.created_date@, t.device_token@)
}

/// The token that a lookup gives from the rows found: the last row, or a
/// token with empty date and text when no row was found.
pub fn device_token_from_rows(rows: Vec<IosActivityDeviceToken>) -> (r: IosActivityDeviceToken)
    ensures
        rows.len() == 0 ==> token_view(r) == (Seq::<char>::empty(), Seq::<char>::empty()),
        rows.len() > 0 ==> token_view(r) == token_view(rows@.last()),
{
    let mut rows = rows;
    match rows.pop() {
        Some(t) => t,
        None => IosActivityDeviceToken { created_date: String::new(), device_token: String::new() },
    }
}

/// Why a device token cannot be added.
#[derive(Debug, Clone, Copy, PartialEq, Eq, Structural)]
pub enum TokenError {
    /// The token is stored already.
    AlreadyExists,
}

/// A token can be added unless the lookup found one with non-empty text.
pub fn check_new_device_token(existing: &IosActivityDeviceToken) -> (r: Result<(), TokenError>)
    ensures
        r is Err <==> existing.device_token@.len() > 0,
        r matches Err(e) ==> e == TokenError::AlreadyExists,
{
    if !existing.device_token.as_str().is_empty() {
        Err(TokenError::AlreadyExists)
    } else {
        Ok(())
    }
}

/// The record of a newly added token, created now.
pub fn new_device_token(token: String) -> (r: IosActivityDeviceToken)
    ensures
        r.device_token@ == token@,
        starts_with_date(r.created_date@),
{
    IosActivityDeviceToken { created_date: local_now_text(), device_token: token }
}

/// The push service's address for a device.
pub open spec fn push_url_spec(device_token: Seq<char>) -> Seq<char> {
    "https://api.development.push.apple.com:443/3/device/"@ + device_token
}

/// The push service's address for a device.
pub fn push_url(device_token: &str) -> (r: String)
    ensures
        r@ == push_url_spec(device_token@),
{
    let mut url = String::from_str("https://api.development.push.apple.com:443/3/device/");
    url.append(device_token);
    url
}

/// What a live activity update carries.
#[derive(Debug, Clone)]
pub struct ActivityPayload {
    /// Always `update`.
    pub event: String,
    pub meal_type: String,
    pub menu: String,
    pub date: String,
    /// Seconds since the Unix epoch when the payload was made.
    pub timestamp: i64,
}

/// The update payload for a meal, stamped now.
pub fn activity_payload(meal_type: &str, menu: &str, date: &str) -> (r: ActivityPayload)
    ensures
        r.event@ == "update"@,
        r.meal_type@ == meal_type@,
        r.menu@ == menu@,
        r.date@ == date@,
        r.timestamp >= 0,
{
    ActivityPayload {
        event: String::from_str("update"),
        meal_type: String::from_str(meal_type),
        menu: String::from_str(menu),
        date: String::from_str(date),
        timestamp: local_timestamp(),
    }
}

} // verus!
