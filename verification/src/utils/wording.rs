//! Times and numbers put into words.

use std::fmt::Write;
use vstd::prelude::*;
use vstd::string::StringExecFns;
use crate::db::models::opt_text;
use crate::time::Timestamp;

verus! {

/// The character for the digit `d`.
pub open spec fn digit_char(d: int) -> char
    recommends
        0 <= d <= 9,
{
    if d == 0 {
        '0'
    } else if d == 1 {
        '1'
    } else if d == 2 {
        '2'
    } else if d == 3 {
        '3'
    } else if d == 4 {
        '4'
    } else if d == 5 {
        '5'
    } else if d == 6 {
        '6'
    } else if d == 7 {
        '7'
    } else if d == 8 {
        '8'
    } else {
        '9'
    }
}

/// The decimal digits of `n`, most significant first, without leading
/// zeros.
pub open spec fn decimal_digits(n: nat) -> Seq<char>
    decreases n,
{
    if n < 10 {
        seq![digit_char(n as int)]
    } else {
        decimal_digits(n / 10).push(digit_char((n % 10) as int))
    }
}

/// `n` written in decimal, with a minus sign where it is negative.
pub open spec fn decimal_text(n: int) -> Seq<char> {
    if n < 0 {
        seq!['-'] + decimal_digits((-n) as nat)
    } else {
        decimal_digits(n as nat)
    }
}

/// The instant written by chrono after `pattern`, in UTC: `None` where
/// chrono cannot represent the instant or does not accept the pattern.
pub uninterp spec fn utc_text(secs: i64, nanos: u32, pattern: Seq<char>) -> Option<Seq<char>>;

/// How long ago something happened that lies `secs` whole seconds back, in
/// words; `None` from a week on, where the date says it better.
pub open spec fn spec_age_wording(secs: int) -> Option<Seq<char>> {
    if secs < 60 {
        Some("just now"@)
    } else if secs / 60 < 60 {
        Some(decimal_text(secs / 60) + " minutes ago"@)
    } else if secs / 3600 < 24 {
        Some(decimal_text(secs / 3600) + " hours ago"@)
    } else if secs / 86_400 < 7 {
        Some(decimal_text(secs / 86_400) + " days ago"@)
    } else {
        None
    }
}

/// How long before `now` the instant `then` lies, in words: the wording of
/// [`spec_age_wording`], and from a week on the date of `then`.
pub open spec fn spec_time_ago(now: Timestamp, then: Timestamp) -> Option<Seq<char>> {
    match spec_age_wording(now.spec_whole_seconds_since(then)) {
        Some(words) => Some(words),
        None => utc_text(then.secs, then.nanos, "%Y-%m-%d"@),
    }
}

/// `n` in decimal, by the standard library's `to_string`.
#[verifier::external_body]
fn decimal(n: i128) -> (r: String)
    ensures
        r@ == decimal_text(n as int),
{
    n.to_string()
}

/// The instant `t` written after `pattern` by chrono: it is built with
/// `DateTime::from_timestamp` and written with `DateTime::format`. `None`
/// where chrono cannot represent the instant or reports an error for the
/// pattern. The text is given a name and nothing else is claimed about it.
#[verifier::external_body]
fn format_utc(t: &Timestamp, pattern: &str) -> (r: Option<String>)
    ensures
        opt_text(r) == utc_text(t.secs, t.nanos, pattern@),
{
    let dt = chrono::DateTime::from_timestamp(t.secs, t.nanos)?;
    let mut out = String::new();
    match write!(out, "{}", dt.format(pattern)) {
        Ok(()) => Some(out),
        Err(_) => None,
    }
}

/// A new random identifier: a version-4 UUID from `uuid::Uuid::new_v4`, as
/// text. It differs from call to call, so nothing is claimed about it.
#[verifier::external_body]
pub fn generate_id() -> String {
    uuid::Uuid::new_v4().to_string()
}

/// Date and time of `dt` in UTC, as `YYYY-MM-DD HH:MM:SS`.
pub fn format_datetime(dt: &Timestamp) -> (r: Option<String>)
    ensures
        opt_text(r) == utc_text(dt.secs, dt.nanos, "%Y-%m-%d %H:%M:%S"@),
{
    format_utc(dt, "%Y-%m-%d %H:%M:%S")
}

/// Date of `dt` in UTC, as `YYYY-MM-DD`.
pub fn format_date(dt: &Timestamp) -> (r: Option<String>)
    ensures
        opt_text(r) == utc_text(dt.secs, dt.nanos, "%Y-%m-%d"@),
{
    format_utc(dt, "%Y-%m-%d")
}

/// How long ago something happened that lies `secs` whole seconds back:
/// "just now" under a minute, then whole minutes, whole hours under a day
/// and whole days under a week. `None` from a week on.
pub fn age_wording(secs: i128) -> (r: Option<String>)
    ensures
        opt_text(r) == spec_age_wording(secs as int),
{
    if secs < 60 {
        Some(String::from_str("just now"))
    } else if secs / 60 < 60 {
        Some(decimal(secs / 60).concat(" minutes ago"))
    } else if secs / 3600 < 24 {
        Some(decimal(secs / 3600).concat(" hours ago"))
    } else if secs / 86_400 < 7 {
        Some(decimal(secs / 86_400).concat(" days ago"))
    } else {
        None
    }
}

/// How long before `now` the instant `then` lies, in words.
pub fn time_ago_at(now: &Timestamp, then: &Timestamp) -> (r: Option<String>)
    ensures
        opt_text(r) == spec_time_ago(*now, *then),
{
    match age_wording(now.whole_seconds_since(then)) {
        Some(words) => Some(words),
        None => format_date(then),
    }
}

/// How long ago `dt` lies, in words, by the system clock. Whatever the
/// clock reads, the answer is that of [`time_ago_at`] for that reading.
pub fn time_ago(dt: &Timestamp) -> (r: Option<String>)
    ensures
        exists|now: Timestamp| opt_text(r) == spec_time_ago(now, *dt),
{
    let now = Timestamp::now();
    time_ago_at(&now, dt)
}

} // verus!
