//! Checks on what people type in: email addresses and phone numbers.
//!
//! The shape of both is given by a regular expression, which the `regex`
//! crate matches; the rest of each rule is checked here.

use vstd::prelude::*;
use crate::utils::text::{count_digits, digit_count};

verus! {

/// What `regex` makes of the pattern and the text: `Some(true)` where the
/// pattern matches somewhere in the text, `Some(false)` where it does not,
/// and `None` where `regex` does not accept the pattern.
pub uninterp spec fn pattern_match(pattern: Seq<char>, haystack: Seq<char>) -> Option<bool>;

/// The shape of an email address: a local part of letters, digits and the
/// usual punctuation, an `@`, and a domain of dot-separated labels.
pub open spec fn email_pattern() -> Seq<char> {
    "^[a-zA-Z0-9.!#$%&'*+/=?^_`{|}~-]+@[a-zA-Z0-9](?:[a-zA-Z0-9-]{0,61}[a-zA-Z0-9])?(?:\\.[a-zA-Z0-9](?:[a-zA-Z0-9-]{0,61}[a-zA-Z0-9])?)*$"@
}

/// The shape of a phone number: an optional `+`, then digits, white space,
/// hyphens and round brackets.
pub open spec fn phone_pattern() -> Seq<char> {
    "^\\+?[\\d\\s\\-\\(\\)]+$"@
}

/// Fewest digits in a phone number.
pub const MIN_PHONE_DIGITS: usize = 10;

/// Compiles `pattern` with `regex::Regex::new` and asks `Regex::is_match`
/// whether it matches somewhere in `haystack`; `None` where the pattern is
/// refused. The answer depends on the two texts alone and is given a name;
/// nothing else is claimed about it.
#[verifier::external_body]
fn regex_is_match(pattern: &str, haystack: &str) -> (r: Option<bool>)
    ensures
        r == pattern_match(pattern@, haystack@),
{
    match regex::Regex::new(pattern) {
        Ok(re) => Some(re.is_match(haystack)),
        Err(_) => None,
    }
}

/// The verdict on an email address, given what matching it against the
/// email pattern came to: valid exactly when the pattern matched.
pub fn email_verdict(matched: Option<bool>) -> (valid: bool)
    ensures
        valid == (matched == Some(true)),
{
    match matched {
        Some(m) => m,
        None => false,
    }
}

/// The verdict on the phone number `phone`, given what matching it against
/// the phone pattern came to: valid exactly when the pattern matched and the
/// number holds at least ten digits.
pub fn phone_verdict(matched: Option<bool>, phone: &str) -> (valid: bool)
    ensures
        valid == (matched == Some(true) && digit_count(phone@) >= 10),
{
    match matched {
        Some(true) => count_digits(phone) >= MIN_PHONE_DIGITS,
        _ => false,
    }
}

/// Whether `email` has the shape of an email address.
pub fn is_valid_email(email: &str) -> (valid: bool)
    ensures
        valid == (pattern_match(email_pattern(), email@) == Some(true)),
{
    let matched = regex_is_match(
        "^[a-zA-Z0-9.!#$%&'*+/=?^_`{|}~-]+@[a-zA-Z0-9](?:[a-zA-Z0-9-]{0,61}[a-zA-Z0-9])?(?:\\.[a-zA-Z0-9](?:[a-zA-Z0-9-]{0,61}[a-zA-Z0-9])?)*$",
        email,
    );
    email_verdict(matched)
}

/// Whether `phone` has the shape of a phone number and holds at least ten
/// digits.
pub fn is_valid_phone(phone: &str) -> (valid: bool)
    ensures
        valid == (pattern_match(phone_pattern(), phone@) == Some(true) && digit_count(phone@)
            >= 10),
{
    let matched = regex_is_match("^\\+?[\\d\\s\\-\\(\\)]+$", phone);
    phone_verdict(matched, phone)
}

} // verus!
