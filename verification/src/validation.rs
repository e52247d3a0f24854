//! Field rules for requests: lengths in characters, numeric ranges and e-mail
//! addresses.
use vstd::prelude::*;
use crate::text::{char_count, contains_char};
use validator::ValidateEmail;

verus! {

/// Whether `validator` accepts `s` as an e-mail address.
pub uninterp spec fn email_accepted(s: Seq<char>) -> bool;

/// Calls `ValidateEmail::validate_email` (validator crate) on a string. The
/// verdict is named; the contract states the one rule the crate's source applies
/// first: a text without `@` is refused.
#[verifier::external_body]
pub(crate) fn validate_email(s: &str) -> (r: bool)
    ensures
        r == email_accepted(s@),
        !contains_char(s@, '@') ==> !r,
{
    s.validate_email()
}

/// A length in characters within `min..=max`.
pub open spec fn len_within(s: Seq<char>, min: int, max: int) -> bool {
    min <= s.len() && s.len() <= max
}

/// An optional text that, when present, is within `min..=max` characters.
pub open spec fn opt_len_within(s: Option<String>, min: int, max: int) -> bool {
    match s {
        Some(t) => len_within(t@, min, max),
        None => true,
    }
}

/// Whether `s` has between `min` and `max` characters.
pub fn chars_within(s: &str, min: usize, max: usize) -> (r: bool)
    ensures
        r == len_within(s@, min as int, max as int),
{
    let n = char_count(s);
    min <= n && n <= max
}

/// Whether an optional text, when present, has between `min` and `max` characters.
pub fn opt_chars_within(s: &Option<String>, min: usize, max: usize) -> (r: bool)
    ensures
        r == opt_len_within(*s, min as int, max as int),
{
    match s {
        Some(t) => chars_within(t.as_str(), min, max),
        None => true,
    }
}

/// Whether an optional number, when present, lies within `min..=max`.
pub open spec fn opt_in_range(v: Option<int>, min: int, max: int) -> bool {
    match v {
        Some(n) => min <= n && n <= max,
        None => true,
    }
}

} // verus!
