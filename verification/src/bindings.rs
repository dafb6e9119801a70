//! The calls that leave this crate. Verus takes the contract of each item
//! here on trust: none of them is proved.

use crate::types::Timestamp;
use chrono::DateTime;
use regex::Regex;
use sqlx::types::Uuid;
use vstd::prelude::*;

verus! {

/// What `regex::Regex::captures_iter` finds of `pattern` in `haystack`: one
/// entry for each match, from left to right, and in it one entry for each
/// capture group of the pattern, the whole match first; a group that took
/// no part in the match is `None`. `None` as a whole where `regex::Regex::new`
/// refuses the pattern.
pub uninterp spec fn regex_captures(pattern: Seq<char>, haystack: Seq<char>) -> Option<
    Seq<Seq<Option<Seq<char>>>>,
>;

/// Compiles `pattern` with `regex::Regex::new` and walks `haystack` with
/// `Regex::captures_iter`, copying each group of each match out as a string.
/// The contract claims only that the outcome is a function of the two texts.
#[verifier::external_body]
pub(crate) fn captures_iter(pattern: &str, haystack: &str) -> (found: Option<
    Vec<Vec<Option<String>>>,
>)
    ensures
        found.deep_view() == regex_captures(pattern@, haystack@),
{
    let re = Regex::new(pattern).ok()?;
    Some(
        re.captures_iter(haystack).map(
            |caps| caps.iter().map(|group| group.map(|m| m.as_str().to_owned())).collect(),
        ).collect(),
    )
}

/// The instant that `chrono::DateTime::parse_from_str` reads out of `text`
/// under `format`, or `None` where it reports an error.
pub uninterp spec fn parsed_instant(text: Seq<char>, format: Seq<char>) -> Option<Timestamp>;

/// Calls `chrono::DateTime::parse_from_str` and hands back the instant read,
/// as `DateTime::timestamp` and `DateTime::timestamp_subsec_nanos` give it.
/// The contract claims only that the outcome is a function of the two texts.
#[verifier::external_body]
pub(crate) fn parse_from_str(text: &str, format: &str) -> (instant: Option<Timestamp>)
    ensures
        instant == parsed_instant(text@, format@),
{
    match DateTime::parse_from_str(text, format) {
        Ok(read) => Some(
            Timestamp { seconds: read.timestamp(), nanos: read.timestamp_subsec_nanos() as i32 },
        ),
        Err(_) => None,
    }
}

/// Whether `uuid::Uuid::parse_str`, which `sqlx::types` hands on, reads
/// `text` as an identifier.
pub uninterp spec fn is_uuid(text: Seq<char>) -> bool;

/// Calls `sqlx::types::Uuid::parse_str` and tells whether it read an
/// identifier. The contract claims only that the answer is a function of
/// the text.
#[verifier::external_body]
pub(crate) fn parse_str(text: &str) -> (ok: bool)
    ensures
        ok == is_uuid(text@),
{
    Uuid::parse_str(text).is_ok()
}

} // verus!
