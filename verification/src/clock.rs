//! Timestamps.
//!
//! The schedule endpoint reports instants as datetime strings. The library
//! keeps an instant as whole seconds since the Unix epoch, so that "within
//! five minutes of now" is plain integer arithmetic.

use vstd::prelude::*;

verus! {

/// What parsing a string as a UTC datetime yields, as whole seconds since
/// the Unix epoch; `None` where the string is not a valid datetime.
pub uninterp spec fn timestamp_of(s: Seq<char>) -> Option<i64>;

/// Relies on chrono's `FromStr for DateTime<Utc>` (a relaxed RFC 3339
/// parse) and on `DateTime::timestamp`: the result depends on the
/// characters alone.
#[verifier::external_body]
fn parse_timestamp_value(s: &str) -> (r: Option<i64>)
    ensures
        r == timestamp_of(s@),
{
    s.parse::<chrono::DateTime<chrono::Utc>>().ok().map(|t| t.timestamp())
}

/// Parses a datetime string into epoch seconds; `None` where the string is
/// not a valid datetime.
pub fn parse_timestamp(s: &str) -> (r: Option<i64>)
    ensures
        r == timestamp_of(s@),
{
    parse_timestamp_value(s)
}

/// Parses an optional datetime string the way the schedule endpoint is
/// read: an absent string and a malformed string both yield `None`.
pub fn parse_optional_timestamp(s: &Option<String>) -> (r: Option<i64>)
    ensures
        r == spec_parse_optional_timestamp(*s),
{
    match s {
        Some(text) => parse_timestamp_value(text.as_str()),
        None => None,
    }
}

/// The instant an optional datetime string stands for.
pub open spec fn spec_parse_optional_timestamp(s: Option<String>) -> Option<i64> {
    match s {
        Some(text) => timestamp_of(text@),
        None => None,
    }
}

/// Relies on `chrono::Utc::now` and `DateTime::timestamp`: the system
/// clock as whole seconds since the Unix epoch. Nothing is assumed of the
/// value; callers state what holds of every reading.
#[verifier::external_body]
pub(crate) fn now_timestamp() -> i64 {
    chrono::Utc::now().timestamp()
}

} // verus!
