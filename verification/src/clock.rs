//! Date and time values, as RFC 3339 texts in UTC, through `chrono`.
use vstd::prelude::*;

verus! {

/// What `chrono` makes of an RFC 3339 text: `DateTime::parse_from_rfc3339`
/// followed by conversion to UTC and `to_rfc3339`, or `None` when the text
/// does not parse.
pub uninterp spec fn rfc3339_utc(s: Seq<char>) -> Option<Seq<char>>;

/// What `chrono` makes of a calendar date text in the format `fmt`:
/// `NaiveDate::parse_from_str`, the start of that day in UTC, rendered by
/// `to_rfc3339`; `None` when the text does not parse.
pub uninterp spec fn day_start_utc(s: Seq<char>, fmt: Seq<char>) -> Option<Seq<char>>;

/// Calls `chrono::Utc::now` and renders the instant with `to_rfc3339`. The
/// instant is the machine's clock; of the text it is only claimed that
/// parsing it back gives the same text (an RFC 3339 text in UTC).
#[verifier::external_body]
pub(crate) fn now_rfc3339() -> (now: String)
    ensures
        rfc3339_utc(now@) == Some(now@),
{
    chrono::Utc::now().to_rfc3339()
}

/// Calls `chrono::DateTime::parse_from_rfc3339` on `s` and renders the UTC
/// instant with `to_rfc3339`; its result is named `rfc3339_utc`.
#[verifier::external_body]
pub(crate) fn parse_rfc3339_utc(s: &str) -> (parsed: Option<String>)
    ensures
        parsed.deep_view() == rfc3339_utc(s@),
{
    match chrono::DateTime::parse_from_rfc3339(s) {
        Ok(dt) => Some(dt.with_timezone(&chrono::Utc).to_rfc3339()),
        Err(_) => None,
    }
}

/// Calls `chrono::NaiveDate::parse_from_str(s, fmt)` and renders the start
/// of that day in UTC with `to_rfc3339`; its result is named `day_start_utc`.
#[verifier::external_body]
pub(crate) fn parse_day_start_utc(s: &str, fmt: &str) -> (parsed: Option<String>)
    ensures
        parsed.deep_view() == day_start_utc(s@, fmt@),
{
    match chrono::NaiveDate::parse_from_str(s, fmt) {
        Ok(day) => Some(day.and_time(chrono::NaiveTime::MIN).and_utc().to_rfc3339()),
        Err(_) => None,
    }
}

} // verus!
