//! Instants read from and written as text, by the `chrono` crate.

use vstd::prelude::*;
use crate::record::Timestamp;
use std::fmt::Write;

verus! {

/// What `chrono::DateTime::parse_from_rfc3339` reads from `text`, as a UTC instant.
pub uninterp spec fn rfc3339_instant(text: Seq<char>) -> Option<Timestamp>;

/// What `chrono::DateTime::parse_from_str` reads from `text` under `format`, as a UTC instant.
pub uninterp spec fn formatted_instant(text: Seq<char>, format: Seq<char>) -> Option<Timestamp>;

/// The text `chrono::DateTime::<Utc>::to_rfc3339` writes for an instant, or
/// `None` where `chrono::DateTime::from_timestamp` rejects the instant.
pub uninterp spec fn rfc3339_text(ts: Timestamp) -> Option<Seq<char>>;

/// The text `chrono` writes for the UTC instant under the strftime-style
/// `format` (`DateTime::format`), or `None` where `DateTime::from_timestamp`
/// rejects the instant or the format holds an item that cannot be written.
pub uninterp spec fn instant_text(ts: Timestamp, format: Seq<char>) -> Option<Seq<char>>;

/// Calls `chrono::DateTime::parse_from_rfc3339` on `text` and converts a
/// success to UTC seconds and nanoseconds; the contract claims only that the
/// result is a function of `text`.
#[verifier::external_body]
pub(crate) fn parse_rfc3339(text: &str) -> (r: Option<Timestamp>)
    ensures
        r == rfc3339_instant(text@),
{
    chrono::DateTime::parse_from_rfc3339(text).ok().map(
        |dt| Timestamp { secs: dt.timestamp(), nanos: dt.timestamp_subsec_nanos() },
    )
}

/// Calls `chrono::DateTime::parse_from_str(text, format)` and converts a
/// success to UTC seconds and nanoseconds; the contract claims only that the
/// result is a function of `text` and `format`.
#[verifier::external_body]
pub(crate) fn parse_with_format(text: &str, format: &str) -> (r: Option<Timestamp>)
    ensures
        r == formatted_instant(text@, format@),
{
    chrono::DateTime::parse_from_str(text, format).ok().map(
        |dt| Timestamp { secs: dt.timestamp(), nanos: dt.timestamp_subsec_nanos() },
    )
}

/// Builds the UTC instant with `chrono::DateTime::from_timestamp` and writes
/// it with `to_rfc3339`; the contract claims only that the result is a
/// function of the instant.
#[verifier::external_body]
pub(crate) fn write_rfc3339(ts: Timestamp) -> (r: Option<String>)
    ensures
        r.deep_view() == rfc3339_text(ts),
{
    chrono::DateTime::from_timestamp(ts.secs, ts.nanos).map(|dt| dt.to_rfc3339())
}

/// Builds the UTC instant with `chrono::DateTime::from_timestamp` and writes
/// it with `DateTime::format(format)`; a format that cannot be written gives
/// `None` (the formatter's error is caught, not turned into a panic). Claims
/// only that the result is a function of the instant and the format.
#[verifier::external_body]
pub(crate) fn format_instant(ts: Timestamp, format: &str) -> (r: Option<String>)
    ensures
        r.deep_view() == instant_text(ts, format@),
{
    let dt = chrono::DateTime::from_timestamp(ts.secs, ts.nanos)?;
    let mut text = String::new();
    match write!(text, "{}", dt.format(format)) {
        Ok(()) => Some(text),
        Err(_) => None,
    }
}

} // verus!
