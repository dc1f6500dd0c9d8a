//! Timestamp parsing. Publish times arrive as text in a handful of
//! formats; they are kept as seconds since the Unix epoch (UTC). The
//! parsing itself is done by the `chrono` crate; the order in which the
//! accepted formats are tried is decided here.

use vstd::prelude::*;

verus! {

/// What `chrono` yields for the text `s` under the strftime format
/// `fmt`: the parsed civil date and time taken as UTC, as seconds since
/// the Unix epoch, or `None` where `s` does not match `fmt`.
pub uninterp spec fn naive_epoch_of(s: Seq<char>, fmt: Seq<char>) -> Option<i64>;

/// What `chrono` yields for the RFC 3339 text `s`: the instant it
/// denotes as seconds since the Unix epoch, or `None` where `s` is not
/// a valid RFC 3339 date-and-time.
pub uninterp spec fn rfc3339_epoch_of(s: Seq<char>) -> Option<i64>;

/// Relies on `chrono::NaiveDateTime::parse_from_str` and
/// `DateTime::timestamp`: both depend on their arguments alone; the
/// parsed civil time is taken as UTC and returned as Unix seconds.
#[verifier::external_body]
fn parse_naive_epoch(s: &str, fmt: &str) -> (r: Option<i64>)
    ensures
        r == naive_epoch_of(s@, fmt@),
{
    chrono::NaiveDateTime::parse_from_str(s, fmt).ok().map(|d| d.and_utc().timestamp())
}

/// Relies on `chrono::DateTime::parse_from_rfc3339` and
/// `DateTime::timestamp`: both depend on their arguments alone; the
/// parsed instant is returned as Unix seconds.
#[verifier::external_body]
pub fn parse_rfc3339_epoch(s: &str) -> (r: Option<i64>)
    ensures
        r == rfc3339_epoch_of(s@),
{
    chrono::DateTime::parse_from_rfc3339(s).ok().map(|d| d.timestamp())
}

/// The timestamp a date-only text denotes, or failing that a
/// date-and-time text, or `None` where neither format matches.
pub open spec fn spec_fallback_epoch(s: Seq<char>) -> Option<i64> {
    match naive_epoch_of(s, "%Y-%m-%d"@) {
        Some(t) => Some(t),
        None => naive_epoch_of(s, "%Y-%m-%d %H:%M:%S"@),
    }
}

/// Parses a repository's last-update text: first as a bare date, then
/// as a date with a time of day; where both fail there is no timestamp.
pub fn parse_update_timestamp(s: &str) -> (r: Option<i64>)
    ensures
        r == spec_fallback_epoch(s@),
{
    match parse_naive_epoch(s, "%Y-%m-%d") {
        Some(t) => Some(t),
        None => parse_naive_epoch(s, "%Y-%m-%d %H:%M:%S"),
    }
}

} // verus!
