//! Instants as milliseconds since the Unix epoch, and their RFC 3339 text.
use vstd::prelude::*;

verus! {

/// The RFC 3339 text, in UTC, of the instant `ms` milliseconds after the epoch,
/// as `chrono::DateTime::<Utc>::to_rfc3339` writes it.
pub uninterp spec fn rfc3339_of(ms: i64) -> Seq<char>;

/// The RFC 3339 text, in UTC, of the instant `secs` seconds and `nanos`
/// nanoseconds after the epoch, as `chrono::DateTime::<Utc>::to_rfc3339` writes it.
pub uninterp spec fn rfc3339_at(secs: i64, nanos: u32) -> Seq<char>;

/// The instant, in milliseconds after the epoch, that RFC 3339 text names, if
/// the text is valid RFC 3339.
pub uninterp spec fn rfc3339_instant(text: Seq<char>) -> Option<i64>;

/// Instants within the calendar range of `chrono`: from the start of
/// January 1 of the year -262143 to the end of December 31 of 262142. Turning
/// an instant outside that range into a calendar date panics.
pub open spec fn in_calendar_range(ms: i64) -> bool {
    -8_334_601_228_800_000 <= ms <= 8_210_266_876_799_999
}

/// Whether an instant is within [`in_calendar_range`].
pub fn fits_calendar(ms: i64) -> (r: bool)
    ensures
        r == in_calendar_range(ms),
{
    -8_334_601_228_800_000 <= ms && ms <= 8_210_266_876_799_999
}

/// Calls `chrono::DateTime::<Utc>::from_timestamp_millis` and `to_rfc3339` on
/// the result: the RFC 3339 text of the instant, which the calendar range
/// always admits here.
#[verifier::external_body]
pub(crate) fn rfc3339_text(ms: i64) -> (r: String)
    requires
        in_calendar_range(ms),
    ensures
        r@ == rfc3339_of(ms),
{
    match chrono::DateTime::from_timestamp_millis(ms) {
        Some(t) => t.to_rfc3339(),
        None => String::new(),
    }
}

/// Calls `chrono::DateTime::parse_from_rfc3339`, then takes the instant in UTC
/// and its milliseconds after the epoch (`timestamp_millis`).
#[verifier::external_body]
pub(crate) fn parse_rfc3339(text: &str) -> (r: Option<i64>)
    ensures
        r == rfc3339_instant(text@),
{
    match chrono::DateTime::parse_from_rfc3339(text) {
        Ok(t) => Some(t.with_timezone(&chrono::Utc).timestamp_millis()),
        Err(_) => None,
    }
}

} // verus!
