//! Reading the time at which a post is to be published.

use vstd::prelude::*;

verus! {

/// The instant that `text` names, in milliseconds since the Unix epoch, when
/// `text` is a timestamp with date, time and offset in the ISO 8601 profile of
/// RFC 3339 as `chrono` reads it; `None` when it is not.
pub uninterp spec fn utc_millis_of(text: Seq<char>) -> Option<i64>;

/// Parses `text` with `str::parse::<chrono::DateTime<chrono::Utc>>` and reads
/// the instant with `DateTime::timestamp_millis`. Trusted: the result is `None`
/// exactly when parsing fails, and depends on `text` alone, whatever the clock
/// or the time zone of the machine.
#[verifier::external_body]
pub(crate) fn utc_millis(text: &str) -> (millis: Option<i64>)
    ensures
        millis == utc_millis_of(text@),
{
    match text.parse::<chrono::DateTime<chrono::Utc>>() {
        Ok(instant) => Some(instant.timestamp_millis()),
        Err(_) => None,
    }
}

} // verus!
