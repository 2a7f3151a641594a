//! The textual form of a timestamp: RFC 3339 in UTC, as bytes.
//!
//! Both directions are the work of the date library. Their results are
//! named here, not described.

use vstd::prelude::*;

verus! {

/// The result of reading `text` as a date and time with an offset, in the
/// form of RFC 3339 as the date library reads it, in whole milliseconds
/// since 1970-01-01T00:00:00Z, what is finer than a millisecond cut off;
/// `None` where the library does not read `text` as a date.
pub uninterp spec fn rfc3339_millis(text: Seq<u8>) -> Option<i64>;

/// The RFC 3339 text of the point in time `millis` milliseconds after
/// 1970-01-01T00:00:00Z, in UTC with `Z` for the offset and with as many
/// digits of the second's fraction as it needs; `None` where the date
/// library has no date for it.
pub uninterp spec fn rfc3339_text(millis: i64) -> Option<Seq<u8>>;

/// Reads a date and time with chrono's `DateTime::<Utc>::from_str`, after
/// `std::str::from_utf8`, and converts it with `DateTime::timestamp_millis`.
/// Claimed: the outcome depends on the bytes alone and is the one named
/// `rfc3339_millis`.
#[verifier::external_body]
pub(crate) fn parse_timestamp(text: &[u8]) -> (r: Option<i64>)
    ensures
        r == rfc3339_millis(text@),
{
    match std::str::from_utf8(text) {
        Ok(s) => match <chrono::DateTime<chrono::Utc> as std::str::FromStr>::from_str(s) {
            Ok(t) => Some(t.timestamp_millis()),
            Err(_) => None,
        },
        Err(_) => None,
    }
}

/// Makes the date with chrono's `DateTime::from_timestamp_millis` and writes
/// it with `DateTime::to_rfc3339_opts(SecondsFormat::AutoSi, true)`.
/// Claimed: the outcome depends on the number alone and is the one named
/// `rfc3339_text`.
#[verifier::external_body]
pub(crate) fn timestamp_text(millis: i64) -> (r: Option<Vec<u8>>)
    ensures
        match r {
            Some(text) => rfc3339_text(millis) == Some(text@),
            None => rfc3339_text(millis) is None,
        },
{
    match chrono::DateTime::<chrono::Utc>::from_timestamp_millis(millis) {
        Some(t) => Some(t.to_rfc3339_opts(chrono::SecondsFormat::AutoSi, true).into_bytes()),
        None => None,
    }
}

} // verus!
