//! Points in time as the tokens carry them: seconds since the Unix epoch in
//! the library, RFC 3339 text on the wire.

use chrono::{DateTime, Utc};
use vstd::prelude::*;

verus! {

/// The last second of the year 9999, the latest time RFC 3339 can write.
pub const MAX_TIMESTAMP: i64 = 253_402_300_799;

/// The RFC 3339 text, in UTC and without fractional seconds, of the time
/// `seconds` after the Unix epoch.
pub uninterp spec fn rfc3339_text(seconds: int) -> Seq<char>;

/// The seconds after the Unix epoch of the time that RFC 3339 `text` names, or
/// `None` where `text` is not RFC 3339.
pub uninterp spec fn rfc3339_seconds(text: Seq<char>) -> Option<int>;

/// The times that can be written and read back.
pub open spec fn writable(seconds: int) -> bool {
    0 <= seconds <= MAX_TIMESTAMP
}

/// Calls `DateTime::<Utc>::from_timestamp` and `to_rfc3339` of the `chrono`
/// crate. Every time from the epoch to the end of the year 9999 is written,
/// and `DateTime::parse_from_rfc3339` reads the same second back from the text.
#[verifier::external_body]
pub(crate) fn format_rfc3339(seconds: i64) -> (res: Option<String>)
    ensures
        writable(seconds as int) ==> res is Some,
        res matches Some(text) ==> text@ == rfc3339_text(seconds as int),
        res matches Some(text) ==> (writable(seconds as int) ==> rfc3339_seconds(text@) == Some(
            seconds as int,
        )),
{
    DateTime::<Utc>::from_timestamp(seconds, 0).map(|t| t.to_rfc3339())
}

/// Calls `DateTime::parse_from_rfc3339` of the `chrono` crate and takes the
/// timestamp of what it read.
#[verifier::external_body]
pub(crate) fn parse_rfc3339(text: &str) -> (res: Option<i64>)
    ensures
        res is Some <==> rfc3339_seconds(text@) is Some,
        res matches Some(seconds) ==> rfc3339_seconds(text@) == Some(seconds as int),
{
    DateTime::parse_from_rfc3339(text).ok().map(|t| t.timestamp())
}

} // verus!
