use vstd::prelude::*;

verus! {

/// The UTC instant, in milliseconds since the epoch, that an RFC 3339
/// timestamp denotes; `None` for text that is not a valid timestamp.
pub uninterp spec fn rfc3339_to_millis(s: Seq<char>) -> Option<i64>;

/// Relies on chrono's `DateTime::parse_from_rfc3339` and
/// `timestamp_millis`: whether the text parses, and the instant it
/// denotes, depend on the characters alone.
#[verifier::external_body]
pub(crate) fn parse_rfc3339_millis(s: &str) -> (r: Option<i64>)
    ensures
        r == rfc3339_to_millis(s@),
{
    match chrono::DateTime::parse_from_rfc3339(s) {
        Ok(dt) => Some(dt.to_utc().timestamp_millis()),
        Err(_) => None,
    }
}

/// The RFC 3339 text, in UTC, of an instant given in milliseconds since
/// the epoch.
pub uninterp spec fn millis_to_rfc3339(t: i64) -> Seq<char>;

/// Relies on chrono's `DateTime::from_timestamp_millis` and `to_rfc3339`:
/// the text depends on the instant alone. chrono formats instants within
/// about 262,000 years of the common era; beyond its range the call
/// yields the empty text, and no contract here assumes otherwise.
#[verifier::external_body]
pub(crate) fn format_rfc3339_millis(t: i64) -> (r: String)
    requires
        -9000000000000000 <= t <= 9000000000000000,
    ensures
        r@ == millis_to_rfc3339(t),
{
    match chrono::DateTime::from_timestamp_millis(t) {
        Some(dt) => dt.to_rfc3339(),
        None => String::new(),
    }
}

} // verus!
