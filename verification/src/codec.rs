//! Textual forms at the protocol edge: link identifiers travel as UUID
//! strings in the request path, and version tokens travel as RFC 2822 dates
//! in the `If-Unmodified-Since` and `Last-Modified` headers. Both codecs are
//! outside calls; their results are named here and everything downstream is
//! proved against those names.

use vstd::prelude::*;
use crate::link::ts_in_range;

verus! {

/// The identifier encoded by a UUID string, or nothing when the string is
/// not a UUID. Names the result of `uuid::Uuid::parse_str`, which depends on
/// its input alone.
pub uninterp spec fn uuid_value_of(s: Seq<char>) -> Option<u128>;

/// The timestamp (whole seconds since the Unix epoch) carried by an RFC 2822
/// date string, or nothing when the string is not such a date. Names the
/// result of `chrono::DateTime::parse_from_rfc2822`, which depends on its
/// input alone.
pub uninterp spec fn rfc2822_value_of(s: Seq<char>) -> Option<i64>;

/// The RFC 2822 rendering of a timestamp, at UTC. Names the result of
/// `chrono::DateTime::to_rfc2822`, which depends on the instant alone.
pub uninterp spec fn rfc2822_string_of(t: i64) -> Seq<char>;

/// Relies on `uuid::Uuid::parse_str` and `Uuid::as_u128`: a UUID string
/// denotes the 128-bit value of its digits, and parsing depends on the input
/// alone.
#[verifier::external_body]
pub fn parse_link_id(s: &str) -> (r: Option<u128>)
    ensures
        r == uuid_value_of(s@),
{
    match uuid::Uuid::parse_str(s) {
        Ok(u) => Some(u.as_u128()),
        Err(_) => None,
    }
}

/// Relies on `chrono::DateTime::parse_from_rfc2822` and
/// `DateTime::timestamp`: a well-formed RFC 2822 date denotes one instant,
/// read at second resolution, and parsing depends on the input alone.
#[verifier::external_body]
pub fn parse_version_token(s: &str) -> (r: Option<i64>)
    ensures
        r == rfc2822_value_of(s@),
{
    match chrono::DateTime::parse_from_rfc2822(s) {
        Ok(d) => Some(d.timestamp()),
        Err(_) => None,
    }
}

/// Relies on `chrono::DateTime::from_timestamp` and `DateTime::to_rfc2822`:
/// every instant between the epoch and the end of year 9999 has an RFC 2822
/// rendering, and `parse_from_rfc2822` reads that rendering back to the same
/// instant (the format carries full second resolution and the rendering is
/// at UTC).
#[verifier::external_body]
pub fn format_version_token(t: i64) -> (r: String)
    requires
        ts_in_range(t),
    ensures
        r@ == rfc2822_string_of(t),
        rfc2822_value_of(r@) == Some(t),
{
    match chrono::DateTime::<chrono::Utc>::from_timestamp(t, 0) {
        Some(d) => d.to_rfc2822(),
        None => String::new(),
    }
}

} // verus!
