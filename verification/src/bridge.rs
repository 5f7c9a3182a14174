//! The library's only calls into outside crates: identifier
//! generation, the clock, timestamp formatting, and case folding.
//! Each is a trusted wrapper whose contract states what the outside
//! source shows.

use vstd::prelude::*;

verus! {

/// Earliest millisecond value that the timestamp formatter accepts.
pub const TS_MIN_MILLIS: i64 = -8_000_000_000_000_000;

/// Latest millisecond value that the timestamp formatter accepts.
pub const TS_MAX_MILLIS: i64 = 8_000_000_000_000_000;

/// A millisecond count close enough to the epoch for the textual
/// timestamp representation to exist.
pub open spec fn ts_in_range(ms: int) -> bool {
    TS_MIN_MILLIS <= ms <= TS_MAX_MILLIS
}

/// The RFC 3339 rendering of a millisecond-precision instant, as
/// chrono's `DateTime::<Utc>::to_rfc3339` produces it. It depends on
/// the millisecond count alone.
pub uninterp spec fn rfc3339_of(ms: int) -> Seq<char>;

/// The Unicode lowercase folding of a string, as `str::to_lowercase`
/// produces it. It depends on the characters alone.
pub uninterp spec fn lower_of(s: Seq<char>) -> Seq<char>;

/// Relies on `uuid::Uuid::new_v4` and its `Display` impl: a fresh
/// random identifier, rendered hyphenated as exactly 36 characters.
/// The value itself is random, so nothing more is promised.
#[verifier::external_body]
pub(crate) fn fresh_id() -> (r: String)
    ensures
        r@.len() == 36,
{
    uuid::Uuid::new_v4().to_string()
}

/// Relies on `chrono::Utc::now` and `DateTime::timestamp_millis`: the
/// current instant as non-leap milliseconds since the epoch. Every
/// chrono instant lies within about 262,000 years of the common era,
/// which bounds the count; beyond that, the clock decides the value.
#[verifier::external_body]
pub(crate) fn now_millis() -> (r: i64)
    ensures
        -9_500_000_000_000_000 <= r <= 9_500_000_000_000_000,
{
    chrono::Utc::now().timestamp_millis()
}

/// Relies on `chrono::DateTime::<Utc>::from_timestamp_millis` (total
/// on the admitted range) and `to_rfc3339`: the textual,
/// timezone-aware, sortable rendering of an instant.
#[verifier::external_body]
pub(crate) fn format_rfc3339(ms: i64) -> (r: String)
    requires
        ts_in_range(ms as int),
    ensures
        r@ == rfc3339_of(ms as int),
{
    chrono::DateTime::from_timestamp_millis(ms).unwrap().to_rfc3339()
}

/// Relies on `str::to_lowercase`: Unicode lowercase folding, a pure
/// function of the input characters.
#[verifier::external_body]
pub(crate) fn lowercase(s: &str) -> (r: String)
    ensures
        r@ == lower_of(s@),
{
    s.to_lowercase()
}

} // verus!
