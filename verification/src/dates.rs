//! Calendar rendering of post timestamps.
//!
//! Timestamps are carried through the library as non-leap seconds since the
//! Unix epoch; only the final `YYYY-MM-DD` rendering of a timestamp is
//! delegated to a calendar library.

use vstd::prelude::*;

verus! {

/// Timestamps the library accepts: non-negative and no later than
/// 9999-12-31T23:59:59Z, so that a rendered year always has four digits.
pub open spec fn valid_epoch_seconds(ts: int) -> bool {
    0 <= ts <= 253402300799
}

/// The `YYYY-MM-DD` calendar rendering of an epoch-second timestamp. The
/// rendering is a fixed function of the timestamp alone; its calendar
/// arithmetic is left to the library that computes it.
pub uninterp spec fn iso_date_of(ts: int) -> Seq<char>;

/// Whether a timestamp can be rendered as a calendar date.
pub fn is_valid_epoch_seconds(ts: i64) -> (r: bool)
    ensures
        r == valid_epoch_seconds(ts as int),
{
    0 <= ts && ts <= 253402300799
}

/// Relies on chrono's `DateTime::from_timestamp` and `%Y-%m-%d` formatting:
/// for an in-range timestamp the conversion succeeds, and the rendering is
/// `YYYY-MM-DD` — ten characters for years up to 9999 — determined by the
/// timestamp alone.
#[verifier::external_body]
pub fn format_iso_date(ts: i64) -> (r: String)
    requires
        valid_epoch_seconds(ts as int),
    ensures
        r@ == iso_date_of(ts as int),
        r@.len() == 10,
{
    let dt = chrono::DateTime::<chrono::Utc>::from_timestamp(ts, 0)
        .expect("timestamp within the validated range");
    dt.format("%Y-%m-%d").to_string()
}

} // verus!
