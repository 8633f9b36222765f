//! The connection to real time, by way of the chrono crate. The two
//! functions here are the only trusted time primitives; everything computed
//! from their results is verified elsewhere.

use vstd::prelude::*;

verus! {

/// The `%Y-%m-%d` rendering of the UTC day containing the given Unix
/// timestamp. The text is a function of the timestamp alone; it is given a
/// name here rather than a spelled-out definition, and `format_utc_date`
/// below is trusted to return it.
pub uninterp spec fn date_text_of(secs: int) -> Seq<char>;

/// The last timestamp accepted for date formatting: the final second of
/// year 9999, comfortably inside chrono's valid range.
pub const MAX_DATE_SECS: i64 = 253_402_300_799;

/// The current time as a Unix timestamp: whole seconds, and the
/// nanoseconds within the second.
///
/// Relies on chrono's `Utc::now`, which panics rather than return a time
/// before the Unix epoch, so the seconds are non-negative; the nanosecond
/// part stays below two billion (chrono admits values above one billion
/// only to represent a leap second).
#[verifier::external_body]
pub fn now_timestamp() -> (r: (i64, u32))
    ensures
        0 <= r.0,
        r.1 < 2_000_000_000,
{
    let now = chrono::Utc::now();
    (now.timestamp(), now.timestamp_subsec_nanos())
}

/// Renders the UTC day of the given timestamp as `%Y-%m-%d`.
///
/// Relies on chrono's `DateTime::from_timestamp`, which accepts every
/// timestamp admitted here, and on its `format`, whose `%Y-%m-%d` output
/// is determined by the timestamp alone: a zero-padded four-digit year,
/// two-digit month and two-digit day, joined by dashes — ten characters.
#[verifier::external_body]
pub fn format_utc_date(secs: i64) -> (r: String)
    requires
        0 <= secs <= MAX_DATE_SECS,
    ensures
        r@ == date_text_of(secs as int),
        r@.len() == 10,
{
    chrono::DateTime::from_timestamp(secs, 0).unwrap().format("%Y-%m-%d").to_string()
}

} // verus!
