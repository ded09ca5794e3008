//! Date-times and the wall clock, as provided by `chrono`.
//!
//! Nothing in this file is proved: each function states what the `chrono`
//! call in its body is taken to do.

use crate::calendar::{in_year, representable};
use chrono::{Datelike, TimeZone, Utc};
use vstd::prelude::*;

verus! {

/// The instant `secs` seconds after the Unix epoch, in UTC, written out after
/// the strftime-like `pattern`; nothing where `chrono` cannot represent the
/// instant or cannot format it after that pattern.
pub uninterp spec fn utc_text_of(secs: i64, pattern: Seq<char>) -> Option<Seq<char>>;

/// `chrono::Utc.timestamp_opt(secs, 0).single()`, then `Datelike::year` of the
/// date-time it gives.
///
/// Taken on trust: `timestamp_opt` yields a date-time exactly for the
/// instants of the years from `MIN_YEAR` to `MAX_YEAR`, and `year` is the
/// year of the proleptic Gregorian calendar in which the instant falls.
#[verifier::external_body]
pub(crate) fn utc_year(secs: i64) -> (year: Option<i32>)
    ensures
        year is Some <==> representable(secs as int),
        year matches Some(y) ==> in_year(secs as int, y as int),
{
    match Utc.timestamp_opt(secs, 0).single() {
        Some(instant) => Some(instant.year()),
        None => None,
    }
}

/// `chrono::Utc.timestamp_opt(secs, 0).single()`, then `DateTime::format` with
/// `pattern`, written into a fresh string with `DelayedFormat::write_to`.
///
/// Taken on trust: the result depends on `secs` and `pattern` alone (the
/// offset is always UTC and no locale is consulted), and it is `None` where
/// there is no such date-time or where `write_to` reports an error, as it
/// does for a pattern it does not accept.
#[verifier::external_body]
pub(crate) fn utc_text(secs: i64, pattern: &str) -> (text: Option<String>)
    ensures
        text.deep_view() == utc_text_of(secs, pattern@),
{
    let instant = Utc.timestamp_opt(secs, 0).single()?;
    let mut text = String::new();
    match instant.format(pattern).write_to(&mut text) {
        Ok(()) => Some(text),
        Err(_) => None,
    }
}

/// `chrono::Utc::now().timestamp()`: the wall clock, in whole seconds since
/// the Unix epoch.
///
/// Nothing is claimed of the value: it differs from call to call. `chrono`
/// does not return from `now` on a machine whose clock is set before 1970.
#[verifier::external_body]
pub(crate) fn unix_now() -> (now: i64) {
    Utc::now().timestamp()
}

} // verus!
