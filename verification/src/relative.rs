//! Distance between an instant and the present, as a short phrase.

use crate::text::{decimal_digits, decimal_string};
use vstd::prelude::*;
use vstd::string::StringExecFns;

verus! {

/// A count, the unit's name (with a plural `s` for a count above one) and the
/// direction: `"3 days ago"`, `"1 hour later"`.
pub open spec fn unit_phrase(count: nat, unit: Seq<char>, past: bool) -> Seq<char> {
    decimal_digits(count) + " "@ + unit + (if count > 1 {
        "s"@
    } else {
        Seq::<char>::empty()
    }) + " "@ + (if past {
        "ago"@
    } else {
        "later"@
    })
}

/// How far `timestamp` lies from `now` (both in seconds since the epoch), in
/// the largest unit that applies.
///
/// The units cascade by whole division: sixty seconds to the minute, sixty
/// minutes to the hour, twenty-four hours to the day, thirty days to the
/// month and 365 days to the year. An instant before `now` is "ago", any
/// other "later".
pub open spec fn relative_time_text(timestamp: int, now: int) -> Seq<char> {
    let past = timestamp < now;
    let seconds = if past {
        now - timestamp
    } else {
        timestamp - now
    };
    let minutes = seconds / 60;
    let hours = minutes / 60;
    let days = hours / 24;
    let months = days / 30;
    let years = days / 365;
    if years > 0 {
        unit_phrase(years as nat, "year"@, past)
    } else if months > 0 {
        unit_phrase(months as nat, "month"@, past)
    } else if days > 0 {
        unit_phrase(days as nat, "day"@, past)
    } else if hours > 0 {
        unit_phrase(hours as nat, "hour"@, past)
    } else if minutes > 0 {
        unit_phrase(minutes as nat, "minute"@, past)
    } else {
        unit_phrase(seconds as nat, "second"@, past)
    }
}

fn phrase(count: u64, unit: &str, past: bool) -> (text: String)
    ensures
        text@ == unit_phrase(count as nat, unit@, past),
{
    let mut text = decimal_string(count);
    text.append(" ");
    text.append(unit);
    if count > 1 {
        text.append("s");
    }
    text.append(" ");
    if past {
        text.append("ago");
    } else {
        text.append("later");
    }
    assert(text@ =~= unit_phrase(count as nat, unit@, past));
    text
}

/// The phrase for the distance between `timestamp_seconds` and `now`.
pub fn relative_time(timestamp_seconds: i64, now: i64) -> (text: String)
    ensures
        text@ == relative_time_text(timestamp_seconds as int, now as int),
{
    let past = timestamp_seconds < now;
    let gap: i128 = if past {
        now as i128 - timestamp_seconds as i128
    } else {
        timestamp_seconds as i128 - now as i128
    };
    let seconds: u64 = gap as u64;
    let minutes: u64 = seconds / 60;
    let hours: u64 = minutes / 60;
    let days: u64 = hours / 24;
    let months: u64 = days / 30;
    let years: u64 = days / 365;
    if years > 0 {
        phrase(years, "year", past)
    } else if months > 0 {
        phrase(months, "month", past)
    } else if days > 0 {
        phrase(days, "day", past)
    } else if hours > 0 {
        phrase(hours, "hour", past)
    } else if minutes > 0 {
        phrase(minutes, "minute", past)
    } else {
        phrase(seconds, "second", past)
    }
}

} // verus!
