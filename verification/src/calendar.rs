//! The proleptic Gregorian calendar in UTC, as far as years go.
//!
//! Days are numbered as `chrono` numbers them: January 1st of year 1 is day 1,
//! and years before year 1 count down through year 0.

use crate::clock::utc_year;
use vstd::arithmetic::div_mod::{
    lemma_fundamental_div_mod, lemma_fundamental_div_mod_converse, lemma_mod_bound,
};
use vstd::prelude::*;

verus! {

/// The first calendar year that has a date-time.
pub const MIN_YEAR: i32 = -262143;

/// The last calendar year that has a date-time.
pub const MAX_YEAR: i32 = 262142;

/// Seconds in a day; UTC days have no leap seconds here.
pub const SECONDS_PER_DAY: i64 = 86400;

/// The number of the day on which the Unix epoch falls, January 1st, 1970.
pub const EPOCH_DAY: i64 = 719163;

/// How many of the years from 1 to `year` are leap years: every fourth year,
/// but of the centuries only every fourth.
pub open spec fn leap_years_through(year: int) -> int {
    year / 4 - year / 100 + year / 400
}

/// The number of the day on which `year` begins.
pub open spec fn first_day(year: int) -> int {
    365 * (year - 1) + leap_years_through(year - 1) + 1
}

/// The number of the day on which the instant `secs` seconds after the epoch
/// falls.
pub open spec fn day_of(secs: int) -> int {
    secs / (SECONDS_PER_DAY as int) + EPOCH_DAY
}

/// Whether the instant `secs` seconds after the epoch falls in `year`.
pub open spec fn in_year(secs: int, year: int) -> bool {
    first_day(year) <= day_of(secs) < first_day(year + 1)
}

/// Whether the instant `secs` seconds after the epoch has a date-time: it
/// falls in one of the years from `MIN_YEAR` to `MAX_YEAR`.
pub open spec fn representable(secs: int) -> bool {
    first_day(MIN_YEAR as int) <= day_of(secs) < first_day(MAX_YEAR + 1)
}

/// The calendar year of the instant `secs` seconds after the epoch, where it
/// has a date-time.
pub open spec fn utc_year_of(secs: int) -> Option<int> {
    if representable(secs) {
        Some(choose|year: int| in_year(secs, year))
    } else {
        None
    }
}

/// Counting one year further adds one to a count of every `period`-th year
/// exactly when that year is a multiple of `period`.
proof fn lemma_count_step(year: int, period: int)
    requires
        period > 0,
    ensures
        0 <= year % period < period,
        year / period - (year - 1) / period == if year % period == 0 {
            1int
        } else {
            0int
        },
{
    let q = year / period;
    let r = year % period;
    lemma_fundamental_div_mod(year, period);
    lemma_mod_bound(year, period);
    assert(period * q == q * period) by (nonlinear_arith);
    if r == 0 {
        assert(year - 1 == (q - 1) * period + (period - 1)) by (nonlinear_arith)
            requires
                year == q * period,
        ;
        lemma_fundamental_div_mod_converse(year - 1, period, q - 1, period - 1);
    } else {
        lemma_fundamental_div_mod_converse(year - 1, period, q, r - 1);
    }
}

/// Whether `year` is a leap year: a multiple of four, but of the centuries
/// only the multiples of four hundred.
pub open spec fn is_leap_year(year: int) -> bool {
    year % 4 == 0 && (year % 100 != 0 || year % 400 == 0)
}

/// A leap year has 366 days, any other year 365.
pub proof fn lemma_year_length(year: int)
    ensures
        first_day(year + 1) - first_day(year) == if is_leap_year(year) {
            366int
        } else {
            365int
        },
{
    lemma_count_step(year, 4);
    lemma_count_step(year, 100);
    lemma_count_step(year, 400);
    assert(first_day(year + 1) - first_day(year) == 365 + (year / 4 - (year - 1) / 4) - (year
        / 100 - (year - 1) / 100) + (year / 400 - (year - 1) / 400));
    if year % 400 == 0 {
        lemma_fundamental_div_mod(year, 400);
        lemma_fundamental_div_mod_converse(year, 100, 4 * (year / 400), 0);
    }
    if year % 100 == 0 {
        lemma_fundamental_div_mod(year, 100);
        lemma_fundamental_div_mod_converse(year, 4, 25 * (year / 100), 0);
    }
}

/// Later years begin on later days.
pub proof fn lemma_first_day_increases(earlier: int, later: int)
    requires
        earlier < later,
    ensures
        first_day(earlier) < first_day(later),
    decreases later - earlier,
{
    lemma_year_length(later - 1);
    if earlier < later - 1 {
        lemma_first_day_increases(earlier, later - 1);
    }
}

/// An instant falls in one year only, so the year that it is found to fall in
/// is its calendar year.
pub proof fn lemma_year_is_unique(secs: int, year: int)
    requires
        in_year(secs, year),
    ensures
        forall|other: int| in_year(secs, other) ==> other == year,
        MIN_YEAR <= year <= MAX_YEAR <==> representable(secs),
        representable(secs) ==> utc_year_of(secs) == Some(year),
{
    assert forall|other: int| in_year(secs, other) implies other == year by {
        if other < year {
            if other + 1 < year {
                lemma_first_day_increases(other + 1, year);
            }
        } else if other > year {
            if year + 1 < other {
                lemma_first_day_increases(year + 1, other);
            }
        }
    }
    if year < MIN_YEAR {
        if year + 1 < MIN_YEAR {
            lemma_first_day_increases(year + 1, MIN_YEAR as int);
        }
    }
    if year > MAX_YEAR {
        if MAX_YEAR + 1 < year {
            lemma_first_day_increases(MAX_YEAR + 1, year);
        }
    }
    if MIN_YEAR < year {
        lemma_first_day_increases(MIN_YEAR as int, year);
    }
    if year < MAX_YEAR {
        lemma_first_day_increases(year + 1, MAX_YEAR + 1);
    }
}

/// An instant that falls between the first days of two years falls in one of
/// the years from the first to just before the second.
pub proof fn lemma_some_year_holds(secs: int, from: int, until: int)
    requires
        first_day(from) <= day_of(secs) < first_day(until),
    ensures
        exists|year: int| from <= year < until && in_year(secs, year),
    decreases until - from,
{
    if until <= from {
        if until < from {
            lemma_first_day_increases(until, from);
        }
    } else if day_of(secs) < first_day(from + 1) {
        assert(in_year(secs, from));
    } else {
        lemma_some_year_holds(secs, from + 1, until);
        let year = choose|year: int| from + 1 <= year < until && in_year(secs, year);
        assert(from <= year < until && in_year(secs, year));
    }
}

/// The instants whose year lies within inclusive bounds are those from the
/// first day of the lower bound up to the first day of the year after the
/// upper bound.
pub proof fn lemma_year_bounds_as_days(secs: int, min_year: int, max_year: int)
    requires
        representable(secs),
    ensures
        utc_year_of(secs) is Some,
        min_year <= utc_year_of(secs)->0 <= max_year <==> first_day(min_year) <= day_of(secs)
            < first_day(max_year + 1),
{
    lemma_some_year_holds(secs, MIN_YEAR as int, MAX_YEAR + 1);
    let year = choose|year: int| MIN_YEAR <= year < MAX_YEAR + 1 && in_year(secs, year);
    lemma_year_is_unique(secs, year);
    if min_year < year {
        lemma_first_day_increases(min_year, year);
    }
    if year < max_year {
        lemma_first_day_increases(year + 1, max_year + 1);
    }
    if year < min_year {
        if year + 1 < min_year {
            lemma_first_day_increases(year + 1, min_year);
        }
    }
    if max_year < year {
        if max_year + 1 < year {
            lemma_first_day_increases(max_year + 1, year);
        }
    }
}

/// The calendar year of the instant `secs` seconds after the epoch, or `None`
/// where the instant has no date-time.
pub fn year_at(secs: i64) -> (year: Option<i32>)
    ensures
        year is Some <==> representable(secs as int),
        year matches Some(y) ==> utc_year_of(secs as int) == Some(y as int) && MIN_YEAR <= y
            <= MAX_YEAR,
        year is None ==> utc_year_of(secs as int) is None,
{
    let year = utc_year(secs);
    proof {
        if let Some(y) = year {
            lemma_year_is_unique(secs as int, y as int);
        }
    }
    year
}

/// `n` divided by `d`, rounded down.
fn floor_div(n: i64, d: i64) -> (q: i64)
    requires
        0 < d,
        i64::MIN < n,
    ensures
        q == n as int / d as int,
{
    if n >= 0 {
        n / d
    } else {
        let q = (-n - 1) / d;
        assert((-n - 1) as int == q * d + ((-n - 1) as int % d as int)) by (nonlinear_arith)
            requires
                q == (-n - 1) as int / d as int,
                d > 0,
        ;
        assert(n as int / d as int == -q - 1) by (nonlinear_arith)
            requires
                (-n - 1) as int == q * d + ((-n - 1) as int % d as int),
                0 <= ((-n - 1) as int % d as int) < d,
                d > 0,
        ;
        -q - 1
    }
}

/// The first second of `year`, in seconds since the epoch.
pub fn first_second_of_year(year: i32) -> (secs: i64)
    ensures
        secs == (first_day(year as int) - EPOCH_DAY) * SECONDS_PER_DAY,
        in_year(secs as int, year as int),
{
    let before: i64 = year as i64 - 1;
    let leaps: i64 = floor_div(before, 4) - floor_div(before, 100) + floor_div(before, 400);
    let day: i64 = 365 * before + leaps + 1;
    proof {
        lemma_year_length(year as int);
    }
    (day - EPOCH_DAY) * SECONDS_PER_DAY
}

} // verus!
