//! Decoding of copied text into a timestamp.

use crate::calendar::{utc_year_of, year_at};
use crate::clock::{unix_now, utc_text, utc_text_of};
use crate::config::{HudPayload, HudPayloadView, HudPosition, TimestampConfig, TimestampConfigView};
use crate::relative::{relative_time, relative_time_text};
use crate::text::{
    all_digits, all_whitespace, chars_of, decimal_i64, decimal_value, is_digit, is_whitespace,
    lemma_decimal_value_bound, lemma_pow10_monotonic, lemma_trimmed_digits,
    lemma_trimmed_ignores_surrounding_whitespace, lemma_trimmed_keeps, parse_digits, pow10,
    trim_bounds, trimmed,
};
use vstd::prelude::*;
use vstd::slice::slice_subrange;
use vstd::string::StrSliceExecFns;

verus! {

/// The longest numeral that is read as whole seconds; a longer one counts
/// milliseconds.
pub const MAX_SECONDS_DIGITS: usize = 10;

/// The seconds since the epoch that the numeral `digits` stands for, and
/// whether it counted milliseconds.
///
/// The numeral's length decides, not its size: up to ten digits are seconds,
/// more are milliseconds, of which the whole seconds are kept.
pub open spec fn classify(digits: Seq<char>) -> Option<(i64, bool)> {
    match decimal_i64(digits) {
        None => None,
        Some(value) => if digits.len() <= MAX_SECONDS_DIGITS {
            Some((value, false))
        } else {
            Some(((value / 1000) as i64, true))
        },
    }
}

/// What `input` decodes to under `config`, the relative time left empty: the
/// part of a result that no clock has a say in.
///
/// The input is trimmed and must then be a non-empty run of digits that fits
/// a signed 64-bit number. The instant it stands for must exist in the UTC
/// calendar, its year must lie within the configured bounds, and the
/// configured pattern must format it.
pub open spec fn decoded(config: TimestampConfigView, input: Seq<char>) -> Option<HudPayloadView> {
    let raw = trimmed(input);
    match classify(raw) {
        None => None,
        Some((seconds, is_milliseconds)) => match utc_year_of(seconds as int) {
            None => None,
            Some(year) => if !config.accepts_year(year) {
                None
            } else {
                match utc_text_of(seconds, config.time_format) {
                    None => None,
                    Some(formatted) => Some(
                        HudPayloadView {
                            formatted_time: formatted,
                            raw_value: raw,
                            timestamp_seconds: seconds as int,
                            is_milliseconds,
                            relative_time: Seq::<char>::empty(),
                        },
                    ),
                }
            },
        },
    }
}

/// What parsing `input` under `config` yields when the clock reads `now`:
/// what the input decodes to, with the distance between its instant and
/// `now` as the relative time.
pub open spec fn parse_result(config: TimestampConfigView, input: Seq<char>, now: i64) -> Option<
    HudPayloadView,
> {
    match decoded(config, input) {
        None => None,
        Some(payload) => Some(
            HudPayloadView {
                relative_time: relative_time_text(payload.timestamp_seconds, now as int),
                ..payload
            },
        ),
    }
}

/// Validates and decodes timestamp strings under a configuration.
pub struct TimeParser {
    config: TimestampConfig,
}

impl View for TimeParser {
    type V = TimestampConfigView;

    /// A parser is its configuration.
    closed spec fn view(&self) -> TimestampConfigView {
        self.config@
    }
}

impl TimeParser {
    pub fn new(config: TimestampConfig) -> (parser: TimeParser)
        ensures
            parser@ == config@,
    {
        TimeParser { config }
    }

    /// Replaces the configuration as a whole.
    pub fn update_config(&mut self, config: TimestampConfig)
        ensures
            final(self)@ == config@,
    {
        self.config = config;
    }

    /// The configured anchor of the overlay.
    pub fn get_hud_position(&self) -> (position: HudPosition)
        ensures
            position == self@.hud_position,
    {
        self.config.hud_position
    }

    /// The phrase for the distance between `timestamp_seconds` and the
    /// present, read off the wall clock.
    pub fn calculate_relative_time(timestamp_seconds: i64) -> (text: String)
        ensures
            exists|now: i64| text@ == #[trigger] relative_time_text(timestamp_seconds as int, now as int),
    {
        let now = unix_now();
        relative_time(timestamp_seconds, now)
    }

    /// Decodes `input`, leaving the relative time empty.
    fn decode(&self, input: &str) -> (payload: Option<HudPayload>)
        ensures
            payload.deep_view() == decoded(self@, input@),
    {
        let chars = chars_of(input);
        let (start, end) = trim_bounds(&chars);
        let value = match parse_digits(slice_subrange(chars.as_slice(), start, end)) {
            Some(value) => value,
            None => {
                return None;
            },
        };
        let is_milliseconds = end - start > MAX_SECONDS_DIGITS;
        let timestamp_seconds = if is_milliseconds {
            value / 1000
        } else {
            value
        };
        let year = match year_at(timestamp_seconds) {
            Some(year) => year,
            None => {
                return None;
            },
        };
        if year < self.config.min_year || year > self.config.max_year {
            return None;
        }
        let formatted_time = match utc_text(timestamp_seconds, self.config.time_format.as_str()) {
            Some(text) => text,
            None => {
                return None;
            },
        };
        let raw_value = input.substring_char(start, end).to_owned();
        Some(
            HudPayload {
                formatted_time,
                raw_value,
                timestamp_seconds,
                is_milliseconds,
                relative_time: String::new(),
            },
        )
    }

    /// Decodes `input` as it reads when the clock shows `now`.
    pub fn parse_at(&self, input: &str, now: i64) -> (payload: Option<HudPayload>)
        ensures
            payload.deep_view() == parse_result(self@, input@, now),
    {
        match self.decode(input) {
            Some(mut payload) => {
                payload.relative_time = relative_time(payload.timestamp_seconds, now);
                Some(payload)
            },
            None => None,
        }
    }

    /// Decodes `input`, with the relative time taken from the wall clock. The
    /// clock is read only once the input has proved to be a timestamp.
    pub fn parse(&self, input: &str) -> (payload: Option<HudPayload>)
        ensures
            payload is Some <==> decoded(self@, input@) is Some,
            exists|now: i64| payload.deep_view() == #[trigger] parse_result(self@, input@, now),
    {
        match self.decode(input) {
            Some(mut payload) => {
                payload.relative_time = Self::calculate_relative_time(payload.timestamp_seconds);
                proof {
                    let now = choose|now: i64|
                        payload.relative_time@ == #[trigger] relative_time_text(
                            payload.timestamp_seconds as int,
                            now as int,
                        );
                    assert(Some(payload).deep_view() == parse_result(self@, input@, now));
                }
                Some(payload)
            },
            None => {
                assert(parse_result(self@, input@, 0) is None);
                None
            },
        }
    }
}

/// A run of at most ten digits is read as whole seconds: where it parses,
/// the timestamp is the number that the digits denote, and the raw value is
/// the run itself. It parses exactly where the UTC calendar has the instant,
/// its year is within bounds and the pattern formats it.
pub proof fn lemma_short_numerals_are_seconds(
    config: TimestampConfigView,
    digits: Seq<char>,
    now: i64,
)
    requires
        all_digits(digits),
        0 < digits.len() <= MAX_SECONDS_DIGITS,
    ensures
        decimal_value(digits) <= i64::MAX,
        classify(trimmed(digits)) == Some((decimal_value(digits) as i64, false)),
        parse_result(config, digits, now) is Some <==> {
            &&& utc_year_of(decimal_value(digits) as int) matches Some(year)
            &&& config.accepts_year(year)
            &&& utc_text_of(decimal_value(digits) as i64, config.time_format) is Some
        },
        parse_result(config, digits, now) matches Some(payload) ==> {
            &&& payload.timestamp_seconds == decimal_value(digits)
            &&& !payload.is_milliseconds
            &&& payload.raw_value == digits
        },
{
    lemma_trimmed_digits(digits);
    lemma_decimal_value_bound(digits);
    lemma_pow10_monotonic(digits.len(), 10);
    assert(pow10(10) == 10_000_000_000) by {
        reveal_with_fuel(pow10, 11);
    }
}

/// A run of more than ten digits counts milliseconds: where it parses, the
/// timestamp is the number that the digits denote, divided by a thousand and
/// truncated. A number above `i64::MAX` does not parse.
pub proof fn lemma_long_numerals_are_milliseconds(
    config: TimestampConfigView,
    digits: Seq<char>,
    now: i64,
)
    requires
        all_digits(digits),
        digits.len() > MAX_SECONDS_DIGITS,
    ensures
        decimal_value(digits) > i64::MAX ==> parse_result(config, digits, now) is None,
        decimal_value(digits) <= i64::MAX ==> classify(trimmed(digits)) == Some(
            ((decimal_value(digits) / 1000) as i64, true),
        ),
        parse_result(config, digits, now) matches Some(payload) ==> {
            &&& payload.timestamp_seconds == decimal_value(digits) / 1000
            &&& payload.is_milliseconds
            &&& payload.raw_value == digits
        },
{
    lemma_trimmed_digits(digits);
}

/// Nothing is returned for the empty input, for an input that holds a
/// character which is neither a digit nor whitespace, for one that, trimmed,
/// holds anything but digits, and for an instant whose UTC year lies outside
/// the configured bounds.
pub proof fn lemma_rejected_inputs(config: TimestampConfigView, input: Seq<char>, now: i64)
    ensures
        input.len() == 0 ==> parse_result(config, input, now) is None,
        (exists|i: int| 0 <= i < input.len() && !is_digit(input[i]) && !is_whitespace(input[i]))
            ==> parse_result(config, input, now) is None,
        !all_digits(trimmed(input)) ==> parse_result(config, input, now) is None,
        (classify(trimmed(input)) matches Some((seconds, _)) && (utc_year_of(seconds as int)
            matches Some(year) ==> !config.accepts_year(year))) ==> parse_result(
            config,
            input,
            now,
        ) is None,
{
    if exists|i: int| 0 <= i < input.len() && !is_digit(input[i]) && !is_whitespace(input[i]) {
        let i = choose|i: int|
            0 <= i < input.len() && !is_digit(input[i]) && !is_whitespace(input[i]);
        lemma_trimmed_keeps(input, input[i]);
    }
}

/// Whitespace before and after the input does not change the result.
pub proof fn lemma_parse_ignores_surrounding_whitespace(
    config: TimestampConfigView,
    lead: Seq<char>,
    core: Seq<char>,
    trail: Seq<char>,
    now: i64,
)
    requires
        all_whitespace(lead),
        all_whitespace(trail),
    ensures
        parse_result(config, lead + core + trail, now) == parse_result(config, core, now),
{
    lemma_trimmed_ignores_surrounding_whitespace(lead, core, trail);
}

/// Parsing the same input under the same configuration at two moments gives
/// a result both times or neither time, and the two results differ at most in
/// the relative time.
pub proof fn lemma_parse_varies_only_with_the_clock(
    config: TimestampConfigView,
    input: Seq<char>,
    earlier: i64,
    later: i64,
)
    ensures
        parse_result(config, input, earlier) is Some <==> parse_result(config, input, later) is Some,
        parse_result(config, input, earlier) matches Some(first) ==> parse_result(
            config,
            input,
            later,
        ) == Some(HudPayloadView { relative_time: relative_time_text(first.timestamp_seconds, later as int), ..first }),
        earlier == later ==> parse_result(config, input, earlier) == parse_result(
            config,
            input,
            later,
        ),
{
}

/// No input parses under year bounds that describe an empty range.
pub proof fn lemma_empty_year_range_rejects_all(
    config: TimestampConfigView,
    input: Seq<char>,
    now: i64,
)
    requires
        !config.well_formed(),
    ensures
        parse_result(config, input, now) is None,
{
}

} // verus!
