//! Configuration and result values shared by the parser, the monitor and the
//! overlay.

use vstd::prelude::*;

verus! {

/// Screen anchor of the overlay window.
#[derive(Debug, Clone, Copy, PartialEq, Eq, Structural)]
pub enum HudPosition {
    TopLeft,
    TopRight,
    BottomLeft,
    BottomRight,
    TopCenter,
    BottomCenter,
}

impl Default for HudPosition {
    /// The overlay sits at the top centre unless configured otherwise.
    fn default() -> (position: HudPosition)
        ensures
            position == HudPosition::TopCenter,
    {
        HudPosition::TopCenter
    }
}

/// Settings of the timestamp parser and of the overlay.
///
/// `min_year` and `max_year` are inclusive bounds on the decoded calendar year.
/// `display_duration_ms` is advisory and only handed on to the presentation
/// layer. `time_format` is a strftime-like pattern.
#[derive(Debug)]
pub struct TimestampConfig {
    pub min_year: i32,
    pub max_year: i32,
    pub display_duration_ms: u64,
    pub time_format: String,
    pub hud_position: HudPosition,
}

/// Mathematical value of a [`TimestampConfig`].
pub struct TimestampConfigView {
    pub min_year: int,
    pub max_year: int,
    pub display_duration_ms: nat,
    pub time_format: Seq<char>,
    pub hud_position: HudPosition,
}

impl View for TimestampConfig {
    type V = TimestampConfigView;

    open spec fn view(&self) -> TimestampConfigView {
        TimestampConfigView {
            min_year: self.min_year as int,
            max_year: self.max_year as int,
            display_duration_ms: self.display_duration_ms as nat,
            time_format: self.time_format@,
            hud_position: self.hud_position,
        }
    }
}

impl Clone for TimestampConfig {
    fn clone(&self) -> (copy: TimestampConfig)
        ensures
            copy@ == self@,
    {
        TimestampConfig {
            min_year: self.min_year,
            max_year: self.max_year,
            display_duration_ms: self.display_duration_ms,
            time_format: self.time_format.clone(),
            hud_position: self.hud_position,
        }
    }
}

impl TimestampConfigView {
    /// The year bounds describe a non-empty range.
    pub open spec fn well_formed(self) -> bool {
        self.min_year <= self.max_year
    }

    /// `year` lies within the configured inclusive bounds.
    pub open spec fn accepts_year(self, year: int) -> bool {
        self.min_year <= year <= self.max_year
    }
}

/// The settings used when nothing else is configured.
pub open spec fn default_config() -> TimestampConfigView {
    TimestampConfigView {
        min_year: 1990,
        max_year: 2050,
        display_duration_ms: 5000,
        time_format: "%Y-%m-%d %H:%M:%S"@,
        hud_position: HudPosition::TopCenter,
    }
}

impl Default for TimestampConfig {
    fn default() -> (config: TimestampConfig)
        ensures
            config@ == default_config(),
    {
        TimestampConfig {
            min_year: 1990,
            max_year: 2050,
            display_duration_ms: 5000,
            time_format: "%Y-%m-%d %H:%M:%S".to_owned(),
            hud_position: HudPosition::TopCenter,
        }
    }
}

/// A stored year where it is present and a year at all, else `fallback`.
pub open spec fn stored_year(stored: Option<i64>, fallback: int) -> int {
    match stored {
        Some(year) if i32::MIN <= year <= i32::MAX => year as int,
        _ => fallback,
    }
}

/// The configuration that stored settings stand for: each setting that is
/// absent, and each year that is no 32-bit number, takes its default.
pub open spec fn config_from_stored(
    min_year: Option<i64>,
    max_year: Option<i64>,
    display_duration_ms: Option<u64>,
    time_format: Option<Seq<char>>,
    hud_position: Option<HudPosition>,
) -> TimestampConfigView {
    TimestampConfigView {
        min_year: stored_year(min_year, default_config().min_year),
        max_year: stored_year(max_year, default_config().max_year),
        display_duration_ms: match display_duration_ms {
            Some(duration) => duration as nat,
            None => default_config().display_duration_ms,
        },
        time_format: match time_format {
            Some(pattern) => pattern,
            None => default_config().time_format,
        },
        hud_position: match hud_position {
            Some(position) => position,
            None => default_config().hud_position,
        },
    }
}

fn year_or(stored: Option<i64>, fallback: i32) -> (year: i32)
    ensures
        year == stored_year(stored, fallback as int),
{
    match stored {
        Some(year) => if year >= i32::MIN as i64 && year <= i32::MAX as i64 {
            year as i32
        } else {
            fallback
        },
        None => fallback,
    }
}

impl TimestampConfig {
    /// Builds the configuration from settings as they were found in a store,
    /// each of them possibly missing.
    pub fn from_stored(
        min_year: Option<i64>,
        max_year: Option<i64>,
        display_duration_ms: Option<u64>,
        time_format: Option<String>,
        hud_position: Option<HudPosition>,
    ) -> (config: TimestampConfig)
        ensures
            config@ == config_from_stored(
                min_year,
                max_year,
                display_duration_ms,
                time_format.deep_view(),
                hud_position,
            ),
    {
        TimestampConfig {
            min_year: year_or(min_year, 1990),
            max_year: year_or(max_year, 2050),
            display_duration_ms: match display_duration_ms {
                Some(duration) => duration,
                None => 5000,
            },
            time_format: match time_format {
                Some(pattern) => pattern,
                None => "%Y-%m-%d %H:%M:%S".to_owned(),
            },
            hud_position: match hud_position {
                Some(position) => position,
                None => HudPosition::TopCenter,
            },
        }
    }

    /// Whether the year bounds describe a non-empty range.
    pub fn is_well_formed(&self) -> (ok: bool)
        ensures
            ok == self@.well_formed(),
    {
        self.min_year <= self.max_year
    }
}

/// What a detection hands to the presentation layer.
#[derive(Debug)]
pub struct HudPayload {
    pub formatted_time: String,
    pub raw_value: String,
    pub timestamp_seconds: i64,
    pub is_milliseconds: bool,
    pub relative_time: String,
}

/// Mathematical value of a [`HudPayload`].
pub struct HudPayloadView {
    pub formatted_time: Seq<char>,
    pub raw_value: Seq<char>,
    pub timestamp_seconds: int,
    pub is_milliseconds: bool,
    pub relative_time: Seq<char>,
}

impl View for HudPayload {
    type V = HudPayloadView;

    open spec fn view(&self) -> HudPayloadView {
        HudPayloadView {
            formatted_time: self.formatted_time@,
            raw_value: self.raw_value@,
            timestamp_seconds: self.timestamp_seconds as int,
            is_milliseconds: self.is_milliseconds,
            relative_time: self.relative_time@,
        }
    }
}

impl Clone for HudPayload {
    fn clone(&self) -> (copy: HudPayload)
        ensures
            copy@ == self@,
    {
        HudPayload {
            formatted_time: self.formatted_time.clone(),
            raw_value: self.raw_value.clone(),
            timestamp_seconds: self.timestamp_seconds,
            is_milliseconds: self.is_milliseconds,
            relative_time: self.relative_time.clone(),
        }
    }
}

impl DeepView for HudPayload {
    type V = HudPayloadView;

    open spec fn deep_view(&self) -> HudPayloadView {
        self@
    }
}

} // verus!
