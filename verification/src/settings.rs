//! User-facing settings: the auto-update interval and the persisted desktop
//! options.
//!
//! The interval is one of a few fixed choices or a custom number of seconds
//! typed as text; text that is not a decimal number falls back to 300 seconds.
//! Every apply also persists two per-user desktop options: fill style and no
//! tiling.

use crate::text::{dec_chars, dec_parse, parse_dec_u64, u64_to_dec_string};
use vstd::prelude::*;

verus! {

/// How often the auto-update loop refreshes.
#[derive(PartialEq, Eq, Structural, Clone, Copy, Debug)]
pub enum UpdateInterval {
    OneMinute,
    FiveMinutes,
    FifteenMinutes,
    ThirtyMinutes,
    OneHour,
    Custom(u64),
}

/// The length of one interval in seconds.
pub open spec fn interval_seconds(i: UpdateInterval) -> u64 {
    match i {
        UpdateInterval::OneMinute => 60u64,
        UpdateInterval::FiveMinutes => 300u64,
        UpdateInterval::FifteenMinutes => 900u64,
        UpdateInterval::ThirtyMinutes => 1800u64,
        UpdateInterval::OneHour => 3600u64,
        UpdateInterval::Custom(seconds) => seconds,
    }
}

impl UpdateInterval {
    /// The label shown for the interval: the fixed choices by name, a custom
    /// one as its seconds followed by a custom marker.
    pub open spec fn display_chars(self) -> Seq<char> {
        match self {
            UpdateInterval::OneMinute => "1 menit"@,
            UpdateInterval::FiveMinutes => "5 menit"@,
            UpdateInterval::FifteenMinutes => "15 menit"@,
            UpdateInterval::ThirtyMinutes => "30 menit"@,
            UpdateInterval::OneHour => "1 jam"@,
            UpdateInterval::Custom(seconds) => dec_chars(seconds as nat) + " detik (kustom)"@,
        }
    }

    pub fn as_seconds(&self) -> (r: u64)
        ensures
            r == interval_seconds(*self),
    {
        match self {
            UpdateInterval::OneMinute => 60,
            UpdateInterval::FiveMinutes => 5 * 60,
            UpdateInterval::FifteenMinutes => 15 * 60,
            UpdateInterval::ThirtyMinutes => 30 * 60,
            UpdateInterval::OneHour => 60 * 60,
            UpdateInterval::Custom(seconds) => *seconds,
        }
    }

    pub fn display_name(&self) -> (r: String)
        ensures
            r@ == self.display_chars(),
    {
        match self {
            UpdateInterval::OneMinute => String::from_str("1 menit"),
            UpdateInterval::FiveMinutes => String::from_str("5 menit"),
            UpdateInterval::FifteenMinutes => String::from_str("15 menit"),
            UpdateInterval::ThirtyMinutes => String::from_str("30 menit"),
            UpdateInterval::OneHour => String::from_str("1 jam"),
            UpdateInterval::Custom(seconds) => {
                let mut s = u64_to_dec_string(*seconds);
                s.append(" detik (kustom)");
                s
            },
        }
    }

    /// The fixed interval choices offered, in the order they are shown.
    pub fn all_intervals() -> (r: Vec<UpdateInterval>)
        ensures
            r@ == seq![
                UpdateInterval::OneMinute,
                UpdateInterval::FiveMinutes,
                UpdateInterval::FifteenMinutes,
                UpdateInterval::ThirtyMinutes,
                UpdateInterval::OneHour,
            ],
    {
        let r: Vec<UpdateInterval> = vec![
            UpdateInterval::OneMinute,
            UpdateInterval::FiveMinutes,
            UpdateInterval::FifteenMinutes,
            UpdateInterval::ThirtyMinutes,
            UpdateInterval::OneHour,
        ];
        proof {
            assert(r@ =~= seq![
                UpdateInterval::OneMinute,
                UpdateInterval::FiveMinutes,
                UpdateInterval::FifteenMinutes,
                UpdateInterval::ThirtyMinutes,
                UpdateInterval::OneHour,
            ]);
        }
        r
    }
}

/// The seconds a custom-interval text stands for: its decimal value when it is
/// one that fits, and the 300-second fallback otherwise.
pub open spec fn custom_seconds_of_text(s: Seq<char>) -> u64 {
    match dec_parse(s) {
        Some(v) => if v <= u64::MAX as nat {
            v as u64
        } else {
            300
        },
        None => 300,
    }
}

/// Reads the custom-interval text typed by the user.
pub fn parse_custom_interval(s: &str) -> (r: u64)
    ensures
        r == custom_seconds_of_text(s@),
{
    match parse_dec_u64(s) {
        Some(v) => v,
        None => 300,
    }
}

/// The seconds one restart of the auto-update loop runs with: a custom choice
/// is re-read from the text field at that moment, a fixed choice stands as it
/// is.
pub fn effective_seconds(interval: &UpdateInterval, custom_text: &str) -> (r: u64)
    ensures
        r == (if interval matches UpdateInterval::Custom(_) {
            custom_seconds_of_text(custom_text@)
        } else {
            interval_seconds(*interval)
        }),
{
    match interval {
        UpdateInterval::Custom(_) => parse_custom_interval(custom_text),
        _ => interval.as_seconds(),
    }
}

/// The persisted per-user option that keeps the fill style across desktop
/// refreshes.
pub fn wallpaper_style_entry() -> (r: (String, String))
    ensures
        r.0@ == "WallpaperStyle"@,
        r.1@ == "2"@,
{
    (String::from_str("WallpaperStyle"), String::from_str("2"))
}

/// The persisted per-user option that keeps tiling switched off.
pub fn tile_wallpaper_entry() -> (r: (String, String))
    ensures
        r.0@ == "TileWallpaper"@,
        r.1@ == "0"@,
{
    (String::from_str("TileWallpaper"), String::from_str("0"))
}

} // verus!
