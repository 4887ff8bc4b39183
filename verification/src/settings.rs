//! The settings model: the four interval parameters, their defaults, and the
//! free-form text draft that the settings screen edits, with its validated
//! conversion back to `Settings`.

use vstd::prelude::*;
use vstd::string::*;
use crate::numtext::dec_digits;
use crate::numtext::parse_u32;
use crate::numtext::parse_u32_spec;
use crate::numtext::u32_to_decimal;

verus! {

/// Default work period length, in seconds.
pub const WORK_LENGTH: u32 = 1500;

/// Default short break length, in seconds.
pub const BREAK_LENGTH: u32 = 300;

/// Default long break length, in seconds.
pub const LONG_BREAK_LENGTH: u32 = 900;

/// Which view is active.
#[derive(Debug, Clone, Copy, PartialEq, Eq, Structural)]
pub enum Screen {
    Timer,
    Settings,
}

/// The validated interval parameters, all in whole seconds except the
/// long-break cadence, which counts completed work periods.
#[derive(Debug, Clone, Copy, PartialEq, Eq, Structural)]
pub struct Settings {
    pub work_seconds: u32,
    pub short_break_seconds: u32,
    pub long_break_seconds: u32,
    pub long_break_every: u32,
}

impl Settings {
    pub const DEFAULT_LONG_BREAK_EVERY: u32 = 4;

    /// All four parameters are positive.
    pub open spec fn valid(self) -> bool {
        self.work_seconds > 0 && self.short_break_seconds > 0 && self.long_break_seconds > 0
            && self.long_break_every > 0
    }

    /// The built-in defaults: 25 minutes of work, 5 of short break, 15 of
    /// long break, a long break every fourth work period.
    pub open spec fn default_spec() -> Settings {
        Settings {
            work_seconds: WORK_LENGTH,
            short_break_seconds: BREAK_LENGTH,
            long_break_seconds: LONG_BREAK_LENGTH,
            long_break_every: 4,
        }
    }
}

impl Default for Settings {
    fn default() -> (s: Settings)
        ensures
            s == Settings::default_spec(),
            s.valid(),
    {
        Settings {
            work_seconds: WORK_LENGTH,
            short_break_seconds: BREAK_LENGTH,
            long_break_seconds: LONG_BREAK_LENGTH,
            long_break_every: Settings::DEFAULT_LONG_BREAK_EVERY,
        }
    }
}

/// The unvalidated text the settings screen edits: minutes for the three
/// interval lengths, a count for the long-break cadence.
#[derive(Debug, Clone)]
pub struct SettingsDraft {
    pub work_minutes: String,
    pub short_break_minutes: String,
    pub long_break_minutes: String,
    pub long_break_every: String,
}

/// The mathematical view of a draft: its four texts as character sequences.
#[verifier::ext_equal]
pub struct DraftModel {
    pub work_minutes: Seq<char>,
    pub short_break_minutes: Seq<char>,
    pub long_break_minutes: Seq<char>,
    pub long_break_every: Seq<char>,
}

impl View for SettingsDraft {
    type V = DraftModel;

    open spec fn view(&self) -> DraftModel {
        DraftModel {
            work_minutes: self.work_minutes@,
            short_break_minutes: self.short_break_minutes@,
            long_break_minutes: self.long_break_minutes@,
            long_break_every: self.long_break_every@,
        }
    }
}

/// The draft text that mirrors `s`: whole minutes (seconds divided by 60,
/// floored) for the three interval lengths, and the long-break count as is.
pub open spec fn draft_of(s: Settings) -> DraftModel {
    DraftModel {
        work_minutes: dec_digits((s.work_seconds / 60) as nat),
        short_break_minutes: dec_digits((s.short_break_seconds / 60) as nat),
        long_break_minutes: dec_digits((s.long_break_seconds / 60) as nat),
        long_break_every: dec_digits(s.long_break_every as nat),
    }
}

/// Multiplication by 60 that saturates at `u32::MAX` instead of wrapping.
pub open spec fn sat_mul_60(m: u32) -> u32 {
    if m * 60 > u32::MAX {
        u32::MAX
    } else {
        (m * 60) as u32
    }
}

/// What validating a draft yields: `Some` exactly when all four texts parse
/// as integers and none of them is zero; the three minute fields are scaled
/// to seconds with saturation.
pub open spec fn parse_draft_spec(d: DraftModel) -> Option<Settings> {
    match (
        parse_u32_spec(d.work_minutes),
        parse_u32_spec(d.short_break_minutes),
        parse_u32_spec(d.long_break_minutes),
        parse_u32_spec(d.long_break_every),
    ) {
        (Some(w), Some(sb), Some(lb), Some(e)) => if w == 0 || sb == 0 || lb == 0 || e == 0 {
            None
        } else {
            Some(
                Settings {
                    work_seconds: sat_mul_60(w),
                    short_break_seconds: sat_mul_60(sb),
                    long_break_seconds: sat_mul_60(lb),
                    long_break_every: e,
                },
            )
        },
        _ => None,
    }
}

fn mul60_saturating(m: u32) -> (r: u32)
    ensures
        r == sat_mul_60(m),
{
    if m > u32::MAX / 60 {
        u32::MAX
    } else {
        m * 60
    }
}

impl SettingsDraft {
    /// Seeds the draft from the current settings.
    pub fn from_settings(settings: Settings) -> (d: Self)
        ensures
            d@ == draft_of(settings),
    {
        let d = SettingsDraft {
            work_minutes: u32_to_decimal(settings.work_seconds / 60),
            short_break_minutes: u32_to_decimal(settings.short_break_seconds / 60),
            long_break_minutes: u32_to_decimal(settings.long_break_seconds / 60),
            long_break_every: u32_to_decimal(settings.long_break_every),
        };
        proof {
            assert(d@ =~= draft_of(settings));
        }
        d
    }

    /// Validates the draft; the result is positive in every field, and the
    /// draft itself is never changed.
    pub fn parse(&self) -> (r: Option<Settings>)
        ensures
            r == parse_draft_spec(self@),
            match r {
                Some(s) => s.valid(),
                None => true,
            },
    {
        let w = match parse_u32(self.work_minutes.as_str()) {
            Some(v) => v,
            None => {
                return None;
            },
        };
        let sb = match parse_u32(self.short_break_minutes.as_str()) {
            Some(v) => v,
            None => {
                return None;
            },
        };
        let lb = match parse_u32(self.long_break_minutes.as_str()) {
            Some(v) => v,
            None => {
                return None;
            },
        };
        let e = match parse_u32(self.long_break_every.as_str()) {
            Some(v) => v,
            None => {
                return None;
            },
        };
        if w == 0 || sb == 0 || lb == 0 || e == 0 {
            return None;
        }
        Some(
            Settings {
                work_seconds: mul60_saturating(w),
                short_break_seconds: mul60_saturating(sb),
                long_break_seconds: mul60_saturating(lb),
                long_break_every: e,
            },
        )
    }
}

} // verus!
