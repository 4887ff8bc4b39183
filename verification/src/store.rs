//! The guard logic of the persistence layer: what loading yields from what
//! the store returned, with defaults on any failure and a guard against
//! corrupt data. The store itself (an on-disk single-row record) is an
//! external collaborator; the shell hands its raw findings in as plain
//! values, `None` standing for any failure to produce a record.

use vstd::prelude::*;
use crate::settings::Settings;

verus! {

/// What loading the settings record yields: the stored record when it exists
/// and its long-break cadence is positive, the defaults otherwise.
pub open spec fn load_settings_spec(stored: Option<Settings>) -> Settings {
    match stored {
        Some(s) => if s.long_break_every > 0 {
            s
        } else {
            Settings::default_spec()
        },
        None => Settings::default_spec(),
    }
}

/// Interprets what the settings store returned. A record whose long-break
/// cadence is zero counts as corrupt and falls back to the defaults, so the
/// result can always serve as a divisor.
pub fn load_settings(stored: Option<Settings>) -> (s: Settings)
    ensures
        s == load_settings_spec(stored),
        s.long_break_every > 0,
{
    match stored {
        Some(s) => {
            if s.long_break_every > 0 {
                s
            } else {
                Settings::default()
            }
        },
        None => Settings::default(),
    }
}

/// Interprets what the counter store returned: the stored count, or zero on
/// any failure.
pub fn load_completed_pomodoros(stored: Option<u32>) -> (n: u32)
    ensures
        n == match stored {
            Some(v) => v,
            None => 0u32,
        },
{
    match stored {
        Some(v) => v,
        None => 0,
    }
}

} // verus!
