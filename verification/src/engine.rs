//! The timer engine: all timer, period and settings state, and the event
//! handler that advances it. The handler is a pure transition on the state;
//! the side effects it wants (audio, persistence) come back to the caller as
//! a list of commands, consumed in order by the surrounding shell.

use vstd::prelude::*;
use vstd::string::*;
use crate::settings::DraftModel;
use crate::settings::Screen;
use crate::settings::Settings;
use crate::settings::SettingsDraft;
use crate::settings::draft_of;
use crate::settings::parse_draft_spec;

verus! {

/// A side effect the engine asks its collaborators to perform.
#[derive(Debug, Clone, Copy, PartialEq, Eq, Structural)]
pub enum Command {
    /// Play the alarm sequence on the audio worker.
    Alarm,
    /// Stop any looping playback on the audio worker.
    Stop,
    /// Persist the lifetime pomodoro counter.
    SaveCompletedPomodoros(u32),
    /// Persist the newly adopted settings.
    SaveSettings(Settings),
}

/// An event fed into the engine. Times are milliseconds on the shell's
/// monotonic clock.
#[derive(Debug, Clone)]
pub enum Message {
    Tick(u64),
    StartStop(u64),
    Reset,
    ResetPomoCounter,
    OpenSettings,
    CloseSettings,
    SettingsWorkMinutesChanged(String),
    SettingsShortBreakMinutesChanged(String),
    SettingsLongBreakMinutesChanged(String),
    SettingsLongBreakEveryChanged(String),
    SaveSettings,
}

/// The mathematical view of a `Message`: text payloads as character
/// sequences.
pub enum MessageModel {
    Tick(u64),
    StartStop(u64),
    Reset,
    ResetPomoCounter,
    OpenSettings,
    CloseSettings,
    SettingsWorkMinutesChanged(Seq<char>),
    SettingsShortBreakMinutesChanged(Seq<char>),
    SettingsLongBreakMinutesChanged(Seq<char>),
    SettingsLongBreakEveryChanged(Seq<char>),
    SaveSettings,
}

impl View for Message {
    type V = MessageModel;

    open spec fn view(&self) -> MessageModel {
        match self {
            Message::Tick(now) => MessageModel::Tick(*now),
            Message::StartStop(now) => MessageModel::StartStop(*now),
            Message::Reset => MessageModel::Reset,
            Message::ResetPomoCounter => MessageModel::ResetPomoCounter,
            Message::OpenSettings => MessageModel::OpenSettings,
            Message::CloseSettings => MessageModel::CloseSettings,
            Message::SettingsWorkMinutesChanged(v) => MessageModel::SettingsWorkMinutesChanged(v@),
            Message::SettingsShortBreakMinutesChanged(v) => MessageModel::SettingsShortBreakMinutesChanged(v@),
            Message::SettingsLongBreakMinutesChanged(v) => MessageModel::SettingsLongBreakMinutesChanged(v@),
            Message::SettingsLongBreakEveryChanged(v) => MessageModel::SettingsLongBreakEveryChanged(v@),
            Message::SaveSettings => MessageModel::SaveSettings,
        }
    }
}

/// The live timer state.
pub struct PomodoroTimer {
    /// Seconds left in the current period.
    pub time_left: u32,
    /// The absolute deadline in milliseconds, present while running; after a
    /// pause it may linger but is recomputed on the next start.
    pub end_time: Option<u64>,
    /// Work periods completed since the last reset.
    pub work_periods: u32,
    /// The persisted lifetime counter.
    pub completed_pomodoros: u32,
    pub is_running: bool,
    /// Distinguishes "never started" from "paused".
    pub started: bool,
    /// True during a work period, false during a break.
    pub is_work_period: bool,
    pub screen: Screen,
    pub settings: Settings,
    pub settings_draft: SettingsDraft,
    pub settings_error: Option<String>,
}

/// The mathematical view of the engine state.
#[verifier::ext_equal]
pub struct TimerModel {
    pub time_left: u32,
    pub end_time: Option<u64>,
    pub work_periods: u32,
    pub completed_pomodoros: u32,
    pub is_running: bool,
    pub started: bool,
    pub is_work_period: bool,
    pub screen: Screen,
    pub settings: Settings,
    pub settings_draft: DraftModel,
    pub settings_error: Option<Seq<char>>,
}

impl View for PomodoroTimer {
    type V = TimerModel;

    open spec fn view(&self) -> TimerModel {
        TimerModel {
            time_left: self.time_left,
            end_time: self.end_time,
            work_periods: self.work_periods,
            completed_pomodoros: self.completed_pomodoros,
            is_running: self.is_running,
            started: self.started,
            is_work_period: self.is_work_period,
            screen: self.screen,
            settings: self.settings,
            settings_draft: self.settings_draft@,
            settings_error: match self.settings_error {
                Some(ref e) => Some(e@),
                None => None,
            },
        }
    }
}

impl TimerModel {
    /// The engine can always take a step: the long-break cadence is positive
    /// (it is a divisor), and a running timer has a deadline.
    pub open spec fn wf(self) -> bool {
        self.settings.long_break_every > 0 && (self.is_running ==> self.end_time.is_some())
    }
}

/// `x + 1`, saturating at `u32::MAX`.
pub open spec fn inc_sat(x: u32) -> u32 {
    if x == u32::MAX {
        u32::MAX
    } else {
        (x + 1) as u32
    }
}

/// Whole seconds between `now` and the deadline `end`, floored, zero once
/// the deadline has passed, clamped into `u32`.
pub open spec fn remaining_secs(end: u64, now: u64) -> u32 {
    let r = if now >= end {
        0int
    } else {
        (end - now) / 1000
    };
    if r > u32::MAX {
        u32::MAX
    } else {
        r as u32
    }
}

/// The deadline `time_left` seconds after `now`, saturating at `u64::MAX`.
pub open spec fn end_at(now: u64, time_left: u32) -> u64 {
    if now + time_left * 1000 > u64::MAX {
        u64::MAX
    } else {
        (now + time_left * 1000) as u64
    }
}

/// The length of the period that begins once a period has completed, given
/// the new period kind and the new count of completed work periods: a work
/// period is always `work_seconds`; a break is the long one exactly when the
/// count is a multiple of `long_break_every`.
pub open spec fn next_period_seconds(s: Settings, is_work_period: bool, work_periods: u32) -> u32 {
    if is_work_period {
        s.work_seconds
    } else if work_periods % s.long_break_every == 0 {
        s.long_break_seconds
    } else {
        s.short_break_seconds
    }
}

/// A period has run out: stop the clock, account a finished work period (and
/// its persisted counter), flip the period kind, and load the next period's
/// length.
pub open spec fn finish_period(s: TimerModel) -> TimerModel {
    let wp = if s.is_work_period {
        inc_sat(s.work_periods)
    } else {
        s.work_periods
    };
    let completed = if s.is_work_period {
        inc_sat(s.completed_pomodoros)
    } else {
        s.completed_pomodoros
    };
    let is_work = !s.is_work_period;
    TimerModel {
        time_left: next_period_seconds(s.settings, is_work, wp),
        end_time: None,
        work_periods: wp,
        completed_pomodoros: completed,
        is_running: false,
        started: false,
        is_work_period: is_work,
        ..s
    }
}

/// The commands a period completion emits: the new counter value is
/// persisted when a work period ended, and the alarm always sounds.
pub open spec fn finish_commands(s: TimerModel) -> Seq<Command> {
    if s.is_work_period {
        seq![Command::SaveCompletedPomodoros(inc_sat(s.completed_pomodoros)), Command::Alarm]
    } else {
        seq![Command::Alarm]
    }
}

/// The state after a tick has recomputed the seconds left (only a running
/// timer with time on the clock recomputes).
pub open spec fn tick_measured(s: TimerModel, now: u64) -> TimerModel {
    if s.is_running && s.time_left > 0 {
        TimerModel { time_left: remaining_secs(s.end_time.unwrap(), now), ..s }
    } else {
        s
    }
}

/// The engine's transition function: the state after handling `m` in state
/// `s`.
pub open spec fn step_state(s: TimerModel, m: MessageModel) -> TimerModel {
    match m {
        MessageModel::Tick(now) => {
            let s1 = tick_measured(s, now);
            if s1.time_left == 0 {
                finish_period(s1)
            } else {
                s1
            }
        },
        MessageModel::StartStop(now) => {
            if !s.is_running {
                TimerModel {
                    is_running: true,
                    started: true,
                    end_time: Some(end_at(now, s.time_left)),
                    ..s
                }
            } else {
                TimerModel { is_running: false, ..s }
            }
        },
        MessageModel::Reset => TimerModel {
            is_running: false,
            is_work_period: true,
            time_left: s.settings.work_seconds,
            started: false,
            end_time: None,
            work_periods: 0,
            ..s
        },
        MessageModel::ResetPomoCounter => TimerModel { completed_pomodoros: 0, ..s },
        MessageModel::OpenSettings => TimerModel {
            is_running: false,
            end_time: None,
            settings_error: None,
            settings_draft: draft_of(s.settings),
            screen: Screen::Settings,
            ..s
        },
        MessageModel::CloseSettings => TimerModel {
            settings_error: None,
            screen: Screen::Timer,
            ..s
        },
        MessageModel::SettingsWorkMinutesChanged(v) => TimerModel {
            settings_draft: DraftModel { work_minutes: v, ..s.settings_draft },
            ..s
        },
        MessageModel::SettingsShortBreakMinutesChanged(v) => TimerModel {
            settings_draft: DraftModel { short_break_minutes: v, ..s.settings_draft },
            ..s
        },
        MessageModel::SettingsLongBreakMinutesChanged(v) => TimerModel {
            settings_draft: DraftModel { long_break_minutes: v, ..s.settings_draft },
            ..s
        },
        MessageModel::SettingsLongBreakEveryChanged(v) => TimerModel {
            settings_draft: DraftModel { long_break_every: v, ..s.settings_draft },
            ..s
        },
        MessageModel::SaveSettings => {
            match parse_draft_spec(s.settings_draft) {
                Some(ns) => TimerModel {
                    settings: ns,
                    settings_error: None,
                    is_running: false,
                    is_work_period: true,
                    time_left: ns.work_seconds,
                    started: false,
                    end_time: None,
                    work_periods: 0,
                    screen: Screen::Timer,
                    ..s
                },
                None => TimerModel {
                    settings_error: Some(
                        "Invalid settings. Use positive numbers for minutes and pomos."@,
                    ),
                    ..s
                },
            }
        },
    }
}

/// The commands handling `m` in state `s` emits, in order.
pub open spec fn step_commands(s: TimerModel, m: MessageModel) -> Seq<Command> {
    match m {
        MessageModel::Tick(now) => {
            let s1 = tick_measured(s, now);
            if s1.time_left == 0 {
                finish_commands(s1)
            } else {
                Seq::empty()
            }
        },
        MessageModel::StartStop(_) => {
            if !s.is_running {
                seq![Command::Stop]
            } else {
                Seq::empty()
            }
        },
        MessageModel::Reset => seq![Command::Stop],
        MessageModel::ResetPomoCounter => seq![Command::SaveCompletedPomodoros(0)],
        MessageModel::SaveSettings => {
            match parse_draft_spec(s.settings_draft) {
                Some(ns) => seq![Command::SaveSettings(ns), Command::Stop],
                None => Seq::empty(),
            }
        },
        _ => Seq::empty(),
    }
}

/// The startup state: an unstarted work period of the configured length on
/// the timer screen, with a fresh draft.
pub open spec fn initial_model(settings: Settings, completed_pomodoros: u32) -> TimerModel {
    TimerModel {
        time_left: settings.work_seconds,
        end_time: None,
        work_periods: 0,
        completed_pomodoros: completed_pomodoros,
        is_running: false,
        started: false,
        is_work_period: true,
        screen: Screen::Timer,
        settings: settings,
        settings_draft: draft_of(settings),
        settings_error: None,
    }
}

impl PomodoroTimer {
    /// Builds the startup state from the loaded settings and counter.
    pub fn new(settings: Settings, completed_pomodoros: u32) -> (t: PomodoroTimer)
        requires
            settings.long_break_every > 0,
        ensures
            t@ == initial_model(settings, completed_pomodoros),
            t@.wf(),
    {
        let t = PomodoroTimer {
            time_left: settings.work_seconds,
            end_time: None,
            work_periods: 0,
            completed_pomodoros: completed_pomodoros,
            is_running: false,
            started: false,
            is_work_period: true,
            screen: Screen::Timer,
            settings: settings,
            settings_draft: SettingsDraft::from_settings(settings),
            settings_error: None,
        };
        proof {
            assert(t@ =~~= initial_model(settings, completed_pomodoros));
        }
        t
    }

    /// Handles one event: the state advances by the transition function and
    /// the emitted commands come back to the caller, in order.
    pub fn update(&mut self, message: Message) -> (commands: Vec<Command>)
        requires
            old(self)@.wf(),
        ensures
            final(self)@ == step_state(old(self)@, message@),
            commands@ == step_commands(old(self)@, message@),
            final(self)@.wf(),
    {
        let ghost m = message@;
        match message {
            Message::Tick(now) => {
                if self.is_running && self.time_left > 0 {
                    let end = self.end_time.unwrap();
                    let remaining = end.saturating_sub(now) / 1000;
                    self.time_left = if remaining > (u32::MAX as u64) {
                        u32::MAX
                    } else {
                        remaining as u32
                    };
                }
                proof {
                    assert(self@ =~~= tick_measured(old(self)@, now));
                }
                let mut commands: Vec<Command> = Vec::new();
                if self.time_left == 0 {
                    self.started = false;
                    if self.is_work_period {
                        self.work_periods = self.work_periods.saturating_add(1);
                        self.completed_pomodoros = self.completed_pomodoros.saturating_add(1);
                        commands.push(Command::SaveCompletedPomodoros(self.completed_pomodoros));
                    }
                    self.is_work_period = !self.is_work_period;
                    self.time_left = if self.is_work_period {
                        self.settings.work_seconds
                    } else if self.work_periods % self.settings.long_break_every == 0 {
                        self.settings.long_break_seconds
                    } else {
                        self.settings.short_break_seconds
                    };
                    self.is_running = false;
                    self.end_time = None;
                    commands.push(Command::Alarm);
                }
                proof {
                    assert(self@ =~~= step_state(old(self)@, m));
                    assert(commands@ =~~= step_commands(old(self)@, m));
                }
                commands
            },
            Message::StartStop(now) => {
                let mut commands: Vec<Command> = Vec::new();
                self.is_running = !self.is_running;
                if self.is_running {
                    commands.push(Command::Stop);
                    self.started = true;
                    self.end_time = Some(now.saturating_add((self.time_left as u64) * 1000));
                }
                proof {
                    assert(self@ =~~= step_state(old(self)@, m));
                    assert(commands@ =~~= step_commands(old(self)@, m));
                }
                commands
            },
            Message::Reset => {
                let mut commands: Vec<Command> = Vec::new();
                commands.push(Command::Stop);
                self.is_running = false;
                self.is_work_period = true;
                self.time_left = self.settings.work_seconds;
                self.started = false;
                self.end_time = None;
                self.work_periods = 0;
                proof {
                    assert(self@ =~~= step_state(old(self)@, m));
                    assert(commands@ =~~= step_commands(old(self)@, m));
                }
                commands
            },
            Message::ResetPomoCounter => {
                let mut commands: Vec<Command> = Vec::new();
                self.completed_pomodoros = 0;
                commands.push(Command::SaveCompletedPomodoros(0));
                proof {
                    assert(self@ =~~= step_state(old(self)@, m));
                    assert(commands@ =~~= step_commands(old(self)@, m));
                }
                commands
            },
            Message::OpenSettings => {
                self.is_running = false;
                self.end_time = None;
                self.settings_error = None;
                self.settings_draft = SettingsDraft::from_settings(self.settings);
                self.screen = Screen::Settings;
                proof {
                    assert(self@ =~~= step_state(old(self)@, m));
                }
                Vec::new()
            },
            Message::CloseSettings => {
                self.settings_error = None;
                self.screen = Screen::Timer;
                proof {
                    assert(self@ =~~= step_state(old(self)@, m));
                }
                Vec::new()
            },
            Message::SettingsWorkMinutesChanged(value) => {
                self.settings_draft.work_minutes = value;
                proof {
                    assert(self@ =~~= step_state(old(self)@, m));
                }
                Vec::new()
            },
            Message::SettingsShortBreakMinutesChanged(value) => {
                self.settings_draft.short_break_minutes = value;
                proof {
                    assert(self@ =~~= step_state(old(self)@, m));
                }
                Vec::new()
            },
            Message::SettingsLongBreakMinutesChanged(value) => {
                self.settings_draft.long_break_minutes = value;
                proof {
                    assert(self@ =~~= step_state(old(self)@, m));
                }
                Vec::new()
            },
            Message::SettingsLongBreakEveryChanged(value) => {
                self.settings_draft.long_break_every = value;
                proof {
                    assert(self@ =~~= step_state(old(self)@, m));
                }
                Vec::new()
            },
            Message::SaveSettings => {
                let mut commands: Vec<Command> = Vec::new();
                match self.settings_draft.parse() {
                    Some(settings) => {
                        self.settings = settings;
                        commands.push(Command::SaveSettings(settings));
                        self.settings_error = None;
                        commands.push(Command::Stop);
                        self.is_running = false;
                        self.is_work_period = true;
                        self.time_left = self.settings.work_seconds;
                        self.started = false;
                        self.end_time = None;
                        self.work_periods = 0;
                        self.screen = Screen::Timer;
                    },
                    None => {
                        self.settings_error = Some(
                            String::from_str(
                                "Invalid settings. Use positive numbers for minutes and pomos.",
                            ),
                        );
                    },
                }
                proof {
                    assert(self@ =~~= step_state(old(self)@, m));
                    assert(commands@ =~~= step_commands(old(self)@, m));
                }
                commands
            },
        }
    }
}

} // verus!
