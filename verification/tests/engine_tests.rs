use roth_pomodoro::Command;
use roth_pomodoro::Message;
use roth_pomodoro::PomodoroTimer;
use roth_pomodoro::Screen;
use roth_pomodoro::Settings;

fn default_settings() -> Settings {
    Settings {
        work_seconds: 1500,
        short_break_seconds: 300,
        long_break_seconds: 900,
        long_break_every: 4,
    }
}

/// Starts the timer at `start` and ticks exactly at the deadline, completing
/// the current period; returns the deadline.
fn complete_period(t: &mut PomodoroTimer, start: u64) -> u64 {
    let cmds = t.update(Message::StartStop(start));
    assert_eq!(cmds, vec![Command::Stop]);
    let deadline = start + (t.time_left as u64) * 1000;
    t.update(Message::Tick(deadline));
    deadline
}

#[test]
fn initial_state() {
    let t = PomodoroTimer::new(default_settings(), 3);
    assert_eq!(t.time_left, 1500);
    assert_eq!(t.end_time, None);
    assert_eq!(t.work_periods, 0);
    assert_eq!(t.completed_pomodoros, 3);
    assert!(!t.is_running);
    assert!(!t.started);
    assert!(t.is_work_period);
    assert_eq!(t.screen, Screen::Timer);
    assert_eq!(t.settings_draft.work_minutes, "25");
    assert_eq!(t.settings_error, None);
}

#[test]
fn start_sets_deadline_and_stops_audio() {
    let mut t = PomodoroTimer::new(default_settings(), 0);
    let cmds = t.update(Message::StartStop(2000));
    assert_eq!(cmds, vec![Command::Stop]);
    assert!(t.is_running);
    assert!(t.started);
    assert_eq!(t.end_time, Some(2000 + 1_500_000));
}

#[test]
fn pause_keeps_time_left() {
    let mut t = PomodoroTimer::new(default_settings(), 0);
    t.update(Message::StartStop(0));
    t.update(Message::Tick(600_000));
    assert_eq!(t.time_left, 900);
    let cmds = t.update(Message::StartStop(600_000));
    assert_eq!(cmds, vec![]);
    assert!(!t.is_running);
    assert!(t.started);
    assert_eq!(t.time_left, 900);
}

#[test]
fn resume_recomputes_deadline() {
    let mut t = PomodoroTimer::new(default_settings(), 0);
    t.update(Message::StartStop(0));
    t.update(Message::Tick(600_000));
    t.update(Message::StartStop(600_000));
    let cmds = t.update(Message::StartStop(900_000));
    assert_eq!(cmds, vec![Command::Stop]);
    assert!(t.is_running);
    assert_eq!(t.end_time, Some(900_000 + 900 * 1000));
}

#[test]
fn tick_floors_to_whole_seconds() {
    let mut t = PomodoroTimer::new(default_settings(), 0);
    t.update(Message::StartStop(0));
    t.update(Message::Tick(1_409_500));
    assert_eq!(t.time_left, 90);
    assert!(t.is_running);
}

#[test]
fn tick_before_deadline_does_not_transition() {
    let mut t = PomodoroTimer::new(default_settings(), 0);
    t.update(Message::StartStop(0));
    let cmds = t.update(Message::Tick(100));
    assert_eq!(cmds, vec![]);
    assert!(t.is_running);
    assert!(t.is_work_period);
    assert_eq!(t.work_periods, 0);
}

#[test]
fn tick_past_deadline_transitions() {
    let mut t = PomodoroTimer::new(default_settings(), 0);
    t.update(Message::StartStop(0));
    let cmds = t.update(Message::Tick(1_700_123));
    assert_eq!(t.time_left, 300);
    assert!(!t.is_work_period);
    assert_eq!(cmds, vec![Command::SaveCompletedPomodoros(1), Command::Alarm]);
}

#[test]
fn scenario_work_period_completion() {
    let mut t = PomodoroTimer::new(default_settings(), 0);
    let cmds = t.update(Message::StartStop(0));
    assert_eq!(cmds, vec![Command::Stop]);
    let cmds = t.update(Message::Tick(1_500_000));
    assert_eq!(t.time_left, 300);
    assert!(!t.is_work_period);
    assert_eq!(t.work_periods, 1);
    assert_eq!(t.completed_pomodoros, 1);
    assert!(!t.is_running);
    assert!(!t.started);
    assert_eq!(t.end_time, None);
    let alarms = cmds.iter().filter(|c| **c == Command::Alarm).count();
    assert_eq!(alarms, 1);
    assert_eq!(cmds, vec![Command::SaveCompletedPomodoros(1), Command::Alarm]);
}

#[test]
fn scenario_fourth_break_is_long() {
    let settings = Settings {
        work_seconds: 60,
        short_break_seconds: 30,
        long_break_seconds: 90,
        long_break_every: 4,
    };
    let mut t = PomodoroTimer::new(settings, 0);
    let mut now = 0;
    for completed_work in 1..=4u32 {
        // complete a work period
        assert!(t.is_work_period);
        now = complete_period(&mut t, now);
        assert_eq!(t.work_periods, completed_work);
        assert!(!t.is_work_period);
        if completed_work < 4 {
            assert_eq!(t.time_left, 30);
            // complete the short break in between
            now = complete_period(&mut t, now);
            assert!(t.is_work_period);
        }
    }
    assert_eq!(t.time_left, 90);
    assert_eq!(t.completed_pomodoros, 4);
}

#[test]
fn scenario_reset_mid_countdown() {
    let mut t = PomodoroTimer::new(default_settings(), 2);
    t.update(Message::StartStop(0));
    t.update(Message::Tick(600_000));
    assert_eq!(t.time_left, 900);
    let cmds = t.update(Message::Reset);
    assert_eq!(cmds, vec![Command::Stop]);
    assert_eq!(t.time_left, 1500);
    assert_eq!(t.work_periods, 0);
    assert_eq!(t.completed_pomodoros, 2);
    assert!(!t.is_running);
    assert!(!t.started);
    assert!(t.is_work_period);
    assert_eq!(t.end_time, None);
}

#[test]
fn reset_pomo_counter() {
    let mut t = PomodoroTimer::new(default_settings(), 5);
    let cmds = t.update(Message::ResetPomoCounter);
    assert_eq!(t.completed_pomodoros, 0);
    assert_eq!(cmds, vec![Command::SaveCompletedPomodoros(0)]);
}

#[test]
fn open_settings_pauses_and_seeds_draft() {
    let mut t = PomodoroTimer::new(default_settings(), 0);
    t.update(Message::StartStop(0));
    let cmds = t.update(Message::OpenSettings);
    assert_eq!(cmds, vec![]);
    assert!(!t.is_running);
    assert_eq!(t.end_time, None);
    assert_eq!(t.screen, Screen::Settings);
    assert_eq!(t.settings_error, None);
    assert_eq!(t.settings_draft.work_minutes, "25");
    assert_eq!(t.settings_draft.short_break_minutes, "5");
    assert_eq!(t.settings_draft.long_break_minutes, "15");
    assert_eq!(t.settings_draft.long_break_every, "4");
}

#[test]
fn close_settings_returns_to_timer() {
    let mut t = PomodoroTimer::new(default_settings(), 0);
    t.update(Message::OpenSettings);
    t.update(Message::SettingsWorkMinutesChanged("0".to_string()));
    let cmds = t.update(Message::CloseSettings);
    assert_eq!(cmds, vec![]);
    assert_eq!(t.screen, Screen::Timer);
    assert_eq!(t.settings_error, None);
    assert_eq!(t.settings, default_settings());
}

#[test]
fn draft_edits_replace_text() {
    let mut t = PomodoroTimer::new(default_settings(), 0);
    t.update(Message::OpenSettings);
    t.update(Message::SettingsWorkMinutesChanged("30".to_string()));
    t.update(Message::SettingsShortBreakMinutesChanged("10".to_string()));
    t.update(Message::SettingsLongBreakMinutesChanged("20".to_string()));
    t.update(Message::SettingsLongBreakEveryChanged("2".to_string()));
    assert_eq!(t.settings_draft.work_minutes, "30");
    assert_eq!(t.settings_draft.short_break_minutes, "10");
    assert_eq!(t.settings_draft.long_break_minutes, "20");
    assert_eq!(t.settings_draft.long_break_every, "2");
}

#[test]
fn save_settings_adopts_and_resets() {
    let mut t = PomodoroTimer::new(default_settings(), 3);
    t.update(Message::StartStop(0));
    t.update(Message::Tick(600_000));
    t.update(Message::OpenSettings);
    t.update(Message::SettingsWorkMinutesChanged("30".to_string()));
    t.update(Message::SettingsShortBreakMinutesChanged("10".to_string()));
    t.update(Message::SettingsLongBreakMinutesChanged("20".to_string()));
    t.update(Message::SettingsLongBreakEveryChanged("2".to_string()));
    let cmds = t.update(Message::SaveSettings);
    let adopted = Settings {
        work_seconds: 1800,
        short_break_seconds: 600,
        long_break_seconds: 1200,
        long_break_every: 2,
    };
    assert_eq!(t.settings, adopted);
    assert_eq!(cmds, vec![Command::SaveSettings(adopted), Command::Stop]);
    assert_eq!(t.screen, Screen::Timer);
    assert_eq!(t.settings_error, None);
    assert_eq!(t.time_left, 1800);
    assert_eq!(t.work_periods, 0);
    assert_eq!(t.completed_pomodoros, 3);
    assert!(!t.is_running);
    assert_eq!(t.end_time, None);
}

#[test]
fn scenario_save_rejects_zero_work_minutes() {
    let mut t = PomodoroTimer::new(default_settings(), 0);
    t.update(Message::OpenSettings);
    t.update(Message::SettingsWorkMinutesChanged("0".to_string()));
    t.update(Message::SettingsShortBreakMinutesChanged("5".to_string()));
    t.update(Message::SettingsLongBreakMinutesChanged("15".to_string()));
    t.update(Message::SettingsLongBreakEveryChanged("4".to_string()));
    let cmds = t.update(Message::SaveSettings);
    assert_eq!(cmds, vec![]);
    assert_eq!(t.settings, default_settings());
    assert_eq!(t.screen, Screen::Settings);
    let error = t.settings_error.as_ref().expect("an error message is shown");
    assert!(!error.is_empty());
    assert_eq!(t.settings_draft.work_minutes, "0");
}

#[test]
fn counter_saturates_instead_of_wrapping() {
    let settings = Settings {
        work_seconds: 1,
        short_break_seconds: 1,
        long_break_seconds: 1,
        long_break_every: 1,
    };
    let mut t = PomodoroTimer::new(settings, u32::MAX);
    t.update(Message::StartStop(0));
    let cmds = t.update(Message::Tick(1000));
    assert_eq!(t.completed_pomodoros, u32::MAX);
    assert_eq!(
        cmds,
        vec![Command::SaveCompletedPomodoros(u32::MAX), Command::Alarm]
    );
}
