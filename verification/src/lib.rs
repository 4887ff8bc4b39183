//! A verified pomodoro timer core: the timer/period state machine, the
//! settings model with its text-draft validation, and the guard logic of the
//! persistence layer. Rendering, audio output and the on-disk store are
//! external collaborators; the state machine only emits commands for them.

mod engine;
mod laws;
mod numtext;
mod settings;
mod store;

pub use engine::Command;
pub use engine::Message;
pub use engine::MessageModel;
pub use engine::PomodoroTimer;
pub use engine::TimerModel;
pub use engine::end_at;
pub use engine::finish_commands;
pub use engine::finish_period;
pub use engine::inc_sat;
pub use engine::initial_model;
pub use engine::next_period_seconds;
pub use engine::remaining_secs;
pub use engine::step_commands;
pub use engine::step_state;
pub use engine::tick_measured;

pub use laws::count_alarms;
pub use laws::finish_n;
pub use laws::lemma_counter_monotone;
pub use laws::lemma_draft_round_trip;
pub use laws::lemma_finish_alarm_once;
pub use laws::lemma_long_break_selection;
pub use laws::lemma_period_alternation;
pub use laws::lemma_step_preserves_wf;
pub use laws::lemma_tick_at_deadline;
pub use laws::lemma_validation_rejects;
pub use laws::rejected_field;

pub use numtext::all_dec_digits;
pub use numtext::dec_digits;
pub use numtext::digit_char;
pub use numtext::digit_val;
pub use numtext::is_dec_digit;
pub use numtext::is_space;
pub use numtext::parse_u32;
pub use numtext::parse_u32_spec;
pub use numtext::seq_value;
pub use numtext::trim_spec;
pub use numtext::u32_to_decimal;

pub use settings::BREAK_LENGTH;
pub use settings::DraftModel;
pub use settings::LONG_BREAK_LENGTH;
pub use settings::Screen;
pub use settings::Settings;
pub use settings::SettingsDraft;
pub use settings::WORK_LENGTH;
pub use settings::draft_of;
pub use settings::parse_draft_spec;
pub use settings::sat_mul_60;

pub use store::load_completed_pomodoros;
pub use store::load_settings;
pub use store::load_settings_spec;
