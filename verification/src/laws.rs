//! The laws the library states of itself, each proved against the
//! transition function and the validation model.

use vstd::prelude::*;
use vstd::arithmetic::div_mod::lemma_fundamental_div_mod;
use crate::engine::Command;
use crate::engine::MessageModel;
use crate::engine::TimerModel;
use crate::engine::finish_commands;
use crate::engine::finish_period;
use crate::engine::inc_sat;
use crate::engine::remaining_secs;
use crate::engine::step_commands;
use crate::engine::step_state;
use crate::engine::tick_measured;
use crate::numtext::lemma_parse_dec_digits;
use crate::numtext::parse_u32_spec;
use crate::settings::DraftModel;
use crate::settings::Settings;
use crate::settings::draft_of;
use crate::settings::parse_draft_spec;

verus! {

/// How many alarm commands a command list holds.
pub open spec fn count_alarms(cmds: Seq<Command>) -> int
    decreases cmds.len(),
{
    if cmds.len() == 0 {
        0
    } else {
        count_alarms(cmds.drop_last()) + if cmds.last() == Command::Alarm {
            1int
        } else {
            0int
        }
    }
}

/// A period completion commands the alarm exactly once.
pub proof fn lemma_finish_alarm_once(s: TimerModel)
    ensures
        count_alarms(finish_commands(s)) == 1,
{
    let c = finish_commands(s);
    assert(count_alarms(Seq::<Command>::empty()) == 0);
    if s.is_work_period {
        let c1 = c.drop_last();
        assert(c1 =~= seq![Command::SaveCompletedPomodoros(inc_sat(s.completed_pomodoros))]);
        assert(c1.drop_last() =~= Seq::<Command>::empty());
        assert(c1.len() == 1 && c1.last() != Command::Alarm);
        assert(count_alarms(c1) == 0);
        assert(c.len() == 2 && c.last() == Command::Alarm);
        assert(count_alarms(c) == 1);
    } else {
        assert(c.drop_last() =~= Seq::<Command>::empty());
        assert(c.len() == 1 && c.last() == Command::Alarm);
        assert(count_alarms(c) == 1);
    }
}

/// Law: a running timer with time on the clock, ticked exactly at its
/// deadline, measures zero seconds left and takes the period transition
/// exactly once: the machine stops, the period kind flips, the next
/// period's length is loaded, and the alarm is commanded once.
pub proof fn lemma_tick_at_deadline(s: TimerModel, now: u64)
    requires
        s.wf(),
        s.is_running,
        s.time_left > 0,
        s.end_time == Some(now),
    ensures
        remaining_secs(now, now) == 0,
        step_state(s, MessageModel::Tick(now)) == finish_period((TimerModel { time_left: 0, ..s })),
        step_commands(s, MessageModel::Tick(now)) == finish_commands(
            (TimerModel { time_left: 0, ..s }),
        ),
        count_alarms(step_commands(s, MessageModel::Tick(now))) == 1,
{
    assert(tick_measured(s, now) =~= TimerModel { time_left: 0, ..s });
    lemma_finish_alarm_once(TimerModel { time_left: 0, ..s });
}

/// `n` consecutive period completions from `s`.
pub open spec fn finish_n(s: TimerModel, n: nat) -> TimerModel
    decreases n,
{
    if n == 0 {
        s
    } else {
        finish_period(finish_n(s, (n - 1) as nat))
    }
}

/// Law: starting in a work period with no completed work periods, after `n`
/// period completions the machine is in a work period exactly when `n` is
/// even, and `work_periods` counts the work periods among those `n`
/// completions, which is `(n + 1) / 2`.
pub proof fn lemma_period_alternation(s: TimerModel, n: nat)
    requires
        s.is_work_period,
        s.work_periods == 0,
        n <= u32::MAX,
    ensures
        finish_n(s, n).is_work_period == (n % 2 == 0),
        finish_n(s, n).work_periods == (n + 1) / 2,
    decreases n,
{
    if n > 0 {
        lemma_period_alternation(s, (n - 1) as nat);
    }
}

/// Law: when the k-th work period completes, the break that follows is the
/// long one exactly when `k` is a multiple of `long_break_every`.
pub proof fn lemma_long_break_selection(s: TimerModel)
    requires
        s.wf(),
        s.is_work_period,
        s.work_periods < u32::MAX,
    ensures
        finish_period(s).work_periods == s.work_periods + 1,
        !finish_period(s).is_work_period,
        finish_period(s).time_left == if (s.work_periods + 1) % (
        s.settings.long_break_every as int) == 0 {
            s.settings.long_break_seconds
        } else {
            s.settings.short_break_seconds
        },
{
}

/// Law: no event lowers the lifetime pomodoro counter, except that the
/// explicit counter reset sets it to zero.
pub proof fn lemma_counter_monotone(s: TimerModel, m: MessageModel)
    ensures
        !(m is ResetPomoCounter) ==> step_state(s, m).completed_pomodoros
            >= s.completed_pomodoros,
        (m is ResetPomoCounter) ==> step_state(s, m).completed_pomodoros == 0,
{
}

/// Law: every event preserves well-formedness of the state.
pub proof fn lemma_step_preserves_wf(s: TimerModel, m: MessageModel)
    requires
        s.wf(),
    ensures
        step_state(s, m).wf(),
{
}

/// Law: a draft seeded from settings whose three interval lengths are whole
/// minutes validates back to exactly those settings.
pub proof fn lemma_draft_round_trip(s: Settings)
    requires
        s.valid(),
        s.work_seconds % 60 == 0,
        s.short_break_seconds % 60 == 0,
        s.long_break_seconds % 60 == 0,
    ensures
        parse_draft_spec(draft_of(s)) == Some(s),
{
    lemma_parse_dec_digits((s.work_seconds / 60) as nat);
    lemma_parse_dec_digits((s.short_break_seconds / 60) as nat);
    lemma_parse_dec_digits((s.long_break_seconds / 60) as nat);
    lemma_parse_dec_digits(s.long_break_every as nat);
    lemma_fundamental_div_mod(s.work_seconds as int, 60);
    lemma_fundamental_div_mod(s.short_break_seconds as int, 60);
    lemma_fundamental_div_mod(s.long_break_seconds as int, 60);
}

/// A draft field that validation must reject: it fails to parse as an
/// integer, or parses to zero.
pub open spec fn rejected_field(t: Seq<char>) -> bool {
    parse_u32_spec(t) is None || parse_u32_spec(t) == Some(0u32)
}

/// Law: validation fails whenever any one of the four fields is rejected,
/// whatever the other fields hold.
pub proof fn lemma_validation_rejects(d: DraftModel)
    requires
        rejected_field(d.work_minutes) || rejected_field(d.short_break_minutes)
            || rejected_field(d.long_break_minutes) || rejected_field(d.long_break_every),
    ensures
        parse_draft_spec(d) is None,
{
}

} // verus!
