//! Properties that hold across the application's transitions.
use vstd::prelude::*;

use super::action::{Action, OutcomeModel};
use super::model::{
    actionable_click, audio_transition, clicked, dispatched, is_double_click, plain_click,
    session_click, ticked, timer_changed,
    upgraded_click, write_errors_aged, AppModel, ClickTarget, ConfirmationOperation, EditMode, PendingConfirmation,
    PriorActivity, TimerChange, UiFocus,
};
use super::action::Direction;
use super::model::autostart_delay;
use super::{initial, whole_seconds_up};
use crate::config::keys::{bound, ConfigKey};
use crate::config::settings::ConfigSettings;
use crate::settings::key_change;
use crate::settings::field::SettingField;
use crate::tasks::{described, lemma_list_operations_keep_descriptions};
use crate::timer::{state_session, SessionKind, TimerState};

verus! {

/// While a confirmation is pending, every action but confirming or cancelling leaves the
/// application unchanged and asks for nothing.
pub proof fn lemma_confirmation_holds_input(m: AppModel, action: Action)
    requires
        m.pending_confirmation is Some,
        action != Action::ConfirmPendingAction,
        action != Action::CancelPendingAction,
    ensures
        dispatched(m, action, m, OutcomeModel::NoEffect),
{
    assert(audio_transition(m.timer.state, m.timer.state) is None);
}

/// A timer change held behind a confirmation and then confirmed changes the timer
/// exactly as the change made at once would have.
pub proof fn lemma_confirmed_change_matches_immediate(m: AppModel, change: TimerChange)
    requires
        m.pending_confirmation is None,
        m.needs_confirmation(),
    ensures
        m.request_timer_change(change).pending_confirmation is Some,
        m.request_timer_change(change).confirm_pending().0.timer == timer_changed(m.timer, change),
        m.request_timer_change(change).confirm_pending().0.pending_confirmation is None,
{
}

/// Cancelling a confirmation gives back the timer it interrupted: a running session runs on
/// with the time it had left, and a paused one stays paused.
pub proof fn lemma_cancel_restores_timer(m: AppModel, change: TimerChange)
    requires
        m.pending_confirmation is None,
        m.needs_confirmation(),
    ensures
        m.request_timer_change(change).cancel_pending().timer == m.timer,
        m.request_quit().0.cancel_pending().timer == m.timer,
        m.request_timer_change(change).cancel_pending().pending_confirmation is None,
{
}

/// Quitting needs no confirmation with a ready timer or less than ten seconds of progress;
/// otherwise it asks first and pauses the session.
pub proof fn lemma_quit_confirmation(m: AppModel)
    ensures
        !m.needs_confirmation() ==> m.request_quit().1 == OutcomeModel::Quit,
        m.needs_confirmation() ==> m.request_quit().1 == OutcomeModel::NoEffect
            && m.request_quit().0.pending_confirmation == Some(PendingConfirmation {
                operation: ConfirmationOperation::Quit,
                prior_activity: if m.timer.state is Running { PriorActivity::Running } else { PriorActivity::Paused },
            })
            && !(m.request_quit().0.timer.state is Running),
{
}

/// A write failure stays on screen until three seconds have passed in total, however the
/// time is split between ticks.
pub proof fn lemma_write_error_expiry(m: AppModel, first: nat, second: nat)
    ensures
        write_errors_aged(write_errors_aged(m, first), second).write_error == write_errors_aged(m, first + second).write_error,
{
}

/// Starting Focus starts its audio, pausing it pauses the audio, and leaving it stops the audio.
pub proof fn lemma_focus_audio_follows_timer(before: TimerState, after: TimerState)
    ensures
        after == TimerState::Running(SessionKind::Focus) && before != after
            ==> audio_transition(before, after) == Some(super::action::FocusAudioAction::StartOrResume),
        before == TimerState::Running(SessionKind::Focus) && after == TimerState::Paused(SessionKind::Focus)
            ==> audio_transition(before, after) == Some(super::action::FocusAudioAction::Pause),
        (before == TimerState::Running(SessionKind::Focus) || before == TimerState::Paused(SessionKind::Focus))
            && state_is_not_focus(after) ==> audio_transition(before, after) == Some(super::action::FocusAudioAction::Stop),
        before == after ==> audio_transition(before, after) is None,
{
}

/// Whether a timer state holds a break or a ready session, so that no Focus is underway.
pub open spec fn state_is_not_focus(s: TimerState) -> bool {
    s is Ready || s == TimerState::Running(SessionKind::ShortBreak) || s == TimerState::Running(SessionKind::LongBreak)
        || s == TimerState::Paused(SessionKind::ShortBreak) || s == TimerState::Paused(SessionKind::LongBreak)
}

/// Whether every task that the application holds has a description that is not blank.
pub open spec fn tasks_described(m: AppModel) -> bool {
    described(m.tasks.pending) && described(m.tasks.completed)
}

/// The changes to the task lists that actions and clicks make keep every description
/// non-blank.
proof fn lemma_task_changes_keep_descriptions(m: AppModel, direction: Direction)
    requires
        tasks_described(m),
    ensures
        tasks_described(m.move_selected_task(direction).0),
        tasks_described(m.complete_selected_todo().0),
        tasks_described(m.return_selected_done().0),
        tasks_described(m.delete_selected_todo().0),
        tasks_described(m.delete_selected_done().0),
        tasks_described(m.submit_edit().0),
{
    let t = m.tasks;
    let i = m.todo_selection as int;
    let j = m.done_selection as int;
    lemma_list_operations_keep_descriptions(t.pending, t.completed, i, m.input);
    lemma_list_operations_keep_descriptions(t.completed, t.pending, j, m.input);
    if let EditMode::Editing { task_index } = m.edit_mode {
        lemma_list_operations_keep_descriptions(t.pending, t.completed, task_index as int, m.input);
        lemma_list_operations_keep_descriptions(t.completed, t.pending, task_index as int, m.input);
    }
}

/// No action that reaches the application itself gives a task a blank description.
proof fn lemma_apply_action_keeps_descriptions(m: AppModel, action: Action)
    requires
        tasks_described(m),
    ensures
        tasks_described(m.apply_action(action).0),
{
    match action {
        Action::MoveSelectedTask(d) => lemma_task_changes_keep_descriptions(m, d),
        Action::PrimaryAction | Action::DeleteSelected | Action::SubmitEdit => {
            lemma_task_changes_keep_descriptions(m, Direction::Up);
        },
        Action::NavigateFocus(_) | Action::Scroll(_, _) | Action::MoveSelection(_) | Action::CycleSession
        | Action::ResetSession | Action::BeginAdd | Action::EditSelected | Action::CancelEdit | Action::PushInput(_)
        | Action::PopInput | Action::OpenSettings => {},
        _ => {},
    }
}

/// No action outside the settings overlay and confirmations gives a task a blank description.
proof fn lemma_main_step_keeps_descriptions(m: AppModel, action: Action)
    requires
        tasks_described(m),
    ensures
        tasks_described(m.main_step(action).0),
{
    if !m.autostart_claims(action) {
        let quiet = AppModel { completion_audio_active: false, ..m };
        if action != Action::Quit {
            lemma_apply_action_keeps_descriptions(m, action);
            lemma_apply_action_keeps_descriptions(quiet, action);
        }
    }
}

/// No action gives a task a blank description: adding and editing refuse blank text, and
/// every other change moves, completes, returns or deletes whole tasks. So the task lists
/// that are saved always pass the task file's check when they are read back.
pub proof fn lemma_actions_keep_descriptions(before: AppModel, action: Action, after: AppModel, outcome: OutcomeModel)
    requires
        tasks_described(before),
        dispatched(before, action, after, outcome),
    ensures
        tasks_described(after),
{
    if before.pending_confirmation is None && before.settings is None {
        lemma_main_step_keeps_descriptions(before, action);
    }
}

/// Time passing never changes the tasks.
pub proof fn lemma_ticks_keep_tasks(m: AppModel, elapsed: nat)
    ensures
        ticked(m, elapsed).0.tasks == m.tasks,
{
}

/// An ordinary click gives no task a blank description.
proof fn lemma_plain_click_keeps_descriptions(m: AppModel, target: ClickTarget, now: nat)
    requires
        tasks_described(m),
    ensures
        tasks_described(plain_click(m, target, now).0),
{
    match target {
        ClickTarget::TodoTask(i) => {
            let selected = AppModel { todo_selection: i, ..m.focus(UiFocus::Todo) };
            lemma_task_changes_keep_descriptions(selected, Direction::Up);
        },
        ClickTarget::DoneTask(i) => {
            let selected = AppModel { done_selection: i, ..m.focus(UiFocus::Done) };
            lemma_task_changes_keep_descriptions(selected, Direction::Up);
        },
        ClickTarget::SessionControl(s) => {
            assert(session_click(m, s, now).tasks == m.tasks);
        },
        _ => {},
    }
}

/// No click gives a task a blank description.
pub proof fn lemma_clicks_keep_descriptions(
    before: AppModel,
    target: ClickTarget,
    now: nat,
    after: AppModel,
    outcome: OutcomeModel,
)
    requires
        tasks_described(before),
        clicked(before, target, now, after, outcome),
    ensures
        tasks_described(after),
{
    let quiet = AppModel { completion_audio_active: false, ..before };
    lemma_plain_click_keeps_descriptions(before, target, now);
    lemma_plain_click_keeps_descriptions(quiet, target, now);
    assert(upgraded_click(before, target, now).tasks == before.tasks);
}

/// Typing a character and erasing it gives back the application as it was, outside the
/// settings overlay and confirmations.
pub proof fn lemma_typing_then_erasing_restores(m: AppModel, c: char, typed: AppModel, typed_outcome: OutcomeModel,
    erased: AppModel, erased_outcome: OutcomeModel)
    requires
        m.pending_confirmation is None,
        m.settings is None,
        dispatched(m, Action::PushInput(c), typed, typed_outcome),
        dispatched(typed, Action::PopInput, erased, erased_outcome),
    ensures
        erased == m,
        typed_outcome == OutcomeModel::NoEffect,
        erased_outcome == OutcomeModel::NoEffect,
{
    assert(m.input.push(c).drop_last() =~= m.input);
    assert(audio_transition(m.timer.state, m.timer.state) is None);
}

/// What holds of every application state reached through the public operations: an open
/// confirmation comes with a paused timer, no autostart countdown and the settings overlay
/// closed; a pending autostart holds a ready timer of the recommended session and at most
/// five seconds left; and the settings overlay works on the configuration in effect.
pub open spec fn consistent(m: AppModel) -> bool {
    &&& m.pending_confirmation is Some ==> m.timer.state is Paused && m.pending_autostart is None
        && m.settings is None
    &&& m.pending_autostart matches Some((s, left)) ==> m.timer.state == TimerState::Ready(s) && 0 < left
        <= autostart_delay()
    &&& m.settings matches Some(o) ==> o.config == m.config
}

/// A freshly made application is consistent.
pub proof fn lemma_initial_consistent(m: AppModel, config: ConfigSettings, todo: Seq<Seq<char>>, done: Seq<Seq<char>>)
    requires
        initial(m, config, todo, done),
    ensures
        consistent(m),
{
}

/// An action that reaches the application itself keeps it consistent, and keeps its
/// configuration.
proof fn lemma_apply_action_consistent(m: AppModel, action: Action)
    requires
        consistent(m),
        m.pending_confirmation is None,
        m.settings is None,
        !m.autostart_claims(action),
    ensures
        consistent(m.apply_action(action).0),
        m.apply_action(action).0.config == m.config,
{
    match action {
        Action::CycleSession => {},
        Action::ResetSession => {},
        Action::PrimaryAction => {},
        Action::OpenSettings => {},
        Action::MoveSelectedTask(d) => {},
        Action::DeleteSelected => {},
        Action::SubmitEdit => {},
        _ => {},
    }
}

/// An action outside the overlay and confirmations keeps the application consistent and
/// its configuration, and emits no configuration.
proof fn lemma_main_step_consistent(m: AppModel, action: Action)
    requires
        consistent(m),
        m.pending_confirmation is None,
        m.settings is None,
    ensures
        consistent(m.main_step(action).0),
        m.main_step(action).0.config == m.config,
        !(m.main_step(action).1 is SettingsChanged),
{
    if !m.autostart_claims(action) {
        let quiet = AppModel { completion_audio_active: false, ..m };
        if action != Action::Quit {
            lemma_apply_action_consistent(m, action);
            lemma_apply_action_consistent(quiet, action);
        }
    }
}

/// Every action keeps the application consistent.
pub proof fn lemma_actions_keep_consistent(before: AppModel, action: Action, after: AppModel, outcome: OutcomeModel)
    requires
        consistent(before),
        dispatched(before, action, after, outcome),
    ensures
        consistent(after),
{
    if before.pending_confirmation is None && before.settings is None {
        lemma_main_step_consistent(before, action);
    }
}

/// Time passing keeps the application consistent.
pub proof fn lemma_ticks_keep_consistent(m: AppModel, elapsed: nat)
    requires
        consistent(m),
    ensures
        consistent(ticked(m, elapsed).0),
{
}

/// A click on a session control with no autostart pending keeps the application consistent.
proof fn lemma_session_click_consistent(m: AppModel, s: SessionKind, now: nat)
    requires
        consistent(m),
        m.pending_confirmation is None,
        m.settings is None,
        m.pending_autostart is None,
    ensures
        consistent(session_click(m, s, now)),
{
}

/// A click on the clock or a task keeps the application consistent, unless it is a double
/// click on the clock while an autostart is pending.
proof fn lemma_actionable_click_consistent(m: AppModel, target: ClickTarget, now: nat)
    requires
        consistent(m),
        m.pending_confirmation is None,
        m.settings is None,
        m.pending_autostart is Some && target == ClickTarget::Clock ==> !is_double_click(m, target, now),
    ensures
        consistent(actionable_click(m, target, now).0),
{
    if is_double_click(m, target, now) {
        match target {
            ClickTarget::TodoTask(_) => {
                assert(consistent(m.complete_selected_todo().0));
            },
            ClickTarget::DoneTask(_) => {
                assert(consistent(m.return_selected_done().0));
            },
            _ => {},
        }
    }
}

/// An ordinary click keeps the application consistent.
proof fn lemma_plain_click_consistent(m: AppModel, target: ClickTarget, now: nat)
    requires
        consistent(m),
        m.pending_confirmation is None,
        m.settings is None,
        m.pending_autostart is Some ==> !(target is SessionControl),
        m.pending_autostart is Some && target == ClickTarget::Clock ==> !is_double_click(m, target, now),
    ensures
        consistent(plain_click(m, target, now).0),
{
    match target {
        ClickTarget::SessionControl(s) => {
            lemma_session_click_consistent(m, s, now);
        },
        ClickTarget::Clock => {
            let f = m.focus(UiFocus::Clock);
            assert(is_double_click(f, target, now) == is_double_click(m, target, now));
            lemma_actionable_click_consistent(f, target, now);
        },
        ClickTarget::TodoTask(i) => {
            lemma_actionable_click_consistent(AppModel { todo_selection: i, ..m.focus(UiFocus::Todo) }, target, now);
        },
        ClickTarget::DoneTask(i) => {
            lemma_actionable_click_consistent(AppModel { done_selection: i, ..m.focus(UiFocus::Done) }, target, now);
        },
        _ => {},
    }
}

/// Every click keeps the application consistent.
pub proof fn lemma_clicks_keep_consistent(before: AppModel, target: ClickTarget, now: nat, after: AppModel,
    outcome: OutcomeModel)
    requires
        consistent(before),
        clicked(before, target, now, after, outcome),
    ensures
        consistent(after),
{
    let double = is_double_click(before, target, now);
    if before.edit_mode is Normal && before.pending_confirmation is None && before.settings is None && !(
    before.pending_autostart is Some && target is SessionControl) && !(before.pending_autostart is Some && target
        == ClickTarget::Clock && double) {
        let quiet = AppModel { completion_audio_active: false, ..before };
        assert(is_double_click(quiet, target, now) == double);
        lemma_plain_click_consistent(before, target, now);
        lemma_plain_click_consistent(quiet, target, now);
    }
}

/// A pending autostart shows between one and five seconds left, and the tick that completes a
/// session leaves a countdown of exactly five seconds to the recommended session, which is
/// then ready, exactly when the configuration starts that kind of session by itself,
/// however far the tick overshot.
pub proof fn lemma_autostart_countdown(m: AppModel, elapsed: nat)
    requires
        consistent(m),
    ensures
        m.pending_autostart matches Some((s, left)) ==> 1 <= whole_seconds_up(left) <= 5,
        m.pending_autostart is None ==> (ticked(m, elapsed).0.pending_autostart matches Some((s, left)) ==> left
            == autostart_delay() && whole_seconds_up(left) == 5 && ticked(m, elapsed).0.timer.state
            == TimerState::Ready(s)),
        m.pending_autostart is None && ticked(m, elapsed).1 is SessionCompleted ==> ({
            let n = ticked(m, elapsed).0;
            let r = state_session(n.timer.state);
            let enabled = if r is Focus {
                m.config.timer.autostart_focus
            } else {
                m.config.timer.autostart_breaks
            };
            n.pending_autostart == if enabled {
                Some((r, autostart_delay()))
            } else {
                None
            }
        }),
{
}

/// The keys in effect: those of the settings overlay's configuration while it is open, else
/// those of the configuration.
pub open spec fn keys_in_effect(m: AppModel) -> Seq<Seq<ConfigKey>> {
    match m.settings {
        Some(o) => o.config.keys,
        None => m.config.keys,
    }
}

/// In a consistent application the keys in effect are those of the configuration, whether
/// or not the settings overlay is open.
pub proof fn lemma_keys_in_effect(m: AppModel)
    requires
        consistent(m),
    ensures
        keys_in_effect(m) == m.config.keys,
{
}

/// The keys in effect stay as they are through every action or click that emits no new
/// configuration, and through time passing.
pub proof fn lemma_keys_in_effect_stay(before: AppModel, action: Action, target: ClickTarget, now: nat,
    elapsed: nat, after: AppModel, outcome: OutcomeModel)
    requires
        consistent(before),
        dispatched(before, action, after, outcome) || clicked(before, target, now, after, outcome),
        !(outcome is SettingsChanged),
    ensures
        keys_in_effect(after) == keys_in_effect(before),
        keys_in_effect(ticked(before, elapsed).0) == keys_in_effect(before),
{
    lemma_configuration_changes_only_when_emitted(before, action, target, now, elapsed, after, outcome);
    if dispatched(before, action, after, outcome) {
        lemma_actions_keep_consistent(before, action, after, outcome);
    } else {
        lemma_clicks_keep_consistent(before, target, now, after, outcome);
    }
    lemma_ticks_keep_consistent(before, elapsed);
}

/// The configuration changes only with an outcome that emits it: an action or click that
/// emits no new configuration leaves it, and time passing never changes it.
pub proof fn lemma_configuration_changes_only_when_emitted(before: AppModel, action: Action, target: ClickTarget,
    now: nat, elapsed: nat, after: AppModel, outcome: OutcomeModel)
    requires
        consistent(before),
        dispatched(before, action, after, outcome) || clicked(before, target, now, after, outcome),
    ensures
        outcome matches OutcomeModel::SettingsChanged(c) ==> after.config == c,
        !(outcome is SettingsChanged) ==> after.config == before.config,
        ticked(before, elapsed).0.config == before.config,
{
    if dispatched(before, action, after, outcome) {
        if before.pending_confirmation is None && before.settings is None {
            lemma_main_step_consistent(before, action);
        }
    } else {
        lemma_clicked_config(before, target, now, after, outcome);
    }
}

/// A click changes the configuration only with an outcome that emits it.
proof fn lemma_clicked_config(before: AppModel, target: ClickTarget, now: nat, after: AppModel, outcome: OutcomeModel)
    requires
        consistent(before),
        clicked(before, target, now, after, outcome),
    ensures
        outcome matches OutcomeModel::SettingsChanged(c) ==> after.config == c,
        !(outcome is SettingsChanged) ==> after.config == before.config,
{
}

/// A key captured for a command in the settings overlay, once accepted, is in effect at
/// once: it alone is bound to that command and the new configuration is emitted.
pub proof fn lemma_captured_key_in_effect(before: AppModel, key: ConfigKey, after: AppModel, outcome: OutcomeModel)
    requires
        consistent(before),
        before.config.keys.len() == crate::config::keys::ACTION_COUNT,
        before.pending_confirmation is None,
        before.settings matches Some(o) && o.capturing && (o.field() matches SettingField::Key(a)
            && key_change(o.config, a, key) is Accepted),
        dispatched(before, Action::SettingsCaptureKey(key), after, outcome),
    ensures
        ({
            let o = before.settings->0;
            let a = o.field()->Key_0;
            &&& after.config.keys == before.config.keys.update(crate::config::keys::action_index(a), seq![key])
            &&& bound(after.config.keys, a) == seq![key]
            &&& bound(keys_in_effect(after), a) == seq![key]
            &&& outcome == OutcomeModel::SettingsChanged(after.config) || outcome == OutcomeModel::NoEffect
                && after.config == before.config
            &&& after.settings matches Some(p) && p.config.keys == after.config.keys
        }),
{
}

} // verus!
