//! The help line under the workspace: prompts, countdowns, text entry and key legends.
use vstd::prelude::*;

use crate::app::{whole_seconds_up, App, AppModel, ConfirmationOperation, EditMode, TimerChange, UiFocus};
use crate::config::keys::{bound, ConfigKey, KeyAction, KeysConfig};
use crate::display::{format_key, key_label};
use crate::text::{decimal, owned, push_decimal, push_str};
use crate::timer::SessionKind;

verus! {

/// The name of a session kind.
pub open spec fn session_name(session: SessionKind) -> Seq<char> {
    match session {
        SessionKind::Focus => "Focus"@,
        SessionKind::ShortBreak => "Short break"@,
        SessionKind::LongBreak => "Long break"@,
    }
}

/// The name of a session kind.
pub fn session_label(session: SessionKind) -> (s: &'static str)
    ensures
        s@ == session_name(session),
{
    match session {
        SessionKind::Focus => "Focus",
        SessionKind::ShortBreak => "Short break",
        SessionKind::LongBreak => "Long break",
    }
}

/// The question asked before an operation that discards progress.
pub open spec fn prompt_text(operation: ConfirmationOperation) -> Seq<char> {
    match operation {
        ConfirmationOperation::Quit => "Quit and discard progress?"@,
        ConfirmationOperation::TimerChange(TimerChange::Reset) => "Reset session?"@,
        ConfirmationOperation::TimerChange(TimerChange::Cycle) => "Discard progress and cycle session?"@,
        ConfirmationOperation::TimerChange(TimerChange::SelectSession(s)) => "Discard progress and change to "@
            + session_name(s) + "?"@,
        ConfirmationOperation::TimerChange(TimerChange::StartSession(s)) => "Discard progress, change to "@
            + session_name(s) + ", and start it?"@,
    }
}

/// The question asked before an operation that discards progress.
pub fn confirmation_prompt(operation: ConfirmationOperation) -> (s: String)
    ensures
        s@ == prompt_text(operation),
{
    match operation {
        ConfirmationOperation::Quit => owned("Quit and discard progress?"),
        ConfirmationOperation::TimerChange(TimerChange::Reset) => owned("Reset session?"),
        ConfirmationOperation::TimerChange(TimerChange::Cycle) => owned("Discard progress and cycle session?"),
        ConfirmationOperation::TimerChange(TimerChange::SelectSession(session)) => {
            let mut s = owned("Discard progress and change to ");
            push_str(&mut s, session_label(session));
            push_str(&mut s, "?");
            s
        },
        ConfirmationOperation::TimerChange(TimerChange::StartSession(session)) => {
            let mut s = owned("Discard progress, change to ");
            push_str(&mut s, session_label(session));
            push_str(&mut s, ", and start it?");
            s
        },
    }
}

/// The label of the first key bound to `action`; empty when none is bound, which a valid
/// configuration rules out.
pub open spec fn first_label(keys: Seq<Seq<ConfigKey>>, action: KeyAction) -> Seq<char> {
    if bound(keys, action).len() > 0 { key_label(bound(keys, action)[0]) } else { Seq::empty() }
}

/// Labels joined by slashes.
pub open spec fn slashed(labels: Seq<Seq<char>>) -> Seq<char>
    decreases labels.len(),
{
    if labels.len() == 0 {
        Seq::empty()
    } else if labels.len() == 1 {
        labels[0]
    } else {
        slashed(labels.drop_last()) + "/"@ + labels.last()
    }
}

/// The first keys of the focus movements, joined by slashes.
pub open spec fn focus_keys(keys: Seq<Seq<ConfigKey>>) -> Seq<char> {
    first_label(keys, KeyAction::FocusLeft) + "/"@ + first_label(keys, KeyAction::FocusDown) + "/"@
        + first_label(keys, KeyAction::FocusUp) + "/"@ + first_label(keys, KeyAction::FocusRight)
}

/// The legend entries particular to the focused area.
pub open spec fn area_help(keys: Seq<Seq<ConfigKey>>, focus: UiFocus) -> Seq<char> {
    let l = |a: KeyAction| first_label(keys, a);
    match focus {
        UiFocus::Clock => l(KeyAction::ClockPrimary) + "] start/pause  ["@ + l(KeyAction::CycleSession)
            + "] cycle session  ["@ + l(KeyAction::ResetSession) + "] reset"@,
        _ => l(KeyAction::ListDown) + "/"@ + l(KeyAction::ListUp) + "] list nav  ["@ + l(KeyAction::MoveTaskUp) + "/"@
            + l(KeyAction::MoveTaskDown) + "] move list item  ["@ + l(KeyAction::AddTask) + "] add  ["@
            + l(KeyAction::EditTask) + "] edit  ["@ + l(KeyAction::DeleteTask) + "] delete  ["@
            + l(KeyAction::TaskPrimary) + if focus is Done { "] return"@ } else { "] complete"@ },
    }
}

/// The legend of the normal mode for the focused area, naming the first key of each command.
pub open spec fn normal_help(keys: Seq<Seq<ConfigKey>>, focus: UiFocus) -> Seq<char> {
    "["@ + focus_keys(keys) + "] box nav  ["@ + area_help(keys, focus) + "  ["@ + first_label(keys, KeyAction::Settings)
        + "] settings  ["@ + first_label(keys, KeyAction::Quit) + "] quit"@
}

/// The help line: a pending confirmation, then an autostart countdown, then the entered
/// text, and otherwise the legend of the focused area.
pub open spec fn footer(app: AppModel, keys: Seq<Seq<ConfigKey>>, focus: UiFocus) -> Seq<char> {
    match app.pending_confirmation {
        Some(p) => prompt_text(p.operation) + "  [y/Enter] confirm  [n/Esc] cancel"@,
        None => match app.pending_autostart {
            Some((s, left)) => "Next: "@ + session_name(s) + " in "@ + decimal(whole_seconds_up(left) as nat) + "s  ["@
                + first_label(keys, KeyAction::ClockPrimary) + "] start now  ["@
                + first_label(keys, KeyAction::CycleSession) + "] cycle/cancel  [Esc] cancel"@,
            None => match app.edit_mode {
                EditMode::Adding => "Add task: "@ + app.input + "_"@,
                EditMode::Editing { .. } => "Edit task: "@ + app.input + "_"@,
                EditMode::Normal => normal_help(keys, focus),
            },
        },
    }
}

/// The first key bound to `action`, if any.
pub fn first_key(keys: &KeysConfig, action: KeyAction) -> (k: Option<ConfigKey>)
    ensures
        bound(keys@, action).len() > 0 ==> k == Some(bound(keys@, action)[0]),
        bound(keys@, action).len() == 0 ==> k is None,
{
    let bound_keys = keys.binding(action);
    if bound_keys.len() > 0 {
        Some(bound_keys[0])
    } else {
        None
    }
}

/// Appends the label of the first key bound to `action`.
pub fn push_first(s: &mut String, keys: &KeysConfig, action: KeyAction)
    ensures
        final(s)@ == old(s)@ + first_label(keys@, action),
{
    match first_key(keys, action) {
        Some(k) => {
            let label = format_key(k);
            push_str(s, label.as_str());
        },
        None => {
            assert(old(s)@ + Seq::<char>::empty() =~= old(s)@);
        },
    }
}

fn push_focus_keys(s: &mut String, keys: &KeysConfig)
    ensures
        final(s)@ == old(s)@ + focus_keys(keys@),
{
    push_first(s, keys, KeyAction::FocusLeft);
    push_str(s, "/");
    push_first(s, keys, KeyAction::FocusDown);
    push_str(s, "/");
    push_first(s, keys, KeyAction::FocusUp);
    push_str(s, "/");
    push_first(s, keys, KeyAction::FocusRight);
    assert(final(s)@ =~= old(s)@ + focus_keys(keys@));
}

#[verifier::rlimit(40)]
fn push_area_help(s: &mut String, keys: &KeysConfig, focus: UiFocus)
    ensures
        final(s)@ == old(s)@ + area_help(keys@, focus),
{
    match focus {
        UiFocus::Clock => {
            push_first(s, keys, KeyAction::ClockPrimary);
            push_str(s, "] start/pause  [");
            push_first(s, keys, KeyAction::CycleSession);
            push_str(s, "] cycle session  [");
            push_first(s, keys, KeyAction::ResetSession);
            push_str(s, "] reset");
        },
        _ => {
            push_first(s, keys, KeyAction::ListDown);
            push_str(s, "/");
            push_first(s, keys, KeyAction::ListUp);
            push_str(s, "] list nav  [");
            push_first(s, keys, KeyAction::MoveTaskUp);
            push_str(s, "/");
            push_first(s, keys, KeyAction::MoveTaskDown);
            push_str(s, "] move list item  [");
            push_first(s, keys, KeyAction::AddTask);
            push_str(s, "] add  [");
            push_first(s, keys, KeyAction::EditTask);
            push_str(s, "] edit  [");
            push_first(s, keys, KeyAction::DeleteTask);
            push_str(s, "] delete  [");
            push_first(s, keys, KeyAction::TaskPrimary);
            if focus == UiFocus::Done {
                push_str(s, "] return");
            } else {
                push_str(s, "] complete");
            }
        },
    }
    assert(final(s)@ =~= old(s)@ + area_help(keys@, focus));
}

/// The legend of the normal mode for the focused area.
pub fn normal_help_text(keys: &KeysConfig, focus: UiFocus) -> (s: String)
    ensures
        s@ == normal_help(keys@, focus),
{
    let mut s = owned("[");
    push_focus_keys(&mut s, keys);
    push_str(&mut s, "] box nav  [");
    push_area_help(&mut s, keys, focus);
    push_str(&mut s, "  [");
    push_first(&mut s, keys, KeyAction::Settings);
    push_str(&mut s, "] settings  [");
    push_first(&mut s, keys, KeyAction::Quit);
    push_str(&mut s, "] quit");
    assert(s@ =~= normal_help(keys@, focus));
    s
}

/// The help line for `focus`.
pub fn footer_text_for_focus(app: &App, keys: &KeysConfig, focus: UiFocus) -> (s: String)
    ensures
        s@ == footer(app@, keys@, focus),
{
    if let Some(operation) = app.pending_confirmation() {
        let mut s = confirmation_prompt(operation);
        push_str(&mut s, "  [y/Enter] confirm  [n/Esc] cancel");
        return s;
    }
    if let Some((session, seconds)) = app.pending_autostart() {
        let mut s = owned("Next: ");
        push_str(&mut s, session_label(session));
        push_str(&mut s, " in ");
        push_decimal(&mut s, seconds);
        push_str(&mut s, "s  [");
        push_first(&mut s, keys, KeyAction::ClockPrimary);
        push_str(&mut s, "] start now  [");
        push_first(&mut s, keys, KeyAction::CycleSession);
        push_str(&mut s, "] cycle/cancel  [Esc] cancel");
        assert(s@ =~= footer(app@, keys@, focus));
        return s;
    }
    match app.edit_mode() {
        EditMode::Adding => {
            let mut s = owned("Add task: ");
            push_str(&mut s, app.input());
            push_str(&mut s, "_");
            s
        },
        EditMode::Editing { .. } => {
            let mut s = owned("Edit task: ");
            push_str(&mut s, app.input());
            push_str(&mut s, "_");
            s
        },
        EditMode::Normal => normal_help_text(keys, focus),
    }
}

/// The help line for the focused area.
pub fn footer_text(app: &App, keys: &KeysConfig) -> (s: String)
    ensures
        s@ == footer(app@, keys@, app@.ui_focus),
{
    footer_text_for_focus(app, keys, app.ui_focus())
}

/// The row text of a task: its description, after its one-based number when numbers are shown.
pub open spec fn task_row_text(index: usize, description: Seq<char>, show_numbers: bool) -> Seq<char> {
    if show_numbers { decimal((index + 1) as nat) + ". "@ + description } else { description }
}

/// The row text of a task.
pub fn task_label(index: usize, description: &str, show_numbers: bool) -> (s: String)
    requires
        index < u64::MAX,
    ensures
        s@ == task_row_text(index, description@, show_numbers),
{
    if show_numbers {
        let mut s = String::new();
        push_decimal(&mut s, index as u64 + 1);
        push_str(&mut s, ". ");
        push_str(&mut s, description);
        assert(s@ =~= task_row_text(index, description@, show_numbers));
        s
    } else {
        owned(description)
    }
}

/// What an empty task list shows in place of its tasks.
pub fn empty_list_text(done: bool) -> (s: &'static str)
    ensures
        s@ == if done { "No completed tasks"@ } else { "No tasks yet"@ },
{
    if done {
        "No completed tasks"
    } else {
        "No tasks yet"
    }
}

} // verus!
