//! The abstract application and its transitions.
use vstd::prelude::*;

use super::action::{Action, Direction, FocusAudioAction, OutcomeModel, ScrollTarget};
use crate::config::settings::ConfigSettings;
use crate::settings::{activated, adjusted, captured, submitted, write_error_aged, OverlayModel, SettingsMoveDirection};
use crate::tasks::{add_to, edit_in, move_down_in, move_up_in, TaskListModel};
use crate::text::is_blank;
use crate::timer::{state_session, SessionKind, TimerModel, TimerState};

verus! {

/// The application area that currently receives contextual commands.
#[derive(Debug, Clone, Copy, PartialEq, Eq, Structural)]
pub enum UiFocus {
    Clock,
    Todo,
    Done,
}

/// The current task-entry context.
#[derive(Debug, Clone, Copy, PartialEq, Eq, Structural)]
pub enum EditMode {
    Normal,
    Adding,
    Editing { task_index: usize },
}

/// What the settings overlay is doing, if it is open.
#[derive(Debug, Clone, Copy, PartialEq, Eq, Structural)]
pub enum SettingsMode {
    Closed,
    Navigating,
    EditingValue,
    CapturingKey,
}

/// A change of the timer that may need confirmation.
#[derive(Debug, Clone, Copy, PartialEq, Eq, Structural)]
pub enum TimerChange {
    Reset,
    Cycle,
    SelectSession(SessionKind),
    StartSession(SessionKind),
}

/// An operation waiting for the user's confirmation.
#[derive(Debug, Clone, Copy, PartialEq, Eq, Structural)]
pub enum ConfirmationOperation {
    Quit,
    TimerChange(TimerChange),
}

/// Whether the timer ran before a confirmation paused it.
#[derive(Debug, Clone, Copy, PartialEq, Eq, Structural)]
pub enum PriorActivity {
    Running,
    Paused,
}

/// A confirmation prompt and the activity it interrupted.
#[derive(Debug, Clone, Copy, PartialEq, Eq, Structural)]
pub struct PendingConfirmation {
    pub operation: ConfirmationOperation,
    pub prior_activity: PriorActivity,
}

/// A semantic mouse target produced by UI coordinate hit testing.
#[derive(Debug, Clone, Copy, PartialEq, Eq, Structural)]
pub enum ClickTarget {
    Clock,
    SessionControl(SessionKind),
    Todo,
    TodoTask(usize),
    Done,
    DoneTask(usize),
    SettingsRow(usize),
    Outside,
}

/// Progress, in nanoseconds, from which leaving a session asks for confirmation.
pub open spec fn confirmation_threshold() -> nat {
    10_000_000_000
}

/// The countdown, in nanoseconds, before a recommended session starts by itself.
pub open spec fn autostart_delay() -> nat {
    5_000_000_000
}

/// The longest gap, in nanoseconds, between the two clicks of a double click.
pub open spec fn double_click_window() -> nat {
    500_000_000
}

/// The abstract application; instants and spans are in nanoseconds.
pub struct AppModel {
    pub config: ConfigSettings,
    pub timer: TimerModel,
    pub tasks: TaskListModel,
    pub ui_focus: UiFocus,
    pub last_task_focus: UiFocus,
    pub todo_selection: usize,
    pub done_selection: usize,
    pub todo_offset: usize,
    pub done_offset: usize,
    pub edit_mode: EditMode,
    pub input: Seq<char>,
    pub last_click: Option<(ClickTarget, nat)>,
    pub pending_confirmation: Option<PendingConfirmation>,
    pub pending_autostart: Option<(SessionKind, nat)>,
    pub completion_audio_active: bool,
    pub show_task_numbers: bool,
    pub settings: Option<OverlayModel>,
    pub write_error: Option<(Seq<char>, nat)>,
    pub write_error_log: Seq<Seq<char>>,
}

/// The focus reached from `focus` in `direction`.
pub open spec fn navigated(focus: UiFocus, direction: Direction) -> UiFocus {
    match (focus, direction) {
        (UiFocus::Clock, Direction::Down) => UiFocus::Todo,
        (UiFocus::Todo, Direction::Up) | (UiFocus::Done, Direction::Up) => UiFocus::Clock,
        (UiFocus::Todo, Direction::Right) => UiFocus::Done,
        (UiFocus::Done, Direction::Left) => UiFocus::Todo,
        _ => focus,
    }
}

/// A selection moved one step within a list of `len` entries; an empty list selects 0.
pub open spec fn stepped(selection: usize, len: nat, direction: Direction) -> usize {
    if len == 0 {
        0
    } else {
        match direction {
            Direction::Left | Direction::Up => if selection > 0 { (selection - 1) as usize } else { 0 },
            Direction::Down | Direction::Right => if selection + 1 < len { (selection + 1) as usize } else { (len - 1) as usize },
        }
    }
}

/// The larger of `n - 1` and zero.
pub open spec fn last_index(n: nat) -> usize {
    if n > 0 { (n - 1) as usize } else { 0 }
}

pub open spec fn min_usize(a: usize, b: usize) -> usize {
    if a <= b { a } else { b }
}

/// The timer after a change is applied without asking.
pub open spec fn timer_changed(t: TimerModel, change: TimerChange) -> TimerModel {
    let reset = t.reset_session();
    match change {
        TimerChange::Reset => reset,
        TimerChange::Cycle => reset.cycle_ready_session(),
        TimerChange::SelectSession(s) => reset.select_session(s),
        TimerChange::StartSession(s) => reset.start_session(s),
    }
}

/// What the Focus audio does when the timer goes from `before` to `after`.
pub open spec fn audio_transition(before: TimerState, after: TimerState) -> Option<FocusAudioAction> {
    let focus_running = TimerState::Running(SessionKind::Focus);
    let focus_paused = TimerState::Paused(SessionKind::Focus);
    if after == focus_running && before != focus_running {
        Some(FocusAudioAction::StartOrResume)
    } else if before == focus_running && after == focus_paused {
        Some(FocusAudioAction::Pause)
    } else if (before == focus_running || before == focus_paused) && after != focus_running && after != focus_paused {
        Some(FocusAudioAction::Stop)
    } else {
        None
    }
}

/// `outcome`, or the Focus audio change of the timer transition when there is none.
pub open spec fn timer_outcome(before: TimerState, after: TimerState, outcome: OutcomeModel) -> OutcomeModel {
    if outcome != OutcomeModel::NoEffect {
        outcome
    } else {
        match audio_transition(before, after) {
            Some(a) => OutcomeModel::FocusAudio(a),
            None => OutcomeModel::NoEffect,
        }
    }
}

/// The outcome of leaving an autostart countdown: the completion sound stops.
pub open spec fn autostart_outcome(before: TimerState, after: TimerState) -> OutcomeModel {
    OutcomeModel::TimerEffects { focus_audio: audio_transition(before, after), stop_completion_audio: true }
}

/// `outcome` together with stopping the completion sound.
pub open spec fn with_completion_stop(outcome: OutcomeModel) -> OutcomeModel {
    match outcome {
        OutcomeModel::FocusAudio(a) => OutcomeModel::TimerEffects { focus_audio: Some(a), stop_completion_audio: true },
        OutcomeModel::NoEffect => OutcomeModel::TimerEffects { focus_audio: None, stop_completion_audio: true },
        _ => outcome,
    }
}

/// The overlay of a freshly opened settings view.
pub open spec fn fresh_overlay(config: ConfigSettings) -> OverlayModel {
    OverlayModel { config, selection: 0, input: None, capturing: false, error: None, write_error: None, offset: 0 }
}

/// Whether `after` is the overlay `before` once it handles `action`.
pub open spec fn overlay_step(before: OverlayModel, action: Action, after: OverlayModel) -> bool {
    match action {
        Action::SettingsMove(d) => after == before.move_selection(d),
        Action::Scroll(ScrollTarget::Settings, Direction::Down) => after == before.move_selection(SettingsMoveDirection::Down),
        Action::Scroll(ScrollTarget::Settings, Direction::Up) => after == before.move_selection(SettingsMoveDirection::Up),
        Action::SettingsAdjust(d) => adjusted(before, d, after),
        Action::SettingsActivate => activated(before, after),
        Action::SettingsPushInput(c) => after == before.push_input(c),
        Action::SettingsPopInput => after == before.pop_input(),
        Action::SettingsSubmitInput => submitted(before, after),
        Action::SettingsCaptureKey(k) => captured(before, k, after),
        Action::SettingsCancel => after == before.cancel_nested().0,
        _ => after == before,
    }
}

impl AppModel {
    pub open spec fn focus(self, focus: UiFocus) -> AppModel {
        AppModel {
            ui_focus: focus,
            last_task_focus: if focus is Clock { self.last_task_focus } else { focus },
            ..self
        }
    }

    pub open spec fn clear_click(self) -> AppModel {
        AppModel { last_click: None, ..self }
    }

    pub open spec fn record_click(self, target: ClickTarget, now: nat) -> AppModel {
        AppModel { last_click: Some((target, now)), ..self }
    }

    pub open spec fn with_timer(self, timer: TimerModel) -> AppModel {
        AppModel { timer, ..self }
    }

    /// Selections kept within their lists and offsets at most their selections.
    pub open spec fn clamp_selections(self) -> AppModel {
        let todo = min_usize(self.todo_selection, last_index(self.tasks.pending.len()));
        let done = min_usize(self.done_selection, last_index(self.tasks.completed.len()));
        AppModel {
            todo_selection: todo,
            done_selection: done,
            todo_offset: min_usize(self.todo_offset, todo),
            done_offset: min_usize(self.done_offset, done),
            ..self
        }
    }

    pub open spec fn move_todo_selection(self, direction: Direction) -> AppModel {
        AppModel { todo_selection: stepped(self.todo_selection, self.tasks.pending.len(), direction), ..self }
    }

    pub open spec fn move_done_selection(self, direction: Direction) -> AppModel {
        AppModel { done_selection: stepped(self.done_selection, self.tasks.completed.len(), direction), ..self }
    }

    /// The selected task moved one place within its list, and whether it moved.
    pub open spec fn move_selected_task(self, direction: Direction) -> (AppModel, bool) {
        let t = self.tasks;
        match (self.ui_focus, direction) {
            (UiFocus::Todo, Direction::Up) => {
                let (list, moved) = move_up_in(t.pending, self.todo_selection as int);
                if moved {
                    let s = (self.todo_selection - 1) as usize;
                    (AppModel { tasks: TaskListModel { pending: list, ..t }, todo_selection: s,
                        todo_offset: min_usize(self.todo_offset, s), ..self }, true)
                } else {
                    (self, false)
                }
            },
            (UiFocus::Todo, Direction::Down) => {
                let (list, moved) = move_down_in(t.pending, self.todo_selection as int);
                if moved {
                    (AppModel { tasks: TaskListModel { pending: list, ..t },
                        todo_selection: (self.todo_selection + 1) as usize, ..self }, true)
                } else {
                    (self, false)
                }
            },
            (UiFocus::Done, Direction::Up) => {
                let (list, moved) = move_up_in(t.completed, self.done_selection as int);
                if moved {
                    let s = (self.done_selection - 1) as usize;
                    (AppModel { tasks: TaskListModel { completed: list, ..t }, done_selection: s,
                        done_offset: min_usize(self.done_offset, s), ..self }, true)
                } else {
                    (self, false)
                }
            },
            (UiFocus::Done, Direction::Down) => {
                let (list, moved) = move_down_in(t.completed, self.done_selection as int);
                if moved {
                    (AppModel { tasks: TaskListModel { completed: list, ..t },
                        done_selection: (self.done_selection + 1) as usize, ..self }, true)
                } else {
                    (self, false)
                }
            },
            _ => (self, false),
        }
    }

    /// The selected to-do moved to the end of the done list, and whether it existed.
    pub open spec fn complete_selected_todo(self) -> (AppModel, bool) {
        let t = self.tasks;
        let i = self.todo_selection as int;
        if i < t.pending.len() {
            (AppModel { tasks: TaskListModel { pending: t.pending.remove(i), completed: t.completed.push(t.pending[i]) },
                ..self }.clamp_selections(), true)
        } else {
            (self, false)
        }
    }

    /// The selected done task moved back to the end of the to-do list, and whether it existed.
    pub open spec fn return_selected_done(self) -> (AppModel, bool) {
        let t = self.tasks;
        let i = self.done_selection as int;
        if i < t.completed.len() {
            (AppModel { tasks: TaskListModel { completed: t.completed.remove(i), pending: t.pending.push(t.completed[i]) },
                ..self }.clamp_selections(), true)
        } else {
            (self, false)
        }
    }

    pub open spec fn delete_selected_todo(self) -> (AppModel, bool) {
        let t = self.tasks;
        let i = self.todo_selection as int;
        if i < t.pending.len() {
            (AppModel { tasks: TaskListModel { pending: t.pending.remove(i), ..t }, ..self }.clamp_selections(), true)
        } else {
            (self, false)
        }
    }

    pub open spec fn delete_selected_done(self) -> (AppModel, bool) {
        let t = self.tasks;
        let i = self.done_selection as int;
        if i < t.completed.len() {
            (AppModel { tasks: TaskListModel { completed: t.completed.remove(i), ..t }, ..self }.clamp_selections(), true)
        } else {
            (self, false)
        }
    }

    /// Starts editing the selected task of the focused list, if there is one.
    pub open spec fn edit_selected(self) -> AppModel {
        match self.ui_focus {
            UiFocus::Todo => if (self.todo_selection as int) < self.tasks.pending.len() {
                AppModel { input: self.tasks.pending[self.todo_selection as int],
                    edit_mode: EditMode::Editing { task_index: self.todo_selection }, ..self }
            } else {
                self
            },
            UiFocus::Done => if (self.done_selection as int) < self.tasks.completed.len() {
                AppModel { input: self.tasks.completed[self.done_selection as int],
                    edit_mode: EditMode::Editing { task_index: self.done_selection }, ..self }
            } else {
                self
            },
            UiFocus::Clock => self,
        }
    }

    pub open spec fn begin_add(self) -> AppModel {
        if self.ui_focus is Clock {
            self
        } else {
            AppModel { input: Seq::empty(), edit_mode: EditMode::Adding, ..self }
        }
    }

    pub open spec fn cancel_edit(self) -> AppModel {
        AppModel { input: Seq::empty(), edit_mode: EditMode::Normal, ..self }
    }

    /// The entered text added or stored into the edited task, and whether the tasks changed.
    pub open spec fn submit_edit(self) -> (AppModel, bool) {
        let text = self.input;
        let t = self.tasks;
        let (tasks, changed) = match self.edit_mode {
            EditMode::Adding => if is_blank(text) {
                (t, false)
            } else if self.ui_focus is Done {
                (TaskListModel { completed: add_to(t.completed, text), ..t }, true)
            } else {
                (TaskListModel { pending: add_to(t.pending, text), ..t }, true)
            },
            EditMode::Editing { task_index } => match self.ui_focus {
                UiFocus::Todo => {
                    let (list, ok) = edit_in(t.pending, task_index as int, text);
                    (TaskListModel { pending: list, ..t }, ok)
                },
                UiFocus::Done => {
                    let (list, ok) = edit_in(t.completed, task_index as int, text);
                    (TaskListModel { completed: list, ..t }, ok)
                },
                UiFocus::Clock => (t, false),
            },
            EditMode::Normal => (t, false),
        };
        (AppModel { tasks, input: Seq::empty(), edit_mode: EditMode::Normal, ..self }.clamp_selections(), changed)
    }

    pub open spec fn push_input(self, c: char) -> AppModel {
        AppModel { input: self.input.push(c), ..self }
    }

    pub open spec fn pop_input(self) -> AppModel {
        AppModel { input: if self.input.len() > 0 { self.input.drop_last() } else { self.input }, ..self }
    }

    pub open spec fn open_settings(self) -> AppModel {
        AppModel { settings: Some(fresh_overlay(self.config)), last_click: None, ..self }
    }

    /// The application paused behind a confirmation of `operation`.
    pub open spec fn ask(self, operation: ConfirmationOperation) -> AppModel {
        let prior_activity = if self.timer.state is Running { PriorActivity::Running } else { PriorActivity::Paused };
        AppModel {
            timer: self.timer.pause(),
            pending_confirmation: Some(PendingConfirmation { operation, prior_activity }),
            last_click: None,
            ..self
        }
    }

    /// Whether leaving the current session needs confirmation.
    pub open spec fn needs_confirmation(self) -> bool {
        !(self.timer.state is Ready) && self.timer.progress() >= confirmation_threshold()
    }

    /// A timer change, applied at once or held behind a confirmation.
    pub open spec fn request_timer_change(self, change: TimerChange) -> AppModel {
        if self.needs_confirmation() {
            self.ask(ConfirmationOperation::TimerChange(change))
        } else {
            self.with_timer(timer_changed(self.timer, change))
        }
    }

    /// Quitting at once, or holding it behind a confirmation.
    pub open spec fn request_quit(self) -> (AppModel, OutcomeModel) {
        if self.needs_confirmation() {
            (self.ask(ConfirmationOperation::Quit), OutcomeModel::NoEffect)
        } else {
            (self, OutcomeModel::Quit)
        }
    }

    pub open spec fn confirm_pending(self) -> (AppModel, OutcomeModel) {
        let cleared = AppModel { pending_confirmation: None, last_click: None, ..self };
        match self.pending_confirmation {
            Some(p) => match p.operation {
                ConfirmationOperation::Quit => (cleared, OutcomeModel::Quit),
                ConfirmationOperation::TimerChange(c) => (cleared.with_timer(timer_changed(self.timer, c)), OutcomeModel::NoEffect),
            },
            None => (cleared, OutcomeModel::NoEffect),
        }
    }

    pub open spec fn cancel_pending(self) -> AppModel {
        let resume = self.pending_confirmation matches Some(p) && p.prior_activity is Running;
        AppModel {
            pending_confirmation: None,
            last_click: None,
            timer: if resume { self.timer.resume() } else { self.timer },
            ..self
        }
    }

    /// The application once the settings overlay emits `config`.
    pub open spec fn apply_settings(self, config: ConfigSettings) -> AppModel {
        let t = config.timer;
        let timer = if t != self.config.timer {
            self.timer.reconfigure(t.focus_seconds * 1_000_000_000, t.short_break_seconds * 1_000_000_000,
                t.long_break_seconds * 1_000_000_000, t.long_break_interval)
        } else {
            self.timer
        };
        AppModel { timer, show_task_numbers: config.tasks.show_numbers, config, ..self }
    }

    /// The application after a non-settings action with no confirmation pending and no
    /// autostart claiming it, and whether the tasks changed.
    pub open spec fn apply_action(self, action: Action) -> (AppModel, bool) {
        match action {
            Action::NavigateFocus(d) => (self.focus(navigated(self.ui_focus, d)), false),
            Action::Scroll(ScrollTarget::Todo, d) => (self.focus(UiFocus::Todo).move_todo_selection(d), false),
            Action::Scroll(ScrollTarget::Done, d) => (self.focus(UiFocus::Done).move_done_selection(d), false),
            Action::MoveSelection(d) => (match self.ui_focus {
                UiFocus::Clock => self,
                UiFocus::Todo => self.move_todo_selection(d),
                UiFocus::Done => self.move_done_selection(d),
            }, false),
            Action::MoveSelectedTask(d) => self.move_selected_task(d),
            Action::PrimaryAction => match self.ui_focus {
                UiFocus::Clock => (self.with_timer(self.timer.primary_action()), false),
                UiFocus::Todo => self.complete_selected_todo(),
                UiFocus::Done => self.return_selected_done(),
            },
            Action::CycleSession => (self.request_timer_change(TimerChange::Cycle), false),
            Action::ResetSession => (self.request_timer_change(TimerChange::Reset), false),
            Action::BeginAdd => (self.begin_add(), false),
            Action::EditSelected => (self.edit_selected(), false),
            Action::DeleteSelected => match self.ui_focus {
                UiFocus::Clock => (self, false),
                UiFocus::Todo => self.delete_selected_todo(),
                UiFocus::Done => self.delete_selected_done(),
            },
            Action::SubmitEdit => self.submit_edit(),
            Action::CancelEdit => (self.cancel_edit(), false),
            Action::PushInput(c) => (self.push_input(c), false),
            Action::PopInput => (self.pop_input(), false),
            Action::OpenSettings => (self.open_settings(), false),
            _ => (self, false),
        }
    }

    /// Whether an autostart countdown claims `action`.
    pub open spec fn autostart_claims(self, action: Action) -> bool {
        &&& self.pending_autostart is Some
        &&& (action == Action::PrimaryAction && self.ui_focus is Clock || action == Action::CycleSession
            || action == Action::CancelPendingAction)
    }

    /// Whether `action` silences the completion sound.
    pub open spec fn stops_completion(self, action: Action) -> bool {
        self.completion_audio_active && (action == Action::CycleSession || action == Action::PrimaryAction
            && self.ui_focus is Clock)
    }

    /// The application and outcome when an autostart countdown claims `action`: the
    /// countdown ends, the completion sound stops, and a start or cycle is applied.
    pub open spec fn autostart_step(self, action: Action) -> (AppModel, OutcomeModel) {
        let cleared = AppModel { pending_autostart: None, completion_audio_active: false, ..self };
        let timer = match action {
            Action::PrimaryAction => self.timer.primary_action(),
            Action::CycleSession => self.timer.cycle_ready_session(),
            _ => self.timer,
        };
        (cleared.with_timer(timer), autostart_outcome(self.timer.state, timer.state))
    }

    /// The application and outcome after an action that no countdown claims.
    pub open spec fn ordinary_step(self, action: Action) -> (AppModel, OutcomeModel) {
        let before = self.timer.state;
        let stop = self.stops_completion(action);
        let m = if stop { AppModel { completion_audio_active: false, ..self } } else { self };
        if action == Action::Quit {
            let (n, o) = m.request_quit();
            (n, timer_outcome(before, n.timer.state, o))
        } else {
            let (n, changed) = m.apply_action(action);
            if changed {
                (n, OutcomeModel::TasksChanged)
            } else {
                let o = timer_outcome(before, n.timer.state, OutcomeModel::NoEffect);
                (n, if stop { with_completion_stop(o) } else { o })
            }
        }
    }

    /// The application and outcome after `action` with the settings overlay closed and no
    /// confirmation pending.
    pub open spec fn main_step(self, action: Action) -> (AppModel, OutcomeModel) {
        if self.autostart_claims(action) {
            self.autostart_step(action)
        } else {
            self.ordinary_step(action)
        }
    }

    /// The application and outcome after `action` while a confirmation is pending.
    pub open spec fn confirmation_step(self, action: Action) -> (AppModel, OutcomeModel) {
        let (n, o) = match action {
            Action::ConfirmPendingAction => self.confirm_pending(),
            Action::CancelPendingAction => (self.cancel_pending(), OutcomeModel::NoEffect),
            _ => (self, OutcomeModel::NoEffect),
        };
        (n, timer_outcome(self.timer.state, n.timer.state, o))
    }
}

/// Whether `after` and `outcome` follow from `before` handling `action` with the
/// settings overlay open: closing leaves it unless an edit holds it, and any other
/// action goes to the overlay, whose changed configuration is applied and emitted.
pub open spec fn settings_dispatched(before: AppModel, action: Action, after: AppModel, outcome: OutcomeModel) -> bool {
    let o = before.settings->0;
    if action == Action::SettingsClose && !o.locked() {
        after == AppModel { settings: None, last_click: None, ..before } && outcome == OutcomeModel::NoEffect
    } else {
        &&& after.settings is Some
        &&& overlay_step(o, action, after.settings->0)
        &&& {
            let stepped = AppModel { settings: after.settings, ..before };
            let c = after.settings->0.config;
            if c == before.config {
                after == stepped && outcome == OutcomeModel::NoEffect
            } else {
                after == stepped.apply_settings(c) && outcome == OutcomeModel::SettingsChanged(c)
            }
        }
    }
}

/// Whether `after` and `outcome` follow from `before` handling `action`.
pub open spec fn dispatched(before: AppModel, action: Action, after: AppModel, outcome: OutcomeModel) -> bool {
    if before.pending_confirmation is Some {
        (after, outcome) == before.confirmation_step(action)
    } else if before.settings is Some {
        settings_dispatched(before, action, after, outcome)
    } else {
        (after, outcome) == before.main_step(action)
    }
}

/// Lets `elapsed` pass for the write failures on screen.
pub open spec fn write_errors_aged(m: AppModel, elapsed: nat) -> AppModel {
    AppModel {
        write_error: match m.write_error {
            Some((message, left)) => if elapsed < left { Some((message, (left - elapsed) as nat)) } else { None },
            None => None,
        },
        settings: match m.settings {
            Some(o) => Some(write_error_aged(o, elapsed)),
            None => None,
        },
        ..m
    }
}

/// The application and outcome after `elapsed` nanoseconds.
pub open spec fn ticked(m: AppModel, elapsed: nat) -> (AppModel, OutcomeModel) {
    let a = write_errors_aged(m, elapsed);
    match a.pending_autostart {
        Some((session, left)) => if elapsed < left {
            (AppModel { pending_autostart: Some((session, (left - elapsed) as nat)), ..a }, OutcomeModel::NoEffect)
        } else {
            let timer = a.timer.primary_action();
            (AppModel { pending_autostart: None, completion_audio_active: false, timer, ..a },
                autostart_outcome(a.timer.state, timer.state))
        },
        None => {
            let (timer, completed) = a.timer.tick(elapsed);
            match completed {
                None => (a.with_timer(timer), OutcomeModel::NoEffect),
                Some(k) => {
                    let recommended = state_session(timer.state);
                    let enabled = if recommended is Focus { a.config.timer.autostart_focus } else { a.config.timer.autostart_breaks };
                    (AppModel {
                        timer,
                        pending_autostart: if enabled { Some((recommended, autostart_delay())) } else { None },
                        completion_audio_active: true,
                        ..a
                    }, OutcomeModel::SessionCompleted(k))
                },
            }
        },
    }
}

/// Whether `target`, clicked at `now`, repeats the last click soon enough.
pub open spec fn is_double_click(m: AppModel, target: ClickTarget, now: nat) -> bool {
    m.last_click matches Some((t, at)) && t == target && at <= now && now - at <= double_click_window()
}

/// A click on the clock or a task: a double click acts, a single click is remembered.
pub open spec fn actionable_click(m: AppModel, target: ClickTarget, now: nat) -> (AppModel, bool) {
    if is_double_click(m, target, now) {
        let (n, changed) = match target {
            ClickTarget::Clock => (m.with_timer(m.timer.primary_action()), false),
            ClickTarget::TodoTask(_) => m.complete_selected_todo(),
            ClickTarget::DoneTask(_) => m.return_selected_done(),
            _ => (m, false),
        };
        (n.clear_click(), changed)
    } else {
        (m.record_click(target, now), false)
    }
}

/// A click on a session control with no autostart pending.
pub open spec fn session_click(m: AppModel, session: SessionKind, now: nat) -> AppModel {
    let target = ClickTarget::SessionControl(session);
    let double = is_double_click(m, target, now);
    let f = m.focus(UiFocus::Clock);
    match m.timer.state {
        TimerState::Ready(_) => if double {
            f.with_timer(m.timer.start_session(session)).clear_click()
        } else {
            f.with_timer(m.timer.select_session(session)).record_click(target, now)
        },
        TimerState::Running(active) | TimerState::Paused(active) => if session == active {
            if double {
                f.with_timer(m.timer.primary_action()).clear_click()
            } else {
                f.record_click(target, now)
            }
        } else {
            f.request_timer_change(TimerChange::SelectSession(session)).record_click(target, now)
        },
    }
}

/// The application after an ordinary click, and whether the tasks changed.
pub open spec fn plain_click(m: AppModel, target: ClickTarget, now: nat) -> (AppModel, bool) {
    match target {
        ClickTarget::Clock => actionable_click(m.focus(UiFocus::Clock), target, now),
        ClickTarget::SessionControl(s) => (session_click(m, s, now), false),
        ClickTarget::Todo => (m.focus(UiFocus::Todo).clear_click(), false),
        ClickTarget::TodoTask(i) => actionable_click(AppModel { todo_selection: i, ..m.focus(UiFocus::Todo) }, target, now),
        ClickTarget::Done => (m.focus(UiFocus::Done).clear_click(), false),
        ClickTarget::DoneTask(i) => actionable_click(AppModel { done_selection: i, ..m.focus(UiFocus::Done) }, target, now),
        ClickTarget::Outside => (m.clear_click(), false),
        ClickTarget::SettingsRow(_) => (m, false),
    }
}

/// A double click that turns a pending session selection into starting the session.
pub open spec fn upgraded_click(m: AppModel, target: ClickTarget, now: nat) -> AppModel {
    match (target, m.pending_confirmation) {
        (ClickTarget::SessionControl(s), Some(p)) => if p.operation == ConfirmationOperation::TimerChange(
            TimerChange::SelectSession(s)) && is_double_click(m, target, now) {
            AppModel {
                pending_confirmation: Some(PendingConfirmation {
                    operation: ConfirmationOperation::TimerChange(TimerChange::StartSession(s)),
                    ..p
                }),
                last_click: None,
                ..m
            }
        } else {
            m
        },
        _ => m,
    }
}

/// Whether `after` and `outcome` follow from `before` handling a click on `target` at `now`.
pub open spec fn clicked(before: AppModel, target: ClickTarget, now: nat, after: AppModel, outcome: OutcomeModel) -> bool {
    let prior = before.timer.state;
    let double = is_double_click(before, target, now);
    if !(before.edit_mode is Normal) {
        after == before && outcome == OutcomeModel::NoEffect
    } else if before.pending_confirmation is Some {
        after == upgraded_click(before, target, now) && outcome == OutcomeModel::NoEffect
    } else if before.settings is Some {
        match target {
            ClickTarget::SettingsRow(i) => {
                let selected = AppModel { settings: Some(before.settings->0.select(i as nat)), ..before };
                if double {
                    settings_dispatched(selected.clear_click(), Action::SettingsActivate, after, outcome)
                } else {
                    after == selected.record_click(target, now) && outcome == OutcomeModel::NoEffect
                }
            },
            _ => after == before && outcome == OutcomeModel::NoEffect,
        }
    } else if before.pending_autostart is Some && target is SessionControl {
        let s = target->SessionControl_0;
        let cleared = AppModel { pending_autostart: None, completion_audio_active: false, ..before };
        let n = cleared.focus(UiFocus::Clock).with_timer(before.timer.select_session(s)).record_click(target, now);
        after == n && outcome == autostart_outcome(prior, n.timer.state)
    } else if before.pending_autostart is Some && target == ClickTarget::Clock && double {
        let cleared = AppModel { pending_autostart: None, completion_audio_active: false, ..before };
        let n = cleared.focus(UiFocus::Clock).with_timer(before.timer.primary_action()).clear_click();
        after == n && outcome == autostart_outcome(prior, n.timer.state)
    } else {
        let stop = before.completion_audio_active && (target is SessionControl || target == ClickTarget::Clock && double);
        let m = if stop { AppModel { completion_audio_active: false, ..before } } else { before };
        let (n, changed) = plain_click(m, target, now);
        after == n && outcome == if changed {
            OutcomeModel::TasksChanged
        } else {
            let o = timer_outcome(prior, n.timer.state, OutcomeModel::NoEffect);
            if stop { with_completion_stop(o) } else { o }
        }
    }
}

} // verus!
