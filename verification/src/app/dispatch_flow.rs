//! Actions with the settings overlay closed and no confirmation pending.
use vstd::prelude::*;

use super::action::{Action, AppOutcome, ScrollTarget};
use super::model::{TimerChange, UiFocus};
use super::timer_flow::{leaving_autostart, stopping_completion, transition_outcome};
use super::App;

verus! {

impl App {
    /// Applies an action that no autostart countdown claims; reports whether tasks changed.
    fn apply_action(&mut self, action: Action) -> (changed: bool)
        ensures
            (final(self)@, changed) == old(self)@.apply_action(action),
    {
        match action {
            Action::NavigateFocus(direction) => {
                let focus = self.ui_focus.navigate(direction);
                self.focus(focus);
                false
            },
            Action::Scroll(ScrollTarget::Todo, direction) => {
                self.focus(UiFocus::Todo);
                self.move_todo_selection(direction);
                false
            },
            Action::Scroll(ScrollTarget::Done, direction) => {
                self.focus(UiFocus::Done);
                self.move_done_selection(direction);
                false
            },
            Action::MoveSelection(direction) => {
                match self.ui_focus {
                    UiFocus::Clock => {},
                    UiFocus::Todo => self.move_todo_selection(direction),
                    UiFocus::Done => self.move_done_selection(direction),
                }
                false
            },
            Action::MoveSelectedTask(direction) => self.move_selected_task(direction),
            Action::PrimaryAction => match self.ui_focus {
                UiFocus::Clock => {
                    self.timer.primary_action();
                    false
                },
                UiFocus::Todo => self.complete_selected_todo(),
                UiFocus::Done => self.return_selected_done(),
            },
            Action::CycleSession => {
                self.request_timer_change(TimerChange::Cycle);
                false
            },
            Action::ResetSession => {
                self.request_timer_change(TimerChange::Reset);
                false
            },
            Action::BeginAdd => {
                self.begin_add();
                false
            },
            Action::EditSelected => {
                self.edit_selected();
                false
            },
            Action::DeleteSelected => match self.ui_focus {
                UiFocus::Clock => false,
                UiFocus::Todo => self.delete_selected_todo(),
                UiFocus::Done => self.delete_selected_done(),
            },
            Action::SubmitEdit => self.submit_edit(),
            Action::CancelEdit => {
                self.cancel_edit();
                false
            },
            Action::PushInput(character) => {
                self.push_input(character);
                false
            },
            Action::PopInput => {
                self.pop_input();
                false
            },
            Action::OpenSettings => {
                self.open_settings();
                false
            },
            _ => false,
        }
    }

    /// Handles `action` with the settings overlay closed and no confirmation pending.
    pub(super) fn main_step(&mut self, action: Action) -> (outcome: AppOutcome)
        ensures
            (final(self)@, outcome@) == old(self)@.main_step(action),
    {
        let claimed = self.pending_autostart.is_some() && (action == Action::PrimaryAction && self.ui_focus
            == UiFocus::Clock || action == Action::CycleSession || action == Action::CancelPendingAction);
        if claimed {
            self.autostart_step(action)
        } else {
            self.ordinary_step(action)
        }
    }

    fn autostart_step(&mut self, action: Action) -> (outcome: AppOutcome)
        ensures
            (final(self)@, outcome@) == old(self)@.autostart_step(action),
    {
        let before = self.timer.state();
        self.pending_autostart = None;
        self.completion_audio_active = false;
        match action {
            Action::PrimaryAction => self.timer.primary_action(),
            Action::CycleSession => self.timer.cycle_ready_session(),
            _ => {},
        }
        leaving_autostart(before, self.timer.state())
    }

    fn ordinary_step(&mut self, action: Action) -> (outcome: AppOutcome)
        ensures
            (final(self)@, outcome@) == old(self)@.ordinary_step(action),
    {
        let before = self.timer.state();
        let stop = self.completion_audio_active && (action == Action::CycleSession || action
            == Action::PrimaryAction && self.ui_focus == UiFocus::Clock);
        if stop {
            self.completion_audio_active = false;
        }
        if action == Action::Quit {
            let outcome = self.request_quit();
            return transition_outcome(before, self.timer.state(), outcome);
        }
        if self.apply_action(action) {
            return AppOutcome::TasksChanged;
        }
        let outcome = transition_outcome(before, self.timer.state(), AppOutcome::NoEffect);
        if stop {
            stopping_completion(outcome)
        } else {
            outcome
        }
    }
}

} // verus!
