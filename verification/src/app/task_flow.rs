//! Focus, selection and task editing.
use vstd::prelude::*;

use super::action::Direction;
use super::model::{navigated, stepped, AppModel, EditMode, UiFocus};
use super::App;
use crate::text::{blank, pop_char, push_char};

verus! {

impl UiFocus {
    /// The focus reached in `direction`.
    pub fn navigate(self, direction: Direction) -> (f: UiFocus)
        ensures
            f == navigated(self, direction),
    {
        match (self, direction) {
            (UiFocus::Clock, Direction::Down) => UiFocus::Todo,
            (UiFocus::Todo, Direction::Up) | (UiFocus::Done, Direction::Up) => UiFocus::Clock,
            (UiFocus::Todo, Direction::Right) => UiFocus::Done,
            (UiFocus::Done, Direction::Left) => UiFocus::Todo,
            _ => self,
        }
    }
}

/// A selection moved one step within a list of `len` entries.
fn step(selection: usize, len: usize, direction: Direction) -> (s: usize)
    ensures
        s == stepped(selection, len as nat, direction),
{
    if len == 0 {
        return 0;
    }
    match direction {
        Direction::Left | Direction::Up => if selection > 0 { selection - 1 } else { 0 },
        Direction::Down | Direction::Right => if selection < len - 1 { selection + 1 } else { len - 1 },
    }
}

impl App {
    pub(super) fn focus(&mut self, focus: UiFocus)
        ensures
            final(self)@ == old(self)@.focus(focus),
    {
        self.ui_focus = focus;
        if focus != UiFocus::Clock {
            self.last_task_focus = focus;
        }
    }

    pub(super) fn select_todo(&mut self, selection: usize)
        ensures
            final(self)@ == (AppModel { todo_selection: selection, ..old(self)@ }),
    {
        self.todo_selection = selection;
    }

    pub(super) fn select_done(&mut self, selection: usize)
        ensures
            final(self)@ == (AppModel { done_selection: selection, ..old(self)@ }),
    {
        self.done_selection = selection;
    }

    pub(super) fn move_todo_selection(&mut self, direction: Direction)
        ensures
            final(self)@ == old(self)@.move_todo_selection(direction),
    {
        let len = self.tasks.pending_len();
        self.todo_selection = step(self.todo_selection, len, direction);
    }

    pub(super) fn move_done_selection(&mut self, direction: Direction)
        ensures
            final(self)@ == old(self)@.move_done_selection(direction),
    {
        let len = self.tasks.completed_len();
        self.done_selection = step(self.done_selection, len, direction);
    }

    pub(super) fn clamp_selections(&mut self)
        ensures
            final(self)@ == old(self)@.clamp_selections(),
    {
        let pending_len = self.tasks.pending_len();
        let completed_len = self.tasks.completed_len();
        let last_todo = if pending_len > 0 { pending_len - 1 } else { 0 };
        let last_done = if completed_len > 0 { completed_len - 1 } else { 0 };
        if self.todo_selection > last_todo {
            self.todo_selection = last_todo;
        }
        if self.done_selection > last_done {
            self.done_selection = last_done;
        }
        if self.todo_offset > self.todo_selection {
            self.todo_offset = self.todo_selection;
        }
        if self.done_offset > self.done_selection {
            self.done_offset = self.done_selection;
        }
    }

    pub(super) fn move_selected_task(&mut self, direction: Direction) -> (changed: bool)
        ensures
            (final(self)@, changed) == old(self)@.move_selected_task(direction),
    {
        match (self.ui_focus, direction) {
            (UiFocus::Todo, Direction::Up) => {
                let changed = self.tasks.move_pending_up(self.todo_selection);
                if changed {
                    self.todo_selection = self.todo_selection - 1;
                    if self.todo_offset > self.todo_selection {
                        self.todo_offset = self.todo_selection;
                    }
                }
                changed
            },
            (UiFocus::Todo, Direction::Down) => {
                let _len = self.tasks.pending_len();
                let changed = self.tasks.move_pending_down(self.todo_selection);
                if changed {
                    self.todo_selection = self.todo_selection + 1;
                }
                changed
            },
            (UiFocus::Done, Direction::Up) => {
                let changed = self.tasks.move_completed_up(self.done_selection);
                if changed {
                    self.done_selection = self.done_selection - 1;
                    if self.done_offset > self.done_selection {
                        self.done_offset = self.done_selection;
                    }
                }
                changed
            },
            (UiFocus::Done, Direction::Down) => {
                let _len = self.tasks.completed_len();
                let changed = self.tasks.move_completed_down(self.done_selection);
                if changed {
                    self.done_selection = self.done_selection + 1;
                }
                changed
            },
            _ => false,
        }
    }

    pub(super) fn complete_selected_todo(&mut self) -> (changed: bool)
        ensures
            (final(self)@, changed) == old(self)@.complete_selected_todo(),
    {
        if self.todo_selection < self.tasks.pending_len() {
            let changed = self.tasks.complete(self.todo_selection);
            self.clamp_selections();
            changed
        } else {
            false
        }
    }

    pub(super) fn return_selected_done(&mut self) -> (changed: bool)
        ensures
            (final(self)@, changed) == old(self)@.return_selected_done(),
    {
        if self.done_selection < self.tasks.completed_len() {
            let changed = self.tasks.uncomplete(self.done_selection);
            self.clamp_selections();
            changed
        } else {
            false
        }
    }

    pub(super) fn delete_selected_todo(&mut self) -> (changed: bool)
        ensures
            (final(self)@, changed) == old(self)@.delete_selected_todo(),
    {
        if self.todo_selection < self.tasks.pending_len() {
            let changed = self.tasks.delete_pending(self.todo_selection);
            self.clamp_selections();
            changed
        } else {
            false
        }
    }

    pub(super) fn delete_selected_done(&mut self) -> (changed: bool)
        ensures
            (final(self)@, changed) == old(self)@.delete_selected_done(),
    {
        if self.done_selection < self.tasks.completed_len() {
            let changed = self.tasks.delete_completed(self.done_selection);
            self.clamp_selections();
            changed
        } else {
            false
        }
    }

    pub(super) fn edit_selected(&mut self)
        ensures
            final(self)@ == old(self)@.edit_selected(),
    {
        match self.ui_focus {
            UiFocus::Todo => {
                if let Some(description) = self.tasks.pending_description(self.todo_selection) {
                    self.input = description;
                    self.edit_mode = EditMode::Editing { task_index: self.todo_selection };
                }
            },
            UiFocus::Done => {
                if let Some(description) = self.tasks.completed_description(self.done_selection) {
                    self.input = description;
                    self.edit_mode = EditMode::Editing { task_index: self.done_selection };
                }
            },
            UiFocus::Clock => {},
        }
    }

    pub(super) fn begin_add(&mut self)
        ensures
            final(self)@ == old(self)@.begin_add(),
    {
        if self.ui_focus == UiFocus::Clock {
            return;
        }
        self.input = String::new();
        self.edit_mode = EditMode::Adding;
    }

    pub(super) fn cancel_edit(&mut self)
        ensures
            final(self)@ == old(self)@.cancel_edit(),
    {
        self.input = String::new();
        self.edit_mode = EditMode::Normal;
    }

    pub(super) fn submit_edit(&mut self) -> (changed: bool)
        ensures
            (final(self)@, changed) == old(self)@.submit_edit(),
    {
        let description = self.input.clone();
        self.input = String::new();
        let changed = match self.edit_mode {
            EditMode::Adding => {
                if blank(description.as_str()) {
                    false
                } else if self.ui_focus == UiFocus::Done {
                    self.tasks.add_completed(description);
                    true
                } else {
                    self.tasks.add(description);
                    true
                }
            },
            EditMode::Editing { task_index } => match self.ui_focus {
                UiFocus::Todo => self.tasks.edit_pending(task_index, description),
                UiFocus::Done => self.tasks.edit_completed(task_index, description),
                UiFocus::Clock => false,
            },
            EditMode::Normal => false,
        };
        self.edit_mode = EditMode::Normal;
        self.clamp_selections();
        changed
    }

    pub(super) fn push_input(&mut self, character: char)
        ensures
            final(self)@ == old(self)@.push_input(character),
    {
        push_char(&mut self.input, character);
    }

    pub(super) fn pop_input(&mut self)
        ensures
            final(self)@ == old(self)@.pop_input(),
    {
        let _ = pop_char(&mut self.input);
    }
}

} // verus!
