//! Terminal-independent parts of the interface: texts, and translating positions in a
//! rendered frame into semantic targets.
pub mod clock;
pub mod footer;
pub mod help;
pub mod settings_view;
pub mod wrap;

use vstd::prelude::*;

use crate::app::{Action, App, ClickTarget, ScrollTarget, UiFocus};
use crate::timer::SessionKind;

verus! {

/// A rectangle of terminal cells.
#[derive(Debug, Clone, Copy, PartialEq, Eq, Structural)]
pub struct Rect {
    pub x: u16,
    pub y: u16,
    pub width: u16,
    pub height: u16,
}

/// A sum capped at `u16::MAX`.
pub open spec fn capped(a: int, b: int) -> int {
    if a + b <= u16::MAX { a + b } else { u16::MAX as int }
}

/// A difference floored at zero.
pub open spec fn floored(a: int, b: int) -> int {
    if a >= b { a - b } else { 0 }
}

impl Rect {
    pub fn new(x: u16, y: u16, width: u16, height: u16) -> (r: Rect)
        ensures
            r == (Rect { x, y, width, height }),
    {
        Rect { x, y, width, height }
    }

    /// Whether the cell at `column` and `row` lies in the rectangle, whose far edges are
    /// capped at the largest coordinate.
    pub open spec fn holds(self, column: u16, row: u16) -> bool {
        self.x <= column < capped(self.x as int, self.width as int) && self.y <= row < capped(self.y as int,
            self.height as int)
    }

    pub fn contains(&self, column: u16, row: u16) -> (b: bool)
        ensures
            b == self.holds(column, row),
    {
        let right = if self.width <= u16::MAX - self.x { self.x + self.width } else { u16::MAX };
        let bottom = if self.height <= u16::MAX - self.y { self.y + self.height } else { u16::MAX };
        self.x <= column && column < right && self.y <= row && row < bottom
    }

    /// The rectangle inside a one-cell border on every side.
    pub open spec fn inside_border(self) -> Rect {
        let right = capped(self.x as int, self.width as int);
        let bottom = capped(self.y as int, self.height as int);
        let x = if self.x as int + 1 <= right { self.x as int + 1 } else { right };
        let y = if self.y as int + 1 <= bottom { self.y as int + 1 } else { bottom };
        Rect { x: x as u16, y: y as u16, width: floored(self.width as int, 2) as u16, height: floored(self.height as int, 2) as u16 }
    }

    /// The rectangle inside a one-cell border, as a bordered block computes it.
    pub fn inner(&self) -> (r: Rect)
        ensures
            r == self.inside_border(),
    {
        let right = if self.width <= u16::MAX - self.x { self.x + self.width } else { u16::MAX };
        let bottom = if self.height <= u16::MAX - self.y { self.y + self.height } else { u16::MAX };
        let x = if self.x < right { self.x + 1 } else { right };
        let y = if self.y < bottom { self.y + 1 } else { bottom };
        Rect {
            x,
            y,
            width: if self.width >= 2 { self.width - 2 } else { 0 },
            height: if self.height >= 2 { self.height - 2 } else { 0 },
        }
    }
}

/// The clock panel and its three session controls, in Focus, short break, long break order.
#[derive(Debug, Clone, Copy, PartialEq, Eq, Structural)]
pub struct ClockGeometry {
    pub area: Rect,
    pub focus_control: Rect,
    pub short_break_control: Rect,
    pub long_break_control: Rect,
}

/// Where the panels of the last rendered frame lie; a panel left out of the frame is `None`.
#[derive(Debug, Clone, Copy, PartialEq, Eq, Structural)]
pub struct FrameGeometry {
    pub clock: Option<ClockGeometry>,
    pub todo: Option<Rect>,
    pub done: Option<Rect>,
    /// The list of settings rows, when the settings overlay is drawn.
    pub settings_list: Option<Rect>,
}

/// The list entry under a position in a bordered task panel, given how far it is scrolled.
pub open spec fn task_row(column: u16, row: u16, area: Rect, offset: usize, len: usize) -> Option<int> {
    let inner = area.inside_border();
    if inner.holds(column, row) && offset + (row - inner.y) < len {
        Some(offset + (row - inner.y))
    } else {
        None
    }
}

/// The list entry under `position` in a bordered task panel scrolled by `offset`.
pub fn task_row_at(position: (u16, u16), area: Rect, offset: usize, len: usize) -> (r: Option<usize>)
    ensures
        match r {
            Some(i) => task_row(position.0, position.1, area, offset, len) == Some(i as int),
            None => task_row(position.0, position.1, area, offset, len) is None,
        },
{
    let inner = area.inner();
    if !inner.contains(position.0, position.1) {
        return None;
    }
    let step = (position.1 - inner.y) as usize;
    if offset < len && step < len - offset {
        Some(offset + step)
    } else {
        None
    }
}

/// The session control under a position, if any.
pub open spec fn session_control(clock: ClockGeometry, column: u16, row: u16) -> Option<SessionKind> {
    if clock.focus_control.holds(column, row) {
        Some(SessionKind::Focus)
    } else if clock.short_break_control.holds(column, row) {
        Some(SessionKind::ShortBreak)
    } else if clock.long_break_control.holds(column, row) {
        Some(SessionKind::LongBreak)
    } else {
        None
    }
}

fn session_control_at(clock: &ClockGeometry, column: u16, row: u16) -> (s: Option<SessionKind>)
    ensures
        s == session_control(*clock, column, row),
{
    if clock.focus_control.contains(column, row) {
        Some(SessionKind::Focus)
    } else if clock.short_break_control.contains(column, row) {
        Some(SessionKind::ShortBreak)
    } else if clock.long_break_control.contains(column, row) {
        Some(SessionKind::LongBreak)
    } else {
        None
    }
}

/// The settings row under a position in the scrolled settings list.
pub open spec fn settings_row(list: Rect, column: u16, row: u16, offset: nat) -> Option<int> {
    if list.holds(column, row) {
        settings_view::field_row_of(offset + (row - list.y))
    } else {
        None
    }
}

/// The semantic target of a click at `position`: with the settings overlay open only its
/// rows count; otherwise a session control, the clock, a task row or a task panel.
pub open spec fn click_target_of(layout: FrameGeometry, column: u16, row: u16, settings_offset: Option<nat>,
    todo_offset: usize, todo_len: usize, done_offset: usize, done_len: usize) -> ClickTarget {
    match settings_offset {
        Some(offset) => match layout.settings_list {
            Some(list) => match settings_row(list, column, row, offset) {
                Some(r) => ClickTarget::SettingsRow(r as usize),
                None => ClickTarget::Outside,
            },
            None => ClickTarget::Outside,
        },
        None => if layout.clock is Some && session_control(layout.clock->0, column, row) is Some {
            ClickTarget::SessionControl(session_control(layout.clock->0, column, row)->0)
        } else if layout.clock is Some && layout.clock->0.area.holds(column, row) {
            ClickTarget::Clock
        } else if layout.todo is Some && layout.todo->0.holds(column, row) {
            match task_row(column, row, layout.todo->0, todo_offset, todo_len) {
                Some(i) => ClickTarget::TodoTask(i as usize),
                None => ClickTarget::Todo,
            }
        } else if layout.done is Some && layout.done->0.holds(column, row) {
            match task_row(column, row, layout.done->0, done_offset, done_len) {
                Some(i) => ClickTarget::DoneTask(i as usize),
                None => ClickTarget::Done,
            }
        } else {
            ClickTarget::Outside
        },
    }
}

/// Translates terminal coordinates into a semantic application click target.
pub fn click_target(layout: &FrameGeometry, position: (u16, u16), app: &App) -> (t: ClickTarget)
    ensures
        t == click_target_of(*layout, position.0, position.1,
            match app@.settings { Some(o) => Some(o.offset), None => None },
            app@.todo_offset, app@.tasks.pending.len() as usize, app@.done_offset, app@.tasks.completed.len() as usize),
{
    let (column, row) = position;
    if let Some(settings) = app.settings() {
        return match layout.settings_list {
            Some(list) => if list.contains(column, row) {
                let step = (row - list.y) as usize;
                let offset = settings.offset();
                if step <= usize::MAX - offset {
                    match settings_view::settings_field_row(offset + step) {
                        Some(r) => ClickTarget::SettingsRow(r),
                        None => ClickTarget::Outside,
                    }
                } else {
                    proof {
                        assert(settings_view::field_row_of(offset + step) is None);
                    }
                    ClickTarget::Outside
                }
            } else {
                ClickTarget::Outside
            },
            None => ClickTarget::Outside,
        };
    }
    if let Some(clock) = &layout.clock {
        if let Some(session) = session_control_at(clock, column, row) {
            return ClickTarget::SessionControl(session);
        }
        if clock.area.contains(column, row) {
            return ClickTarget::Clock;
        }
    }
    if let Some(area) = layout.todo {
        if area.contains(column, row) {
            return match task_row_at(position, area, app.todo_offset(), app.tasks().pending_len()) {
                Some(i) => ClickTarget::TodoTask(i),
                None => ClickTarget::Todo,
            };
        }
    }
    if let Some(area) = layout.done {
        if area.contains(column, row) {
            return match task_row_at(position, area, app.done_offset(), app.tasks().completed_len()) {
                Some(i) => ClickTarget::DoneTask(i),
                None => ClickTarget::Done,
            };
        }
    }
    ClickTarget::Outside
}

/// The list under a scroll at `column` and `row`: the settings list while the overlay is
/// open, otherwise a task panel.
pub open spec fn scroll_target_of(layout: FrameGeometry, column: u16, row: u16, settings_open: bool) -> Option<
    ScrollTarget,
> {
    if settings_open {
        if layout.settings_list matches Some(list) && list.holds(column, row) {
            Some(ScrollTarget::Settings)
        } else {
            None
        }
    } else if layout.todo matches Some(a) && a.holds(column, row) {
        Some(ScrollTarget::Todo)
    } else if layout.done matches Some(a) && a.holds(column, row) {
        Some(ScrollTarget::Done)
    } else {
        None
    }
}

/// The list under a scroll at `position`: the settings list while the overlay is open,
/// otherwise a task panel.
pub fn scroll_target(layout: &FrameGeometry, position: (u16, u16), app: &App) -> (t: Option<ScrollTarget>)
    ensures
        t == scroll_target_of(*layout, position.0, position.1, app@.settings is Some),
{
    let (column, row) = position;
    if app.is_settings_open() {
        return match layout.settings_list {
            Some(list) => if list.contains(column, row) { Some(ScrollTarget::Settings) } else { None },
            None => None,
        };
    }
    let in_todo = match layout.todo {
        Some(a) => a.contains(column, row),
        None => false,
    };
    if in_todo {
        return Some(ScrollTarget::Todo);
    }
    let in_done = match layout.done {
        Some(a) => a.contains(column, row),
        None => false,
    };
    if in_done {
        Some(ScrollTarget::Done)
    } else {
        None
    }
}

/// Whether `action` acts on the focused panel rather than on focus or the application.
pub open spec fn targets_current_panel(action: Action) -> bool {
    action is BeginAdd || action is EditSelected || action is DeleteSelected || action is PrimaryAction
        || action is MoveSelectedTask || action is MoveSelection
}

/// Whether the panel targeted by an action exists in the rendered frame; focus navigation
/// and global actions stay available so a hidden panel can be brought into view.
pub fn action_target_visible(layout: &FrameGeometry, focus: UiFocus, action: &Action) -> (b: bool)
    ensures
        b == (!targets_current_panel(*action) || match focus {
            UiFocus::Clock => layout.clock is Some,
            UiFocus::Todo => layout.todo is Some,
            UiFocus::Done => layout.done is Some,
        }),
{
    let targets_panel = match action {
        Action::BeginAdd | Action::EditSelected | Action::DeleteSelected | Action::PrimaryAction
        | Action::MoveSelectedTask(_) | Action::MoveSelection(_) => true,
        _ => false,
    };
    if !targets_panel {
        return true;
    }
    match focus {
        UiFocus::Clock => layout.clock.is_some(),
        UiFocus::Todo => layout.todo.is_some(),
        UiFocus::Done => layout.done.is_some(),
    }
}

} // verus!
