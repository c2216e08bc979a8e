//! The editable fields of the settings overlay, in display order.
use vstd::prelude::*;

use crate::config::keys::KeyAction;
use crate::config::theme::ThemeRole;

verus! {

/// One editable row of the settings overlay.
#[derive(Debug, Clone, Copy, PartialEq, Eq, Structural)]
pub enum SettingField {
    FocusDuration,
    ShortBreakDuration,
    LongBreakDuration,
    LongBreakInterval,
    AutostartBreaks,
    AutostartFocus,
    NotificationEnabled,
    CompletionSoundEnabled,
    CompletionSoundFile,
    FocusSoundEnabled,
    FocusSoundFile,
    PersistTasks,
    ShowTaskNumbers,
    Theme(ThemeRole),
    Key(KeyAction),
}

/// The number of rows.
pub const FIELD_COUNT: usize = 37;

/// The key commands in their row order.
pub open spec fn key_row(i: int) -> KeyAction {
    if i == 0 { KeyAction::Quit } else if i == 1 { KeyAction::Settings } else if i == 2 { KeyAction::FocusLeft }
    else if i == 3 { KeyAction::FocusDown } else if i == 4 { KeyAction::FocusUp } else if i == 5 { KeyAction::FocusRight }
    else if i == 6 { KeyAction::ClockPrimary } else if i == 7 { KeyAction::CycleSession }
    else if i == 8 { KeyAction::ResetSession } else if i == 9 { KeyAction::AddTask } else if i == 10 { KeyAction::EditTask }
    else if i == 11 { KeyAction::DeleteTask } else if i == 12 { KeyAction::TaskPrimary } else if i == 13 { KeyAction::ListDown }
    else if i == 14 { KeyAction::ListUp } else if i == 15 { KeyAction::MoveTaskUp } else { KeyAction::MoveTaskDown }
}

/// The theme roles in their row order.
pub open spec fn theme_row(i: int) -> ThemeRole {
    if i == 0 { ThemeRole::FocusedBorder } else if i == 1 { ThemeRole::UnfocusedBorder } else if i == 2 { ThemeRole::Focus }
    else if i == 3 { ThemeRole::ShortBreak } else if i == 4 { ThemeRole::LongBreak } else if i == 5 { ThemeRole::TodoHighlight }
    else { ThemeRole::DoneHighlight }
}

/// The field on row `i`: timer, notification, sound, tasks, keys, theme.
pub open spec fn field_at(i: int) -> SettingField {
    if i == 0 { SettingField::FocusDuration } else if i == 1 { SettingField::ShortBreakDuration }
    else if i == 2 { SettingField::LongBreakDuration } else if i == 3 { SettingField::LongBreakInterval }
    else if i == 4 { SettingField::AutostartBreaks } else if i == 5 { SettingField::AutostartFocus }
    else if i == 6 { SettingField::NotificationEnabled } else if i == 7 { SettingField::CompletionSoundEnabled }
    else if i == 8 { SettingField::CompletionSoundFile } else if i == 9 { SettingField::FocusSoundEnabled }
    else if i == 10 { SettingField::FocusSoundFile } else if i == 11 { SettingField::PersistTasks }
    else if i == 12 { SettingField::ShowTaskNumbers } else if i < 30 { SettingField::Key(key_row(i - 13)) }
    else { SettingField::Theme(theme_row(i - 30)) }
}

fn key_at(i: usize) -> (a: KeyAction)
    ensures
        a == key_row(i as int),
{
    if i == 0 { KeyAction::Quit } else if i == 1 { KeyAction::Settings } else if i == 2 { KeyAction::FocusLeft }
    else if i == 3 { KeyAction::FocusDown } else if i == 4 { KeyAction::FocusUp } else if i == 5 { KeyAction::FocusRight }
    else if i == 6 { KeyAction::ClockPrimary } else if i == 7 { KeyAction::CycleSession }
    else if i == 8 { KeyAction::ResetSession } else if i == 9 { KeyAction::AddTask } else if i == 10 { KeyAction::EditTask }
    else if i == 11 { KeyAction::DeleteTask } else if i == 12 { KeyAction::TaskPrimary } else if i == 13 { KeyAction::ListDown }
    else if i == 14 { KeyAction::ListUp } else if i == 15 { KeyAction::MoveTaskUp } else { KeyAction::MoveTaskDown }
}

fn theme_at(i: usize) -> (r: ThemeRole)
    ensures
        r == theme_row(i as int),
{
    if i == 0 { ThemeRole::FocusedBorder } else if i == 1 { ThemeRole::UnfocusedBorder } else if i == 2 { ThemeRole::Focus }
    else if i == 3 { ThemeRole::ShortBreak } else if i == 4 { ThemeRole::LongBreak } else if i == 5 { ThemeRole::TodoHighlight }
    else { ThemeRole::DoneHighlight }
}

impl SettingField {
    /// The field on row `i`.
    pub fn at(i: usize) -> (f: SettingField)
        ensures
            f == field_at(i as int),
    {
        if i == 0 { SettingField::FocusDuration } else if i == 1 { SettingField::ShortBreakDuration }
        else if i == 2 { SettingField::LongBreakDuration } else if i == 3 { SettingField::LongBreakInterval }
        else if i == 4 { SettingField::AutostartBreaks } else if i == 5 { SettingField::AutostartFocus }
        else if i == 6 { SettingField::NotificationEnabled } else if i == 7 { SettingField::CompletionSoundEnabled }
        else if i == 8 { SettingField::CompletionSoundFile } else if i == 9 { SettingField::FocusSoundEnabled }
        else if i == 10 { SettingField::FocusSoundFile } else if i == 11 { SettingField::PersistTasks }
        else if i == 12 { SettingField::ShowTaskNumbers } else if i < 30 { SettingField::Key(key_at(i - 13)) }
        else { SettingField::Theme(theme_at(i - 30)) }
    }

    /// Every field in row order.
    pub fn all() -> (v: Vec<SettingField>)
        ensures
            v@.len() == 37,
            forall|i: int| 0 <= i < 37 ==> v@[i] == field_at(i),
    {
        let mut v: Vec<SettingField> = Vec::new();
        let mut i: usize = 0;
        while i < FIELD_COUNT
            invariant
                i <= 37,
                v@.len() == i,
                forall|j: int| 0 <= j < i ==> v@[j] == field_at(j),
            decreases 37 - i,
        {
            v.push(SettingField::at(i));
            i = i + 1;
        }
        v
    }

    /// The key-binding rows in order.
    pub fn key_fields() -> (v: Vec<SettingField>)
        ensures
            v@.len() == 17,
            forall|i: int| 0 <= i < 17 ==> v@[i] == SettingField::Key(key_row(i)),
    {
        let mut v: Vec<SettingField> = Vec::new();
        let mut i: usize = 0;
        while i < 17
            invariant
                i <= 17,
                v@.len() == i,
                forall|j: int| 0 <= j < i ==> v@[j] == SettingField::Key(key_row(j)),
            decreases 17 - i,
        {
            v.push(SettingField::Key(key_at(i)));
            i = i + 1;
        }
        v
    }

    /// The theme rows in order.
    pub fn theme_fields() -> (v: Vec<SettingField>)
        ensures
            v@.len() == 7,
            forall|i: int| 0 <= i < 7 ==> v@[i] == SettingField::Theme(theme_row(i)),
    {
        let mut v: Vec<SettingField> = Vec::new();
        let mut i: usize = 0;
        while i < 7
            invariant
                i <= 7,
                v@.len() == i,
                forall|j: int| 0 <= j < i ==> v@[j] == SettingField::Theme(theme_row(j)),
            decreases 7 - i,
        {
            v.push(SettingField::Theme(theme_at(i)));
            i = i + 1;
        }
        v
    }

    /// The headed groups of rows: a title and the number of rows it heads, in order.
    pub fn groups() -> (g: Vec<(&'static str, usize)>)
        ensures
            g@ == seq![("Timer", 6usize), ("Notification", 1usize), ("Sound", 4usize), ("Tasks", 2usize),
                ("Keys", 17usize), ("Theme", 7usize)],
    {
        let g = vec![("Timer", 6usize), ("Notification", 1usize), ("Sound", 4usize), ("Tasks", 2usize),
            ("Keys", 17usize), ("Theme", 7usize)];
        assert(g@ =~= seq![("Timer", 6usize), ("Notification", 1usize), ("Sound", 4usize), ("Tasks", 2usize),
            ("Keys", 17usize), ("Theme", 7usize)]);
        g
    }

    /// Whether the field is edited as a whole number.
    pub fn is_number(self) -> (b: bool)
        ensures
            b == (self == SettingField::LongBreakInterval),
    {
        match self {
            SettingField::LongBreakInterval => true,
            _ => false,
        }
    }

    /// Whether the field is edited as an `MM:SS` length.
    pub fn is_duration(self) -> (b: bool)
        ensures
            b == is_duration_field(self),
    {
        match self {
            SettingField::FocusDuration | SettingField::ShortBreakDuration | SettingField::LongBreakDuration => true,
            _ => false,
        }
    }

    /// Whether the field is edited as text.
    pub fn is_text(self) -> (b: bool)
        ensures
            b == is_text_field(self),
    {
        match self {
            SettingField::FocusDuration | SettingField::ShortBreakDuration | SettingField::LongBreakDuration
            | SettingField::LongBreakInterval | SettingField::CompletionSoundFile | SettingField::FocusSoundFile
            | SettingField::Theme(_) => true,
            _ => false,
        }
    }
}

pub open spec fn is_duration_field(f: SettingField) -> bool {
    f == SettingField::FocusDuration || f == SettingField::ShortBreakDuration || f == SettingField::LongBreakDuration
}

pub open spec fn is_text_field(f: SettingField) -> bool {
    is_duration_field(f) || f == SettingField::LongBreakInterval || f == SettingField::CompletionSoundFile
        || f == SettingField::FocusSoundFile || f is Theme
}

} // verus!
