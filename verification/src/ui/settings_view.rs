//! The rows, headings and help line of the settings overlay.
use vstd::prelude::*;

use super::help::{first_label, push_first, slashed};
use super::{floored, Rect};
use crate::config::keys::{bound, ConfigKey, KeyAction};
use crate::config::settings::ConfigSettings;
use crate::config::theme::{color_text, ThemeRole};
use crate::config::timer::format_duration;
use crate::display::{format_key, key_label};
use crate::settings::field::{SettingField};
use crate::settings::{OverlayModel, SettingsOverlay};
use crate::text::{clock_text, decimal, owned, push_decimal, push_str};

verus! {

/// The number of headed groups of rows.
pub const GROUP_COUNT: usize = 6;

/// The first row of group `g`: timer, notification, sound, tasks, keys, theme.
pub open spec fn group_start(g: int) -> int {
    if g <= 0 { 0 } else if g == 1 { 6 } else if g == 2 { 7 } else if g == 3 { 11 } else if g == 4 { 13 }
    else if g == 5 { 30 } else { 37 }
}

/// Where the settings overlay lies in a frame: at most 72 columns by 30 rows, leaving two
/// columns and one row free on each side where the frame allows, centred in the frame.
pub open spec fn overlay_area(area: Rect) -> Rect {
    let width = if floored(area.width as int, 4) < 72 { floored(area.width as int, 4) } else { 72 };
    let height = if floored(area.height as int, 2) < 30 { floored(area.height as int, 2) } else { 30 };
    Rect {
        x: (area.x + (area.width - width) / 2) as u16,
        y: (area.y + (area.height - height) / 2) as u16,
        width: width as u16,
        height: height as u16,
    }
}

/// Where the settings overlay lies in a frame that ends within the coordinate range.
pub fn settings_area(area: Rect) -> (r: Rect)
    requires
        area.x + area.width <= u16::MAX,
        area.y + area.height <= u16::MAX,
    ensures
        r == overlay_area(area),
        r.x + r.width <= area.x + area.width,
        r.y + r.height <= area.y + area.height,
{
    let width = if area.width >= 4 { area.width - 4 } else { 0 };
    let width = if width < 72 { width } else { 72 };
    let height = if area.height >= 2 { area.height - 2 } else { 0 };
    let height = if height < 30 { height } else { 30 };
    Rect::new(area.x + (area.width - width) / 2, area.y + (area.height - height) / 2, width, height)
}

/// The first field row of group `group_index`.
pub fn settings_group_start(group_index: usize) -> (start: usize)
    requires
        group_index <= GROUP_COUNT,
    ensures
        start == group_start(group_index as int),
{
    if group_index == 0 { 0 } else if group_index == 1 { 6 } else if group_index == 2 { 7 }
    else if group_index == 3 { 11 } else if group_index == 4 { 13 } else if group_index == 5 { 30 } else { 37 }
}

/// How many groups start at or before field row `selection`.
pub open spec fn groups_started(selection: int) -> int {
    if selection >= 30 { 6 } else if selection >= 13 { 5 } else if selection >= 11 { 4 } else if selection >= 7 { 3 }
    else if selection >= 6 { 2 } else if selection >= 0 { 1 } else { 0 }
}

/// The list row showing field row `selection`, counting the group headings above it.
pub fn settings_visual_row(selection: usize) -> (row: usize)
    requires
        selection <= usize::MAX - GROUP_COUNT,
    ensures
        row == selection + groups_started(selection as int),
{
    let started: usize = if selection >= 30 { 6 } else if selection >= 13 { 5 } else if selection >= 11 { 4 }
        else if selection >= 7 { 3 } else if selection >= 6 { 2 } else { 1 };
    selection + started
}

/// The list row to scroll to for field row `selection`: a group's first field brings its
/// heading into view.
pub open spec fn scroll_anchor(selection: int) -> int {
    if selection == 0 { 0 } else if selection == 6 { 7 } else if selection == 7 { 9 } else if selection == 11 { 14 }
    else if selection == 13 { 17 } else if selection == 30 { 35 } else { selection + groups_started(selection) }
}

/// The list row to scroll to for field row `selection`.
pub fn settings_scroll_anchor(selection: usize) -> (row: usize)
    requires
        selection <= usize::MAX - GROUP_COUNT,
    ensures
        row == scroll_anchor(selection as int),
{
    let mut g: usize = 0;
    while g < GROUP_COUNT
        invariant
            g <= GROUP_COUNT,
            forall|h: int| 0 <= h < g ==> group_start(h) != selection,
        decreases GROUP_COUNT - g,
    {
        let first_field = settings_group_start(g);
        if first_field == selection {
            return first_field + g;
        }
        g = g + 1;
    }
    assert(group_start(0) != selection && group_start(1) != selection && group_start(2) != selection
        && group_start(3) != selection && group_start(4) != selection && group_start(5) != selection);
    settings_visual_row(selection)
}

/// The field row shown on list row `visual_row`, or `None` for a heading or past the end.
pub open spec fn field_row_of(visual_row: int) -> Option<int> {
    if visual_row == 0 || visual_row == 7 || visual_row == 9 || visual_row == 14 || visual_row == 17 || visual_row
        == 35 {
        None
    } else {
        let row = visual_row - headings_above(visual_row);
        if 0 <= row < 37 { Some(row) } else { None }
    }
}

/// How many heading rows lie above list row `visual_row`.
pub open spec fn headings_above(visual_row: int) -> int {
    if visual_row > 35 { 6 } else if visual_row > 17 { 5 } else if visual_row > 14 { 4 } else if visual_row > 9 { 3 }
    else if visual_row > 7 { 2 } else if visual_row > 0 { 1 } else { 0 }
}

/// The field row shown on list row `visual_row`, if it shows one.
pub fn settings_field_row(visual_row: usize) -> (row: Option<usize>)
    ensures
        match row {
            Some(r) => field_row_of(visual_row as int) == Some(r as int),
            None => field_row_of(visual_row as int) is None,
        },
{
    if visual_row == 0 || visual_row == 7 || visual_row == 9 || visual_row == 14 || visual_row == 17 || visual_row
        == 35 {
        return None;
    }
    let above: usize = if visual_row > 35 { 6 } else if visual_row > 17 { 5 } else if visual_row > 14 { 4 }
        else if visual_row > 9 { 3 } else if visual_row > 7 { 2 } else { 1 };
    let row = visual_row - above;
    if row < 37 {
        Some(row)
    } else {
        None
    }
}

/// The label of a theme row.
pub open spec fn theme_role_name(role: ThemeRole) -> Seq<char> {
    match role {
        ThemeRole::FocusedBorder => "  Focused border"@,
        ThemeRole::UnfocusedBorder => "  Unfocused border"@,
        ThemeRole::TodoHighlight => "  To-do highlight"@,
        ThemeRole::DoneHighlight => "  Done highlight"@,
        ThemeRole::Focus => "  Focus session"@,
        ThemeRole::ShortBreak => "  Short break session"@,
        ThemeRole::LongBreak => "  Long break session"@,
    }
}

/// The label of a theme row.
pub fn theme_role_label(role: ThemeRole) -> (s: &'static str)
    ensures
        s@ == theme_role_name(role),
{
    match role {
        ThemeRole::FocusedBorder => "  Focused border",
        ThemeRole::UnfocusedBorder => "  Unfocused border",
        ThemeRole::TodoHighlight => "  To-do highlight",
        ThemeRole::DoneHighlight => "  Done highlight",
        ThemeRole::Focus => "  Focus session",
        ThemeRole::ShortBreak => "  Short break session",
        ThemeRole::LongBreak => "  Long break session",
    }
}

/// The label of a key row.
pub open spec fn key_action_name(action: KeyAction) -> Seq<char> {
    match action {
        KeyAction::FocusLeft => "  Focus left"@,
        KeyAction::FocusDown => "  Focus down"@,
        KeyAction::FocusUp => "  Focus up"@,
        KeyAction::FocusRight => "  Focus right"@,
        KeyAction::ListDown => "  List down"@,
        KeyAction::ListUp => "  List up"@,
        KeyAction::Quit => "  Quit"@,
        KeyAction::Settings => "  Settings"@,
        KeyAction::ClockPrimary => "  Clock primary"@,
        KeyAction::CycleSession => "  Cycle session"@,
        KeyAction::ResetSession => "  Reset session"@,
        KeyAction::AddTask => "  Add task"@,
        KeyAction::EditTask => "  Edit task"@,
        KeyAction::DeleteTask => "  Delete task"@,
        KeyAction::TaskPrimary => "  Task primary"@,
        KeyAction::MoveTaskUp => "  Move task up"@,
        KeyAction::MoveTaskDown => "  Move task down"@,
    }
}

/// The label of a key row.
pub fn key_action_label(action: KeyAction) -> (s: &'static str)
    ensures
        s@ == key_action_name(action),
{
    match action {
        KeyAction::FocusLeft => "  Focus left",
        KeyAction::FocusDown => "  Focus down",
        KeyAction::FocusUp => "  Focus up",
        KeyAction::FocusRight => "  Focus right",
        KeyAction::ListDown => "  List down",
        KeyAction::ListUp => "  List up",
        KeyAction::Quit => "  Quit",
        KeyAction::Settings => "  Settings",
        KeyAction::ClockPrimary => "  Clock primary",
        KeyAction::CycleSession => "  Cycle session",
        KeyAction::ResetSession => "  Reset session",
        KeyAction::AddTask => "  Add task",
        KeyAction::EditTask => "  Edit task",
        KeyAction::DeleteTask => "  Delete task",
        KeyAction::TaskPrimary => "  Task primary",
        KeyAction::MoveTaskUp => "  Move task up",
        KeyAction::MoveTaskDown => "  Move task down",
    }
}

/// The label of a settings row.
pub open spec fn field_label(field: SettingField) -> Seq<char> {
    match field {
        SettingField::FocusDuration => "  Focus duration"@,
        SettingField::ShortBreakDuration => "  Short break duration"@,
        SettingField::LongBreakDuration => "  Long break duration"@,
        SettingField::LongBreakInterval => "  Long break interval"@,
        SettingField::AutostartBreaks => "  Autostart breaks"@,
        SettingField::AutostartFocus => "  Autostart Focus"@,
        SettingField::NotificationEnabled => "  Desktop notifications"@,
        SettingField::CompletionSoundEnabled => "  Completion enabled"@,
        SettingField::CompletionSoundFile => "  Completion file"@,
        SettingField::FocusSoundEnabled => "  Focus loop enabled"@,
        SettingField::FocusSoundFile => "  Focus loop file"@,
        SettingField::PersistTasks => "  Persist"@,
        SettingField::ShowTaskNumbers => "  Show numbers"@,
        SettingField::Theme(role) => theme_role_name(role),
        SettingField::Key(action) => key_action_name(action),
    }
}

fn field_label_text(field: SettingField) -> (s: &'static str)
    ensures
        s@ == field_label(field),
{
    match field {
        SettingField::FocusDuration => "  Focus duration",
        SettingField::ShortBreakDuration => "  Short break duration",
        SettingField::LongBreakDuration => "  Long break duration",
        SettingField::LongBreakInterval => "  Long break interval",
        SettingField::AutostartBreaks => "  Autostart breaks",
        SettingField::AutostartFocus => "  Autostart Focus",
        SettingField::NotificationEnabled => "  Desktop notifications",
        SettingField::CompletionSoundEnabled => "  Completion enabled",
        SettingField::CompletionSoundFile => "  Completion file",
        SettingField::FocusSoundEnabled => "  Focus loop enabled",
        SettingField::FocusSoundFile => "  Focus loop file",
        SettingField::PersistTasks => "  Persist",
        SettingField::ShowTaskNumbers => "  Show numbers",
        SettingField::Theme(role) => theme_role_label(role),
        SettingField::Key(action) => key_action_label(action),
    }
}

/// `on` or `off`.
pub open spec fn switch_text(value: bool) -> Seq<char> {
    if value { "on"@ } else { "off"@ }
}

fn on_off(value: bool) -> (s: &'static str)
    ensures
        s@ == switch_text(value),
{
    if value { "on" } else { "off" }
}

/// A configured file, or `not set`.
pub open spec fn file_text(file: Option<Seq<char>>) -> Seq<char> {
    match file {
        Some(f) => f,
        None => "not set"@,
    }
}

/// The labels of keys joined by slashes.
pub open spec fn keys_text(keys: Seq<ConfigKey>) -> Seq<char> {
    slashed(keys.map_values(|k: ConfigKey| key_label(k)))
}

/// The stored value a settings row shows.
pub open spec fn field_value(field: SettingField, c: ConfigSettings) -> Seq<char> {
    match field {
        SettingField::FocusDuration => clock_text(c.timer.focus_seconds),
        SettingField::ShortBreakDuration => clock_text(c.timer.short_break_seconds),
        SettingField::LongBreakDuration => clock_text(c.timer.long_break_seconds),
        SettingField::LongBreakInterval => decimal(c.timer.long_break_interval),
        SettingField::AutostartBreaks => switch_text(c.timer.autostart_breaks),
        SettingField::AutostartFocus => switch_text(c.timer.autostart_focus),
        SettingField::NotificationEnabled => switch_text(c.notification.enabled),
        SettingField::CompletionSoundEnabled => switch_text(c.sound.completion.enabled),
        SettingField::CompletionSoundFile => file_text(c.sound.completion.file),
        SettingField::FocusSoundEnabled => switch_text(c.sound.focus.enabled),
        SettingField::FocusSoundFile => file_text(c.sound.focus.file),
        SettingField::PersistTasks => switch_text(c.tasks.persist),
        SettingField::ShowTaskNumbers => switch_text(c.tasks.show_numbers),
        SettingField::Theme(role) => color_text(c.theme.role_color(role)),
        SettingField::Key(action) => keys_text(bound(c.keys, action)),
    }
}

/// The text of a settings row: its label and value, the value being the text under edit
/// with a cursor when the row is being edited.
pub open spec fn row_text(field: SettingField, o: OverlayModel) -> Seq<char> {
    let value = if o.field() == field && o.input is Some { o.input->0 + "_"@ } else { field_value(field, o.config) };
    if value.len() == 0 { field_label(field) } else { field_label(field) + ": "@ + value }
}

fn keys_value(keys: &[ConfigKey]) -> (s: String)
    ensures
        s@ == keys_text(keys@),
{
    let ghost labels = keys@.map_values(|k: ConfigKey| key_label(k));
    let mut s = String::new();
    let mut i: usize = 0;
    while i < keys.len()
        invariant
            i <= keys@.len(),
            labels == keys@.map_values(|k: ConfigKey| key_label(k)),
            s@ == slashed(labels.subrange(0, i as int)),
        decreases keys@.len() - i,
    {
        if i > 0 {
            push_str(&mut s, "/");
        }
        let label = format_key(keys[i]);
        push_str(&mut s, label.as_str());
        proof {
            let prefix = labels.subrange(0, i + 1);
            assert(prefix.drop_last() =~= labels.subrange(0, i as int));
            if i == 0 {
                assert(s@ =~= slashed(prefix));
            }
        }
        i = i + 1;
    }
    proof {
        assert(labels.subrange(0, keys@.len() as int) =~= labels);
    }
    s
}

fn optional_file(file: Option<&str>) -> (s: String)
    ensures
        s@ == file_text(match file { Some(f) => Some(f@), None => None }),
{
    match file {
        Some(f) => owned(f),
        None => owned("not set"),
    }
}

/// The stored value a settings row shows.
fn value_text(field: SettingField, settings: &SettingsOverlay) -> (s: String)
    ensures
        s@ == field_value(field, settings@.config),
{
    let config = settings.config();
    match field {
        SettingField::FocusDuration => format_duration(config.timer().focus_seconds()),
        SettingField::ShortBreakDuration => format_duration(config.timer().short_break_seconds()),
        SettingField::LongBreakDuration => format_duration(config.timer().long_break_seconds()),
        SettingField::LongBreakInterval => {
            let mut s = String::new();
            push_decimal(&mut s, config.timer().long_break_interval() as u64);
            assert(s@ =~= decimal(config@.timer.long_break_interval));
            s
        },
        SettingField::AutostartBreaks => owned(on_off(config.timer().autostart_breaks())),
        SettingField::AutostartFocus => owned(on_off(config.timer().autostart_focus())),
        SettingField::NotificationEnabled => owned(on_off(config.notification().enabled())),
        SettingField::CompletionSoundEnabled => owned(on_off(config.sound().completion().enabled())),
        SettingField::CompletionSoundFile => optional_file(config.sound().completion().file()),
        SettingField::FocusSoundEnabled => owned(on_off(config.sound().focus().enabled())),
        SettingField::FocusSoundFile => optional_file(config.sound().focus().file()),
        SettingField::PersistTasks => owned(on_off(config.tasks().persist)),
        SettingField::ShowTaskNumbers => owned(on_off(config.tasks().show_numbers)),
        SettingField::Theme(role) => config.theme().color(role).to_text(),
        SettingField::Key(action) => keys_value(config.keys().binding(action)),
    }
}

/// The text of a settings row.
pub fn setting_row(field: SettingField, settings: &SettingsOverlay) -> (s: String)
    ensures
        s@ == row_text(field, settings@),
{
    let value = match settings.input() {
        Some(input) => if settings.field() == field {
            let mut v = owned(input);
            push_str(&mut v, "_");
            v
        } else {
            value_text(field, settings)
        },
        None => value_text(field, settings),
    };
    let label = field_label_text(field);
    if value.unicode_len() == 0 {
        owned(label)
    } else {
        let mut s = owned(label);
        push_str(&mut s, ": ");
        push_str(&mut s, value.as_str());
        s
    }
}

/// What to type while a settings row is edited.
pub open spec fn input_prompt(field: SettingField) -> Seq<char> {
    match field {
        SettingField::Theme(_) => "Type a preset or #RRGGBB"@,
        SettingField::CompletionSoundFile | SettingField::FocusSoundFile =>
            "Type an absolute or ~/ path; leave empty to disable"@,
        SettingField::FocusDuration | SettingField::ShortBreakDuration | SettingField::LongBreakDuration =>
            "Type a duration as MM:SS (max 9999:59)"@,
        _ => "Type a positive number"@,
    }
}

/// The help line of the overlay: a rejection, then the edit or capture in progress, then a
/// write failure, and otherwise the fixed controls with the keys that close the overlay.
pub open spec fn overlay_footer(o: OverlayModel) -> Seq<char> {
    if o.error is Some {
        o.error->0 + "\n[Esc] back"@
    } else if o.input is Some {
        input_prompt(o.field()) + "  [Enter] apply  [Esc] cancel"@
    } else if o.capturing {
        "Press a key  [Esc] cancel"@
    } else if o.write_error is Some {
        match o.write_error {
            Some((message, _)) => message,
            None => Seq::empty(),
        }
    } else {
        "[\u{2191}/\u{2193} or j/k] select  [\u{2190}/\u{2192} or h/l] change  [Enter/Space] edit  ["@
            + first_label(o.config.keys, KeyAction::Settings) + "/Esc] close"@
    }
}

fn prompt_for(field: SettingField) -> (s: &'static str)
    ensures
        s@ == input_prompt(field),
{
    match field {
        SettingField::Theme(_) => "Type a preset or #RRGGBB",
        SettingField::CompletionSoundFile | SettingField::FocusSoundFile =>
            "Type an absolute or ~/ path; leave empty to disable",
        SettingField::FocusDuration | SettingField::ShortBreakDuration | SettingField::LongBreakDuration =>
            "Type a duration as MM:SS (max 9999:59)",
        _ => "Type a positive number",
    }
}

/// The help line of the overlay.
pub fn settings_footer(settings: &SettingsOverlay) -> (s: String)
    ensures
        s@ == overlay_footer(settings@),
{
    if let Some(error) = settings.error() {
        let mut s = owned(error);
        push_str(&mut s, "\n[Esc] back");
        return s;
    }
    if settings.input().is_some() {
        let mut s = owned(prompt_for(settings.field()));
        push_str(&mut s, "  [Enter] apply  [Esc] cancel");
        return s;
    }
    if settings.is_capturing_key() {
        return owned("Press a key  [Esc] cancel");
    }
    if let Some(error) = settings.write_error() {
        return owned(error);
    }
    let mut s = owned("[\u{2191}/\u{2193} or j/k] select  [\u{2190}/\u{2192} or h/l] change  [Enter/Space] edit  [");
    push_first(&mut s, settings.config().keys(), KeyAction::Settings);
    push_str(&mut s, "/Esc] close");
    s
}

} // verus!
