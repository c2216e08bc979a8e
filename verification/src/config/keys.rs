//! Durable normal-mode key bindings and their validation.
use vstd::prelude::*;

use super::error::ConfigValidationError;
use crate::text::{char_is_control, is_control, push_char, push_str, same_text};

verus! {

/// A terminal-independent physical key accepted by configurable commands.
#[derive(Debug, Clone, Copy, PartialEq, Eq, Structural)]
pub enum ConfigKey {
    Character(char),
    Space,
    Enter,
    Escape,
    Backspace,
    Up,
    Down,
    Left,
    Right,
}

/// The name a key is stored under.
pub open spec fn key_stored_name(key: ConfigKey) -> Seq<char> {
    match key {
        ConfigKey::Character(c) => seq![c],
        ConfigKey::Space => "space"@,
        ConfigKey::Enter => "enter"@,
        ConfigKey::Escape => "esc"@,
        ConfigKey::Backspace => "backspace"@,
        ConfigKey::Up => "up"@,
        ConfigKey::Down => "down"@,
        ConfigKey::Left => "left"@,
        ConfigKey::Right => "right"@,
    }
}

/// The key a stored name denotes, if any.
pub open spec fn key_from_stored_name(value: Seq<char>) -> Option<ConfigKey> {
    if value == "space"@ { Some(ConfigKey::Space) }
    else if value == "enter"@ { Some(ConfigKey::Enter) }
    else if value == "esc"@ { Some(ConfigKey::Escape) }
    else if value == "backspace"@ { Some(ConfigKey::Backspace) }
    else if value == "up"@ { Some(ConfigKey::Up) }
    else if value == "down"@ { Some(ConfigKey::Down) }
    else if value == "left"@ { Some(ConfigKey::Left) }
    else if value == "right"@ { Some(ConfigKey::Right) }
    else if value.len() == 1 && !char_is_control(value[0]) && value[0] != ' ' { Some(ConfigKey::Character(value[0])) }
    else { None }
}

/// A key read back from the name it is stored under is the key itself; characters that can
/// be stored are the printable ones other than the space, which is stored by name.
pub proof fn lemma_stored_name_round_trip(key: ConfigKey)
    requires
        key matches ConfigKey::Character(c) ==> !char_is_control(c) && c != ' ',
    ensures
        key_from_stored_name(key_stored_name(key)) == Some(key),
{
    reveal_strlit("space");
    reveal_strlit("enter");
    reveal_strlit("esc");
    reveal_strlit("backspace");
    reveal_strlit("up");
    reveal_strlit("down");
    reveal_strlit("left");
    reveal_strlit("right");
    if let ConfigKey::Character(c) = key {
        let name = key_stored_name(key);
        assert(name.len() == 1);
        assert(name != "space"@);
        assert(name != "enter"@);
        assert(name != "esc"@);
        assert(name != "backspace"@);
        assert(name != "up"@);
        assert(name != "down"@);
        assert(name != "left"@);
        assert(name != "right"@);
        assert(name[0] == c);
        assert(key_from_stored_name(name) == Some(ConfigKey::Character(name[0])));
    } else {
        assert("enter"@[0] != "space"@[0]);
        assert("right"@[0] != "space"@[0]);
        assert("right"@[0] != "enter"@[0]);
        assert("left"@[0] != "down"@[0]);
        assert("esc"@[0] != "space"@[0]);
        assert("esc"@[1] != "enter"@[1]);
        assert("backspace"@[0] != "space"@[0]);
        assert("backspace"@[0] != "enter"@[0]);
        assert("backspace"@[0] != "esc"@[0]);
    }
}

/// The message of a rejected key name.
pub open spec fn key_name_error(value: Seq<char>) -> Seq<char> {
    "key must be one printable character or one of: space, enter, esc, backspace, up, down, left, right; found "@
        + crate::text::debug_quoted(value)
}

impl ConfigKey {
    /// The name this key is stored under.
    pub fn stored_name(self) -> (s: String)
        ensures
            s@ == key_stored_name(self),
    {
        let mut s = String::new();
        match self {
            ConfigKey::Character(c) => push_char(&mut s, c),
            ConfigKey::Space => push_str(&mut s, "space"),
            ConfigKey::Enter => push_str(&mut s, "enter"),
            ConfigKey::Escape => push_str(&mut s, "esc"),
            ConfigKey::Backspace => push_str(&mut s, "backspace"),
            ConfigKey::Up => push_str(&mut s, "up"),
            ConfigKey::Down => push_str(&mut s, "down"),
            ConfigKey::Left => push_str(&mut s, "left"),
            ConfigKey::Right => push_str(&mut s, "right"),
        }
        assert(s@ =~= key_stored_name(self));
        s
    }

    /// Reads a stored key name.
    pub fn from_stored_name(value: &str) -> (r: Result<ConfigKey, String>)
        ensures
            r matches Ok(k) ==> key_from_stored_name(value@) == Some(k),
            r matches Err(e) ==> key_from_stored_name(value@) is None && e@ == key_name_error(value@),
    {

        if same_text(value, "space") {
            return Ok(ConfigKey::Space);
        }
        if same_text(value, "enter") {
            return Ok(ConfigKey::Enter);
        }
        if same_text(value, "esc") {
            return Ok(ConfigKey::Escape);
        }
        if same_text(value, "backspace") {
            return Ok(ConfigKey::Backspace);
        }
        if same_text(value, "up") {
            return Ok(ConfigKey::Up);
        }
        if same_text(value, "down") {
            return Ok(ConfigKey::Down);
        }
        if same_text(value, "left") {
            return Ok(ConfigKey::Left);
        }
        if same_text(value, "right") {
            return Ok(ConfigKey::Right);
        }
        if value.unicode_len() == 1 {
            let c = value.get_char(0);
            if !is_control(c) && c != ' ' {
                return Ok(ConfigKey::Character(c));
            }
        }
        let mut e = String::new();
        push_str(&mut e, "key must be one printable character or one of: space, enter, esc, backspace, up, down, left, right; found ");
        let quoted = crate::text::debug_quote(value);
        push_str(&mut e, quoted.as_str());
        Err(e)
    }
}

/// A configurable normal-mode command.
#[derive(Debug, Clone, Copy, PartialEq, Eq, Structural)]
pub enum KeyAction {
    FocusLeft,
    FocusDown,
    FocusUp,
    FocusRight,
    ListDown,
    ListUp,
    Quit,
    Settings,
    ClockPrimary,
    CycleSession,
    ResetSession,
    AddTask,
    EditTask,
    DeleteTask,
    TaskPrimary,
    MoveTaskUp,
    MoveTaskDown,
}

/// The number of configurable commands.
pub const ACTION_COUNT: usize = 17;

/// The storage slot of each command.
pub open spec fn action_index(a: KeyAction) -> int {
    match a {
        KeyAction::FocusLeft => 0, KeyAction::FocusDown => 1, KeyAction::FocusUp => 2, KeyAction::FocusRight => 3,
        KeyAction::ListDown => 4, KeyAction::ListUp => 5, KeyAction::Quit => 6, KeyAction::Settings => 7,
        KeyAction::ClockPrimary => 8, KeyAction::CycleSession => 9, KeyAction::ResetSession => 10,
        KeyAction::AddTask => 11, KeyAction::EditTask => 12, KeyAction::DeleteTask => 13,
        KeyAction::TaskPrimary => 14, KeyAction::MoveTaskUp => 15, KeyAction::MoveTaskDown => 16,
    }
}

/// The configuration field of each command.
pub open spec fn action_field(a: KeyAction) -> &'static str {
    match a {
        KeyAction::FocusLeft => "focus_left", KeyAction::FocusDown => "focus_down", KeyAction::FocusUp => "focus_up",
        KeyAction::FocusRight => "focus_right", KeyAction::ListDown => "list_down", KeyAction::ListUp => "list_up",
        KeyAction::Quit => "quit", KeyAction::Settings => "settings", KeyAction::ClockPrimary => "clock_primary",
        KeyAction::CycleSession => "cycle_session", KeyAction::ResetSession => "reset_session",
        KeyAction::AddTask => "add_task", KeyAction::EditTask => "edit_task", KeyAction::DeleteTask => "delete_task",
        KeyAction::TaskPrimary => "task_primary", KeyAction::MoveTaskUp => "move_task_up",
        KeyAction::MoveTaskDown => "move_task_down",
    }
}

/// The name under which a key binding is stored.
pub fn field_name(a: KeyAction) -> (f: &'static str)
    ensures
        f == action_field(a),
{
    match a {
        KeyAction::FocusLeft => "focus_left", KeyAction::FocusDown => "focus_down", KeyAction::FocusUp => "focus_up",
        KeyAction::FocusRight => "focus_right", KeyAction::ListDown => "list_down", KeyAction::ListUp => "list_up",
        KeyAction::Quit => "quit", KeyAction::Settings => "settings", KeyAction::ClockPrimary => "clock_primary",
        KeyAction::CycleSession => "cycle_session", KeyAction::ResetSession => "reset_session",
        KeyAction::AddTask => "add_task", KeyAction::EditTask => "edit_task", KeyAction::DeleteTask => "delete_task",
        KeyAction::TaskPrimary => "task_primary", KeyAction::MoveTaskUp => "move_task_up",
        KeyAction::MoveTaskDown => "move_task_down",
    }
}

fn slot(a: KeyAction) -> (i: usize)
    ensures
        i == action_index(a),
{
    match a {
        KeyAction::FocusLeft => 0, KeyAction::FocusDown => 1, KeyAction::FocusUp => 2, KeyAction::FocusRight => 3,
        KeyAction::ListDown => 4, KeyAction::ListUp => 5, KeyAction::Quit => 6, KeyAction::Settings => 7,
        KeyAction::ClockPrimary => 8, KeyAction::CycleSession => 9, KeyAction::ResetSession => 10,
        KeyAction::AddTask => 11, KeyAction::EditTask => 12, KeyAction::DeleteTask => 13,
        KeyAction::TaskPrimary => 14, KeyAction::MoveTaskUp => 15, KeyAction::MoveTaskDown => 16,
    }
}

/// Commands available everywhere, in validation order.
pub open spec fn global_actions() -> Seq<KeyAction> {
    seq![KeyAction::FocusLeft, KeyAction::FocusDown, KeyAction::FocusUp, KeyAction::FocusRight, KeyAction::Quit,
        KeyAction::Settings]
}

/// Commands of the clock panel, in validation order.
pub open spec fn clock_actions() -> Seq<KeyAction> {
    seq![KeyAction::ClockPrimary, KeyAction::CycleSession, KeyAction::ResetSession]
}

/// Commands of the task panels, in validation order.
pub open spec fn task_actions() -> Seq<KeyAction> {
    seq![KeyAction::ListDown, KeyAction::ListUp, KeyAction::AddTask, KeyAction::EditTask, KeyAction::DeleteTask,
        KeyAction::TaskPrimary, KeyAction::MoveTaskUp, KeyAction::MoveTaskDown]
}

/// Every command, in validation order.
pub open spec fn validation_order() -> Seq<KeyAction> {
    global_actions() + clock_actions() + task_actions()
}

fn validation_list() -> (v: Vec<KeyAction>)
    ensures
        v@ == validation_order(),
{
    let v = vec![KeyAction::FocusLeft, KeyAction::FocusDown, KeyAction::FocusUp, KeyAction::FocusRight,
        KeyAction::Quit, KeyAction::Settings, KeyAction::ClockPrimary, KeyAction::CycleSession,
        KeyAction::ResetSession, KeyAction::ListDown, KeyAction::ListUp, KeyAction::AddTask, KeyAction::EditTask,
        KeyAction::DeleteTask, KeyAction::TaskPrimary, KeyAction::MoveTaskUp, KeyAction::MoveTaskDown];
    assert(v@ =~= validation_order());
    v
}

/// Keys no binding may use: plain Enter and Escape drive the modal controls.
pub open spec fn is_reserved(key: ConfigKey) -> bool {
    key == ConfigKey::Enter || key == ConfigKey::Escape
}

/// Keys with a fixed meaning inside the settings overlay.
pub open spec fn is_overlay_control(key: ConfigKey) -> bool {
    ||| key == ConfigKey::Space
    ||| key == ConfigKey::Up
    ||| key == ConfigKey::Down
    ||| key == ConfigKey::Left
    ||| key == ConfigKey::Right
    ||| key == ConfigKey::Character('h')
    ||| key == ConfigKey::Character('j')
    ||| key == ConfigKey::Character('k')
    ||| key == ConfigKey::Character('l')
}

/// Every (command, key) pair of `actions`, in order.
pub open spec fn entries(bindings: Seq<Seq<ConfigKey>>, actions: Seq<KeyAction>) -> Seq<(KeyAction, ConfigKey)>
    decreases actions.len(),
{
    if actions.len() == 0 {
        seq![]
    } else {
        let a = actions.last();
        entries(bindings, actions.drop_last()) + bindings[action_index(a)].map_values(|k: ConfigKey| (a, k))
    }
}

/// Whether entries `i` and `j` bind one key to two different commands.
pub open spec fn conflict_at(e: Seq<(KeyAction, ConfigKey)>, i: int, j: int) -> bool {
    e[i].1 == e[j].1 && e[i].0 != e[j].0
}

/// The first entry at or after `j` that conflicts with entry `i`.
pub open spec fn partner_from(e: Seq<(KeyAction, ConfigKey)>, i: int, j: int) -> Option<int>
    decreases e.len() - j,
{
    if j >= e.len() || j < 0 {
        None
    } else if conflict_at(e, i, j) {
        Some(j)
    } else {
        partner_from(e, i, j + 1)
    }
}

/// The first conflicting pair whose earlier entry is at or after `i`.
pub open spec fn conflict_from(e: Seq<(KeyAction, ConfigKey)>, i: int) -> Option<(int, int)>
    decreases e.len() - i,
{
    if i >= e.len() || i < 0 {
        None
    } else {
        match partner_from(e, i, i + 1) {
            Some(j) => Some((i, j)),
            None => conflict_from(e, i + 1),
        }
    }
}

/// The first command at or after position `i` of `actions` with no key.
pub open spec fn empty_from(bindings: Seq<Seq<ConfigKey>>, actions: Seq<KeyAction>, i: int) -> Option<KeyAction>
    decreases actions.len() - i,
{
    if i >= actions.len() || i < 0 {
        None
    } else if bindings[action_index(actions[i])].len() == 0 {
        Some(actions[i])
    } else {
        empty_from(bindings, actions, i + 1)
    }
}

/// The first entry at or after `i` that uses a reserved key.
pub open spec fn reserved_from(e: Seq<(KeyAction, ConfigKey)>, i: int) -> Option<(KeyAction, ConfigKey)>
    decreases e.len() - i,
{
    if i >= e.len() || i < 0 {
        None
    } else if is_reserved(e[i].1) {
        Some(e[i])
    } else {
        reserved_from(e, i + 1)
    }
}

/// The first key at or after `i` that is a settings-overlay control.
pub open spec fn overlay_from(keys: Seq<ConfigKey>, i: int) -> Option<ConfigKey>
    decreases keys.len() - i,
{
    if i >= keys.len() || i < 0 {
        None
    } else if is_overlay_control(keys[i]) {
        Some(keys[i])
    } else {
        overlay_from(keys, i + 1)
    }
}

/// The rejection of a conflicting pair, if `e` has one.
pub open spec fn conflict_error(e: Seq<(KeyAction, ConfigKey)>) -> Option<ConfigValidationError> {
    match conflict_from(e, 0) {
        Some((i, j)) => Some(ConfigValidationError::ConflictingKeys {
            first: action_field(e[i].0),
            second: action_field(e[j].0),
        }),
        None => None,
    }
}

/// Why a set of bindings is rejected, or `None` when it is valid.
pub open spec fn bindings_error(b: Seq<Seq<ConfigKey>>) -> Option<ConfigValidationError> {
    let global = entries(b, global_actions());
    if empty_from(b, validation_order(), 0) is Some {
        Some(ConfigValidationError::EmptyKeyBindings { field: action_field(empty_from(b, validation_order(), 0).unwrap()) })
    } else if reserved_from(entries(b, validation_order()), 0) is Some {
        let (a, k) = reserved_from(entries(b, validation_order()), 0).unwrap();
        Some(ConfigValidationError::ReservedKey { field: action_field(a), key: k })
    } else if overlay_from(b[action_index(KeyAction::Settings)], 0) is Some {
        Some(ConfigValidationError::SettingsOverlayKey { key: overlay_from(b[action_index(KeyAction::Settings)], 0).unwrap() })
    } else if conflict_error(global) is Some {
        conflict_error(global)
    } else if conflict_error(global + entries(b, clock_actions())) is Some {
        conflict_error(global + entries(b, clock_actions()))
    } else {
        conflict_error(global + entries(b, task_actions()))
    }
}

proof fn lemma_no_partner(e: Seq<(KeyAction, ConfigKey)>, i: int, j: int)
    requires
        forall|a: int, b: int| 0 <= a < b < e.len() ==> !conflict_at(e, a, b),
        0 <= i < j,
    ensures
        partner_from(e, i, j) is None,
    decreases e.len() - j,
{
    if j < e.len() {
        lemma_no_partner(e, i, j + 1);
    }
}

proof fn lemma_no_conflict(e: Seq<(KeyAction, ConfigKey)>, i: int)
    requires
        forall|a: int, b: int| 0 <= a < b < e.len() ==> !conflict_at(e, a, b),
        0 <= i,
    ensures
        conflict_from(e, i) is None,
    decreases e.len() - i,
{
    if i < e.len() {
        lemma_no_partner(e, i, i + 1);
        lemma_no_conflict(e, i + 1);
    }
}

proof fn lemma_no_reserved(e: Seq<(KeyAction, ConfigKey)>, i: int)
    requires
        forall|a: int| 0 <= a < e.len() ==> !is_reserved(#[trigger] e[a].1),
        0 <= i,
    ensures
        reserved_from(e, i) is None,
    decreases e.len() - i,
{
    if i < e.len() {
        lemma_no_reserved(e, i + 1);
    }
}

proof fn lemma_no_empty(b: Seq<Seq<ConfigKey>>, actions: Seq<KeyAction>, i: int)
    requires
        forall|a: int| 0 <= a < actions.len() ==> b[action_index(#[trigger] actions[a])].len() > 0,
        0 <= i,
    ensures
        empty_from(b, actions, i) is None,
    decreases actions.len() - i,
{
    if i < actions.len() {
        lemma_no_empty(b, actions, i + 1);
    }
}

/// Entries of bindings that use no reserved key use no reserved key.
proof fn lemma_entries_not_reserved(b: Seq<Seq<ConfigKey>>, actions: Seq<KeyAction>)
    requires
        forall|a: int, k: int| 0 <= a < actions.len() && 0 <= k < b[action_index(actions[a])].len()
            ==> !is_reserved(#[trigger] b[action_index(actions[a])][k]),
    ensures
        forall|x: int| 0 <= x < entries(b, actions).len() ==> !is_reserved(#[trigger] entries(b, actions)[x].1),
    decreases actions.len(),
{
    if actions.len() > 0 {
        let rest = actions.drop_last();
        assert forall|a: int, k: int| 0 <= a < rest.len() && 0 <= k < b[action_index(rest[a])].len()
            implies !is_reserved(#[trigger] b[action_index(rest[a])][k]) by {
            assert(rest[a] == actions[a]);
        }
        lemma_entries_not_reserved(b, rest);
        let last = actions.last();
        assert(last == actions[actions.len() - 1]);
        let front = entries(b, rest);
        assert forall|x: int| 0 <= x < entries(b, actions).len() implies !is_reserved(#[trigger] entries(b, actions)[x].1) by {
            if x >= front.len() {
                let k = x - front.len();
                assert(entries(b, actions)[x].1 == b[action_index(last)][k]);
            } else {
                assert(entries(b, actions)[x] == front[x]);
            }
        }
    }
}

proof fn lemma_default_no_reserved()
    ensures
        reserved_from(entries(default_bindings(), validation_order()), 0) is None,
{
    let b = default_bindings();
    let order = validation_order();
    assert forall|a: int, k: int| 0 <= a < order.len() && 0 <= k < b[action_index(order[a])].len()
        implies !is_reserved(#[trigger] b[action_index(order[a])][k]) by {
        assert(0 <= action_index(order[a]) < 17);
    }
    lemma_entries_not_reserved(b, order);
    lemma_no_reserved(entries(b, order), 0);
}

proof fn lemma_default_global()
    ensures
        entries(default_bindings(), global_actions()) =~= seq![(KeyAction::FocusLeft, ConfigKey::Character('H')),
            (KeyAction::FocusDown, ConfigKey::Character('J')), (KeyAction::FocusUp, ConfigKey::Character('K')),
            (KeyAction::FocusRight, ConfigKey::Character('L')), (KeyAction::Quit, ConfigKey::Character('q')),
            (KeyAction::Settings, ConfigKey::Character('s'))],
{
    reveal_with_fuel(entries, 7);
}

proof fn lemma_default_clock()
    ensures
        entries(default_bindings(), clock_actions()) =~= seq![(KeyAction::ClockPrimary, ConfigKey::Space),
            (KeyAction::CycleSession, ConfigKey::Character('c')), (KeyAction::ResetSession, ConfigKey::Character('r'))],
{
    reveal_with_fuel(entries, 4);
}

proof fn lemma_default_tasks()
    ensures
        entries(default_bindings(), task_actions()) =~= seq![(KeyAction::ListDown, ConfigKey::Character('j')),
            (KeyAction::ListDown, ConfigKey::Down), (KeyAction::ListUp, ConfigKey::Character('k')),
            (KeyAction::ListUp, ConfigKey::Up), (KeyAction::AddTask, ConfigKey::Character('a')),
            (KeyAction::EditTask, ConfigKey::Character('e')), (KeyAction::DeleteTask, ConfigKey::Character('x')),
            (KeyAction::TaskPrimary, ConfigKey::Space), (KeyAction::MoveTaskUp, ConfigKey::Character('u')),
            (KeyAction::MoveTaskDown, ConfigKey::Character('d'))],
{
    reveal_with_fuel(entries, 9);
}

proof fn lemma_default_no_conflicts()
    ensures
        conflict_error(entries(default_bindings(), global_actions())) is None,
        conflict_error(entries(default_bindings(), global_actions()) + entries(default_bindings(), clock_actions())) is None,
        conflict_error(entries(default_bindings(), global_actions()) + entries(default_bindings(), task_actions())) is None,
{
    lemma_default_global();
    lemma_default_clock();
    lemma_default_tasks();
    let g = entries(default_bindings(), global_actions());
    let c = entries(default_bindings(), clock_actions());
    let t = entries(default_bindings(), task_actions());
    lemma_no_conflict(g, 0);
    lemma_no_conflict(g + c, 0);
    lemma_no_conflict(g + t, 0);
}

/// The default bindings are valid.
pub proof fn lemma_default_bindings_valid()
    ensures
        bindings_error(default_bindings()) is None,
{
    let b = default_bindings();
    assert forall|a: int| 0 <= a < validation_order().len() implies b[action_index(#[trigger] validation_order()[a])].len() > 0 by {
        assert(0 <= action_index(validation_order()[a]) < 17);
    }
    lemma_no_empty(b, validation_order(), 0);
    lemma_default_no_reserved();
    let settings = b[action_index(KeyAction::Settings)];
    assert(overlay_from(settings, 1) is None);
    assert(overlay_from(settings, 0) is None);
    lemma_default_no_conflicts();
}

/// With no conflict found from position `j` on, entry `i` conflicts with no entry from `j`.
proof fn lemma_partner_none(e: Seq<(KeyAction, ConfigKey)>, i: int, j: int)
    requires
        0 <= j,
        partner_from(e, i, j) is None,
    ensures
        forall|c: int| j <= c < e.len() ==> !conflict_at(e, i, c),
    decreases e.len() - j,
{
    if j < e.len() {
        lemma_partner_none(e, i, j + 1);
    }
}

/// With no conflicting pair found from position `i` on, no two entries from `i` conflict.
proof fn lemma_conflict_none(e: Seq<(KeyAction, ConfigKey)>, i: int)
    requires
        0 <= i,
        conflict_from(e, i) is None,
    ensures
        forall|a: int, c: int| i <= a < c < e.len() ==> !conflict_at(e, a, c),
    decreases e.len() - i,
{
    if i < e.len() {
        lemma_partner_none(e, i, i + 1);
        lemma_conflict_none(e, i + 1);
    }
}

/// Every key bound to a command of `actions` has an entry.
proof fn lemma_entry_of(b: Seq<Seq<ConfigKey>>, actions: Seq<KeyAction>, p: int, key: ConfigKey)
    requires
        0 <= p < actions.len(),
        b[action_index(actions[p])].contains(key),
    ensures
        exists|x: int| 0 <= x < entries(b, actions).len() && entries(b, actions)[x] == (actions[p], key),
    decreases actions.len(),
{
    let rest = actions.drop_last();
    let front = entries(b, rest);
    if p == actions.len() - 1 {
        let q = choose|q: int| 0 <= q < b[action_index(actions[p])].len() && b[action_index(actions[p])][q] == key;
        assert(entries(b, actions)[front.len() + q] == (actions[p], key));
    } else {
        assert(rest[p] == actions[p]);
        lemma_entry_of(b, rest, p, key);
        let x = choose|x: int| 0 <= x < front.len() && front[x] == (rest[p], key);
        assert(entries(b, actions)[x] == front[x]);
    }
}

/// Entries of two lists of commands, one after the other, are the entries of the joined list.
proof fn lemma_entries_concat(b: Seq<Seq<ConfigKey>>, first: Seq<KeyAction>, second: Seq<KeyAction>)
    ensures
        entries(b, first) + entries(b, second) == entries(b, first + second),
    decreases second.len(),
{
    if second.len() == 0 {
        assert(first + second =~= first);
        assert(entries(b, first) + entries(b, second) =~= entries(b, first));
    } else {
        lemma_entries_concat(b, first, second.drop_last());
        assert((first + second).drop_last() =~= first + second.drop_last());
        assert((first + second).last() == second.last());
        let tail = b[action_index(second.last())].map_values(|k: ConfigKey| (second.last(), k));
        assert(entries(b, first) + (entries(b, second.drop_last()) + tail) =~= (entries(b, first) + entries(b,
            second.drop_last())) + tail);
    }
}

/// Among the commands of a conflict-free list, no key is bound to two different commands.
pub proof fn lemma_keys_unique_within(b: Seq<Seq<ConfigKey>>, actions: Seq<KeyAction>, first: KeyAction,
    second: KeyAction, key: ConfigKey)
    requires
        conflict_from(entries(b, actions), 0) is None,
        actions.contains(first),
        actions.contains(second),
        first != second,
        b[action_index(first)].contains(key),
    ensures
        !b[action_index(second)].contains(key),
{
    if b[action_index(second)].contains(key) {
        let e = entries(b, actions);
        lemma_conflict_none(e, 0);
        let p = choose|p: int| 0 <= p < actions.len() && actions[p] == first;
        let r = choose|r: int| 0 <= r < actions.len() && actions[r] == second;
        lemma_entry_of(b, actions, p, key);
        lemma_entry_of(b, actions, r, key);
        let x = choose|x: int| 0 <= x < e.len() && e[x] == (first, key);
        let y = choose|y: int| 0 <= y < e.len() && e[y] == (second, key);
        if x < y {
            assert(conflict_at(e, x, y));
        } else {
            assert(conflict_at(e, y, x));
        }
    }
}

/// Valid bindings use neither Enter nor Escape, and within the global commands, and within
/// the global and clock commands or the global and task commands, no key is bound to two
/// different commands.
pub proof fn lemma_valid_bindings_unique(b: Seq<Seq<ConfigKey>>, first: KeyAction, second: KeyAction, key: ConfigKey)
    requires
        bindings_error(b) is None,
        b[action_index(first)].contains(key),
    ensures
        key != ConfigKey::Escape,
        key != ConfigKey::Enter,
        first != second && global_actions().contains(first) && global_actions().contains(second)
            ==> !b[action_index(second)].contains(key),
        first != second && (global_actions() + clock_actions()).contains(first) && (global_actions()
            + clock_actions()).contains(second) ==> !b[action_index(second)].contains(key),
        first != second && (global_actions() + task_actions()).contains(first) && (global_actions()
            + task_actions()).contains(second) ==> !b[action_index(second)].contains(key),
{
    let order = validation_order();
    assert(order.contains(first)) by {
        let i = action_index(first);
        assert(order[if i == 0 { 0 } else if i == 1 { 1 } else if i == 2 { 2 } else if i == 3 { 3 } else if i == 6 { 4 }
            else if i == 7 { 5 } else if i == 8 { 6 } else if i == 9 { 7 } else if i == 10 { 8 } else if i == 4 { 9 }
            else if i == 5 { 10 } else { i }] == first);
    }
    let p = choose|p: int| 0 <= p < order.len() && order[p] == first;
    lemma_entry_of(b, order, p, key);
    let all = entries(b, order);
    let x = choose|x: int| 0 <= x < all.len() && all[x] == (first, key);
    lemma_reserved_none(all, 0, x);
    lemma_entries_concat(b, global_actions(), clock_actions());
    lemma_entries_concat(b, global_actions(), task_actions());
    if first != second && global_actions().contains(first) && global_actions().contains(second) {
        lemma_keys_unique_within(b, global_actions(), first, second, key);
    }
    if first != second && (global_actions() + clock_actions()).contains(first) && (global_actions()
        + clock_actions()).contains(second) {
        lemma_keys_unique_within(b, global_actions() + clock_actions(), first, second, key);
    }
    if first != second && (global_actions() + task_actions()).contains(first) && (global_actions()
        + task_actions()).contains(second) {
        lemma_keys_unique_within(b, global_actions() + task_actions(), first, second, key);
    }
}

/// With no reserved entry found from position `i` on, entry `x` at or after it is not reserved.
proof fn lemma_reserved_none(e: Seq<(KeyAction, ConfigKey)>, i: int, x: int)
    requires
        0 <= i <= x < e.len(),
        reserved_from(e, i) is None,
    ensures
        !is_reserved(e[x].1),
    decreases x - i,
{
    if i < x {
        lemma_reserved_none(e, i + 1, x);
    }
}

/// Durable normal-mode key bindings. Editing and confirmation keys are fixed.
#[derive(Debug)]
pub struct KeysConfig {
    bindings: Vec<Vec<ConfigKey>>,
}

impl View for KeysConfig {
    type V = Seq<Seq<ConfigKey>>;

    /// The keys of each command, by storage slot.
    closed spec fn view(&self) -> Seq<Seq<ConfigKey>> {
        self.bindings@.map_values(|v: Vec<ConfigKey>| v@)
    }
}

/// The keys bound to `action` in bindings `b`.
pub open spec fn bound(b: Seq<Seq<ConfigKey>>, action: KeyAction) -> Seq<ConfigKey> {
    b[action_index(action)]
}

/// The default bindings.
pub open spec fn default_bindings() -> Seq<Seq<ConfigKey>> {
    seq![
        seq![ConfigKey::Character('H')],
        seq![ConfigKey::Character('J')],
        seq![ConfigKey::Character('K')],
        seq![ConfigKey::Character('L')],
        seq![ConfigKey::Character('j'), ConfigKey::Down],
        seq![ConfigKey::Character('k'), ConfigKey::Up],
        seq![ConfigKey::Character('q')],
        seq![ConfigKey::Character('s')],
        seq![ConfigKey::Space],
        seq![ConfigKey::Character('c')],
        seq![ConfigKey::Character('r')],
        seq![ConfigKey::Character('a')],
        seq![ConfigKey::Character('e')],
        seq![ConfigKey::Character('x')],
        seq![ConfigKey::Space],
        seq![ConfigKey::Character('u')],
        seq![ConfigKey::Character('d')],
    ]
}

fn one(key: ConfigKey) -> (v: Vec<ConfigKey>)
    ensures
        v@ == seq![key],
{
    let mut v = Vec::new();
    v.push(key);
    assert(v@ =~= seq![key]);
    v
}

fn copy_keys(keys: &Vec<ConfigKey>) -> (v: Vec<ConfigKey>)
    ensures
        v@ == keys@,
{
    let mut v: Vec<ConfigKey> = Vec::new();
    let mut i: usize = 0;
    while i < keys.len()
        invariant
            i <= keys@.len(),
            v@ == keys@.take(i as int),
        decreases keys@.len() - i,
    {
        v.push(keys[i]);
        assert(keys@.take(i + 1) =~= keys@.take(i as int).push(keys@[i as int]));
        i = i + 1;
    }
    assert(keys@.take(keys@.len() as int) =~= keys@);
    v
}

fn same_keys(a: &Vec<ConfigKey>, b: &Vec<ConfigKey>) -> (r: bool)
    ensures
        r == (a@ == b@),
{
    if a.len() != b.len() {
        return false;
    }
    let mut i: usize = 0;
    while i < a.len()
        invariant
            a@.len() == b@.len(),
            i <= a@.len(),
            forall|j: int| 0 <= j < i ==> a@[j] == b@[j],
        decreases a@.len() - i,
    {
        if a[i] != b[i] {
            return false;
        }
        i = i + 1;
    }
    assert(a@ =~= b@);
    true
}

impl KeysConfig {
    #[verifier::type_invariant]
    spec fn inv(self) -> bool {
        self.bindings@.len() == 17
    }

    /// The default bindings.
    pub fn default_keys() -> (k: KeysConfig)
        ensures
            k@ == default_bindings(),
            k@.len() == ACTION_COUNT,
    {
        let mut bindings: Vec<Vec<ConfigKey>> = Vec::new();
        bindings.push(one(ConfigKey::Character('H')));
        bindings.push(one(ConfigKey::Character('J')));
        bindings.push(one(ConfigKey::Character('K')));
        bindings.push(one(ConfigKey::Character('L')));
        let mut down = one(ConfigKey::Character('j'));
        down.push(ConfigKey::Down);
        bindings.push(down);
        let mut up = one(ConfigKey::Character('k'));
        up.push(ConfigKey::Up);
        bindings.push(up);
        bindings.push(one(ConfigKey::Character('q')));
        bindings.push(one(ConfigKey::Character('s')));
        bindings.push(one(ConfigKey::Space));
        bindings.push(one(ConfigKey::Character('c')));
        bindings.push(one(ConfigKey::Character('r')));
        bindings.push(one(ConfigKey::Character('a')));
        bindings.push(one(ConfigKey::Character('e')));
        bindings.push(one(ConfigKey::Character('x')));
        bindings.push(one(ConfigKey::Space));
        bindings.push(one(ConfigKey::Character('u')));
        bindings.push(one(ConfigKey::Character('d')));
        let k = KeysConfig { bindings };
        assert(k@.len() == 17);
        assert forall|i: int| 0 <= i < 17 implies k@[i] =~= default_bindings()[i] by {
            assert(k@[i] == k.bindings@[i]@);
        }
        assert(k@ =~= default_bindings());
        k
    }

    /// Bindings holding `lists`, one list per command in storage order.
    pub fn from_lists(lists: Vec<Vec<ConfigKey>>) -> (k: Option<KeysConfig>)
        ensures
            k matches Some(c) ==> c@ == lists@.map_values(|v: Vec<ConfigKey>| v@),
            k is None <==> lists@.len() != 17,
    {
        if lists.len() != ACTION_COUNT {
            return None;
        }
        Some(KeysConfig { bindings: lists })
    }

    /// A copy of these bindings.
    pub fn duplicate(&self) -> (k: KeysConfig)
        ensures
            k@ == self@,
    {
        proof {
            use_type_invariant(self);
        }
        let mut bindings: Vec<Vec<ConfigKey>> = Vec::new();
        let mut i: usize = 0;
        while i < self.bindings.len()
            invariant
                i <= self.bindings@.len(),
                bindings@.len() == i,
                forall|j: int| 0 <= j < i ==> (#[trigger] bindings@[j])@ == self.bindings@[j]@,
            decreases self.bindings@.len() - i,
        {
            bindings.push(copy_keys(&self.bindings[i]));
            i = i + 1;
        }
        let k = KeysConfig { bindings };
        assert(k@ =~= self@);
        k
    }

    /// Whether both hold the same keys for every command.
    pub fn same_as(&self, other: &KeysConfig) -> (r: bool)
        ensures
            r == (self@ == other@),
    {
        proof {
            use_type_invariant(self);
            use_type_invariant(other);
        }
        let mut i: usize = 0;
        while i < ACTION_COUNT
            invariant
                self.bindings@.len() == 17,
                other.bindings@.len() == 17,
                i <= 17,
                forall|j: int| 0 <= j < i ==> self@[j] == other@[j],
            decreases 17 - i,
        {
            if !same_keys(&self.bindings[i], &other.bindings[i]) {
                assert(self@[i as int] != other@[i as int]);
                return false;
            }
            i = i + 1;
        }
        assert(self@ =~= other@);
        true
    }

    /// The keys bound to `action`.
    pub fn binding(&self, action: KeyAction) -> (keys: &[ConfigKey])
        ensures
            keys@ == bound(self@, action),
            self@.len() == ACTION_COUNT,
    {
        proof {
            use_type_invariant(self);
        }
        self.bindings[slot(action)].as_slice()
    }

    pub fn focus_left(&self) -> (keys: &[ConfigKey])
        ensures keys@ == bound(self@, KeyAction::FocusLeft),
    {
        self.binding(KeyAction::FocusLeft)
    }

    pub fn focus_down(&self) -> (keys: &[ConfigKey])
        ensures keys@ == bound(self@, KeyAction::FocusDown),
    {
        self.binding(KeyAction::FocusDown)
    }

    pub fn focus_up(&self) -> (keys: &[ConfigKey])
        ensures keys@ == bound(self@, KeyAction::FocusUp),
    {
        self.binding(KeyAction::FocusUp)
    }

    pub fn focus_right(&self) -> (keys: &[ConfigKey])
        ensures keys@ == bound(self@, KeyAction::FocusRight),
    {
        self.binding(KeyAction::FocusRight)
    }

    pub fn list_down(&self) -> (keys: &[ConfigKey])
        ensures keys@ == bound(self@, KeyAction::ListDown),
    {
        self.binding(KeyAction::ListDown)
    }

    pub fn list_up(&self) -> (keys: &[ConfigKey])
        ensures keys@ == bound(self@, KeyAction::ListUp),
    {
        self.binding(KeyAction::ListUp)
    }

    pub fn quit(&self) -> (keys: &[ConfigKey])
        ensures keys@ == bound(self@, KeyAction::Quit),
    {
        self.binding(KeyAction::Quit)
    }

    pub fn settings(&self) -> (keys: &[ConfigKey])
        ensures keys@ == bound(self@, KeyAction::Settings),
    {
        self.binding(KeyAction::Settings)
    }

    pub fn clock_primary(&self) -> (keys: &[ConfigKey])
        ensures keys@ == bound(self@, KeyAction::ClockPrimary),
    {
        self.binding(KeyAction::ClockPrimary)
    }

    pub fn cycle_session(&self) -> (keys: &[ConfigKey])
        ensures keys@ == bound(self@, KeyAction::CycleSession),
    {
        self.binding(KeyAction::CycleSession)
    }

    pub fn reset_session(&self) -> (keys: &[ConfigKey])
        ensures keys@ == bound(self@, KeyAction::ResetSession),
    {
        self.binding(KeyAction::ResetSession)
    }

    pub fn add_task(&self) -> (keys: &[ConfigKey])
        ensures keys@ == bound(self@, KeyAction::AddTask),
    {
        self.binding(KeyAction::AddTask)
    }

    pub fn edit_task(&self) -> (keys: &[ConfigKey])
        ensures keys@ == bound(self@, KeyAction::EditTask),
    {
        self.binding(KeyAction::EditTask)
    }

    pub fn delete_task(&self) -> (keys: &[ConfigKey])
        ensures keys@ == bound(self@, KeyAction::DeleteTask),
    {
        self.binding(KeyAction::DeleteTask)
    }

    pub fn task_primary(&self) -> (keys: &[ConfigKey])
        ensures keys@ == bound(self@, KeyAction::TaskPrimary),
    {
        self.binding(KeyAction::TaskPrimary)
    }

    pub fn move_task_up(&self) -> (keys: &[ConfigKey])
        ensures keys@ == bound(self@, KeyAction::MoveTaskUp),
    {
        self.binding(KeyAction::MoveTaskUp)
    }

    pub fn move_task_down(&self) -> (keys: &[ConfigKey])
        ensures keys@ == bound(self@, KeyAction::MoveTaskDown),
    {
        self.binding(KeyAction::MoveTaskDown)
    }

    /// The bindings with `action` bound to `key` alone; other commands keep their keys.
    pub fn with_binding(self, action: KeyAction, key: ConfigKey) -> (k: KeysConfig)
        ensures
            k@ == self@.update(action_index(action), seq![key]),
            k@.len() == ACTION_COUNT,
            bound(k@, action) == seq![key],
    {
        proof {
            use_type_invariant(&self);
        }
        let mut bindings = self.bindings;
        let i = slot(action);
        bindings.remove(i);
        bindings.insert(i, one(key));
        let k = KeysConfig { bindings };
        assert(k@ =~= self@.update(action_index(action), seq![key]));
        k
    }

    /// Checks that every command has a key, no reserved key is bound, the settings key is
    /// not a settings-overlay control, and no key means two commands in one context.
    pub fn validate(&self) -> (r: Result<(), ConfigValidationError>)
        ensures
            r matches Err(e) ==> bindings_error(self@) == Some(e),
            r is Ok <==> bindings_error(self@) is None,
    {
        proof {
            use_type_invariant(self);
        }
        let order = validation_list();
        let mut i: usize = 0;
        while i < order.len()
            invariant
                order@ == validation_order(),
                self.bindings@.len() == 17,
                i <= order@.len(),
                empty_from(self@, validation_order(), 0) == empty_from(self@, validation_order(), i as int),
            decreases order@.len() - i,
        {
            let a = order[i];
            if self.bindings[slot(a)].len() == 0 {
                return Err(ConfigValidationError::EmptyKeyBindings { field: field_name(a) });
            }
            i = i + 1;
        }
        assert(empty_from(self@, validation_order(), 17) is None);
        let all = self.entries_of(&order);
        let mut i: usize = 0;
        while i < all.len()
            invariant
                all@ == entries(self@, validation_order()),
                self@.len() == 17,
                empty_from(self@, validation_order(), 0) is None,
                i <= all@.len(),
                reserved_from(all@, 0) == reserved_from(all@, i as int),
            decreases all@.len() - i,
        {
            let (a, k) = all[i];
            if k == ConfigKey::Enter || k == ConfigKey::Escape {
                assert(reserved_from(all@, i as int) == Some(all@[i as int]));
                return Err(ConfigValidationError::ReservedKey { field: field_name(a), key: k });
            }
            i = i + 1;
        }
        assert(reserved_from(all@, all@.len() as int) is None);
        let settings = &self.bindings[slot(KeyAction::Settings)];
        let mut i: usize = 0;
        while i < settings.len()
            invariant
                self@.len() == 17,
                empty_from(self@, validation_order(), 0) is None,
                reserved_from(entries(self@, validation_order()), 0) is None,
                settings@ == self@[action_index(KeyAction::Settings)],
                i <= settings@.len(),
                overlay_from(settings@, 0) == overlay_from(settings@, i as int),
            decreases settings@.len() - i,
        {
            let k = settings[i];
            if k == ConfigKey::Space || k == ConfigKey::Up || k == ConfigKey::Down || k == ConfigKey::Left
                || k == ConfigKey::Right || k == ConfigKey::Character('h') || k == ConfigKey::Character('j')
                || k == ConfigKey::Character('k') || k == ConfigKey::Character('l') {
                assert(overlay_from(settings@, i as int) == Some(k));
                return Err(ConfigValidationError::SettingsOverlayKey { key: k });
            }
            i = i + 1;
        }
        let global_list = vec![KeyAction::FocusLeft, KeyAction::FocusDown, KeyAction::FocusUp, KeyAction::FocusRight,
            KeyAction::Quit, KeyAction::Settings];
        assert(global_list@ =~= global_actions());
        let global = self.entries_of(&global_list);
        check_unique(&global)?;
        let clock_list = vec![KeyAction::ClockPrimary, KeyAction::CycleSession, KeyAction::ResetSession];
        assert(clock_list@ =~= clock_actions());
        let mut with_clock = self.entries_of(&clock_list);
        let mut combined = copy_entries(&global);
        combined.append(&mut with_clock);
        check_unique(&combined)?;
        let task_list = vec![KeyAction::ListDown, KeyAction::ListUp, KeyAction::AddTask, KeyAction::EditTask,
            KeyAction::DeleteTask, KeyAction::TaskPrimary, KeyAction::MoveTaskUp, KeyAction::MoveTaskDown];
        assert(task_list@ =~= task_actions());
        let mut with_tasks = self.entries_of(&task_list);
        let mut combined = global;
        combined.append(&mut with_tasks);
        check_unique(&combined)
    }

    /// Every (command, key) pair of `actions`, in order.
    fn entries_of(&self, actions: &Vec<KeyAction>) -> (e: Vec<(KeyAction, ConfigKey)>)
        ensures
            e@ == entries(self@, actions@),
    {
        proof {
            use_type_invariant(self);
        }
        let mut e: Vec<(KeyAction, ConfigKey)> = Vec::new();
        let mut i: usize = 0;
        while i < actions.len()
            invariant
                self.bindings@.len() == 17,
                i <= actions@.len(),
                e@ == entries(self@, actions@.take(i as int)),
            decreases actions@.len() - i,
        {
            let a = actions[i];
            let keys = &self.bindings[slot(a)];
            let ghost before = e@;
            let mut j: usize = 0;
            while j < keys.len()
                invariant
                    keys@ == self@[action_index(a)],
                    j <= keys@.len(),
                    e@ == before + keys@.take(j as int).map_values(|k: ConfigKey| (a, k)),
                decreases keys@.len() - j,
            {
                e.push((a, keys[j]));
                assert(keys@.take(j + 1).map_values(|k: ConfigKey| (a, k)) =~= keys@.take(j as int).map_values(|k: ConfigKey| (a, k)).push((a, keys@[j as int])));
                j = j + 1;
            }
            assert(keys@.take(keys@.len() as int) =~= keys@);
            assert(actions@.take(i + 1).drop_last() =~= actions@.take(i as int));
            i = i + 1;
        }
        assert(actions@.take(actions@.len() as int) =~= actions@);
        e
    }
}

impl PartialEq for KeysConfig {
    fn eq(&self, other: &KeysConfig) -> (r: bool) {
        self.same_as(other)
    }
}

impl vstd::std_specs::cmp::PartialEqSpecImpl for KeysConfig {
    open spec fn obeys_eq_spec() -> bool {
        true
    }

    open spec fn eq_spec(&self, other: &KeysConfig) -> bool {
        self@ == other@
    }
}

impl Default for KeysConfig {
    /// The default bindings.
    fn default() -> (k: KeysConfig)
        ensures
            k@ == default_bindings(),
    {
        KeysConfig::default_keys()
    }
}

fn copy_entries(e: &Vec<(KeyAction, ConfigKey)>) -> (c: Vec<(KeyAction, ConfigKey)>)
    ensures
        c@ == e@,
{
    let mut c: Vec<(KeyAction, ConfigKey)> = Vec::new();
    let mut i: usize = 0;
    while i < e.len()
        invariant
            i <= e@.len(),
            c@ == e@.take(i as int),
        decreases e@.len() - i,
    {
        c.push(e[i]);
        assert(e@.take(i + 1) =~= e@.take(i as int).push(e@[i as int]));
        i = i + 1;
    }
    assert(e@.take(e@.len() as int) =~= e@);
    c
}

/// Rejects the first pair of entries that binds one key to two commands.
fn check_unique(e: &Vec<(KeyAction, ConfigKey)>) -> (r: Result<(), ConfigValidationError>)
    ensures
        r matches Err(x) ==> conflict_error(e@) == Some(x),
        r is Ok <==> conflict_error(e@) is None,
{
    let mut i: usize = 0;
    while i < e.len()
        invariant
            i <= e@.len(),
            conflict_from(e@, 0) == conflict_from(e@, i as int),
        decreases e@.len() - i,
    {
        let mut j: usize = i + 1;
        while j < e.len()
            invariant
                i < e@.len(),
                i + 1 <= j <= e@.len(),
                conflict_from(e@, 0) == conflict_from(e@, i as int),
                partner_from(e@, i as int, i + 1) == partner_from(e@, i as int, j as int),
            decreases e@.len() - j,
        {
            if e[i].1 == e[j].1 && e[i].0 != e[j].0 {
                assert(partner_from(e@, i as int, j as int) == Some(j as int));
                assert(conflict_from(e@, i as int) == Some((i as int, j as int)));
                return Err(ConfigValidationError::ConflictingKeys { first: field_name(e[i].0), second: field_name(e[j].0) });
            }
            j = j + 1;
        }
        i = i + 1;
    }
    Ok(())
}

} // verus!
