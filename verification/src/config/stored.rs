//! Key bindings and theme colors written to and read back from the entries of a stored
//! configuration.
use vstd::prelude::*;

use super::keys::{
    action_field, action_index, default_bindings, field_name, key_from_stored_name, key_name_error, key_stored_name,
    ConfigKey,
    KeyAction, KeysConfig, ACTION_COUNT,
};
use super::theme::{color_error_text, color_text, parse_color_text, ThemeColor, ThemeConfig, ThemeRole};
use crate::text::{char_is_control, owned, push_str, same_text};

verus! {

/// The command whose bindings are stored at index `i`.
pub open spec fn action_at(i: int) -> KeyAction {
    if i <= 0 { KeyAction::FocusLeft }
    else if i == 1 { KeyAction::FocusDown }
    else if i == 2 { KeyAction::FocusUp }
    else if i == 3 { KeyAction::FocusRight }
    else if i == 4 { KeyAction::ListDown }
    else if i == 5 { KeyAction::ListUp }
    else if i == 6 { KeyAction::Quit }
    else if i == 7 { KeyAction::Settings }
    else if i == 8 { KeyAction::ClockPrimary }
    else if i == 9 { KeyAction::CycleSession }
    else if i == 10 { KeyAction::ResetSession }
    else if i == 11 { KeyAction::AddTask }
    else if i == 12 { KeyAction::EditTask }
    else if i == 13 { KeyAction::DeleteTask }
    else if i == 14 { KeyAction::TaskPrimary }
    else if i == 15 { KeyAction::MoveTaskUp }
    else { KeyAction::MoveTaskDown }
}

proof fn lemma_action_at_index(a: KeyAction)
    ensures
        0 <= action_index(a) < ACTION_COUNT,
        action_at(action_index(a)) == a,
{
}

fn action_at_index(i: usize) -> (a: KeyAction)
    requires
        i < ACTION_COUNT,
    ensures
        a == action_at(i as int),
        action_index(a) == i,
{
    match i {
        0 => KeyAction::FocusLeft,
        1 => KeyAction::FocusDown,
        2 => KeyAction::FocusUp,
        3 => KeyAction::FocusRight,
        4 => KeyAction::ListDown,
        5 => KeyAction::ListUp,
        6 => KeyAction::Quit,
        7 => KeyAction::Settings,
        8 => KeyAction::ClockPrimary,
        9 => KeyAction::CycleSession,
        10 => KeyAction::ResetSession,
        11 => KeyAction::AddTask,
        12 => KeyAction::EditTask,
        13 => KeyAction::DeleteTask,
        14 => KeyAction::TaskPrimary,
        15 => KeyAction::MoveTaskUp,
        _ => KeyAction::MoveTaskDown,
    }
}

/// Whether `name` is the stored field of some command.
pub open spec fn binding_field(name: Seq<char>) -> bool {
    exists|a: KeyAction| action_field(a)@ == name
}

/// Whether `name` is the stored field of some command.
fn is_binding_field(name: &str) -> (b: bool)
    ensures
        b == binding_field(name@),
{
    let mut i: usize = 0;
    while i < ACTION_COUNT
        invariant
            i <= ACTION_COUNT,
            forall|k: int| 0 <= k < i ==> action_field(#[trigger] action_at(k))@ != name@,
        decreases ACTION_COUNT - i,
    {
        let a = action_at_index(i);
        if same_text(field_name(a), name) {
            return true;
        }
        i = i + 1;
    }
    assert forall|a: KeyAction| action_field(a)@ != name@ by {
        lemma_action_at_index(a);
        assert(action_field(action_at(action_index(a)))@ != name@);
    }
    false
}

/// The first entry, from `from` on, whose name is no command's field.
pub open spec fn first_unknown(entries: Seq<(String, Vec<String>)>, from: int) -> Option<int>
    decreases entries.len() - from,
{
    if from < 0 || from >= entries.len() {
        None
    } else if !binding_field(entries[from].0@) {
        Some(from)
    } else {
        first_unknown(entries, from + 1)
    }
}

/// The first entry, from `from` on, named `name`.
pub open spec fn entry_named(entries: Seq<(String, Vec<String>)>, name: Seq<char>, from: int) -> Option<int>
    decreases entries.len() - from,
{
    if from < 0 || from >= entries.len() {
        None
    } else if entries[from].0@ == name {
        Some(from)
    } else {
        entry_named(entries, name, from + 1)
    }
}

/// The keys named by `names`, or the complaint about the first name that names no key.
pub open spec fn parsed_keys(names: Seq<String>) -> Result<Seq<ConfigKey>, Seq<char>>
    decreases names.len(),
{
    if names.len() == 0 {
        Ok(Seq::empty())
    } else {
        match parsed_keys(names.drop_last()) {
            Err(e) => Err(e),
            Ok(keys) => match key_from_stored_name(names.last()@) {
                Some(k) => Ok(keys.push(k)),
                None => Err(key_name_error(names.last()@)),
            },
        }
    }
}

/// The keys stored for the command at index `i`, or its default keys when it has no entry.
pub open spec fn stored_binding(entries: Seq<(String, Vec<String>)>, i: int) -> Result<Seq<ConfigKey>, Seq<char>> {
    match entry_named(entries, action_field(action_at(i))@, 0) {
        Some(j) => parsed_keys(entries[j].1@),
        None => Ok(default_bindings()[i]),
    }
}

/// The bindings of the first `n` commands, or the complaint about the first key name, in
/// command order, that names no key.
pub open spec fn stored_bindings(entries: Seq<(String, Vec<String>)>, n: int) -> Result<Seq<Seq<ConfigKey>>, Seq<char>>
    decreases n,
{
    if n <= 0 {
        Ok(Seq::empty())
    } else {
        match stored_bindings(entries, n - 1) {
            Err(e) => Err(e),
            Ok(lists) => match stored_binding(entries, n - 1) {
                Ok(keys) => Ok(lists.push(keys)),
                Err(e) => Err(e),
            },
        }
    }
}

/// The complaint about an entry that names no command.
pub open spec fn unknown_binding_text(name: Seq<char>) -> Seq<char> {
    "unknown key binding `"@ + name + "`"@
}

/// What stored entries give: the complaint about the first entry that names no command,
/// else the bindings of every command, or the complaint about the first bad key name.
pub open spec fn keys_from_entries(entries: Seq<(String, Vec<String>)>) -> Result<Seq<Seq<ConfigKey>>, Seq<char>> {
    match first_unknown(entries, 0) {
        Some(j) => Err(unknown_binding_text(entries[j].0@)),
        None => stored_bindings(entries, ACTION_COUNT as int),
    }
}

proof fn lemma_parsed_error_stays(names: Seq<String>, i: int)
    requires
        0 <= i <= names.len(),
        parsed_keys(names.subrange(0, i)) is Err,
    ensures
        parsed_keys(names) == parsed_keys(names.subrange(0, i)),
    decreases names.len() - i,
{
    if i < names.len() {
        assert(names.subrange(0, i + 1).drop_last() =~= names.subrange(0, i));
        lemma_parsed_error_stays(names, i + 1);
    } else {
        assert(names.subrange(0, i) =~= names);
    }
}

proof fn lemma_bindings_error_stays(entries: Seq<(String, Vec<String>)>, i: int, n: int)
    requires
        0 <= i <= n,
        stored_bindings(entries, i) is Err,
    ensures
        stored_bindings(entries, n) == stored_bindings(entries, i),
    decreases n - i,
{
    if i < n {
        lemma_bindings_error_stays(entries, i + 1, n);
    }
}

/// The keys named by `names`, or the complaint about the first name that names no key.
fn parse_key_names(names: &[String]) -> (r: Result<Vec<ConfigKey>, String>)
    ensures
        match (r, parsed_keys(names@)) {
            (Ok(keys), Ok(expected)) => keys@ == expected,
            (Err(e), Err(expected)) => e@ == expected,
            _ => false,
        },
{
    let mut keys: Vec<ConfigKey> = Vec::new();
    let mut i: usize = 0;
    while i < names.len()
        invariant
            i <= names@.len(),
            parsed_keys(names@.subrange(0, i as int)) == Ok::<Seq<ConfigKey>, Seq<char>>(keys@),
        decreases names@.len() - i,
    {
        proof {
            assert(names@.subrange(0, i + 1).drop_last() =~= names@.subrange(0, i as int));
        }
        match ConfigKey::from_stored_name(names[i].as_str()) {
            Ok(k) => keys.push(k),
            Err(e) => {
                proof {
                    lemma_parsed_error_stays(names@, i + 1);
                }
                return Err(e);
            },
        }
        i = i + 1;
    }
    proof {
        assert(names@.subrange(0, names@.len() as int) =~= names@);
    }
    Ok(keys)
}

/// The first entry named `name`.
fn find_entry(entries: &[(String, Vec<String>)], name: &str) -> (j: Option<usize>)
    ensures
        match j {
            Some(j) => j < entries@.len() && entry_named(entries@, name@, 0) == Some(j as int),
            None => entry_named(entries@, name@, 0) is None,
        },
{
    let mut i: usize = 0;
    while i < entries.len()
        invariant
            i <= entries@.len(),
            entry_named(entries@, name@, 0) == entry_named(entries@, name@, i as int),
        decreases entries@.len() - i,
    {
        if same_text(entries[i].0.as_str(), name) {
            return Some(i);
        }
        i = i + 1;
    }
    None
}

/// The key bindings of stored entries, each the stored field of a command with the names of
/// its keys: an entry that names no command is refused, a command without an entry keeps its
/// default keys, and the first key name, in command order, that names no key is refused.
pub fn keys_from_stored(entries: &[(String, Vec<String>)]) -> (r: Result<KeysConfig, String>)
    ensures
        match (r, keys_from_entries(entries@)) {
            (Ok(k), Ok(expected)) => k@ == expected,
            (Err(e), Err(expected)) => e@ == expected,
            _ => false,
        },
{
    let mut j: usize = 0;
    while j < entries.len()
        invariant
            j <= entries@.len(),
            first_unknown(entries@, 0) == first_unknown(entries@, j as int),
        decreases entries@.len() - j,
    {
        if !is_binding_field(entries[j].0.as_str()) {
            let mut s = owned("unknown key binding `");
            push_str(&mut s, entries[j].0.as_str());
            push_str(&mut s, "`");
            return Err(s);
        }
        j = j + 1;
    }
    let defaults = KeysConfig::default();
    let mut lists: Vec<Vec<ConfigKey>> = Vec::new();
    proof {
        assert(lists@.map_values(|v: Vec<ConfigKey>| v@) =~= Seq::<Seq<ConfigKey>>::empty());
    }
    let mut i: usize = 0;
    while i < ACTION_COUNT
        invariant
            i <= ACTION_COUNT,
            lists@.len() == i,
            first_unknown(entries@, 0) is None,
            defaults@ == default_bindings(),
            stored_bindings(entries@, i as int) == Ok::<Seq<Seq<ConfigKey>>, Seq<char>>(
                lists@.map_values(|v: Vec<ConfigKey>| v@)),
        decreases ACTION_COUNT - i,
    {
        let a = action_at_index(i);
        let found = find_entry(entries, field_name(a));
        let keys = match found {
            Some(k) => match parse_key_names(entries[k].1.as_slice()) {
                Ok(keys) => keys,
                Err(e) => {
                    proof {
                        lemma_bindings_error_stays(entries@, i + 1, ACTION_COUNT as int);
                    }
                    return Err(e);
                },
            },
            None => vstd::slice::slice_to_vec(defaults.binding(a)),
        };
        let ghost before = lists@;
        lists.push(keys);
        proof {
            assert(lists@.map_values(|v: Vec<ConfigKey>| v@) =~= before.map_values(|v: Vec<ConfigKey>| v@).push(
                keys@));
        }
        i = i + 1;
    }
    match KeysConfig::from_lists(lists) {
        Some(k) => Ok(k),
        None => {
            assert(false);
            Err(owned("key bindings are incomplete"))
        },
    }
}

/// The role whose stored name is `name`.
pub open spec fn role_named(name: Seq<char>) -> Option<ThemeRole> {
    if name == "focused_border"@ { Some(ThemeRole::FocusedBorder) }
    else if name == "unfocused_border"@ { Some(ThemeRole::UnfocusedBorder) }
    else if name == "todo_highlight"@ { Some(ThemeRole::TodoHighlight) }
    else if name == "done_highlight"@ { Some(ThemeRole::DoneHighlight) }
    else if name == "focus"@ { Some(ThemeRole::Focus) }
    else if name == "short_break"@ { Some(ThemeRole::ShortBreak) }
    else if name == "long_break"@ { Some(ThemeRole::LongBreak) }
    else { None }
}

/// The role whose stored name is `name`.
fn find_role(name: &str) -> (r: Option<ThemeRole>)
    ensures
        r == role_named(name@),
{
    proof {
        reveal_strlit("focused_border");
        reveal_strlit("unfocused_border");
        reveal_strlit("todo_highlight");
        reveal_strlit("done_highlight");
        reveal_strlit("focus");
        reveal_strlit("short_break");
        reveal_strlit("long_break");
    }
    if same_text(name, "focused_border") {
        Some(ThemeRole::FocusedBorder)
    } else if same_text(name, "unfocused_border") {
        Some(ThemeRole::UnfocusedBorder)
    } else if same_text(name, "todo_highlight") {
        Some(ThemeRole::TodoHighlight)
    } else if same_text(name, "done_highlight") {
        Some(ThemeRole::DoneHighlight)
    } else if same_text(name, "focus") {
        Some(ThemeRole::Focus)
    } else if same_text(name, "short_break") {
        Some(ThemeRole::ShortBreak)
    } else if same_text(name, "long_break") {
        Some(ThemeRole::LongBreak)
    } else {
        None
    }
}

/// The complaint about an entry that names no theme role.
pub open spec fn unknown_color_text(name: Seq<char>) -> Seq<char> {
    "unknown theme color `"@ + name + "`"@
}

/// The complaint about the first of the first `n` entries that names no role or holds no
/// color, in entry order.
pub open spec fn theme_complaint(entries: Seq<(String, String)>, n: int) -> Option<Seq<char>>
    decreases n,
{
    if n <= 0 {
        None
    } else if theme_complaint(entries, n - 1) is Some {
        theme_complaint(entries, n - 1)
    } else if role_named(entries[n - 1].0@) is None {
        Some(unknown_color_text(entries[n - 1].0@))
    } else if parse_color_text(entries[n - 1].1@) is None {
        Some(color_error_text(entries[n - 1].1@))
    } else {
        None
    }
}

/// The color that the last of the first `n` entries naming `role` holds, if any does.
pub open spec fn stored_color(entries: Seq<(String, String)>, role: ThemeRole, n: int) -> Option<ThemeColor>
    decreases n,
{
    if n <= 0 {
        None
    } else if role_named(entries[n - 1].0@) == Some(role) {
        parse_color_text(entries[n - 1].1@)
    } else {
        stored_color(entries, role, n - 1)
    }
}

/// The theme of stored entries, each a role's stored name with a color: an entry that names
/// no role or holds no color is refused, the first such in entry order, and every other role
/// keeps its default color; a later entry for a role wins over an earlier one.
pub fn theme_from_stored(entries: &[(String, String)]) -> (r: Result<ThemeConfig, String>)
    ensures
        match r {
            Ok(t) => theme_complaint(entries@, entries@.len() as int) is None && forall|role: ThemeRole|
                #[trigger] t.role_color(role) == match stored_color(entries@, role, entries@.len() as int) {
                    Some(c) => c,
                    None => ThemeConfig::default_theme_color(role),
                },
            Err(e) => theme_complaint(entries@, entries@.len() as int) == Some(e@),
        },
{
    let mut theme = ThemeConfig::default_theme();
    let mut i: usize = 0;
    while i < entries.len()
        invariant
            i <= entries@.len(),
            theme_complaint(entries@, i as int) is None,
            forall|role: ThemeRole| #[trigger] theme.role_color(role) == match stored_color(entries@, role, i as int) {
                Some(c) => c,
                None => ThemeConfig::default_theme_color(role),
            },
        decreases entries@.len() - i,
    {
        let role = match find_role(entries[i].0.as_str()) {
            Some(role) => role,
            None => {
                let mut s = owned("unknown theme color `");
                push_str(&mut s, entries[i].0.as_str());
                push_str(&mut s, "`");
                proof {
                    lemma_theme_complaint_stays(entries@, i + 1, entries@.len() as int);
                }
                return Err(s);
            },
        };
        let color = match ThemeColor::parse(entries[i].1.as_str()) {
            Ok(c) => c,
            Err(e) => {
                proof {
                    lemma_theme_complaint_stays(entries@, i + 1, entries@.len() as int);
                }
                return Err(e);
            },
        };
        theme = theme.with_color(role, color);
        i = i + 1;
    }
    Ok(theme)
}

proof fn lemma_theme_complaint_stays(entries: Seq<(String, String)>, i: int, n: int)
    requires
        0 <= i <= n,
        theme_complaint(entries, i) is Some,
    ensures
        theme_complaint(entries, n) == theme_complaint(entries, i),
    decreases n - i,
{
    if i < n {
        lemma_theme_complaint_stays(entries, i + 1, n);
    }
}

/// Different commands are stored under different fields.
proof fn lemma_fields_distinct(i: int, j: int)
    requires
        0 <= i < j < ACTION_COUNT,
    ensures
        action_field(action_at(i))@ != action_field(action_at(j))@,
{
    reveal_strlit("focus_left");
    reveal_strlit("focus_down");
    reveal_strlit("focus_up");
    reveal_strlit("focus_right");
    reveal_strlit("list_down");
    reveal_strlit("list_up");
    reveal_strlit("quit");
    reveal_strlit("settings");
    reveal_strlit("clock_primary");
    reveal_strlit("cycle_session");
    reveal_strlit("reset_session");
    reveal_strlit("add_task");
    reveal_strlit("edit_task");
    reveal_strlit("delete_task");
    reveal_strlit("task_primary");
    reveal_strlit("move_task_up");
    reveal_strlit("move_task_down");
    let a = action_field(action_at(i))@;
    let b = action_field(action_at(j))@;
    if a.len() == b.len() {
        assert(a[0] != b[0] || a[1] != b[1] || a[2] != b[2] || a[3] != b[3] || a[4] != b[4] || a[5] != b[5] || a[6] != b[6] || a[7] != b[7] || a[8] != b[8] || a[9] != b[9] || a[10] != b[10] || a[11] != b[11] || a[12] != b[12] || a[13] != b[13]);
    }
}

/// Whether `key` reads back from its stored name: every key but a control character or a
/// literal space character.
pub open spec fn storable_key(key: ConfigKey) -> bool {
    key matches ConfigKey::Character(c) ==> !char_is_control(c) && c != ' '
}

/// Whether `entries` store `keys`: one entry per command in command order, each the
/// command's field with the stored names of its keys.
pub open spec fn stores(entries: Seq<(String, Vec<String>)>, keys: Seq<Seq<ConfigKey>>) -> bool {
    &&& keys.len() == ACTION_COUNT
    &&& entries.len() == ACTION_COUNT
    &&& forall|i: int| 0 <= i < ACTION_COUNT ==> #[trigger] entries[i].0@ == action_field(action_at(i))@
    &&& forall|i: int| 0 <= i < ACTION_COUNT ==> (#[trigger] entries[i]).1@.len() == keys[i].len()
    &&& forall|i: int, j: int| 0 <= i < ACTION_COUNT && 0 <= j < keys[i].len() ==> (#[trigger] entries[i].1@[j])@
        == key_stored_name(keys[i][j])
}

proof fn lemma_stored_none_unknown(entries: Seq<(String, Vec<String>)>, keys: Seq<Seq<ConfigKey>>, from: int)
    requires
        stores(entries, keys),
        0 <= from,
    ensures
        first_unknown(entries, from) is None,
    decreases entries.len() - from,
{
    if from < entries.len() {
        assert(entries[from].0@ == action_field(action_at(from))@);
        assert(binding_field(entries[from].0@));
        lemma_stored_none_unknown(entries, keys, from + 1);
    }
}

proof fn lemma_stored_entry_found(entries: Seq<(String, Vec<String>)>, keys: Seq<Seq<ConfigKey>>, i: int, from: int)
    requires
        stores(entries, keys),
        0 <= from <= i < ACTION_COUNT,
    ensures
        entry_named(entries, action_field(action_at(i))@, from) == Some(i),
    decreases i - from,
{
    assert(entries[from].0@ == action_field(action_at(from))@);
    if from < i {
        lemma_fields_distinct(from, i);
        lemma_stored_entry_found(entries, keys, i, from + 1);
    }
}

proof fn lemma_stored_names_parse(names: Seq<String>, keys: Seq<ConfigKey>)
    requires
        names.len() == keys.len(),
        forall|j: int| 0 <= j < keys.len() ==> storable_key(#[trigger] keys[j]),
        forall|j: int| 0 <= j < keys.len() ==> (#[trigger] names[j])@ == key_stored_name(keys[j]),
    ensures
        parsed_keys(names) == Ok::<Seq<ConfigKey>, Seq<char>>(keys),
    decreases names.len(),
{
    if names.len() > 0 {
        let n = names.len() - 1;
        assert(names[n]@ == key_stored_name(keys[n]));
        assert(storable_key(keys[n]));
        crate::config::keys::lemma_stored_name_round_trip(keys[n]);
        let fewer = keys.drop_last();
        assert forall|j: int| 0 <= j < fewer.len() implies (#[trigger] names.drop_last()[j])@ == key_stored_name(
            fewer[j]) by {
            assert(names[j]@ == key_stored_name(keys[j]));
        }
        assert forall|j: int| 0 <= j < fewer.len() implies storable_key(#[trigger] fewer[j]) by {
            assert(storable_key(keys[j]));
        }
        lemma_stored_names_parse(names.drop_last(), fewer);
        assert(names.last() == names[n]);
        assert(fewer.push(keys[n]) =~= keys);
    } else {
        assert(keys =~= Seq::<ConfigKey>::empty());
    }
}

proof fn lemma_stored_bindings_prefix(entries: Seq<(String, Vec<String>)>, keys: Seq<Seq<ConfigKey>>, n: int)
    requires
        stores(entries, keys),
        forall|i: int, j: int| 0 <= i < ACTION_COUNT && 0 <= j < keys[i].len() ==> storable_key(#[trigger] keys[i][j]),
        0 <= n <= ACTION_COUNT,
    ensures
        stored_bindings(entries, n) == Ok::<Seq<Seq<ConfigKey>>, Seq<char>>(keys.subrange(0, n)),
    decreases n,
{
    if n == 0 {
        assert(keys.subrange(0, 0) =~= Seq::<Seq<ConfigKey>>::empty());
    } else {
        let i = n - 1;
        lemma_stored_bindings_prefix(entries, keys, i);
        lemma_stored_entry_found(entries, keys, i, 0);
        assert(entries[i].1@.len() == keys[i].len());
        assert forall|j: int| 0 <= j < keys[i].len() implies (#[trigger] entries[i].1@[j])@ == key_stored_name(
            keys[i][j]) by {}
        assert forall|j: int| 0 <= j < keys[i].len() implies storable_key(#[trigger] keys[i][j]) by {}
        lemma_stored_names_parse(entries[i].1@, keys[i]);
        assert(keys.subrange(0, i).push(keys[i]) =~= keys.subrange(0, n));
    }
}

/// Key bindings written out as stored entries read back unchanged, as long as no key is a
/// control character or a literal space character, whose stored names name no key.
pub proof fn lemma_stored_keys_read_back(entries: Seq<(String, Vec<String>)>, keys: Seq<Seq<ConfigKey>>)
    requires
        stores(entries, keys),
        forall|i: int, j: int| 0 <= i < ACTION_COUNT && 0 <= j < keys[i].len() ==> storable_key(#[trigger] keys[i][j]),
    ensures
        keys_from_entries(entries) == Ok::<Seq<Seq<ConfigKey>>, Seq<char>>(keys),
{
    lemma_stored_none_unknown(entries, keys, 0);
    lemma_stored_bindings_prefix(entries, keys, ACTION_COUNT as int);
    assert(keys.subrange(0, ACTION_COUNT as int) =~= keys);
}

/// The stored names of a list of keys.
fn stored_names(keys: &[ConfigKey]) -> (names: Vec<String>)
    ensures
        names@.len() == keys@.len(),
        forall|j: int| 0 <= j < keys@.len() ==> (#[trigger] names@[j])@ == key_stored_name(keys@[j]),
{
    let mut names: Vec<String> = Vec::new();
    let mut j: usize = 0;
    while j < keys.len()
        invariant
            j <= keys@.len(),
            names@.len() == j,
            forall|k: int| 0 <= k < j ==> (#[trigger] names@[k])@ == key_stored_name(keys@[k]),
        decreases keys@.len() - j,
    {
        names.push(keys[j].stored_name());
        j = j + 1;
    }
    names
}

/// The entries that store `keys`: one per command in command order, each the command's field
/// with the stored names of its keys.
pub fn stored_key_entries(keys: &KeysConfig) -> (entries: Vec<(String, Vec<String>)>)
    ensures
        stores(entries@, keys@),
{
    let mut entries: Vec<(String, Vec<String>)> = Vec::new();
    let mut i: usize = 0;
    while i < ACTION_COUNT
        invariant
            i <= ACTION_COUNT,
            i > 0 ==> keys@.len() == ACTION_COUNT,
            entries@.len() == i,
            forall|k: int| 0 <= k < i ==> #[trigger] entries@[k].0@ == action_field(action_at(k))@,
            forall|k: int| 0 <= k < i ==> (#[trigger] entries@[k]).1@.len() == keys@[k].len(),
            forall|k: int, j: int| 0 <= k < i && 0 <= j < keys@[k].len() ==> (#[trigger] entries@[k].1@[j])@
                == key_stored_name(keys@[k][j]),
        decreases ACTION_COUNT - i,
    {
        let a = action_at_index(i);
        let bound_keys = keys.binding(a);
        let names = stored_names(bound_keys);
        entries.push((owned(field_name(a)), names));
        i = i + 1;
    }
    entries
}

/// The role whose color is stored at index `i`.
pub open spec fn role_at(i: int) -> ThemeRole {
    if i <= 0 { ThemeRole::FocusedBorder }
    else if i == 1 { ThemeRole::UnfocusedBorder }
    else if i == 2 { ThemeRole::TodoHighlight }
    else if i == 3 { ThemeRole::DoneHighlight }
    else if i == 4 { ThemeRole::Focus }
    else if i == 5 { ThemeRole::ShortBreak }
    else { ThemeRole::LongBreak }
}

/// The index at which the color of `role` is stored.
pub open spec fn role_index(role: ThemeRole) -> int {
    match role {
        ThemeRole::FocusedBorder => 0,
        ThemeRole::UnfocusedBorder => 1,
        ThemeRole::TodoHighlight => 2,
        ThemeRole::DoneHighlight => 3,
        ThemeRole::Focus => 4,
        ThemeRole::ShortBreak => 5,
        ThemeRole::LongBreak => 6,
    }
}

/// The number of theme roles.
pub const ROLE_COUNT: usize = 7;

/// The stored name of a theme role.
pub open spec fn role_name(role: ThemeRole) -> Seq<char> {
    match role {
        ThemeRole::FocusedBorder => "focused_border"@,
        ThemeRole::UnfocusedBorder => "unfocused_border"@,
        ThemeRole::TodoHighlight => "todo_highlight"@,
        ThemeRole::DoneHighlight => "done_highlight"@,
        ThemeRole::Focus => "focus"@,
        ThemeRole::ShortBreak => "short_break"@,
        ThemeRole::LongBreak => "long_break"@,
    }
}

fn role_at_index(i: usize) -> (r: ThemeRole)
    requires
        i < ROLE_COUNT,
    ensures
        r == role_at(i as int),
{
    match i {
        0 => ThemeRole::FocusedBorder,
        1 => ThemeRole::UnfocusedBorder,
        2 => ThemeRole::TodoHighlight,
        3 => ThemeRole::DoneHighlight,
        4 => ThemeRole::Focus,
        5 => ThemeRole::ShortBreak,
        _ => ThemeRole::LongBreak,
    }
}

fn stored_role_name(role: ThemeRole) -> (s: String)
    ensures
        s@ == role_name(role),
{
    let name = match role {
        ThemeRole::FocusedBorder => "focused_border",
        ThemeRole::UnfocusedBorder => "unfocused_border",
        ThemeRole::TodoHighlight => "todo_highlight",
        ThemeRole::DoneHighlight => "done_highlight",
        ThemeRole::Focus => "focus",
        ThemeRole::ShortBreak => "short_break",
        ThemeRole::LongBreak => "long_break",
    };
    owned(name)
}

/// A role's stored name names that role.
proof fn lemma_role_name_read(role: ThemeRole)
    ensures
        role_named(role_name(role)) == Some(role),
{
    reveal_strlit("focused_border");
    reveal_strlit("unfocused_border");
    reveal_strlit("todo_highlight");
    reveal_strlit("done_highlight");
    reveal_strlit("focus");
    reveal_strlit("short_break");
    reveal_strlit("long_break");
    let a = role_name(role);
    match role {
        ThemeRole::FocusedBorder => {},
        ThemeRole::UnfocusedBorder => {
            assert(a.len() != "focused_border"@.len());
        },
        ThemeRole::TodoHighlight => {
            assert(a[0] != "focused_border"@[0]);
        },
        ThemeRole::DoneHighlight => {
            assert(a[0] != "focused_border"@[0]);
            assert(a[0] != "todo_highlight"@[0]);
        },
        ThemeRole::Focus => {
            assert(a.len() != "focused_border"@.len());
        },
        ThemeRole::ShortBreak => {
            assert(a.len() != "focused_border"@.len());
        },
        ThemeRole::LongBreak => {
            assert(a.len() != "focused_border"@.len());
        },
    }
    assert(role_named(a) == Some(role));
}

/// Whether `entries` store `theme`: one entry per role in role order, each the role's stored
/// name with the text of its color.
pub open spec fn stores_theme(entries: Seq<(String, String)>, theme: ThemeConfig) -> bool {
    &&& entries.len() == ROLE_COUNT
    &&& forall|i: int| 0 <= i < ROLE_COUNT ==> #[trigger] entries[i].0@ == role_name(role_at(i))
    &&& forall|i: int| 0 <= i < ROLE_COUNT ==> (#[trigger] entries[i]).1@ == color_text(theme.role_color(role_at(i)))
}

proof fn lemma_stored_theme_prefix(entries: Seq<(String, String)>, theme: ThemeConfig, n: int)
    requires
        stores_theme(entries, theme),
        0 <= n <= ROLE_COUNT,
    ensures
        theme_complaint(entries, n) is None,
        forall|role: ThemeRole| #[trigger] stored_color(entries, role, n) == if role_index(role) < n {
            Some(theme.role_color(role))
        } else {
            None
        },
    decreases n,
{
    if n > 0 {
        let i = n - 1;
        lemma_stored_theme_prefix(entries, theme, i);
        let r = role_at(i);
        assert(entries[i].0@ == role_name(r));
        assert(entries[i].1@ == color_text(theme.role_color(r)));
        lemma_role_name_read(r);
        crate::config::theme::lemma_color_text_round_trip(theme.role_color(r));
        assert(role_index(r) == i);
        assert forall|role: ThemeRole| #[trigger] stored_color(entries, role, n) == if role_index(role) < n {
            Some(theme.role_color(role))
        } else {
            None
        } by {
            if role == r {
                assert(role_named(entries[i].0@) == Some(role));
            } else {
                assert(role_index(role) != i);
                assert(role_named(entries[i].0@) != Some(role));
                assert(stored_color(entries, role, i) == if role_index(role) < i {
                    Some(theme.role_color(role))
                } else {
                    None
                });
            }
        }
    }
}

/// A theme written out as stored entries reads back unchanged: no entry is refused, and every
/// role gets back its color.
pub proof fn lemma_stored_theme_read_back(entries: Seq<(String, String)>, theme: ThemeConfig)
    requires
        stores_theme(entries, theme),
    ensures
        theme_complaint(entries, entries.len() as int) is None,
        forall|role: ThemeRole| #[trigger] stored_color(entries, role, entries.len() as int) == Some(
            theme.role_color(role)),
{
    lemma_stored_theme_prefix(entries, theme, ROLE_COUNT as int);
    assert forall|role: ThemeRole| #[trigger] stored_color(entries, role, entries.len() as int) == Some(
        theme.role_color(role)) by {
        assert(role_index(role) < ROLE_COUNT);
    }
}

/// The entries that store `theme`: one per role in role order, each the role's stored name
/// with the text of its color.
pub fn stored_theme_entries(theme: ThemeConfig) -> (entries: Vec<(String, String)>)
    ensures
        stores_theme(entries@, theme),
{
    let mut entries: Vec<(String, String)> = Vec::new();
    let mut i: usize = 0;
    while i < ROLE_COUNT
        invariant
            i <= ROLE_COUNT,
            entries@.len() == i,
            forall|k: int| 0 <= k < i ==> #[trigger] entries@[k].0@ == role_name(role_at(k)),
            forall|k: int| 0 <= k < i ==> (#[trigger] entries@[k]).1@ == color_text(theme.role_color(role_at(k))),
        decreases ROLE_COUNT - i,
    {
        let role = role_at_index(i);
        entries.push((stored_role_name(role), theme.color(role).to_text()));
        i = i + 1;
    }
    entries
}

} // verus!
