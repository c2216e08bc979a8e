//! Mapping physical keys to semantic actions for the current application context.
use vstd::prelude::*;

use crate::app::{Action, Direction, EditMode, SettingsMode, UiFocus};
use crate::config::keys::{
    bindings_error, bound, clock_actions, global_actions, is_overlay_control, lemma_valid_bindings_unique, overlay_from,
    task_actions,
    ConfigKey, KeyAction,
    KeysConfig,
};
use crate::settings::{SettingsAdjustmentDirection, SettingsMoveDirection};

verus! {

/// A key as the terminal reports it.
#[derive(Debug, Clone, Copy, PartialEq, Eq, Structural)]
pub enum KeyCode {
    Char(char),
    Enter,
    Esc,
    Backspace,
    Up,
    Down,
    Left,
    Right,
    /// Any key that no command can be bound to.
    Other,
}

/// A key together with the Control and Alt modifiers held with it.
#[derive(Debug, Clone, Copy, PartialEq, Eq, Structural)]
pub struct PhysicalKey {
    pub code: KeyCode,
    pub control: bool,
    pub alt: bool,
}

impl PhysicalKey {
    /// The key with no modifier held.
    pub fn plain(code: KeyCode) -> (k: PhysicalKey)
        ensures
            k == (PhysicalKey { code, control: false, alt: false }),
    {
        PhysicalKey { code, control: false, alt: false }
    }

    pub open spec fn unmodified(self) -> bool {
        !self.control && !self.alt
    }

    pub fn is_unmodified(self) -> (b: bool)
        ensures
            b == self.unmodified(),
    {
        !self.control && !self.alt
    }
}

/// The configurable key a physical key stands for; keys held with a modifier and keys
/// that no command can be bound to stand for none.
pub open spec fn config_key_of(key: PhysicalKey) -> Option<ConfigKey> {
    if !key.unmodified() {
        None
    } else {
        match key.code {
            KeyCode::Char(' ') => Some(ConfigKey::Space),
            KeyCode::Char(c) => Some(ConfigKey::Character(c)),
            KeyCode::Enter => Some(ConfigKey::Enter),
            KeyCode::Esc => Some(ConfigKey::Escape),
            KeyCode::Backspace => Some(ConfigKey::Backspace),
            KeyCode::Up => Some(ConfigKey::Up),
            KeyCode::Down => Some(ConfigKey::Down),
            KeyCode::Left => Some(ConfigKey::Left),
            KeyCode::Right => Some(ConfigKey::Right),
            KeyCode::Other => None,
        }
    }
}

/// Whether `key` is one of the keys bound to `action`.
pub open spec fn triggers(key: PhysicalKey, keys: Seq<Seq<ConfigKey>>, action: KeyAction) -> bool {
    config_key_of(key) matches Some(k) && bound(keys, action).contains(k)
}

/// The focus direction `key` is bound to, checked left, down, up, right.
pub open spec fn focus_direction_of(key: PhysicalKey, keys: Seq<Seq<ConfigKey>>) -> Option<Direction> {
    if triggers(key, keys, KeyAction::FocusLeft) {
        Some(Direction::Left)
    } else if triggers(key, keys, KeyAction::FocusDown) {
        Some(Direction::Down)
    } else if triggers(key, keys, KeyAction::FocusUp) {
        Some(Direction::Up)
    } else if triggers(key, keys, KeyAction::FocusRight) {
        Some(Direction::Right)
    } else {
        None
    }
}

/// The action of `key` in a fixed modal context, where only unmodified keys count.
pub open spec fn modal_action(key: PhysicalKey, edit_mode: EditMode, confirmation_open: bool,
    settings_mode: SettingsMode, keys: Seq<Seq<ConfigKey>>) -> Option<Action> {
    let plain = key.unmodified();
    if confirmation_open {
        if !plain {
            None
        } else {
            match key.code {
                KeyCode::Char('y') | KeyCode::Enter => Some(Action::ConfirmPendingAction),
                KeyCode::Char('n') | KeyCode::Esc => Some(Action::CancelPendingAction),
                _ => None,
            }
        }
    } else if !(edit_mode is Normal) {
        if !plain {
            None
        } else {
            match key.code {
                KeyCode::Enter => Some(Action::SubmitEdit),
                KeyCode::Esc => Some(Action::CancelEdit),
                KeyCode::Backspace => Some(Action::PopInput),
                KeyCode::Char(c) => Some(Action::PushInput(c)),
                _ => None,
            }
        }
    } else {
        match settings_mode {
            SettingsMode::EditingValue => if !plain {
                None
            } else {
                match key.code {
                    KeyCode::Enter => Some(Action::SettingsSubmitInput),
                    KeyCode::Esc => Some(Action::SettingsCancel),
                    KeyCode::Backspace => Some(Action::SettingsPopInput),
                    KeyCode::Char(c) => Some(Action::SettingsPushInput(c)),
                    _ => None,
                }
            },
            SettingsMode::CapturingKey => if plain && key.code == KeyCode::Esc {
                Some(Action::SettingsCancel)
            } else {
                match config_key_of(key) {
                    Some(k) => Some(Action::SettingsCaptureKey(k)),
                    None => None,
                }
            },
            SettingsMode::Navigating => if plain && key.code == KeyCode::Esc || triggers(key, keys, KeyAction::Settings) {
                Some(Action::SettingsClose)
            } else if !plain {
                None
            } else {
                match key.code {
                    KeyCode::Enter | KeyCode::Char(' ') => Some(Action::SettingsActivate),
                    KeyCode::Up | KeyCode::Char('k') => Some(Action::SettingsMove(SettingsMoveDirection::Up)),
                    KeyCode::Down | KeyCode::Char('j') => Some(Action::SettingsMove(SettingsMoveDirection::Down)),
                    KeyCode::Left | KeyCode::Char('h') => Some(Action::SettingsAdjust(SettingsAdjustmentDirection::Backward)),
                    KeyCode::Right | KeyCode::Char('l') => Some(Action::SettingsAdjust(SettingsAdjustmentDirection::Forward)),
                    _ => None,
                }
            },
            SettingsMode::Closed => None,
        }
    }
}

/// The action of `key` in normal mode with nothing modal open.
pub open spec fn normal_action(key: PhysicalKey, focus: UiFocus, keys: Seq<Seq<ConfigKey>>) -> Option<Action> {
    if key.unmodified() && key.code == KeyCode::Esc {
        Some(Action::CancelPendingAction)
    } else if triggers(key, keys, KeyAction::Settings) {
        Some(Action::OpenSettings)
    } else if focus_direction_of(key, keys) is Some {
        Some(Action::NavigateFocus(focus_direction_of(key, keys)->0))
    } else if triggers(key, keys, KeyAction::Quit) {
        Some(Action::Quit)
    } else if focus is Clock {
        if triggers(key, keys, KeyAction::ClockPrimary) {
            Some(Action::PrimaryAction)
        } else if triggers(key, keys, KeyAction::CycleSession) {
            Some(Action::CycleSession)
        } else if triggers(key, keys, KeyAction::ResetSession) {
            Some(Action::ResetSession)
        } else {
            None
        }
    } else if triggers(key, keys, KeyAction::AddTask) {
        Some(Action::BeginAdd)
    } else if triggers(key, keys, KeyAction::EditTask) {
        Some(Action::EditSelected)
    } else if triggers(key, keys, KeyAction::DeleteTask) {
        Some(Action::DeleteSelected)
    } else if triggers(key, keys, KeyAction::TaskPrimary) {
        Some(Action::PrimaryAction)
    } else if triggers(key, keys, KeyAction::MoveTaskUp) {
        Some(Action::MoveSelectedTask(Direction::Up))
    } else if triggers(key, keys, KeyAction::MoveTaskDown) {
        Some(Action::MoveSelectedTask(Direction::Down))
    } else if triggers(key, keys, KeyAction::ListDown) {
        Some(Action::MoveSelection(Direction::Down))
    } else if triggers(key, keys, KeyAction::ListUp) {
        Some(Action::MoveSelection(Direction::Up))
    } else {
        None
    }
}

/// The action of `key`: a confirmation takes precedence, then text entry, then the
/// settings overlay, then the global and focused-area commands.
pub open spec fn key_action(key: PhysicalKey, edit_mode: EditMode, focus: UiFocus, confirmation_open: bool,
    settings_mode: SettingsMode, keys: Seq<Seq<ConfigKey>>) -> Option<Action> {
    if confirmation_open || !(edit_mode is Normal) || !(settings_mode is Closed) {
        modal_action(key, edit_mode, confirmation_open, settings_mode, keys)
    } else {
        normal_action(key, focus, keys)
    }
}

/// A pending confirmation takes precedence over every other context: the same key maps
/// to the same action whatever the edit mode, focus, overlay or bindings.
pub proof fn lemma_confirmation_keys_take_precedence(key: PhysicalKey, edit_mode: EditMode, other_edit_mode: EditMode,
    focus: UiFocus, other_focus: UiFocus, settings_mode: SettingsMode, other_settings_mode: SettingsMode,
    keys: Seq<Seq<ConfigKey>>, other_keys: Seq<Seq<ConfigKey>>)
    ensures
        key_action(key, edit_mode, focus, true, settings_mode, keys)
            == key_action(key, other_edit_mode, other_focus, true, other_settings_mode, other_keys),
{
}

/// While text is entered, every unmodified printable key types itself, whatever the
/// bindings, focus or overlay.
pub proof fn lemma_text_entry_types_characters(c: char, edit_mode: EditMode, focus: UiFocus,
    settings_mode: SettingsMode, keys: Seq<Seq<ConfigKey>>)
    requires
        !(edit_mode is Normal),
    ensures
        key_action(PhysicalKey { code: KeyCode::Char(c), control: false, alt: false }, edit_mode, focus, false,
            settings_mode, keys) == Some(Action::PushInput(c)),
{
}

/// A key held with Control or Alt never triggers a command, since no binding holds a modifier.
pub proof fn lemma_modified_keys_trigger_nothing(key: PhysicalKey, keys: Seq<Seq<ConfigKey>>, action: KeyAction)
    requires
        !key.unmodified(),
    ensures
        !triggers(key, keys, action),
{
}

/// The command that a key bound to `action` gives in normal mode.
pub open spec fn command_of(action: KeyAction) -> Action {
    match action {
        KeyAction::FocusLeft => Action::NavigateFocus(Direction::Left),
        KeyAction::FocusDown => Action::NavigateFocus(Direction::Down),
        KeyAction::FocusUp => Action::NavigateFocus(Direction::Up),
        KeyAction::FocusRight => Action::NavigateFocus(Direction::Right),
        KeyAction::ListDown => Action::MoveSelection(Direction::Down),
        KeyAction::ListUp => Action::MoveSelection(Direction::Up),
        KeyAction::Quit => Action::Quit,
        KeyAction::Settings => Action::OpenSettings,
        KeyAction::ClockPrimary => Action::PrimaryAction,
        KeyAction::CycleSession => Action::CycleSession,
        KeyAction::ResetSession => Action::ResetSession,
        KeyAction::AddTask => Action::BeginAdd,
        KeyAction::EditTask => Action::EditSelected,
        KeyAction::DeleteTask => Action::DeleteSelected,
        KeyAction::TaskPrimary => Action::PrimaryAction,
        KeyAction::MoveTaskUp => Action::MoveSelectedTask(Direction::Up),
        KeyAction::MoveTaskDown => Action::MoveSelectedTask(Direction::Down),
    }
}

/// Whether `action` is offered with `focus`: the global commands everywhere, the clock
/// commands on the clock, and the task commands on either task list.
pub open spec fn offered(action: KeyAction, focus: UiFocus) -> bool {
    ||| global_actions().contains(action)
    ||| focus is Clock && clock_actions().contains(action)
    ||| !(focus is Clock) && task_actions().contains(action)
}

/// The unmodified physical key that a configurable key names.
pub open spec fn key_press(key: ConfigKey) -> PhysicalKey {
    let code = match key {
        ConfigKey::Character(c) => KeyCode::Char(c),
        ConfigKey::Space => KeyCode::Char(' '),
        ConfigKey::Enter => KeyCode::Enter,
        ConfigKey::Escape => KeyCode::Esc,
        ConfigKey::Backspace => KeyCode::Backspace,
        ConfigKey::Up => KeyCode::Up,
        ConfigKey::Down => KeyCode::Down,
        ConfigKey::Left => KeyCode::Left,
        ConfigKey::Right => KeyCode::Right,
    };
    PhysicalKey { code, control: false, alt: false }
}

/// With valid bindings, pressing any key bound to a command that the focused area offers
/// gives that command in normal mode, whichever other keys the command has. (A space
/// stored as a character is excluded: the terminal reports a space as the space key.)
pub proof fn lemma_bound_keys_give_their_command(keys: Seq<Seq<ConfigKey>>, action: KeyAction, key: ConfigKey,
    focus: UiFocus)
    requires
        bindings_error(keys) is None,
        bound(keys, action).contains(key),
        key != ConfigKey::Character(' '),
        offered(action, focus),
    ensures
        normal_action(key_press(key), focus, keys) == Some(command_of(action)),
{
    let press = key_press(key);
    assert(config_key_of(press) == Some(key));
    lemma_valid_bindings_unique(keys, action, action, key);
    assert forall|other: KeyAction| other != action && (global_actions().contains(action) && global_actions().contains(other)
        || (global_actions() + clock_actions()).contains(action) && (global_actions() + clock_actions()).contains(other)
        || (global_actions() + task_actions()).contains(action) && (global_actions() + task_actions()).contains(other))
        implies !triggers(press, keys, other) by {
        lemma_valid_bindings_unique(keys, action, other, key);
    }
    assert(global_actions() + clock_actions() =~= seq![KeyAction::FocusLeft, KeyAction::FocusDown, KeyAction::FocusUp,
        KeyAction::FocusRight, KeyAction::Quit, KeyAction::Settings, KeyAction::ClockPrimary, KeyAction::CycleSession,
        KeyAction::ResetSession]);
    assert(global_actions() + task_actions() =~= seq![KeyAction::FocusLeft, KeyAction::FocusDown, KeyAction::FocusUp,
        KeyAction::FocusRight, KeyAction::Quit, KeyAction::Settings, KeyAction::ListDown, KeyAction::ListUp,
        KeyAction::AddTask, KeyAction::EditTask, KeyAction::DeleteTask, KeyAction::TaskPrimary, KeyAction::MoveTaskUp,
        KeyAction::MoveTaskDown]);
}

/// The configurable key a physical key stands for, if any.
pub fn config_key(key: PhysicalKey) -> (k: Option<ConfigKey>)
    ensures
        k == config_key_of(key),
{
    if !key.is_unmodified() {
        return None;
    }
    match key.code {
        KeyCode::Char(' ') => Some(ConfigKey::Space),
        KeyCode::Char(c) => Some(ConfigKey::Character(c)),
        KeyCode::Enter => Some(ConfigKey::Enter),
        KeyCode::Esc => Some(ConfigKey::Escape),
        KeyCode::Backspace => Some(ConfigKey::Backspace),
        KeyCode::Up => Some(ConfigKey::Up),
        KeyCode::Down => Some(ConfigKey::Down),
        KeyCode::Left => Some(ConfigKey::Left),
        KeyCode::Right => Some(ConfigKey::Right),
        KeyCode::Other => None,
    }
}

/// Whether `key` is one of the `configured` keys.
fn key_matches_any(key: PhysicalKey, configured: &[ConfigKey]) -> (b: bool)
    ensures
        b == (config_key_of(key) matches Some(k) && configured@.contains(k)),
{
    let k = match config_key(key) {
        Some(k) => k,
        None => return false,
    };
    let mut i: usize = 0;
    while i < configured.len()
        invariant
            i <= configured@.len(),
            config_key_of(key) == Some(k),
            forall|j: int| 0 <= j < i ==> configured@[j] != k,
        decreases configured@.len() - i,
    {
        if configured[i] == k {
            assert(configured@[i as int] == k);
            return true;
        }
        i = i + 1;
    }
    false
}

fn triggered(key: PhysicalKey, keys: &KeysConfig, action: KeyAction) -> (b: bool)
    ensures
        b == triggers(key, keys@, action),
{
    key_matches_any(key, keys.binding(action))
}

fn focus_direction(key: PhysicalKey, keys: &KeysConfig) -> (d: Option<Direction>)
    ensures
        d == focus_direction_of(key, keys@),
{
    if triggered(key, keys, KeyAction::FocusLeft) {
        Some(Direction::Left)
    } else if triggered(key, keys, KeyAction::FocusDown) {
        Some(Direction::Down)
    } else if triggered(key, keys, KeyAction::FocusUp) {
        Some(Direction::Up)
    } else if triggered(key, keys, KeyAction::FocusRight) {
        Some(Direction::Right)
    } else {
        None
    }
}

fn modal_key(key: PhysicalKey, edit_mode: EditMode, confirmation_open: bool, settings_mode: SettingsMode,
    keys: &KeysConfig) -> (a: Option<Action>)
    ensures
        a == modal_action(key, edit_mode, confirmation_open, settings_mode, keys@),
{
    let plain = key.is_unmodified();
    if confirmation_open {
        if !plain {
            return None;
        }
        return match key.code {
            KeyCode::Char('y') | KeyCode::Enter => Some(Action::ConfirmPendingAction),
            KeyCode::Char('n') | KeyCode::Esc => Some(Action::CancelPendingAction),
            _ => None,
        };
    }
    if edit_mode != EditMode::Normal {
        if !plain {
            return None;
        }
        return match key.code {
            KeyCode::Enter => Some(Action::SubmitEdit),
            KeyCode::Esc => Some(Action::CancelEdit),
            KeyCode::Backspace => Some(Action::PopInput),
            KeyCode::Char(c) => Some(Action::PushInput(c)),
            _ => None,
        };
    }
    match settings_mode {
        SettingsMode::EditingValue => {
            if !plain {
                return None;
            }
            match key.code {
                KeyCode::Enter => Some(Action::SettingsSubmitInput),
                KeyCode::Esc => Some(Action::SettingsCancel),
                KeyCode::Backspace => Some(Action::SettingsPopInput),
                KeyCode::Char(c) => Some(Action::SettingsPushInput(c)),
                _ => None,
            }
        },
        SettingsMode::CapturingKey => {
            if plain && key.code == KeyCode::Esc {
                return Some(Action::SettingsCancel);
            }
            match config_key(key) {
                Some(k) => Some(Action::SettingsCaptureKey(k)),
                None => None,
            }
        },
        SettingsMode::Navigating => {
            if plain && key.code == KeyCode::Esc || triggered(key, keys, KeyAction::Settings) {
                return Some(Action::SettingsClose);
            }
            if !plain {
                return None;
            }
            match key.code {
                KeyCode::Enter | KeyCode::Char(' ') => Some(Action::SettingsActivate),
                KeyCode::Up | KeyCode::Char('k') => Some(Action::SettingsMove(SettingsMoveDirection::Up)),
                KeyCode::Down | KeyCode::Char('j') => Some(Action::SettingsMove(SettingsMoveDirection::Down)),
                KeyCode::Left | KeyCode::Char('h') => Some(Action::SettingsAdjust(SettingsAdjustmentDirection::Backward)),
                KeyCode::Right | KeyCode::Char('l') => Some(Action::SettingsAdjust(SettingsAdjustmentDirection::Forward)),
                _ => None,
            }
        },
        SettingsMode::Closed => None,
    }
}

fn normal_key(key: PhysicalKey, focus: UiFocus, keys: &KeysConfig) -> (a: Option<Action>)
    ensures
        a == normal_action(key, focus, keys@),
{
    if key.is_unmodified() && key.code == KeyCode::Esc {
        return Some(Action::CancelPendingAction);
    }
    if triggered(key, keys, KeyAction::Settings) {
        return Some(Action::OpenSettings);
    }
    if let Some(direction) = focus_direction(key, keys) {
        return Some(Action::NavigateFocus(direction));
    }
    if triggered(key, keys, KeyAction::Quit) {
        return Some(Action::Quit);
    }
    if focus == UiFocus::Clock {
        return if triggered(key, keys, KeyAction::ClockPrimary) {
            Some(Action::PrimaryAction)
        } else if triggered(key, keys, KeyAction::CycleSession) {
            Some(Action::CycleSession)
        } else if triggered(key, keys, KeyAction::ResetSession) {
            Some(Action::ResetSession)
        } else {
            None
        };
    }
    if triggered(key, keys, KeyAction::AddTask) {
        Some(Action::BeginAdd)
    } else if triggered(key, keys, KeyAction::EditTask) {
        Some(Action::EditSelected)
    } else if triggered(key, keys, KeyAction::DeleteTask) {
        Some(Action::DeleteSelected)
    } else if triggered(key, keys, KeyAction::TaskPrimary) {
        Some(Action::PrimaryAction)
    } else if triggered(key, keys, KeyAction::MoveTaskUp) {
        Some(Action::MoveSelectedTask(Direction::Up))
    } else if triggered(key, keys, KeyAction::MoveTaskDown) {
        Some(Action::MoveSelectedTask(Direction::Down))
    } else if triggered(key, keys, KeyAction::ListDown) {
        Some(Action::MoveSelection(Direction::Down))
    } else if triggered(key, keys, KeyAction::ListUp) {
        Some(Action::MoveSelection(Direction::Up))
    } else {
        None
    }
}

/// Maps a key with its modifiers to a semantic action for the current context.
pub fn map_physical_key(
    key: PhysicalKey,
    edit_mode: EditMode,
    focus: UiFocus,
    confirmation_open: bool,
    settings_mode: SettingsMode,
    keys: &KeysConfig,
) -> (a: Option<Action>)
    ensures
        a == key_action(key, edit_mode, focus, confirmation_open, settings_mode, keys@),
{
    if confirmation_open || edit_mode != EditMode::Normal || settings_mode != SettingsMode::Closed {
        modal_key(key, edit_mode, confirmation_open, settings_mode, keys)
    } else {
        normal_key(key, focus, keys)
    }
}

/// Maps an unmodified key to a semantic action for the current context.
pub fn map_key(
    key: KeyCode,
    edit_mode: EditMode,
    focus: UiFocus,
    confirmation_open: bool,
    settings_mode: SettingsMode,
    keys: &KeysConfig,
) -> (a: Option<Action>)
    ensures
        a == key_action(PhysicalKey { code: key, control: false, alt: false }, edit_mode, focus,
            confirmation_open, settings_mode, keys@),
{
    map_physical_key(PhysicalKey::plain(key), edit_mode, focus, confirmation_open, settings_mode, keys)
}

/// In the settings overlay's row list, the letter keys do what the arrows do: `j` and the Down
/// arrow move down, `k` and the Up arrow move up, `h` and the Left arrow adjust backward, `l` and
/// the Right arrow adjust forward, Space activates the selected row and Escape closes the
/// overlay, whatever the focus, as long as the settings binding holds none of these keys (as
/// valid bindings never do).
pub proof fn lemma_overlay_letters_match_arrows(focus: UiFocus, keys: Seq<Seq<ConfigKey>>)
    requires
        forall|k: ConfigKey| #[trigger] bound(keys, KeyAction::Settings).contains(k) ==> !is_overlay_control(k),
    ensures
        ({
            let act = |code: KeyCode| key_action(PhysicalKey { code, control: false, alt: false }, EditMode::Normal,
                focus, false, SettingsMode::Navigating, keys);
            &&& act(KeyCode::Char('j')) == act(KeyCode::Down)
            &&& act(KeyCode::Down) == Some(Action::SettingsMove(SettingsMoveDirection::Down))
            &&& act(KeyCode::Char('k')) == act(KeyCode::Up)
            &&& act(KeyCode::Up) == Some(Action::SettingsMove(SettingsMoveDirection::Up))
            &&& act(KeyCode::Char('h')) == act(KeyCode::Left)
            &&& act(KeyCode::Left) == Some(Action::SettingsAdjust(SettingsAdjustmentDirection::Backward))
            &&& act(KeyCode::Char('l')) == act(KeyCode::Right)
            &&& act(KeyCode::Right) == Some(Action::SettingsAdjust(SettingsAdjustmentDirection::Forward))
            &&& act(KeyCode::Char(' ')) == Some(Action::SettingsActivate)
            &&& act(KeyCode::Esc) == Some(Action::SettingsClose)
        }),
{
    let b = bound(keys, KeyAction::Settings);
    assert(!b.contains(ConfigKey::Character('j')));
    assert(!b.contains(ConfigKey::Character('k')));
    assert(!b.contains(ConfigKey::Character('h')));
    assert(!b.contains(ConfigKey::Character('l')));
    assert(!b.contains(ConfigKey::Up));
    assert(!b.contains(ConfigKey::Down));
    assert(!b.contains(ConfigKey::Left));
    assert(!b.contains(ConfigKey::Right));
    assert(!b.contains(ConfigKey::Space));
}

proof fn lemma_no_overlay_control_from(keys: Seq<ConfigKey>, i: int)
    requires
        0 <= i,
        overlay_from(keys, i) is None,
    ensures
        forall|j: int| i <= j < keys.len() ==> !is_overlay_control(#[trigger] keys[j]),
    decreases keys.len() - i,
{
    if i < keys.len() {
        lemma_no_overlay_control_from(keys, i + 1);
    }
}

/// Valid bindings never bind an overlay control to the settings command, so the overlay's
/// letter keys always do what its arrows do.
pub proof fn lemma_valid_settings_binding_spares_overlay_controls(keys: Seq<Seq<ConfigKey>>)
    requires
        bindings_error(keys) is None,
    ensures
        forall|k: ConfigKey| #[trigger] bound(keys, KeyAction::Settings).contains(k) ==> !is_overlay_control(k),
{
    let b = bound(keys, KeyAction::Settings);
    lemma_no_overlay_control_from(b, 0);
    assert forall|k: ConfigKey| #[trigger] b.contains(k) implies !is_overlay_control(k) by {
        let j = choose|j: int| 0 <= j < b.len() && b[j] == k;
        assert(!is_overlay_control(b[j]));
    }
}

} // verus!
