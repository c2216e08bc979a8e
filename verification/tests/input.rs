use pomock::app::{Action, Direction, EditMode, SettingsAdjustmentDirection, SettingsMode, SettingsMoveDirection, UiFocus};
use pomock::config::{ConfigKey, KeyAction, KeysConfig};
use pomock::input::{map_key, map_physical_key, KeyCode, PhysicalKey};

const STORAGE_ORDER: [KeyAction; 17] = [
    KeyAction::FocusLeft,
    KeyAction::FocusDown,
    KeyAction::FocusUp,
    KeyAction::FocusRight,
    KeyAction::ListDown,
    KeyAction::ListUp,
    KeyAction::Quit,
    KeyAction::Settings,
    KeyAction::ClockPrimary,
    KeyAction::CycleSession,
    KeyAction::ResetSession,
    KeyAction::AddTask,
    KeyAction::EditTask,
    KeyAction::DeleteTask,
    KeyAction::TaskPrimary,
    KeyAction::MoveTaskUp,
    KeyAction::MoveTaskDown,
];

/// The default bindings with the listed commands bound to the listed keys instead.
fn keys_with(changes: &[(KeyAction, &[ConfigKey])]) -> KeysConfig {
    let defaults = KeysConfig::default();
    let lists = STORAGE_ORDER
        .iter()
        .map(|action| {
            changes
                .iter()
                .find(|(changed, _)| changed == action)
                .map_or_else(|| defaults.binding(*action).to_vec(), |(_, keys)| keys.to_vec())
        })
        .collect();
    KeysConfig::from_lists(lists).unwrap()
}

fn map_default(
    key: KeyCode,
    edit_mode: EditMode,
    focus: UiFocus,
    confirmation_open: bool,
) -> Option<Action> {
    map_key(
        key,
        edit_mode,
        focus,
        confirmation_open,
        SettingsMode::Closed,
        &KeysConfig::default(),
    )
}

#[test]
fn tests_maps_global_normal_mode_actions() {
    assert_eq!(
        map_default(KeyCode::Char('J'), EditMode::Normal, UiFocus::Clock, false),
        Some(Action::NavigateFocus(Direction::Down))
    );
    assert_eq!(
        map_default(KeyCode::Char('q'), EditMode::Normal, UiFocus::Done, false),
        Some(Action::Quit)
    );
}

#[test]
fn tests_modified_keys_do_not_trigger_fixed_modal_controls() {
    let keys = KeysConfig::default();
    assert_eq!(
        map_physical_key(
            PhysicalKey { code: KeyCode::Char('y'), control: true, alt: false },
            EditMode::Normal,
            UiFocus::Clock,
            true,
            SettingsMode::Closed,
            &keys,
        ),
        None
    );
    assert_eq!(
        map_physical_key(
            PhysicalKey { code: KeyCode::Char('q'), control: false, alt: true },
            EditMode::Adding,
            UiFocus::Todo,
            false,
            SettingsMode::Closed,
            &keys,
        ),
        None
    );
}

#[test]
fn tests_maps_keys_by_focused_area() {
    assert_eq!(
        map_default(KeyCode::Char(' '), EditMode::Normal, UiFocus::Clock, false),
        Some(Action::PrimaryAction)
    );
    assert_eq!(
        map_default(KeyCode::Char('a'), EditMode::Normal, UiFocus::Todo, false),
        Some(Action::BeginAdd)
    );
    assert_eq!(
        map_default(KeyCode::Down, EditMode::Normal, UiFocus::Done, false),
        Some(Action::MoveSelection(Direction::Down))
    );
    assert_eq!(
        map_default(KeyCode::Char('a'), EditMode::Normal, UiFocus::Done, false),
        Some(Action::BeginAdd)
    );
    assert_eq!(
        map_default(KeyCode::Down, EditMode::Normal, UiFocus::Clock, false),
        None
    );
    assert_eq!(
        map_default(KeyCode::Char('u'), EditMode::Normal, UiFocus::Todo, false),
        Some(Action::MoveSelectedTask(Direction::Up))
    );
    assert_eq!(
        map_default(KeyCode::Char('d'), EditMode::Normal, UiFocus::Done, false),
        Some(Action::MoveSelectedTask(Direction::Down))
    );
    assert_eq!(
        map_default(KeyCode::Char('c'), EditMode::Normal, UiFocus::Clock, false),
        Some(Action::CycleSession)
    );
    assert_eq!(
        map_default(KeyCode::Char('c'), EditMode::Normal, UiFocus::Todo, false),
        None
    );
}

#[test]
fn tests_edit_mode_takes_precedence_over_normal_commands() {
    assert_eq!(
        map_default(KeyCode::Char('q'), EditMode::Adding, UiFocus::Todo, false),
        Some(Action::PushInput('q'))
    );
    assert_eq!(
        map_default(
            KeyCode::Char('J'),
            EditMode::Editing { task_index: 0 },
            UiFocus::Todo,
            false,
        ),
        Some(Action::PushInput('J'))
    );
    assert_eq!(
        map_default(KeyCode::Enter, EditMode::Adding, UiFocus::Todo, false),
        Some(Action::SubmitEdit)
    );
    assert_eq!(
        map_default(KeyCode::Left, EditMode::Adding, UiFocus::Todo, false),
        None
    );
}

#[test]
fn tests_normal_mode_ignores_unmapped_keys() {
    assert_eq!(
        map_default(KeyCode::Enter, EditMode::Normal, UiFocus::Todo, false),
        None
    );
    assert_eq!(
        map_default(KeyCode::Char('h'), EditMode::Normal, UiFocus::Todo, false),
        None
    );
}

#[test]
fn tests_confirmation_keys_take_precedence_over_every_other_context() {
    for (key, expected) in [
        (KeyCode::Char('y'), Some(Action::ConfirmPendingAction)),
        (KeyCode::Enter, Some(Action::ConfirmPendingAction)),
        (KeyCode::Char('n'), Some(Action::CancelPendingAction)),
        (KeyCode::Esc, Some(Action::CancelPendingAction)),
        (KeyCode::Char('q'), None),
        (KeyCode::Char('H'), None),
    ] {
        assert_eq!(
            map_default(key, EditMode::Adding, UiFocus::Todo, true),
            expected
        );
    }
}

#[test]
fn tests_configured_keys_replace_defaults_in_their_context() {
    let keys: KeysConfig = keys_with(&[(KeyAction::FocusLeft, &[ConfigKey::Left]), (KeyAction::ClockPrimary, &[ConfigKey::Backspace]), (KeyAction::CycleSession, &[ConfigKey::Character('n')])]);

    assert_eq!(
        map_key(
            KeyCode::Left,
            EditMode::Normal,
            UiFocus::Clock,
            false,
            SettingsMode::Closed,
            &keys
        ),
        Some(Action::NavigateFocus(Direction::Left))
    );
    assert_eq!(
        map_key(
            KeyCode::Backspace,
            EditMode::Normal,
            UiFocus::Clock,
            false,
            SettingsMode::Closed,
            &keys
        ),
        Some(Action::PrimaryAction)
    );
    assert_eq!(
        map_key(
            KeyCode::Char('n'),
            EditMode::Normal,
            UiFocus::Clock,
            false,
            SettingsMode::Closed,
            &keys
        ),
        Some(Action::CycleSession)
    );
    assert_eq!(
        map_key(
            KeyCode::Char('c'),
            EditMode::Normal,
            UiFocus::Clock,
            false,
            SettingsMode::Closed,
            &keys
        ),
        None
    );
}

#[test]
fn tests_configured_list_keys_do_not_keep_default_aliases() {
    let keys: KeysConfig = keys_with(&[(KeyAction::ListDown, &[ConfigKey::Character('n')]), (KeyAction::ListUp, &[ConfigKey::Character('p')])]);

    assert_eq!(
        map_key(
            KeyCode::Char('n'),
            EditMode::Normal,
            UiFocus::Todo,
            false,
            SettingsMode::Closed,
            &keys
        ),
        Some(Action::MoveSelection(Direction::Down))
    );
    for key in [KeyCode::Char('j'), KeyCode::Down] {
        assert_eq!(
            map_key(
                key,
                EditMode::Normal,
                UiFocus::Todo,
                false,
                SettingsMode::Closed,
                &keys
            ),
            None
        );
    }
    assert_eq!(
        map_key(
            KeyCode::Char('p'),
            EditMode::Normal,
            UiFocus::Done,
            false,
            SettingsMode::Closed,
            &keys
        ),
        Some(Action::MoveSelection(Direction::Up))
    );
    for key in [KeyCode::Char('k'), KeyCode::Up] {
        assert_eq!(
            map_key(
                key,
                EditMode::Normal,
                UiFocus::Done,
                false,
                SettingsMode::Closed,
                &keys
            ),
            None
        );
    }
}

#[test]
fn tests_configured_task_movement_keys_replace_the_defaults() {
    let keys: KeysConfig = keys_with(&[(KeyAction::MoveTaskUp, &[ConfigKey::Character('w')]), (KeyAction::MoveTaskDown, &[ConfigKey::Character('z')])]);

    assert_eq!(
        map_key(
            KeyCode::Char('w'),
            EditMode::Normal,
            UiFocus::Todo,
            false,
            SettingsMode::Closed,
            &keys
        ),
        Some(Action::MoveSelectedTask(Direction::Up))
    );
    assert_eq!(
        map_key(
            KeyCode::Char('z'),
            EditMode::Normal,
            UiFocus::Done,
            false,
            SettingsMode::Closed,
            &keys
        ),
        Some(Action::MoveSelectedTask(Direction::Down))
    );
    for key in [KeyCode::Char('u'), KeyCode::Char('d')] {
        assert_eq!(
            map_key(
                key,
                EditMode::Normal,
                UiFocus::Todo,
                false,
                SettingsMode::Closed,
                &keys
            ),
            None
        );
    }
}

#[test]
fn tests_every_configured_key_for_an_action_is_mapped() {
    let keys: KeysConfig = keys_with(&[(KeyAction::CycleSession, &[ConfigKey::Character('c'), ConfigKey::Character('n')]), (KeyAction::Quit, &[ConfigKey::Character('q'), ConfigKey::Character('z')])]);

    for key in [KeyCode::Char('c'), KeyCode::Char('n')] {
        assert_eq!(
            map_key(
                key,
                EditMode::Normal,
                UiFocus::Clock,
                false,
                SettingsMode::Closed,
                &keys
            ),
            Some(Action::CycleSession)
        );
    }
    assert_eq!(
        map_key(
            KeyCode::Char('z'),
            EditMode::Normal,
            UiFocus::Done,
            false,
            SettingsMode::Closed,
            &keys
        ),
        Some(Action::Quit)
    );
}

#[test]
fn tests_editing_and_confirmation_override_configured_normal_keys() {
    let keys: KeysConfig = keys_with(&[(KeyAction::ClockPrimary, &[ConfigKey::Backspace]), (KeyAction::CycleSession, &[ConfigKey::Character('n')])]);

    assert_eq!(
        map_key(
            KeyCode::Backspace,
            EditMode::Adding,
            UiFocus::Todo,
            false,
            SettingsMode::Closed,
            &keys
        ),
        Some(Action::PopInput)
    );
    assert_eq!(
        map_key(
            KeyCode::Char('n'),
            EditMode::Normal,
            UiFocus::Clock,
            true,
            SettingsMode::Closed,
            &keys
        ),
        Some(Action::CancelPendingAction)
    );
}

#[test]
fn tests_settings_context_has_fixed_navigation_and_nested_editing_precedence() {
    let keys = KeysConfig::default();
    assert_eq!(
        map_key(
            KeyCode::Char('s'),
            EditMode::Normal,
            UiFocus::Clock,
            false,
            SettingsMode::Closed,
            &keys
        ),
        Some(Action::OpenSettings)
    );
    assert_eq!(
        map_key(
            KeyCode::Esc,
            EditMode::Normal,
            UiFocus::Clock,
            false,
            SettingsMode::Closed,
            &keys
        ),
        Some(Action::CancelPendingAction)
    );
    assert_eq!(
        map_key(
            KeyCode::Char('s'),
            EditMode::Normal,
            UiFocus::Clock,
            false,
            SettingsMode::Navigating,
            &keys
        ),
        Some(Action::SettingsClose)
    );
    assert_eq!(
        map_key(
            KeyCode::Esc,
            EditMode::Normal,
            UiFocus::Clock,
            false,
            SettingsMode::Navigating,
            &keys
        ),
        Some(Action::SettingsClose)
    );
    for (key, expected) in [
        (KeyCode::Up, Action::SettingsMove(SettingsMoveDirection::Up)),
        (
            KeyCode::Down,
            Action::SettingsMove(SettingsMoveDirection::Down),
        ),
        (
            KeyCode::Left,
            Action::SettingsAdjust(SettingsAdjustmentDirection::Backward),
        ),
        (
            KeyCode::Char('l'),
            Action::SettingsAdjust(SettingsAdjustmentDirection::Forward),
        ),
    ] {
        assert_eq!(
            map_key(
                key,
                EditMode::Normal,
                UiFocus::Clock,
                false,
                SettingsMode::Navigating,
                &keys
            ),
            Some(expected)
        );
    }
    assert_eq!(
        map_key(
            KeyCode::Char('7'),
            EditMode::Normal,
            UiFocus::Clock,
            false,
            SettingsMode::EditingValue,
            &keys
        ),
        Some(Action::SettingsPushInput('7'))
    );
    assert_eq!(
        map_key(
            KeyCode::Char('q'),
            EditMode::Normal,
            UiFocus::Clock,
            false,
            SettingsMode::CapturingKey,
            &keys
        ),
        Some(Action::SettingsCaptureKey(ConfigKey::Character('q')))
    );
    assert_eq!(
        map_key(
            KeyCode::Esc,
            EditMode::Normal,
            UiFocus::Clock,
            false,
            SettingsMode::CapturingKey,
            &keys
        ),
        Some(Action::SettingsCancel)
    );

    let keys: KeysConfig = keys_with(&[(KeyAction::Settings, &[ConfigKey::Character('t')]), (KeyAction::CycleSession, &[ConfigKey::Character('s')])]);
    assert_eq!(
        map_key(
            KeyCode::Char('t'),
            EditMode::Normal,
            UiFocus::Clock,
            false,
            SettingsMode::Closed,
            &keys
        ),
        Some(Action::OpenSettings)
    );
    assert_eq!(
        map_key(
            KeyCode::Char('t'),
            EditMode::Normal,
            UiFocus::Clock,
            false,
            SettingsMode::Navigating,
            &keys
        ),
        Some(Action::SettingsClose)
    );
    assert_eq!(
        map_key(
            KeyCode::Char('t'),
            EditMode::Adding,
            UiFocus::Todo,
            false,
            SettingsMode::Closed,
            &keys
        ),
        Some(Action::PushInput('t'))
    );
    assert_eq!(
        map_key(
            KeyCode::Char('t'),
            EditMode::Normal,
            UiFocus::Clock,
            false,
            SettingsMode::EditingValue,
            &keys
        ),
        Some(Action::SettingsPushInput('t'))
    );
}

#[test]
fn input_maps_global_normal_mode_actions() {
    assert_eq!(
        map_default(KeyCode::Char('J'), EditMode::Normal, UiFocus::Clock, false),
        Some(Action::NavigateFocus(Direction::Down))
    );
    assert_eq!(
        map_default(KeyCode::Char('q'), EditMode::Normal, UiFocus::Done, false),
        Some(Action::Quit)
    );
}

#[test]
fn input_modified_keys_do_not_trigger_fixed_modal_controls() {
    let keys = KeysConfig::default();
    assert_eq!(
        map_physical_key(
            PhysicalKey { code: KeyCode::Char('y'), control: true, alt: false },
            EditMode::Normal,
            UiFocus::Clock,
            true,
            SettingsMode::Closed,
            &keys,
        ),
        None
    );
    assert_eq!(
        map_physical_key(
            PhysicalKey { code: KeyCode::Char('q'), control: false, alt: true },
            EditMode::Adding,
            UiFocus::Todo,
            false,
            SettingsMode::Closed,
            &keys,
        ),
        None
    );
}

#[test]
fn input_maps_keys_by_focused_area() {
    assert_eq!(
        map_default(KeyCode::Char(' '), EditMode::Normal, UiFocus::Clock, false),
        Some(Action::PrimaryAction)
    );
    assert_eq!(
        map_default(KeyCode::Char('a'), EditMode::Normal, UiFocus::Todo, false),
        Some(Action::BeginAdd)
    );
    assert_eq!(
        map_default(KeyCode::Down, EditMode::Normal, UiFocus::Done, false),
        Some(Action::MoveSelection(Direction::Down))
    );
    assert_eq!(
        map_default(KeyCode::Char('a'), EditMode::Normal, UiFocus::Done, false),
        Some(Action::BeginAdd)
    );
    assert_eq!(
        map_default(KeyCode::Down, EditMode::Normal, UiFocus::Clock, false),
        None
    );
    assert_eq!(
        map_default(KeyCode::Char('u'), EditMode::Normal, UiFocus::Todo, false),
        Some(Action::MoveSelectedTask(Direction::Up))
    );
    assert_eq!(
        map_default(KeyCode::Char('d'), EditMode::Normal, UiFocus::Done, false),
        Some(Action::MoveSelectedTask(Direction::Down))
    );
    assert_eq!(
        map_default(KeyCode::Char('c'), EditMode::Normal, UiFocus::Clock, false),
        Some(Action::CycleSession)
    );
    assert_eq!(
        map_default(KeyCode::Char('c'), EditMode::Normal, UiFocus::Todo, false),
        None
    );
}

#[test]
fn input_edit_mode_takes_precedence_over_normal_commands() {
    assert_eq!(
        map_default(KeyCode::Char('q'), EditMode::Adding, UiFocus::Todo, false),
        Some(Action::PushInput('q'))
    );
    assert_eq!(
        map_default(
            KeyCode::Char('J'),
            EditMode::Editing { task_index: 0 },
            UiFocus::Todo,
            false,
        ),
        Some(Action::PushInput('J'))
    );
    assert_eq!(
        map_default(KeyCode::Enter, EditMode::Adding, UiFocus::Todo, false),
        Some(Action::SubmitEdit)
    );
    assert_eq!(
        map_default(KeyCode::Left, EditMode::Adding, UiFocus::Todo, false),
        None
    );
}

#[test]
fn input_normal_mode_ignores_unmapped_keys() {
    assert_eq!(
        map_default(KeyCode::Enter, EditMode::Normal, UiFocus::Todo, false),
        None
    );
    assert_eq!(
        map_default(KeyCode::Char('h'), EditMode::Normal, UiFocus::Todo, false),
        None
    );
}

#[test]
fn input_confirmation_keys_take_precedence_over_every_other_context() {
    for (key, expected) in [
        (KeyCode::Char('y'), Some(Action::ConfirmPendingAction)),
        (KeyCode::Enter, Some(Action::ConfirmPendingAction)),
        (KeyCode::Char('n'), Some(Action::CancelPendingAction)),
        (KeyCode::Esc, Some(Action::CancelPendingAction)),
        (KeyCode::Char('q'), None),
        (KeyCode::Char('H'), None),
    ] {
        assert_eq!(
            map_default(key, EditMode::Adding, UiFocus::Todo, true),
            expected
        );
    }
}

#[test]
fn input_configured_keys_replace_defaults_in_their_context() {
    let keys: KeysConfig = keys_with(&[(KeyAction::FocusLeft, &[ConfigKey::Left]), (KeyAction::ClockPrimary, &[ConfigKey::Backspace]), (KeyAction::CycleSession, &[ConfigKey::Character('n')])]);

    assert_eq!(
        map_key(
            KeyCode::Left,
            EditMode::Normal,
            UiFocus::Clock,
            false,
            SettingsMode::Closed,
            &keys
        ),
        Some(Action::NavigateFocus(Direction::Left))
    );
    assert_eq!(
        map_key(
            KeyCode::Backspace,
            EditMode::Normal,
            UiFocus::Clock,
            false,
            SettingsMode::Closed,
            &keys
        ),
        Some(Action::PrimaryAction)
    );
    assert_eq!(
        map_key(
            KeyCode::Char('n'),
            EditMode::Normal,
            UiFocus::Clock,
            false,
            SettingsMode::Closed,
            &keys
        ),
        Some(Action::CycleSession)
    );
    assert_eq!(
        map_key(
            KeyCode::Char('c'),
            EditMode::Normal,
            UiFocus::Clock,
            false,
            SettingsMode::Closed,
            &keys
        ),
        None
    );
}

#[test]
fn input_configured_list_keys_do_not_keep_default_aliases() {
    let keys: KeysConfig = keys_with(&[(KeyAction::ListDown, &[ConfigKey::Character('n')]), (KeyAction::ListUp, &[ConfigKey::Character('p')])]);

    assert_eq!(
        map_key(
            KeyCode::Char('n'),
            EditMode::Normal,
            UiFocus::Todo,
            false,
            SettingsMode::Closed,
            &keys
        ),
        Some(Action::MoveSelection(Direction::Down))
    );
    for key in [KeyCode::Char('j'), KeyCode::Down] {
        assert_eq!(
            map_key(
                key,
                EditMode::Normal,
                UiFocus::Todo,
                false,
                SettingsMode::Closed,
                &keys
            ),
            None
        );
    }
    assert_eq!(
        map_key(
            KeyCode::Char('p'),
            EditMode::Normal,
            UiFocus::Done,
            false,
            SettingsMode::Closed,
            &keys
        ),
        Some(Action::MoveSelection(Direction::Up))
    );
    for key in [KeyCode::Char('k'), KeyCode::Up] {
        assert_eq!(
            map_key(
                key,
                EditMode::Normal,
                UiFocus::Done,
                false,
                SettingsMode::Closed,
                &keys
            ),
            None
        );
    }
}

#[test]
fn input_configured_task_movement_keys_replace_the_defaults() {
    let keys: KeysConfig = keys_with(&[(KeyAction::MoveTaskUp, &[ConfigKey::Character('w')]), (KeyAction::MoveTaskDown, &[ConfigKey::Character('z')])]);

    assert_eq!(
        map_key(
            KeyCode::Char('w'),
            EditMode::Normal,
            UiFocus::Todo,
            false,
            SettingsMode::Closed,
            &keys
        ),
        Some(Action::MoveSelectedTask(Direction::Up))
    );
    assert_eq!(
        map_key(
            KeyCode::Char('z'),
            EditMode::Normal,
            UiFocus::Done,
            false,
            SettingsMode::Closed,
            &keys
        ),
        Some(Action::MoveSelectedTask(Direction::Down))
    );
    for key in [KeyCode::Char('u'), KeyCode::Char('d')] {
        assert_eq!(
            map_key(
                key,
                EditMode::Normal,
                UiFocus::Todo,
                false,
                SettingsMode::Closed,
                &keys
            ),
            None
        );
    }
}

#[test]
fn input_every_configured_key_for_an_action_is_mapped() {
    let keys: KeysConfig = keys_with(&[(KeyAction::CycleSession, &[ConfigKey::Character('c'), ConfigKey::Character('n')]), (KeyAction::Quit, &[ConfigKey::Character('q'), ConfigKey::Character('z')])]);

    for key in [KeyCode::Char('c'), KeyCode::Char('n')] {
        assert_eq!(
            map_key(
                key,
                EditMode::Normal,
                UiFocus::Clock,
                false,
                SettingsMode::Closed,
                &keys
            ),
            Some(Action::CycleSession)
        );
    }
    assert_eq!(
        map_key(
            KeyCode::Char('z'),
            EditMode::Normal,
            UiFocus::Done,
            false,
            SettingsMode::Closed,
            &keys
        ),
        Some(Action::Quit)
    );
}

#[test]
fn input_editing_and_confirmation_override_configured_normal_keys() {
    let keys: KeysConfig = keys_with(&[(KeyAction::ClockPrimary, &[ConfigKey::Backspace]), (KeyAction::CycleSession, &[ConfigKey::Character('n')])]);

    assert_eq!(
        map_key(
            KeyCode::Backspace,
            EditMode::Adding,
            UiFocus::Todo,
            false,
            SettingsMode::Closed,
            &keys
        ),
        Some(Action::PopInput)
    );
    assert_eq!(
        map_key(
            KeyCode::Char('n'),
            EditMode::Normal,
            UiFocus::Clock,
            true,
            SettingsMode::Closed,
            &keys
        ),
        Some(Action::CancelPendingAction)
    );
}
