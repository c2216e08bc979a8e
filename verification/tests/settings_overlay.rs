use pomock::config::{
    CompletionSoundConfig, Config, ConfigKey, KeyAction, SoundConfig, TasksConfig, ThemeColor, ThemeConfig, ThemeRole,
    TimerConfig,
};
use pomock::settings::field::SettingField;
use pomock::settings::{SettingsAdjustmentDirection, SettingsMoveDirection, SettingsOverlay};

fn select(settings: &mut SettingsOverlay, field: SettingField) {
    let index = SettingField::all()
        .iter()
        .position(|candidate| *candidate == field)
        .unwrap();
    settings.select(index);
}

#[test]
fn field_groups_define_the_flat_settings_order() {
    let all = SettingField::all();
    let mut grouped = Vec::new();
    let mut start = 0;
    for (_, count) in SettingField::groups() {
        grouped.extend_from_slice(&all[start..start + count]);
        start += count;
    }

    assert_eq!(grouped, all);
    assert_eq!(start, all.len());
    assert_eq!(
        SettingField::key_fields(),
        [
            SettingField::Key(KeyAction::Quit),
            SettingField::Key(KeyAction::Settings),
            SettingField::Key(KeyAction::FocusLeft),
            SettingField::Key(KeyAction::FocusDown),
            SettingField::Key(KeyAction::FocusUp),
            SettingField::Key(KeyAction::FocusRight),
            SettingField::Key(KeyAction::ClockPrimary),
            SettingField::Key(KeyAction::CycleSession),
            SettingField::Key(KeyAction::ResetSession),
            SettingField::Key(KeyAction::AddTask),
            SettingField::Key(KeyAction::EditTask),
            SettingField::Key(KeyAction::DeleteTask),
            SettingField::Key(KeyAction::TaskPrimary),
            SettingField::Key(KeyAction::ListDown),
            SettingField::Key(KeyAction::ListUp),
            SettingField::Key(KeyAction::MoveTaskUp),
            SettingField::Key(KeyAction::MoveTaskDown),
        ]
    );
    assert_eq!(
        SettingField::theme_fields(),
        [
            SettingField::Theme(ThemeRole::FocusedBorder),
            SettingField::Theme(ThemeRole::UnfocusedBorder),
            SettingField::Theme(ThemeRole::Focus),
            SettingField::Theme(ThemeRole::ShortBreak),
            SettingField::Theme(ThemeRole::LongBreak),
            SettingField::Theme(ThemeRole::TodoHighlight),
            SettingField::Theme(ThemeRole::DoneHighlight),
        ]
    );
}

#[test]
fn tests_numeric_edits_are_validated_before_updating_the_config() {
    let mut settings = SettingsOverlay::new(&Config::default());
    settings.activate();
    settings.pop_input();
    settings.pop_input();
    settings.submit_input();

    assert_eq!(
        settings.config().timer().focus_duration().as_secs(),
        25 * 60
    );
    assert!(settings.error().is_some());

    settings.activate();
    for _ in 0..5 {
        settings.pop_input();
    }
    for character in "40:30".chars() {
        settings.push_input(character);
    }
    settings.submit_input();

    assert_eq!(
        settings.config().timer().focus_duration().as_secs(),
        40 * 60 + 30
    );
    assert!(settings.error().is_none());
}

#[test]
fn malformed_long_break_intervals_are_rejected_as_non_integers() {
    for invalid in ["abc", "", "-1", "1.5"] {
        let mut settings = SettingsOverlay::new(&Config::default());

        settings.set_number(SettingField::LongBreakInterval, invalid.to_string());

        assert_eq!(settings.config().timer().long_break_interval(), 4);
        assert_eq!(
            settings.error(),
            Some("long_break_interval must be a positive integer"),
            "unexpected validation result for {invalid:?}"
        );
    }
}

#[test]
fn zero_long_break_interval_is_rejected_by_the_overlay() {
    let mut settings = SettingsOverlay::new(&Config::default());

    settings.set_number(SettingField::LongBreakInterval, "0".to_string());

    assert_eq!(settings.config().timer().long_break_interval(), 4);
    assert_eq!(
        settings.error(),
        Some("long_break_interval must be greater than zero")
    );
}

#[test]
fn overflowing_long_break_intervals_are_rejected_as_too_large() {
    for overflow in [
        (u64::from(u32::MAX) + 1).to_string(),
        "18446744073709551616".to_string(),
    ] {
        let mut settings = SettingsOverlay::new(&Config::default());

        settings.set_number(SettingField::LongBreakInterval, overflow);

        assert_eq!(settings.config().timer().long_break_interval(), 4);
        assert_eq!(settings.error(), Some("long_break_interval is too large"));
    }
}

#[test]
fn valid_long_break_interval_updates_the_overlay_config() {
    let mut settings = SettingsOverlay::new(&Config::default());

    settings.set_number(SettingField::LongBreakInterval, "5".to_string());

    assert_eq!(settings.config().timer().long_break_interval(), 5);
    assert!(settings.error().is_none());
}

#[test]
fn duration_edits_require_mm_ss_and_reject_invalid_seconds() {
    let mut settings = SettingsOverlay::new(&Config::default());

    for invalid in ["5:30", "05:60", "00:00", "05", "10000:00"] {
        settings.activate();
        for _ in 0..settings.input().unwrap().len() {
            settings.pop_input();
        }
        for character in invalid.chars() {
            settings.push_input(character);
        }
        settings.submit_input();

        assert_eq!(
            settings.config().timer().focus_duration().as_secs(),
            25 * 60
        );
        assert!(settings.error().is_some(), "{invalid} should be rejected");
    }

    settings.activate();
    for _ in 0..settings.input().unwrap().len() {
        settings.pop_input();
    }
    for character in "9999:59".chars() {
        settings.push_input(character);
    }
    settings.submit_input();

    assert_eq!(
        settings.config().timer().focus_duration().as_secs(),
        9999 * 60 + 59
    );
    assert!(settings.error().is_none());
}

#[test]
fn timer_value_edits_preserve_autostart_settings() {
    let config = Config::new(TimerConfig::default().with_autostart(true, true)).unwrap();
    let mut settings = SettingsOverlay::new(&config);

    settings.set_duration(SettingField::FocusDuration, "20:30".to_string());
    assert!(settings.config().timer().autostart_breaks());
    assert!(settings.config().timer().autostart_focus());

    select(&mut settings, SettingField::LongBreakInterval);
    settings.set_number(SettingField::LongBreakInterval, "5".to_string());
    assert!(settings.config().timer().autostart_breaks());
    assert!(settings.config().timer().autostart_focus());
}

#[test]
fn tests_editing_other_settings_preserves_the_completion_sound() {
    let sound_file = "/tmp/custom.wav".to_string();
    let config = Config::default()
        .with_sound(
            SoundConfig::default()
                .with_completion(CompletionSoundConfig::new(true, Some(sound_file.clone()))),
        )
        .unwrap();
    let mut settings = SettingsOverlay::new(&config);

    settings.set_tasks(false, false);

    assert_eq!(
        settings.config().sound().completion().file(),
        Some(sound_file.as_str())
    );
}

#[test]
fn notification_and_sound_changes_apply_to_the_overlay_config() {
    let mut settings = SettingsOverlay::new(&Config::default());
    let completion = "/tmp/complete.wav".to_string();
    let focus = "/tmp/focus.ogg".to_string();

    select(&mut settings, SettingField::NotificationEnabled);
    settings.activate();
    select(&mut settings, SettingField::CompletionSoundEnabled);
    settings.activate();
    select(&mut settings, SettingField::CompletionSoundFile);
    settings.activate();
    for character in completion.chars() {
        settings.push_input(character);
    }
    settings.submit_input();
    select(&mut settings, SettingField::FocusSoundEnabled);
    settings.activate();
    select(&mut settings, SettingField::FocusSoundFile);
    settings.activate();
    for character in focus.chars() {
        settings.push_input(character);
    }
    settings.submit_input();

    assert!(!settings.config().notification().enabled());
    assert!(settings.config().sound().completion().enabled());
    assert!(settings.config().sound().focus().enabled());
    assert_eq!(
        settings.config().sound().completion().file(),
        Some(completion.as_str())
    );
    assert_eq!(
        settings.config().sound().focus().file(),
        Some(focus.as_str())
    );

    settings.activate();
    for _ in 0..focus.len() {
        settings.pop_input();
    }
    settings.submit_input();
    assert!(settings.config().sound().focus().file().is_none());
}

#[test]
fn invalid_sound_path_is_rejected_without_replacing_the_accepted_value() {
    let accepted = "/tmp/complete.wav".to_string();
    let config = Config::default()
        .with_sound(
            SoundConfig::default()
                .with_completion(CompletionSoundConfig::new(true, Some(accepted.clone()))),
        )
        .unwrap();
    let mut settings = SettingsOverlay::new(&config);
    select(&mut settings, SettingField::CompletionSoundFile);
    settings.activate();
    for _ in 0..accepted.len() {
        settings.pop_input();
    }
    for character in "relative.wav".chars() {
        settings.push_input(character);
    }

    settings.submit_input();

    assert_eq!(
        settings.config().sound().completion().file(),
        Some(accepted.as_str())
    );
    assert!(settings.error().unwrap().contains("sound.completion.file"));
}

#[test]
fn tests_booleans_and_theme_colors_update_the_overlay_config() {
    let original = Config::default();
    let mut settings = SettingsOverlay::new(&original);
    let original_border = original.theme().color(ThemeRole::FocusedBorder);
    let original_focus = original.theme().color(ThemeRole::Focus);
    select(&mut settings, SettingField::PersistTasks);
    settings.adjust(SettingsAdjustmentDirection::Forward);
    select(&mut settings, SettingField::AutostartBreaks);
    settings.adjust(SettingsAdjustmentDirection::Forward);
    select(&mut settings, SettingField::AutostartFocus);
    settings.activate();
    select(&mut settings, SettingField::Theme(ThemeRole::FocusedBorder));
    settings.adjust(SettingsAdjustmentDirection::Forward);

    assert!(!settings.config().tasks().persist());
    assert!(settings.config().timer().autostart_breaks());
    assert!(settings.config().timer().autostart_focus());
    assert_eq!(
        settings.config().theme().color(ThemeRole::FocusedBorder),
        original_border.cycle(true)
    );
    assert!(original.tasks().persist());
    assert_eq!(
        original.theme().color(ThemeRole::FocusedBorder),
        original_border
    );

    select(&mut settings, SettingField::Theme(ThemeRole::Focus));
    settings.adjust(SettingsAdjustmentDirection::Forward);
    assert_eq!(
        settings.config().theme().focus(),
        original_focus.cycle(true)
    );
}

#[test]
fn named_directions_move_selection_and_adjust_numbers() {
    let mut settings = SettingsOverlay::new(&Config::default());

    settings.move_selection(SettingsMoveDirection::Down);
    assert_eq!(settings.selection(), 1);
    settings.move_selection(SettingsMoveDirection::Up);
    assert_eq!(settings.selection(), 0);

    select(&mut settings, SettingField::LongBreakInterval);
    let original = settings.config().timer().long_break_interval();
    settings.adjust(SettingsAdjustmentDirection::Forward);
    assert_eq!(
        settings.config().timer().long_break_interval(),
        original + 1
    );
    settings.adjust(SettingsAdjustmentDirection::Backward);
    assert_eq!(
        settings.config().timer().long_break_interval(),
        original
    );
}

#[test]
fn tests_valid_hex_color_edits_update_the_config_on_submit() {
    let mut settings = SettingsOverlay::new(&Config::default());
    select(&mut settings, SettingField::Theme(ThemeRole::FocusedBorder));
    settings.activate();
    let original_length = settings.input().unwrap().chars().count();
    for _ in 0..original_length {
        settings.pop_input();
    }
    for character in "#5FD7fF".chars() {
        settings.push_input(character);
    }

    settings.submit_input();
    assert_eq!(
        settings.config().theme().focused_border(),
        ThemeColor::Rgb(0x5f, 0xd7, 0xff)
    );
}

#[test]
fn tests_invalid_color_edits_leave_the_config_unchanged() {
    let mut settings = SettingsOverlay::new(&Config::default());
    let original = settings.config().theme().focused_border();
    select(&mut settings, SettingField::Theme(ThemeRole::FocusedBorder));
    settings.activate();
    let original_length = settings.input().unwrap().chars().count();
    for _ in 0..original_length {
        settings.pop_input();
    }
    for character in "#12345".chars() {
        settings.push_input(character);
    }

    settings.submit_input();

    assert_eq!(settings.config().theme().focused_border(), original);
    assert!(settings.error().unwrap().contains("#RRGGBB"));
}

#[test]
fn tests_arrows_and_h_l_can_cycle_from_a_custom_color_into_presets() {
    let theme =
        ThemeConfig::default().with_color(ThemeRole::FocusedBorder, ThemeColor::Rgb(1, 2, 3));
    let config =
        Config::with_tasks_and_theme(TimerConfig::default(), TasksConfig::default(), theme)
            .unwrap();
    let mut settings = SettingsOverlay::new(&config);
    select(&mut settings, SettingField::Theme(ThemeRole::FocusedBorder));

    settings.adjust(SettingsAdjustmentDirection::Forward);

    assert_eq!(
        settings.config().theme().focused_border(),
        ThemeColor::Black
    );
}

#[test]
fn tests_key_capture_rejects_context_conflicts_and_accepts_valid_keys() {
    let mut settings = SettingsOverlay::new(&Config::default());
    select(&mut settings, SettingField::Key(KeyAction::CycleSession));
    settings.activate();
    settings.capture_key(ConfigKey::Space);
    assert!(settings.is_capturing_key());
    assert!(settings.error().is_some());

    settings.capture_key(ConfigKey::Character('n'));
    assert!(!settings.is_capturing_key());
    assert_eq!(
        settings.config().keys().binding(KeyAction::CycleSession),
        [ConfigKey::Character('n')]
    );
}

#[test]
fn tests_settings_key_capture_rejects_overlay_controls_and_updates_the_config() {
    let mut settings = SettingsOverlay::new(&Config::default());
    select(&mut settings, SettingField::Key(KeyAction::Settings));
    settings.activate();
    settings.capture_key(ConfigKey::Enter);
    assert!(settings.is_capturing_key());
    assert!(settings.error().unwrap().contains("keys.settings"));

    settings.capture_key(ConfigKey::Character('t'));

    assert!(!settings.is_capturing_key());
    assert_eq!(
        settings.config().keys().settings(),
        [ConfigKey::Character('t')]
    );
}

#[test]
fn tests_selection_is_clamped_and_locked_during_nested_editing() {
    let mut settings = SettingsOverlay::new(&Config::default());
    settings.select(usize::MAX);
    assert_eq!(
        settings.field(),
        SettingField::Theme(ThemeRole::DoneHighlight)
    );
    settings.select(0);
    settings.activate();
    settings.move_selection(SettingsMoveDirection::Down);
    assert_eq!(settings.selection(), 0);
    assert!(settings.cancel_nested());
}

#[test]
fn settings_valid_hex_color_edits_update_the_config_on_submit() {
    let mut settings = SettingsOverlay::new(&Config::default());
    select(&mut settings, SettingField::Theme(ThemeRole::FocusedBorder));
    settings.activate();
    for _ in 0..settings.input().unwrap().len() {
        settings.pop_input();
    }
    for character in "#5FD7fF".chars() {
        settings.push_input(character);
    }

    settings.submit_input();
    assert_eq!(
        settings.config().theme().focused_border(),
        ThemeColor::Rgb(0x5f, 0xd7, 0xff)
    );
}

#[test]
fn settings_arrows_and_h_l_can_cycle_from_a_custom_color_into_presets() {
    let theme =
        ThemeConfig::default().with_color(ThemeRole::FocusedBorder, ThemeColor::Rgb(1, 2, 3));
    let config =
        Config::with_tasks_and_theme(TimerConfig::default(), TasksConfig::default(), theme)
            .unwrap();
    let mut settings = SettingsOverlay::new(&config);
    select(&mut settings, SettingField::Theme(ThemeRole::FocusedBorder));

    settings.adjust(SettingsAdjustmentDirection::Forward);

    assert_eq!(
        settings.config().theme().focused_border(),
        ThemeColor::Black
    );
}

#[test]
fn settings_key_capture_rejects_context_conflicts_and_accepts_valid_keys() {
    let mut settings = SettingsOverlay::new(&Config::default());
    select(&mut settings, SettingField::Key(KeyAction::CycleSession));
    settings.activate();
    settings.capture_key(ConfigKey::Space);
    assert!(settings.is_capturing_key());
    assert!(settings.error().is_some());

    settings.capture_key(ConfigKey::Character('n'));
    assert!(!settings.is_capturing_key());
    assert_eq!(
        settings.config().keys().binding(KeyAction::CycleSession),
        [ConfigKey::Character('n')]
    );
}

#[test]
fn settings_settings_key_capture_rejects_overlay_controls_and_updates_the_config() {
    let mut settings = SettingsOverlay::new(&Config::default());
    select(&mut settings, SettingField::Key(KeyAction::Settings));
    settings.activate();
    settings.capture_key(ConfigKey::Enter);
    assert!(settings.is_capturing_key());
    assert!(settings.error().unwrap().contains("keys.settings"));

    settings.capture_key(ConfigKey::Character('t'));

    assert!(!settings.is_capturing_key());
    assert_eq!(
        settings.config().keys().settings(),
        [ConfigKey::Character('t')]
    );
}
