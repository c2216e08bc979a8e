use pomock::config::sound::resolve_with_home;
use pomock::config::stored::{keys_from_stored, stored_key_entries, stored_theme_entries, theme_from_stored};
use pomock::config::{
    CompletionSoundConfig, Config, ConfigKey, ConfigValidationError, KeyAction, KeysConfig, NotificationConfig,
    SoundConfig, TasksConfig, ThemeColor, ThemeConfig, ThemeRole, TimerConfig,
};

#[test]
fn defaults_match_the_product_contract() {
    let config = Config::default();

    assert_eq!(config.timer().focus_duration().as_secs(), 25 * 60);
    assert_eq!(config.timer().short_break_duration().as_secs(), 5 * 60);
    assert_eq!(config.timer().long_break_duration().as_secs(), 15 * 60);
    assert_eq!(config.timer().long_break_interval(), 4);
    assert!(!config.timer().autostart_breaks());
    assert!(!config.timer().autostart_focus());
    assert!(config.tasks().persist());
    assert!(config.tasks().show_numbers());
    assert_eq!(config.theme(), &ThemeConfig::default());
    assert_eq!(config.keys(), &KeysConfig::default());
    assert!(config.notification().enabled());
    assert_eq!(config.sound(), &SoundConfig::default());
    assert!(!config.sound().completion().enabled());
    assert!(config.sound().completion().file().is_none());
    assert!(!config.sound().focus().enabled());
    assert!(config.sound().focus().file().is_none());
    assert_eq!(
        config.keys().list_down(),
        [ConfigKey::Character('j'), ConfigKey::Down]
    );
    assert_eq!(
        config.keys().list_up(),
        [ConfigKey::Character('k'), ConfigKey::Up]
    );
    assert_eq!(config.keys().settings(), [ConfigKey::Character('s')]);
    assert_eq!(config.keys().move_task_up(), [ConfigKey::Character('u')]);
    assert_eq!(config.keys().move_task_down(), [ConfigKey::Character('d')]);
}

#[test]
fn absolute_sound_paths_pass_through_unchanged() {
    let sound_file = "/tmp/absolute-sound.wav";
    let config = Config::default()
        .with_sound(
            SoundConfig::default()
                .with_completion(CompletionSoundConfig::new(true, Some(sound_file.to_string()))),
        )
        .unwrap();

    assert_eq!(config.sound().completion().file(), Some(sound_file));
    assert_eq!(config.sound().completion().playback_file(), Some(sound_file.as_bytes()));
}

#[test]
fn lowercase_s_can_be_reused_after_settings_is_rebound() {
    let keys = KeysConfig::default()
        .with_binding(KeyAction::Settings, ConfigKey::Character('t'))
        .with_binding(KeyAction::CycleSession, ConfigKey::Character('s'));

    let config = Config::with_settings(
        TimerConfig::default(),
        TasksConfig::default(),
        ThemeConfig::default(),
        keys,
    )
    .unwrap();

    assert_eq!(config.keys().settings(), [ConfigKey::Character('t')]);
    assert_eq!(config.keys().cycle_session(), [ConfigKey::Character('s')]);
}

#[test]
fn settings_is_validated_as_a_global_action() {
    let keys = KeysConfig::default().with_binding(KeyAction::Settings, ConfigKey::Character('q'));

    let error = Config::with_settings(
        TimerConfig::default(),
        TasksConfig::default(),
        ThemeConfig::default(),
        keys,
    )
    .unwrap_err();

    assert!(matches!(
        error,
        ConfigValidationError::ConflictingKeys { .. }
    ));
    assert!(error.message().contains("keys.quit"));
    assert!(error.message().contains("keys.settings"));
}

#[test]
fn same_key_is_allowed_for_commands_in_disjoint_contexts() {
    let keys = KeysConfig::default().with_binding(KeyAction::CycleSession, ConfigKey::Character('a'));

    assert!(
        Config::with_settings(
            TimerConfig::default(),
            TasksConfig::default(),
            ThemeConfig::default(),
            keys,
        )
        .is_ok()
    );
}

#[test]
fn zero_duration_is_rejected_with_the_field_name() {
    let error = TimerConfig::new(0, 5, 15, 4).unwrap_err();

    assert_eq!(
        error,
        ConfigValidationError::ZeroDuration {
            field: "focus_duration"
        }
    );
}

#[test]
fn zero_long_break_interval_is_rejected() {
    let error = TimerConfig::new(25, 5, 15, 0).unwrap_err();

    assert_eq!(error, ConfigValidationError::ZeroLongBreakInterval);
}

#[test]
fn focused_timer_updates_validate_and_preserve_other_fields() {
    let timer = TimerConfig::from_seconds(120, 30, 60, 3)
        .unwrap()
        .with_autostart(true, true);
    for (updated, expected) in [
        (timer.with_focus_duration(90), (90, 30, 60, 3)),
        (timer.with_short_break_duration(90), (120, 90, 60, 3)),
        (timer.with_long_break_duration(90), (120, 30, 90, 3)),
        (timer.with_long_break_interval(7), (120, 30, 60, 7)),
    ] {
        let updated = updated.unwrap();
        assert_eq!(
            (
                updated.focus_duration().as_secs(),
                updated.short_break_duration().as_secs(),
                updated.long_break_duration().as_secs(),
                updated.long_break_interval()
            ),
            expected
        );
        assert!(updated.autostart_breaks());
        assert!(updated.autostart_focus());
    }
    for seconds in [0, 600_000, u64::MAX] {
        assert!(timer.with_focus_duration(seconds).is_err());
        assert!(timer.with_short_break_duration(seconds).is_err());
        assert!(timer.with_long_break_duration(seconds).is_err());
    }
    assert_eq!(
        timer.with_long_break_interval(0),
        Err(ConfigValidationError::ZeroLongBreakInterval)
    );
}

#[test]
fn focused_config_updates_preserve_unrelated_settings() {
    let original = Config::with_tasks(
        TimerConfig::default().with_autostart(true, true),
        TasksConfig::with_numbering(false, false),
    )
    .unwrap()
    .with_notification(NotificationConfig::new(false))
    .with_sound(
        SoundConfig::default().with_completion(CompletionSoundConfig::new(
            true,
            Some("/tmp/complete.wav".to_string()),
        )),
    )
    .unwrap();
    let updated = original
        .duplicate()
        .with_timer(original.timer().with_focus_duration(90).unwrap())
        .unwrap()
        .with_color(ThemeRole::Focus, ThemeColor::Blue)
        .with_key_binding(KeyAction::Quit, ConfigKey::Character('Q'))
        .unwrap();
    let restored = updated
        .with_timer(*original.timer())
        .unwrap()
        .with_color(ThemeRole::Focus, original.theme().color(ThemeRole::Focus))
        .with_key_binding(KeyAction::Quit, ConfigKey::Character('q'))
        .unwrap();
    assert_eq!(restored, original);
    assert!(
        original
            .duplicate()
            .with_key_binding(KeyAction::Quit, ConfigKey::Character('s'))
            .is_err()
    );
}

#[test]
fn hex_colors_accept_either_case_and_display_canonically() {
    assert_eq!(ThemeColor::parse("#5FD7fF"), Ok(ThemeColor::Rgb(0x5f, 0xd7, 0xff)));
    assert_eq!(ThemeColor::Rgb(0x5f, 0xd7, 0xff).to_text(), "#5fd7ff");
}

#[test]
fn home_relative_sounds_join_the_home_directory_byte_for_byte() {
    let field = "sound.completion.file";
    assert_eq!(
        resolve_with_home(Some("~/sounds/done.wav"), field, Some(b"/home/ana")),
        Ok(Some(b"/home/ana/sounds/done.wav".to_vec()))
    );
    assert_eq!(
        resolve_with_home(Some("~/sounds/done.wav"), field, Some(b"/home/ana/")),
        Ok(Some(b"/home/ana/sounds/done.wav".to_vec()))
    );
    assert_eq!(
        resolve_with_home(Some("~/s\u{e9}.wav"), field, Some(b"/home/\xffuser")),
        Ok(Some(b"/home/\xffuser/s\xc3\xa9.wav".to_vec()))
    );
    assert_eq!(
        resolve_with_home(Some("~//abs.wav"), field, Some(b"/home/ana")),
        Ok(Some(b"/abs.wav".to_vec()))
    );
    assert_eq!(
        resolve_with_home(Some("~/done.wav"), field, None),
        Err(ConfigValidationError::HomeDirectoryUnavailable { field })
    );
    assert_eq!(
        resolve_with_home(Some("/tmp/done.wav"), field, None),
        Ok(Some(b"/tmp/done.wav".to_vec()))
    );
    assert_eq!(
        resolve_with_home(Some("sounds/done.wav"), field, Some(b"/home/ana")),
        Err(ConfigValidationError::RelativeSoundPath { field, path: "sounds/done.wav".to_string() })
    );
    assert_eq!(resolve_with_home(None, field, Some(b"/home/ana")), Ok(None));
}

#[test]
fn stored_bindings_keep_defaults_and_refuse_unknown_names() {
    let entries = vec![
        ("quit".to_string(), vec!["x".to_string()]),
        ("settings".to_string(), vec!["t".to_string(), "esc".to_string()]),
    ];
    let keys = keys_from_stored(&entries).unwrap();
    assert_eq!(keys.binding(KeyAction::Quit), [ConfigKey::Character('x')]);
    assert_eq!(keys.binding(KeyAction::Settings), [ConfigKey::Character('t'), ConfigKey::Escape]);
    assert_eq!(
        keys.binding(KeyAction::CycleSession),
        KeysConfig::default().binding(KeyAction::CycleSession)
    );

    let unknown = vec![("quit".to_string(), vec!["x".to_string()]), ("jump".to_string(), vec!["j".to_string()])];
    assert_eq!(keys_from_stored(&unknown).unwrap_err(), "unknown key binding `jump`");

    let bad = vec![
        ("settings".to_string(), vec!["ctrl".to_string()]),
        ("quit".to_string(), vec!["x".to_string(), "meta".to_string()]),
    ];
    assert_eq!(
        keys_from_stored(&bad).unwrap_err(),
        "key must be one printable character or one of: space, enter, esc, backspace, up, down, left, right; found \"meta\""
    );
}

#[test]
fn stored_theme_colors_keep_defaults_and_refuse_unknown_roles() {
    let entries = vec![
        ("focus".to_string(), "blue".to_string()),
        ("done_highlight".to_string(), "#5fd7ff".to_string()),
    ];
    let theme = theme_from_stored(&entries).unwrap();
    assert_eq!(theme.color(ThemeRole::Focus), ThemeColor::Blue);
    assert_eq!(theme.color(ThemeRole::DoneHighlight), ThemeColor::Rgb(0x5f, 0xd7, 0xff));
    assert_eq!(theme.color(ThemeRole::ShortBreak), ThemeConfig::default().color(ThemeRole::ShortBreak));

    let later_wins = vec![("focus".to_string(), "blue".to_string()), ("focus".to_string(), "red".to_string())];
    assert_eq!(theme_from_stored(&later_wins).unwrap().color(ThemeRole::Focus), ThemeColor::Red);

    let unknown = vec![("shadow".to_string(), "blue".to_string())];
    assert_eq!(theme_from_stored(&unknown).unwrap_err(), "unknown theme color `shadow`");

    let bad = vec![("focus".to_string(), "mauve".to_string())];
    assert_eq!(
        theme_from_stored(&bad).unwrap_err(),
        "color must be a supported preset name or #RRGGBB; found \"mauve\""
    );
}

#[test]
fn a_clock_command_on_the_quit_key_names_both_commands() {
    let quit = KeysConfig::default().binding(KeyAction::Quit)[0];
    let keys = KeysConfig::default().with_binding(KeyAction::CycleSession, quit);
    let error =
        Config::with_settings(TimerConfig::default(), TasksConfig::default(), ThemeConfig::default(), keys).unwrap_err();
    assert_eq!(error, ConfigValidationError::ConflictingKeys { first: "quit", second: "cycle_session" });
    assert_eq!(error.message(), "keys.quit conflicts with keys.cycle_session");
}

#[test]
fn stored_bindings_read_back_unchanged() {
    let defaults = KeysConfig::default();
    assert!(keys_from_stored(&stored_key_entries(&defaults)).unwrap() == defaults);

    let custom = KeysConfig::default()
        .with_binding(KeyAction::Settings, ConfigKey::Character('t'))
        .with_binding(KeyAction::Quit, ConfigKey::Escape);
    let entries = stored_key_entries(&custom);
    assert_eq!(entries.len(), 17);
    assert_eq!(entries[6], ("quit".to_string(), vec!["esc".to_string()]));
    let read = keys_from_stored(&entries).unwrap();
    assert!(read == custom);
    assert_eq!(read.binding(KeyAction::Settings), [ConfigKey::Character('t')]);
}

#[test]
fn stored_theme_reads_back_unchanged() {
    let theme = ThemeConfig::default()
        .with_color(ThemeRole::Focus, ThemeColor::Rgb(0x12, 0xab, 0xef))
        .with_color(ThemeRole::LongBreak, ThemeColor::LightYellow);
    let entries = stored_theme_entries(theme);
    assert_eq!(entries.len(), 7);
    assert_eq!(entries[4], ("focus".to_string(), "#12abef".to_string()));
    assert_eq!(theme_from_stored(&entries), Ok(theme));
}
