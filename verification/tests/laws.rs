use pomock::app::{Action, App, AppOutcome, ConfirmationOperation, Direction, SettingsMode, SettingsMoveDirection, TimerChange};
use pomock::settings::field::SettingField;
use pomock::config::{
    format_duration, parse_duration, Config, ConfigKey, KeyAction, KeysConfig, NotificationConfig, SoundConfig,
    TasksConfig, ThemeColor, ThemeConfig, TimerConfig,
};
use pomock::input::{map_physical_key, KeyCode, PhysicalKey};
use pomock::tasks::TaskList;
use pomock::timer::{PomodoroTimer, SessionKind, TimerState};
use pomock::Duration;

fn running_focus(progress: u64) -> App {
    let mut app = App::new();
    let _ = app.dispatch(Action::PrimaryAction);
    let _ = app.tick(Duration::from_secs(progress));
    app
}

#[test]
fn cycling_three_times_returns_to_the_ready_session() {
    let mut timer = PomodoroTimer::new(Duration::from_secs(60), Duration::from_secs(30), Duration::from_secs(90), 4);
    for _ in 0..3 {
        timer.cycle_ready_session();
    }
    assert_eq!(timer.state(), TimerState::Ready(SessionKind::Focus));
    assert_eq!(timer.remaining(), Duration::from_secs(60));
}

#[test]
fn pausing_and_resuming_keeps_the_time_left() {
    let mut timer = PomodoroTimer::new(Duration::from_secs(60), Duration::from_secs(30), Duration::from_secs(90), 4);
    timer.primary_action();
    let _ = timer.tick(Duration::from_secs(7));
    timer.pause();
    timer.resume();
    assert_eq!(timer.state(), TimerState::Running(SessionKind::Focus));
    assert_eq!(timer.remaining(), Duration::from_secs(53));
}

#[test]
fn moving_a_task_up_and_back_down_restores_the_list() {
    let mut tasks = TaskList::from_descriptions(
        vec!["a".to_string(), "b".to_string(), "c".to_string()],
        Vec::new(),
    );
    assert!(tasks.move_pending_up(2));
    assert!(tasks.move_pending_down(1));
    assert_eq!(tasks.to_descriptions().0, ["a", "b", "c"]);
}

#[test]
fn completing_and_returning_keeps_every_task() {
    let mut tasks = TaskList::from_descriptions(vec!["a".to_string(), "b".to_string()], vec!["c".to_string()]);
    assert!(tasks.complete(1));
    assert!(tasks.uncomplete(1));
    assert_eq!(tasks.to_descriptions(), (vec!["a".to_string(), "b".to_string()], vec!["c".to_string()]));
}

#[test]
fn a_confirmation_holds_every_other_action() {
    let mut app = running_focus(10);
    let _ = app.dispatch(Action::CycleSession);
    assert!(app.is_confirmation_open());
    let remaining = app.timer().remaining();
    assert_eq!(app.dispatch(Action::BeginAdd), AppOutcome::NoEffect);
    assert_eq!(app.dispatch(Action::NavigateFocus(Direction::Down)), AppOutcome::NoEffect);
    assert!(app.is_confirmation_open());
    assert_eq!(app.timer().remaining(), remaining);
    assert_eq!(
        app.pending_confirmation(),
        Some(ConfirmationOperation::TimerChange(TimerChange::Cycle))
    );
}

#[test]
fn a_confirmed_change_matches_the_immediate_one() {
    let mut confirmed = running_focus(10);
    let _ = confirmed.dispatch(Action::ResetSession);
    let _ = confirmed.dispatch(Action::ConfirmPendingAction);
    let mut immediate = running_focus(5);
    let _ = immediate.dispatch(Action::ResetSession);
    assert_eq!(confirmed.timer().state(), immediate.timer().state());
    assert_eq!(confirmed.timer().remaining(), immediate.timer().remaining());
}

#[test]
fn cancelling_resumes_the_interrupted_session() {
    let mut app = running_focus(12);
    let _ = app.dispatch(Action::Quit);
    assert_eq!(app.timer().state(), TimerState::Paused(SessionKind::Focus));
    let _ = app.dispatch(Action::CancelPendingAction);
    assert_eq!(app.timer().state(), TimerState::Running(SessionKind::Focus));
    assert_eq!(app.timer().remaining(), Duration::from_secs(25 * 60 - 12));
}

#[test]
fn write_failures_expire_however_the_time_is_split() {
    let mut app = App::new();
    app.report_task_write_error("failed".to_string(), "detail".to_string());
    for _ in 0..29 {
        let _ = app.tick(Duration::from_millis(100));
    }
    assert_eq!(app.task_write_error(), Some("failed"));
    let _ = app.tick(Duration::from_millis(100));
    assert_eq!(app.task_write_error(), None);
}

#[test]
fn confirmation_keys_win_in_every_context() {
    let keys = pomock::config::KeysConfig::default();
    let key = PhysicalKey::plain(KeyCode::Char('y'));
    for edit in [pomock::app::EditMode::Normal, pomock::app::EditMode::Adding] {
        for settings in [pomock::app::SettingsMode::Closed, pomock::app::SettingsMode::CapturingKey] {
            assert_eq!(
                map_physical_key(key, edit, pomock::app::UiFocus::Todo, true, settings, &keys),
                Some(Action::ConfirmPendingAction)
            );
        }
    }
}

#[test]
fn modified_keys_trigger_no_binding() {
    let keys = pomock::config::KeysConfig::default();
    let key = PhysicalKey { code: KeyCode::Char('q'), control: true, alt: false };
    assert_eq!(
        map_physical_key(key, pomock::app::EditMode::Normal, pomock::app::UiFocus::Clock, false,
            pomock::app::SettingsMode::Closed, &keys),
        None
    );
}

#[test]
fn stored_key_names_read_back_as_the_same_key() {
    for key in [
        ConfigKey::Character('x'),
        ConfigKey::Space,
        ConfigKey::Enter,
        ConfigKey::Escape,
        ConfigKey::Backspace,
        ConfigKey::Up,
        ConfigKey::Down,
        ConfigKey::Left,
        ConfigKey::Right,
    ] {
        assert_eq!(ConfigKey::from_stored_name(&key.stored_name()), Ok(key));
    }
    let _ = KeyAction::Quit;
}

#[test]
fn cycling_a_color_forward_and_back_returns_it() {
    for color in [ThemeColor::Black, ThemeColor::White, ThemeColor::LightCyan] {
        assert_eq!(color.cycle(true).cycle(false), color);
        assert_eq!(color.cycle(false).cycle(true), color);
    }
}

#[test]
fn written_lengths_read_back_unchanged() {
    for seconds in [1u64, 59, 60, 61, 599, 1500, 3599, 3600, 59_999, 60_000, 599_999] {
        let text = format_duration(seconds);
        assert_eq!(parse_duration(&text, "focus_duration"), Ok(seconds));
    }
    assert_eq!(format_duration(1500), "25:00");
    assert_eq!(format_duration(599_999), "9999:59");
}

#[test]
fn stored_timer_settings_read_back_unchanged() {
    let config = Config::from_stored(
        &format_duration(1234),
        &format_duration(61),
        &format_duration(599_999),
        3,
        true,
        false,
        TasksConfig::default(),
        ThemeConfig::default(),
        KeysConfig::default(),
        NotificationConfig::default(),
        SoundConfig::default(),
    )
    .unwrap();
    assert_eq!(config.timer().focus_duration().as_secs(), 1234);
    assert_eq!(config.timer().short_break_duration().as_secs(), 61);
    assert_eq!(config.timer().long_break_duration().as_secs(), 599_999);
    assert_eq!(config.timer().long_break_interval(), 3);
    assert!(config.timer().autostart_breaks());
    assert!(!config.timer().autostart_focus());
}

#[test]
fn written_colors_read_back_unchanged() {
    let mut colors = vec![
        ThemeColor::Rgb(0, 0, 0),
        ThemeColor::Rgb(255, 255, 255),
        ThemeColor::Rgb(18, 171, 205),
    ];
    let mut color = ThemeColor::Black;
    for _ in 0..16 {
        colors.push(color);
        color = color.cycle(true);
    }
    for color in colors {
        assert_eq!(ThemeColor::parse(&color.to_text()), Ok(color));
    }
    assert_eq!(ThemeColor::Rgb(18, 171, 205).to_text(), "#12abcd");
}

#[test]
fn blank_text_never_becomes_a_task_and_saved_tasks_load_back() {
    let mut app = App::new();
    let _ = app.dispatch(Action::NavigateFocus(Direction::Down));
    for text in ["write report", "   ", "review"] {
        let _ = app.dispatch(Action::BeginAdd);
        for character in text.chars() {
            let _ = app.dispatch(Action::PushInput(character));
        }
        let _ = app.dispatch(Action::SubmitEdit);
    }
    let _ = app.dispatch(Action::EditSelected);
    while !app.input().is_empty() {
        let _ = app.dispatch(Action::PopInput);
    }
    let _ = app.dispatch(Action::PushInput(' '));
    let _ = app.dispatch(Action::SubmitEdit);

    let state = app.task_state();
    assert_eq!(state.todo(), &["write report".to_string(), "review".to_string()]);
    let loaded = pomock::persistence::task_state_from_file("/tasks.toml", 1, state.todo().to_vec(), state.done().to_vec())
        .unwrap();
    assert_eq!(loaded.todo(), state.todo());
    assert_eq!(loaded.done(), state.done());
}

#[test]
fn typing_then_erasing_restores_the_entered_text() {
    let mut app = App::new();
    let _ = app.dispatch(Action::NavigateFocus(Direction::Down));
    let _ = app.dispatch(Action::BeginAdd);
    let _ = app.dispatch(Action::PushInput('a'));
    assert_eq!(app.dispatch(Action::PushInput('b')), AppOutcome::NoEffect);
    assert_eq!(app.dispatch(Action::PopInput), AppOutcome::NoEffect);
    assert_eq!(app.input(), "a");
}

fn every_key_action() -> [KeyAction; 17] {
    [
        KeyAction::FocusLeft,
        KeyAction::FocusDown,
        KeyAction::FocusUp,
        KeyAction::FocusRight,
        KeyAction::ListDown,
        KeyAction::ListUp,
        KeyAction::Quit,
        KeyAction::Settings,
        KeyAction::ClockPrimary,
        KeyAction::CycleSession,
        KeyAction::ResetSession,
        KeyAction::AddTask,
        KeyAction::EditTask,
        KeyAction::DeleteTask,
        KeyAction::TaskPrimary,
        KeyAction::MoveTaskUp,
        KeyAction::MoveTaskDown,
    ]
}

#[test]
fn an_open_confirmation_comes_with_a_paused_timer_and_nothing_else_open() {
    for request in [Action::CycleSession, Action::ResetSession, Action::Quit] {
        let mut app = running_focus(10);
        let _ = app.dispatch(request);
        assert!(app.is_confirmation_open());
        assert_eq!(app.timer().state(), TimerState::Paused(SessionKind::Focus));
        assert_eq!(app.pending_autostart(), None);
        assert_eq!(app.settings_mode(), SettingsMode::Closed);
        let _ = app.tick(Duration::from_secs(30));
        assert_eq!(app.timer().state(), TimerState::Paused(SessionKind::Focus));
        assert_eq!(app.pending_autostart(), None);
    }
}

#[test]
fn an_overshooting_completion_still_counts_down_five_seconds() {
    let timer = TimerConfig::default().with_autostart(true, false);
    let mut app = App::from_config(&Config::new(timer).unwrap());
    let _ = app.dispatch(Action::PrimaryAction);
    assert_eq!(
        app.tick(Duration::from_secs(1530)),
        AppOutcome::SessionCompleted(SessionKind::Focus)
    );
    assert_eq!(app.pending_autostart(), Some((SessionKind::ShortBreak, 5)));
    assert_eq!(app.timer().state(), TimerState::Ready(SessionKind::ShortBreak));
    let _ = app.tick(Duration::from_millis(2_500));
    assert_eq!(app.pending_autostart(), Some((SessionKind::ShortBreak, 3)));
    assert_eq!(app.timer().state(), TimerState::Ready(SessionKind::ShortBreak));
}

#[test]
fn the_keys_in_effect_follow_the_configuration_until_a_change_is_accepted() {
    let config = Config::default();
    let mut app = App::from_config(&config);
    let _ = app.dispatch(Action::PrimaryAction);
    let _ = app.tick(Duration::from_secs(3));
    let _ = app.dispatch(Action::OpenSettings);
    let _ = app.dispatch(Action::SettingsMove(SettingsMoveDirection::Down));
    for action in every_key_action() {
        assert_eq!(app.input_keys().binding(action), config.keys().binding(action));
    }
    while app.settings().unwrap().field() != SettingField::Key(KeyAction::CycleSession) {
        let _ = app.dispatch(Action::SettingsMove(SettingsMoveDirection::Down));
    }
    let _ = app.dispatch(Action::SettingsActivate);
    let outcome = app.dispatch(Action::SettingsCaptureKey(ConfigKey::Character('z')));
    assert!(matches!(outcome, AppOutcome::SettingsChanged(_)));
    assert_eq!(app.input_keys().binding(KeyAction::CycleSession), [ConfigKey::Character('z')]);
    assert_eq!(app.config().keys().binding(KeyAction::CycleSession), [ConfigKey::Character('z')]);
}
