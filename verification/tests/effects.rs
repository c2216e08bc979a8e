use pomock::app::{AppOutcome, FocusAudioAction};
use pomock::config::{Config, FocusSoundConfig, NotificationConfig, SoundConfig, SoundFile, TasksConfig};
use pomock::effects::{outcome_effects, Effect};
use pomock::SessionKind;

fn config_with_sounds() -> Config {
    Config::default()
        .with_sound(
            SoundConfig::default()
                .with_completion(SoundFile::new(true, Some("/tmp/done.wav".to_string())))
                .with_focus(FocusSoundConfig::new(true, Some("/tmp/focus.ogg".to_string()))),
        )
        .unwrap()
}

#[test]
fn focus_audio_starts_only_with_a_configured_loop() {
    let silent = Config::default();
    assert_eq!(
        outcome_effects(&AppOutcome::FocusAudio(FocusAudioAction::StartOrResume), &silent, true),
        Vec::<Effect>::new()
    );
    assert_eq!(
        outcome_effects(&AppOutcome::FocusAudio(FocusAudioAction::StartOrResume), &config_with_sounds(), true),
        vec![Effect::StartOrResumeFocusAudio(b"/tmp/focus.ogg".to_vec())]
    );
    assert_eq!(
        outcome_effects(&AppOutcome::FocusAudio(FocusAudioAction::Stop), &silent, false),
        vec![Effect::StopFocusAudio]
    );
}

#[test]
fn tests_combined_timer_effect_stops_completion_before_starting_focus_audio() {
    assert_eq!(
        outcome_effects(
            &AppOutcome::TimerEffects {
                focus_audio: Some(FocusAudioAction::StartOrResume),
                stop_completion_audio: true,
            },
            &config_with_sounds(),
            true,
        ),
        vec![
            Effect::StopCompletionAudio,
            Effect::StartOrResumeFocusAudio(b"/tmp/focus.ogg".to_vec())
        ]
    );
}

#[test]
fn completion_stops_focus_notifies_and_plays_the_completion_sound() {
    assert_eq!(
        outcome_effects(&AppOutcome::SessionCompleted(SessionKind::Focus), &config_with_sounds(), false),
        vec![
            Effect::StopFocusAudio,
            Effect::Notify(SessionKind::Focus),
            Effect::PlayCompletion(b"/tmp/done.wav".to_vec())
        ]
    );
    let quiet = config_with_sounds().with_notification(NotificationConfig::new(false));
    assert_eq!(
        outcome_effects(&AppOutcome::SessionCompleted(SessionKind::ShortBreak), &quiet, false),
        vec![Effect::PlayCompletion(b"/tmp/done.wav".to_vec())]
    );
}

#[test]
fn task_changes_are_saved_only_when_tasks_persist() {
    assert_eq!(
        outcome_effects(&AppOutcome::TasksChanged, &Config::default(), false),
        vec![Effect::SaveTasks]
    );
    let transient = Config::default().with_task_settings(TasksConfig::new(false));
    assert_eq!(
        outcome_effects(&AppOutcome::TasksChanged, &transient, false),
        Vec::<Effect>::new()
    );
}

#[test]
fn settings_changes_install_and_restart_a_changed_focus_loop() {
    let transient = Config::default().with_task_settings(TasksConfig::new(false));
    let updated = config_with_sounds();
    assert_eq!(
        outcome_effects(&AppOutcome::SettingsChanged(Box::new(updated.duplicate())), &transient, true),
        vec![
            Effect::InstallSettings { enable_persistence: true },
            Effect::StopFocusAudio,
            Effect::StartOrResumeFocusAudio(b"/tmp/focus.ogg".to_vec())
        ]
    );
    assert_eq!(
        outcome_effects(&AppOutcome::SettingsChanged(Box::new(updated.duplicate())), &updated, true),
        vec![Effect::InstallSettings { enable_persistence: false }]
    );
}

#[test]
fn quitting_silences_everything_last() {
    assert_eq!(
        outcome_effects(&AppOutcome::Quit, &Config::default(), false),
        vec![Effect::StopFocusAudio, Effect::StopCompletionAudio, Effect::Quit]
    );
}

#[test]
fn tests_focus_audio_outcomes_route_only_configured_starts_and_always_cleanup() {
    let focus_file = "/tmp/focus.ogg".to_string();
    let config = Config::default()
        .with_sound(SoundConfig::default().with_focus(FocusSoundConfig::new(true, Some(focus_file.clone()))))
        .unwrap();

    let mut effects = Vec::new();
    for outcome in [
        AppOutcome::FocusAudio(FocusAudioAction::StartOrResume),
        AppOutcome::FocusAudio(FocusAudioAction::Pause),
        AppOutcome::FocusAudio(FocusAudioAction::Stop),
    ] {
        effects.extend(outcome_effects(&outcome, &config, true));
    }
    assert_eq!(
        effects,
        vec![Effect::StartOrResumeFocusAudio(focus_file.into_bytes()), Effect::PauseFocusAudio, Effect::StopFocusAudio]
    );

    let silent = Config::default();
    assert_eq!(outcome_effects(&AppOutcome::FocusAudio(FocusAudioAction::StartOrResume), &silent, true), Vec::<Effect>::new());
}

#[test]
fn tests_disabled_sound_options_keep_configured_files_silent() {
    let config = Config::default()
        .with_sound(
            SoundConfig::default()
                .with_completion(SoundFile::new(false, Some("/tmp/disabled-completion.wav".to_string())))
                .with_focus(FocusSoundConfig::new(false, Some("/tmp/disabled-focus.ogg".to_string()))),
        )
        .unwrap();

    let mut effects = Vec::new();
    for outcome in [
        AppOutcome::FocusAudio(FocusAudioAction::StartOrResume),
        AppOutcome::SessionCompleted(SessionKind::ShortBreak),
    ] {
        effects.extend(outcome_effects(&outcome, &config, false));
    }

    assert!(effects.iter().all(|effect| matches!(effect, Effect::Notify(_))));
}

#[test]
fn tests_completion_outcome_routes_notification_and_audio_effects() {
    let sound_file = "/tmp/custom-completion.mp3".to_string();
    let config = Config::default()
        .with_sound(SoundConfig::default().with_completion(SoundFile::new(true, Some(sound_file.clone()))))
        .unwrap();

    let effects = outcome_effects(&AppOutcome::SessionCompleted(SessionKind::Focus), &config, false);

    assert!(!effects.contains(&Effect::Quit));
    assert_eq!(
        effects,
        vec![Effect::StopFocusAudio, Effect::Notify(SessionKind::Focus), Effect::PlayCompletion(sound_file.into_bytes())]
    );
}

#[test]
fn tests_disabled_notifications_do_not_suppress_completion_audio() {
    let sound_file = "/tmp/completion.wav".to_string();
    let config = Config::default()
        .with_notification(NotificationConfig::new(false))
        .with_sound(SoundConfig::default().with_completion(SoundFile::new(true, Some(sound_file.clone()))))
        .unwrap();

    let effects = outcome_effects(&AppOutcome::SessionCompleted(SessionKind::ShortBreak), &config, false);

    assert_eq!(effects, vec![Effect::PlayCompletion(sound_file.into_bytes())]);
}

#[test]
fn tests_unrelated_settings_changes_do_not_rewrite_tasks() {
    let config = Config::default();
    let updated = Config::default().with_notification(NotificationConfig::new(false));

    let effects = outcome_effects(&AppOutcome::SettingsChanged(Box::new(updated)), &config, false);

    assert_eq!(effects, vec![Effect::InstallSettings { enable_persistence: false }]);
}
