//! The boundary work that each application outcome asks for, in the order it is done.
use vstd::prelude::*;

use crate::app::{AppOutcome, FocusAudioAction, OutcomeModel};
use crate::config::settings::{Config, ConfigSettings};
use crate::config::sound::{same_bytes, SoundFile, SoundSettings};
use vstd::slice::slice_to_vec;
use crate::text::owned;
use crate::timer::SessionKind;

verus! {

/// One piece of boundary work.
#[derive(Debug, Clone, PartialEq, Eq)]
pub enum Effect {
    StopCompletionAudio,
    StartOrResumeFocusAudio(Vec<u8>),
    PauseFocusAudio,
    StopFocusAudio,
    Notify(SessionKind),
    PlayCompletion(Vec<u8>),
    /// Write the task lists to the task file.
    SaveTasks,
    /// Adopt the emitted configuration and save it; when task persistence turns on, the
    /// task file is first backed up and replaced with the current tasks.
    InstallSettings { enable_persistence: bool },
    Quit,
}

/// The abstract effect, files taken by their bytes.
pub enum EffectModel {
    StopCompletionAudio,
    StartOrResumeFocusAudio(Seq<u8>),
    PauseFocusAudio,
    StopFocusAudio,
    Notify(SessionKind),
    PlayCompletion(Seq<u8>),
    SaveTasks,
    InstallSettings { enable_persistence: bool },
    Quit,
}

impl View for Effect {
    type V = EffectModel;

    open spec fn view(&self) -> EffectModel {
        match self {
            Effect::StopCompletionAudio => EffectModel::StopCompletionAudio,
            Effect::StartOrResumeFocusAudio(f) => EffectModel::StartOrResumeFocusAudio(f@),
            Effect::PauseFocusAudio => EffectModel::PauseFocusAudio,
            Effect::StopFocusAudio => EffectModel::StopFocusAudio,
            Effect::Notify(s) => EffectModel::Notify(*s),
            Effect::PlayCompletion(f) => EffectModel::PlayCompletion(f@),
            Effect::SaveTasks => EffectModel::SaveTasks,
            Effect::InstallSettings { enable_persistence } => EffectModel::InstallSettings {
                enable_persistence: *enable_persistence,
            },
            Effect::Quit => EffectModel::Quit,
        }
    }
}

/// The effects in order, taken by their views.
pub open spec fn effect_views(effects: Seq<Effect>) -> Seq<EffectModel> {
    effects.map_values(|e: Effect| e@)
}

/// The file a sound plays, if it is enabled and resolved.
pub open spec fn playback(sound: SoundSettings) -> Option<Seq<u8>> {
    if sound.enabled { sound.resolved } else { None }
}

/// What the Focus loop does for `action`: it starts only with a file to play.
pub open spec fn focus_audio_effects(action: FocusAudioAction, config: ConfigSettings) -> Seq<EffectModel> {
    match action {
        FocusAudioAction::StartOrResume => match playback(config.sound.focus) {
            Some(f) => seq![EffectModel::StartOrResumeFocusAudio(f)],
            None => Seq::empty(),
        },
        FocusAudioAction::Pause => seq![EffectModel::PauseFocusAudio],
        FocusAudioAction::Stop => seq![EffectModel::StopFocusAudio],
    }
}

/// The work for `outcome` under the configuration in force, `focus_running` telling
/// whether Focus is counting down once the outcome is applied.
pub open spec fn effects_of(outcome: OutcomeModel, config: ConfigSettings, focus_running: bool) -> Seq<EffectModel> {
    match outcome {
        OutcomeModel::NoEffect => Seq::empty(),
        OutcomeModel::FocusAudio(a) => focus_audio_effects(a, config),
        OutcomeModel::TimerEffects { focus_audio, stop_completion_audio } =>
            (if stop_completion_audio { seq![EffectModel::StopCompletionAudio] } else { Seq::empty() })
            + match focus_audio {
                Some(a) => focus_audio_effects(a, config),
                None => Seq::empty(),
            },
        OutcomeModel::SessionCompleted(s) =>
            (if s is Focus { seq![EffectModel::StopFocusAudio] } else { Seq::empty() })
            + (if config.notification.enabled { seq![EffectModel::Notify(s)] } else { Seq::empty() })
            + match playback(config.sound.completion) {
                Some(f) => seq![EffectModel::PlayCompletion(f)],
                None => Seq::empty(),
            },
        OutcomeModel::TasksChanged => if config.tasks.persist { seq![EffectModel::SaveTasks] } else { Seq::empty() },
        OutcomeModel::SettingsChanged(updated) => {
            let install = seq![EffectModel::InstallSettings {
                enable_persistence: !config.tasks.persist && updated.tasks.persist,
            }];
            let next = playback(updated.sound.focus);
            if playback(config.sound.focus) == next {
                install
            } else {
                install + seq![EffectModel::StopFocusAudio] + if focus_running && next is Some {
                    seq![EffectModel::StartOrResumeFocusAudio(next->0)]
                } else {
                    Seq::empty()
                }
            }
        },
        OutcomeModel::Quit => seq![EffectModel::StopFocusAudio, EffectModel::StopCompletionAudio, EffectModel::Quit],
    }
}

fn playback_bytes(sound: &SoundFile) -> (f: Option<Vec<u8>>)
    ensures
        match f {
            Some(s) => playback(sound@) == Some(s@),
            None => playback(sound@) is None,
        },
{
    match sound.playback_file() {
        Some(f) => Some(slice_to_vec(f)),
        None => None,
    }
}

fn push_focus_audio(effects: &mut Vec<Effect>, action: FocusAudioAction, config: &Config)
    ensures
        effect_views(final(effects)@) == effect_views(old(effects)@) + focus_audio_effects(action, config@),
{
    let ghost before = effects@;
    match action {
        FocusAudioAction::StartOrResume => {
            if let Some(f) = playback_bytes(config.sound().focus()) {
                effects.push(Effect::StartOrResumeFocusAudio(f));
            }
        },
        FocusAudioAction::Pause => effects.push(Effect::PauseFocusAudio),
        FocusAudioAction::Stop => effects.push(Effect::StopFocusAudio),
    }
    assert(effect_views(effects@) =~= effect_views(before) + focus_audio_effects(action, config@));
}

fn push(effects: &mut Vec<Effect>, effect: Effect)
    ensures
        effect_views(final(effects)@) == effect_views(old(effects)@).push(effect@),
{
    effects.push(effect);
    assert(effect_views(effects@) =~= effect_views(old(effects)@).push(effect@));
}

/// The boundary work for `outcome`, in order, under the configuration in force;
/// `focus_running` tells whether Focus is counting down once the outcome is applied.
pub fn outcome_effects(outcome: &AppOutcome, config: &Config, focus_running: bool) -> (effects: Vec<Effect>)
    ensures
        effect_views(effects@) == effects_of(outcome@, config@, focus_running),
{
    let mut effects: Vec<Effect> = Vec::new();
    proof {
        assert(effect_views(effects@) =~= Seq::<EffectModel>::empty());
    }
    match outcome {
        AppOutcome::NoEffect => {},
        AppOutcome::FocusAudio(action) => push_focus_audio(&mut effects, *action, config),
        AppOutcome::TimerEffects { focus_audio, stop_completion_audio } => {
            if *stop_completion_audio {
                push(&mut effects, Effect::StopCompletionAudio);
            }
            let ghost first = effect_views(effects@);
            if let Some(action) = focus_audio {
                push_focus_audio(&mut effects, *action, config);
            }
            proof {
                if focus_audio.is_none() {
                    assert(first + Seq::<EffectModel>::empty() =~= first);
                }
            }
        },
        AppOutcome::SessionCompleted(session) => {
            if *session == SessionKind::Focus {
                push(&mut effects, Effect::StopFocusAudio);
            }
            if config.notification().enabled {
                push(&mut effects, Effect::Notify(*session));
            }
            if let Some(f) = playback_bytes(config.sound().completion()) {
                push(&mut effects, Effect::PlayCompletion(f));
            }
            proof {
                let s = *session;
                let a: Seq<EffectModel> = if s is Focus { seq![EffectModel::StopFocusAudio] } else { Seq::empty() };
                let b: Seq<EffectModel> = if config@.notification.enabled { seq![EffectModel::Notify(s)] } else { Seq::empty() };
                let c: Seq<EffectModel> = match playback(config@.sound.completion) {
                    Some(f) => seq![EffectModel::PlayCompletion(f)],
                    None => Seq::empty(),
                };
                assert(effect_views(effects@) =~= a + b + c);
            }
        },
        AppOutcome::TasksChanged => {
            if config.tasks().persist {
                push(&mut effects, Effect::SaveTasks);
            }
        },
        AppOutcome::SettingsChanged(updated) => {
            let enable_persistence = !config.tasks().persist && updated.tasks().persist;
            push(&mut effects, Effect::InstallSettings { enable_persistence });
            let current = playback_bytes(config.sound().focus());
            let next = playback_bytes(updated.sound().focus());
            let same = match (&current, &next) {
                (Some(a), Some(b)) => same_bytes(a.as_slice(), b.as_slice()),
                (None, None) => true,
                _ => false,
            };
            if !same {
                push(&mut effects, Effect::StopFocusAudio);
                if focus_running {
                    if let Some(f) = next {
                        push(&mut effects, Effect::StartOrResumeFocusAudio(f));
                    }
                }
            }
            proof {
                let u = updated@;
                let install = seq![EffectModel::InstallSettings { enable_persistence }];
                let n = playback(u.sound.focus);
                if playback(config@.sound.focus) != n {
                    let tail: Seq<EffectModel> = if focus_running && n is Some {
                        seq![EffectModel::StartOrResumeFocusAudio(n->0)]
                    } else {
                        Seq::empty()
                    };
                    assert(effect_views(effects@) =~= install + seq![EffectModel::StopFocusAudio] + tail);
                }
            }
        },
        AppOutcome::Quit => {
            push(&mut effects, Effect::StopFocusAudio);
            push(&mut effects, Effect::StopCompletionAudio);
            push(&mut effects, Effect::Quit);
        },
    }
    effects
}

/// The file a failed save was writing.
#[derive(Debug, Clone, Copy, PartialEq, Eq, Structural)]
pub enum SavedFile {
    Tasks,
    Config,
}

/// What kind of failure stopped a save, as the operating system reported it.
#[derive(Debug, Clone, Copy, PartialEq, Eq, Structural)]
pub enum WriteFailureKind {
    PermissionDenied,
    StorageFull,
    ReadOnlyFilesystem,
    NotFound,
    Other,
}

/// The name of a saved file.
pub open spec fn saved_file_name(file: SavedFile) -> Seq<char> {
    match file {
        SavedFile::Tasks => "tasks.toml"@,
        SavedFile::Config => "config.toml"@,
    }
}

/// The plain-language reason of a failed save.
pub open spec fn failure_reason(kind: WriteFailureKind) -> Seq<char> {
    match kind {
        WriteFailureKind::PermissionDenied => "permission denied"@,
        WriteFailureKind::StorageFull => "storage is full"@,
        WriteFailureKind::ReadOnlyFilesystem => "the filesystem is read-only"@,
        WriteFailureKind::NotFound => "the save location was not found"@,
        WriteFailureKind::Other => "a file error occurred"@,
    }
}

fn file_name_text(file: SavedFile) -> (s: &'static str)
    ensures
        s@ == saved_file_name(file),
{
    match file {
        SavedFile::Tasks => "tasks.toml",
        SavedFile::Config => "config.toml",
    }
}

/// The message shown when a save fails; the change stays active in the application.
pub fn write_failure_message(file: SavedFile, kind: WriteFailureKind) -> (s: String)
    ensures
        s@ == "Could not save "@ + saved_file_name(file) + ": "@ + failure_reason(kind) + ". Changes remain active."@,
{
    let reason = match kind {
        WriteFailureKind::PermissionDenied => "permission denied",
        WriteFailureKind::StorageFull => "storage is full",
        WriteFailureKind::ReadOnlyFilesystem => "the filesystem is read-only",
        WriteFailureKind::NotFound => "the save location was not found",
        WriteFailureKind::Other => "a file error occurred",
    };
    let mut s = owned("Could not save ");
    crate::text::push_str(&mut s, file_name_text(file));
    crate::text::push_str(&mut s, ": ");
    crate::text::push_str(&mut s, reason);
    crate::text::push_str(&mut s, ". Changes remain active.");
    s
}

/// The detail logged when a save fails, holding the full error text.
pub fn write_failure_detail(file: SavedFile, error: &str) -> (s: String)
    ensures
        s@ == "pomock: could not save "@ + saved_file_name(file) + ": "@ + error@,
{
    let mut s = owned("pomock: could not save ");
    crate::text::push_str(&mut s, file_name_text(file));
    crate::text::push_str(&mut s, ": ");
    crate::text::push_str(&mut s, error);
    s
}

} // verus!
