//! Semantic user intentions and the boundary-relevant results of applying them.
use vstd::prelude::*;

use crate::config::keys::ConfigKey;
use crate::config::settings::{Config, ConfigSettings};
use crate::settings::{SettingsAdjustmentDirection, SettingsMoveDirection};
use crate::timer::SessionKind;

verus! {

/// A semantic navigation direction, independent of its physical key mapping.
#[derive(Debug, Clone, Copy, PartialEq, Eq, Structural)]
pub enum Direction {
    Left,
    Down,
    Up,
    Right,
}

/// A list that can be scrolled by a pointing device.
#[derive(Debug, Clone, Copy, PartialEq, Eq, Structural)]
pub enum ScrollTarget {
    Todo,
    Done,
    Settings,
}

/// A user intention, independent of the physical key or click that expressed it.
#[derive(Debug, Clone, Copy, PartialEq, Eq, Structural)]
pub enum Action {
    Quit,
    NavigateFocus(Direction),
    MoveSelection(Direction),
    MoveSelectedTask(Direction),
    PrimaryAction,
    CycleSession,
    ResetSession,
    ConfirmPendingAction,
    CancelPendingAction,
    BeginAdd,
    EditSelected,
    DeleteSelected,
    SubmitEdit,
    CancelEdit,
    PushInput(char),
    PopInput,
    OpenSettings,
    SettingsMove(SettingsMoveDirection),
    SettingsAdjust(SettingsAdjustmentDirection),
    SettingsActivate,
    SettingsClose,
    SettingsCancel,
    SettingsPushInput(char),
    SettingsPopInput,
    SettingsSubmitInput,
    SettingsCaptureKey(ConfigKey),
    Scroll(ScrollTarget, Direction),
}

/// A lifecycle operation for the optional looping Focus audio.
#[derive(Debug, Clone, Copy, PartialEq, Eq, Structural)]
pub enum FocusAudioAction {
    StartOrResume,
    Pause,
    Stop,
}

/// The abstract outcome, with an emitted configuration taken by its settings.
pub enum OutcomeModel {
    NoEffect,
    Quit,
    FocusAudio(FocusAudioAction),
    TimerEffects { focus_audio: Option<FocusAudioAction>, stop_completion_audio: bool },
    SessionCompleted(SessionKind),
    TasksChanged,
    SettingsChanged(ConfigSettings),
}

/// A boundary-relevant result of applying an application transition.
#[derive(Debug, PartialEq)]
pub enum AppOutcome {
    /// Nothing for the boundary to do.
    NoEffect,
    Quit,
    FocusAudio(FocusAudioAction),
    TimerEffects { focus_audio: Option<FocusAudioAction>, stop_completion_audio: bool },
    SessionCompleted(SessionKind),
    TasksChanged,
    SettingsChanged(Box<Config>),
}

impl View for AppOutcome {
    type V = OutcomeModel;

    open spec fn view(&self) -> OutcomeModel {
        match self {
            AppOutcome::NoEffect => OutcomeModel::NoEffect,
            AppOutcome::Quit => OutcomeModel::Quit,
            AppOutcome::FocusAudio(a) => OutcomeModel::FocusAudio(*a),
            AppOutcome::TimerEffects { focus_audio, stop_completion_audio } => OutcomeModel::TimerEffects {
                focus_audio: *focus_audio,
                stop_completion_audio: *stop_completion_audio,
            },
            AppOutcome::SessionCompleted(s) => OutcomeModel::SessionCompleted(*s),
            AppOutcome::TasksChanged => OutcomeModel::TasksChanged,
            AppOutcome::SettingsChanged(c) => OutcomeModel::SettingsChanged(c@),
        }
    }
}

} // verus!
