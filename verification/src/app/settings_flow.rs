//! The settings overlay inside the application.
use vstd::prelude::*;

use super::action::{Action, AppOutcome, Direction, OutcomeModel, ScrollTarget};
use super::model::settings_dispatched;
use super::App;
use crate::config::settings::Config;
use crate::config::timer::TimerConfig;
use crate::settings::{SettingsMoveDirection, SettingsOverlay};

verus! {

impl App {
    pub(super) fn open_settings(&mut self)
        ensures
            final(self)@ == old(self)@.open_settings(),
    {
        self.settings = Some(SettingsOverlay::new(&self.config));
        self.last_click = None;
    }

    /// Handles `action` with the settings overlay open.
    pub(super) fn dispatch_settings(&mut self, action: Action) -> (outcome: AppOutcome)
        requires
            old(self)@.settings is Some,
        ensures
            settings_dispatched(old(self)@, action, final(self)@, outcome@),
    {
        let mut settings = match self.settings.take() {
            Some(settings) => settings,
            None => return AppOutcome::NoEffect,
        };
        if action == Action::SettingsClose && settings.input().is_none() && !settings.is_capturing_key() {
            self.last_click = None;
            return AppOutcome::NoEffect;
        }
        match action {
            Action::SettingsMove(direction) => settings.move_selection(direction),
            Action::Scroll(ScrollTarget::Settings, Direction::Down) => settings.move_selection(SettingsMoveDirection::Down),
            Action::Scroll(ScrollTarget::Settings, Direction::Up) => settings.move_selection(SettingsMoveDirection::Up),
            Action::SettingsAdjust(direction) => settings.adjust(direction),
            Action::SettingsActivate => settings.activate(),
            Action::SettingsPushInput(character) => settings.push_input(character),
            Action::SettingsPopInput => settings.pop_input(),
            Action::SettingsSubmitInput => settings.submit_input(),
            Action::SettingsCaptureKey(key) => settings.capture_key(key),
            Action::SettingsCancel => {
                let _ = settings.cancel_nested();
            },
            _ => {},
        }
        let emitted = if settings.config().same_as(&self.config) {
            None
        } else {
            Some(settings.config().duplicate())
        };
        self.settings = Some(settings);
        match emitted {
            Some(config) => self.apply_settings(config),
            None => AppOutcome::NoEffect,
        }
    }

    /// Adopts a configuration accepted in the overlay and emits it.
    fn apply_settings(&mut self, config: Config) -> (outcome: AppOutcome)
        ensures
            final(self)@ == old(self)@.apply_settings(config@),
            outcome@ == OutcomeModel::SettingsChanged(config@),
    {
        let timer = *config.timer();
        let current = *self.config.timer();
        if timer != current {
            proof {
                if timer@ == current@ {
                    TimerConfig::lemma_view_injective(timer, current);
                }
            }
            self.timer.reconfigure(
                timer.focus_duration(),
                timer.short_break_duration(),
                timer.long_break_duration(),
                timer.long_break_interval(),
            );
        }
        self.show_task_numbers = config.tasks().show_numbers;
        let emitted = config.duplicate();
        self.config = config;
        AppOutcome::SettingsChanged(Box::new(emitted))
    }
}

} // verus!
