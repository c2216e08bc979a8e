//! Semantic clicks after the UI boundary performs hit testing.
use vstd::prelude::*;

use super::action::{Action, AppOutcome};
use super::model::{
    actionable_click, clicked, is_double_click, plain_click, session_click, upgraded_click, ClickTarget, ConfirmationOperation, EditMode, PendingConfirmation, TimerChange, UiFocus,
};
use super::timer_flow::{leaving_autostart, stopping_completion, transition_outcome};
use super::App;
use crate::duration::{Duration, Instant};
use crate::timer::{SessionKind, TimerState};

verus! {

impl App {
    /// Applies a semantic click: a single click selects and focuses, a double click within
    /// half a second acts, and prompts, edits, the overlay and autostart take precedence.
    pub fn handle_click_target(&mut self, target: ClickTarget, now: Instant) -> (outcome: AppOutcome)
        ensures
            clicked(old(self)@, target, now@, final(self)@, outcome@),
    {
        let prior = self.timer.state();
        if self.edit_mode != EditMode::Normal {
            return AppOutcome::NoEffect;
        }
        if self.pending_confirmation.is_some() {
            self.upgrade_pending_session_click(target, now);
            return AppOutcome::NoEffect;
        }
        if self.settings.is_some() {
            match target {
                ClickTarget::SettingsRow(selection) => {
                    let double = self.is_double_click(target, now);
                    match &mut self.settings {
                        Some(settings) => settings.select(selection),
                        None => {},
                    }
                    if double {
                        self.last_click = None;
                        return self.dispatch_settings(Action::SettingsActivate);
                    }
                    self.last_click = Some((target, now));
                    return AppOutcome::NoEffect;
                },
                _ => return AppOutcome::NoEffect,
            }
        }
        if self.pending_autostart.is_some() {
            if let ClickTarget::SessionControl(session) = target {
                self.pending_autostart = None;
                self.completion_audio_active = false;
                self.focus(UiFocus::Clock);
                self.timer.select_session(session);
                self.last_click = Some((target, now));
                return leaving_autostart(prior, self.timer.state());
            }
            if target == ClickTarget::Clock && self.is_double_click(target, now) {
                self.pending_autostart = None;
                self.completion_audio_active = false;
                self.focus(UiFocus::Clock);
                self.timer.primary_action();
                self.last_click = None;
                return leaving_autostart(prior, self.timer.state());
            }
        }
        let double = self.is_double_click(target, now);
        let session_target = match target {
            ClickTarget::SessionControl(_) => true,
            _ => false,
        };
        let stop = self.completion_audio_active && (session_target || target == ClickTarget::Clock && double);
        if stop {
            self.completion_audio_active = false;
        }
        if self.plain_click(target, now) {
            return AppOutcome::TasksChanged;
        }
        let outcome = transition_outcome(prior, self.timer.state(), AppOutcome::NoEffect);
        if stop {
            stopping_completion(outcome)
        } else {
            outcome
        }
    }

    fn is_double_click(&self, target: ClickTarget, now: Instant) -> (b: bool)
        ensures
            b == is_double_click(self@, target, now@),
    {
        match self.last_click {
            Some((last_target, at)) => last_target == target && match now.checked_duration_since(at) {
                Some(elapsed) => elapsed.le(&Duration::from_millis(500)),
                None => false,
            },
            None => false,
        }
    }

    fn plain_click(&mut self, target: ClickTarget, now: Instant) -> (changed: bool)
        ensures
            (final(self)@, changed) == plain_click(old(self)@, target, now@),
    {
        match target {
            ClickTarget::Clock => {
                self.focus(UiFocus::Clock);
                self.actionable_click(target, now)
            },
            ClickTarget::SessionControl(session) => {
                self.session_click(session, now);
                false
            },
            ClickTarget::Todo => {
                self.focus(UiFocus::Todo);
                self.last_click = None;
                false
            },
            ClickTarget::TodoTask(selection) => {
                self.focus(UiFocus::Todo);
                self.select_todo(selection);
                self.actionable_click(target, now)
            },
            ClickTarget::Done => {
                self.focus(UiFocus::Done);
                self.last_click = None;
                false
            },
            ClickTarget::DoneTask(selection) => {
                self.focus(UiFocus::Done);
                self.select_done(selection);
                self.actionable_click(target, now)
            },
            ClickTarget::Outside => {
                self.last_click = None;
                false
            },
            ClickTarget::SettingsRow(_) => false,
        }
    }

    fn actionable_click(&mut self, target: ClickTarget, now: Instant) -> (changed: bool)
        ensures
            (final(self)@, changed) == actionable_click(old(self)@, target, now@),
    {
        if self.is_double_click(target, now) {
            let changed = match target {
                ClickTarget::Clock => {
                    self.timer.primary_action();
                    false
                },
                ClickTarget::TodoTask(_) => self.complete_selected_todo(),
                ClickTarget::DoneTask(_) => self.return_selected_done(),
                _ => false,
            };
            self.last_click = None;
            changed
        } else {
            self.last_click = Some((target, now));
            false
        }
    }

    fn session_click(&mut self, session: SessionKind, now: Instant)
        ensures
            final(self)@ == session_click(old(self)@, session, now@),
    {
        let target = ClickTarget::SessionControl(session);
        let double = self.is_double_click(target, now);
        self.focus(UiFocus::Clock);
        match self.timer.state() {
            TimerState::Ready(_) => {
                if double {
                    self.timer.start_session(session);
                    self.last_click = None;
                } else {
                    self.timer.select_session(session);
                    self.last_click = Some((target, now));
                }
            },
            TimerState::Running(active) | TimerState::Paused(active) => {
                if session == active {
                    if double {
                        self.timer.primary_action();
                        self.last_click = None;
                    } else {
                        self.last_click = Some((target, now));
                    }
                } else {
                    self.request_timer_change(TimerChange::SelectSession(session));
                    self.last_click = Some((target, now));
                }
            },
        }
    }

    fn upgrade_pending_session_click(&mut self, target: ClickTarget, now: Instant)
        ensures
            final(self)@ == upgraded_click(old(self)@, target, now@),
    {
        if let (ClickTarget::SessionControl(session), Some(pending)) = (target, self.pending_confirmation) {
            if pending.operation == ConfirmationOperation::TimerChange(TimerChange::SelectSession(session))
                && self.is_double_click(target, now) {
                self.pending_confirmation = Some(PendingConfirmation {
                    operation: ConfirmationOperation::TimerChange(TimerChange::StartSession(session)),
                    prior_activity: pending.prior_activity,
                });
                self.last_click = None;
            }
        }
    }
}

} // verus!
