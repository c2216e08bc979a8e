//! Timer transitions, confirmations, autostart and write-failure expiry.
use vstd::prelude::*;

use super::action::{Action, AppOutcome, FocusAudioAction};
use super::model::{
    audio_transition, autostart_outcome, ticked, timer_changed, timer_outcome, with_completion_stop,
    write_errors_aged, ConfirmationOperation, PendingConfirmation, PriorActivity, TimerChange,
};
use super::App;
use crate::duration::Duration;
use crate::timer::{PomodoroTimer, SessionKind, TimerState};

verus! {

/// What the Focus audio does when the timer goes from `before` to `after`.
fn audio_change(before: TimerState, after: TimerState) -> (a: Option<FocusAudioAction>)
    ensures
        a == audio_transition(before, after),
{
    let focus_running = TimerState::Running(SessionKind::Focus);
    let focus_paused = TimerState::Paused(SessionKind::Focus);
    if after == focus_running && before != focus_running {
        Some(FocusAudioAction::StartOrResume)
    } else if before == focus_running && after == focus_paused {
        Some(FocusAudioAction::Pause)
    } else if (before == focus_running || before == focus_paused) && after != focus_running && after
        != focus_paused {
        Some(FocusAudioAction::Stop)
    } else {
        None
    }
}

/// `outcome`, or the Focus audio change of the timer transition when there is none.
pub(super) fn transition_outcome(before: TimerState, after: TimerState, outcome: AppOutcome) -> (o: AppOutcome)
    ensures
        o@ == timer_outcome(before, after, outcome@),
{
    if !matches!(outcome, AppOutcome::NoEffect) {
        return outcome;
    }
    match audio_change(before, after) {
        Some(a) => AppOutcome::FocusAudio(a),
        None => AppOutcome::NoEffect,
    }
}

/// The outcome of leaving an autostart countdown.
pub(super) fn leaving_autostart(before: TimerState, after: TimerState) -> (o: AppOutcome)
    ensures
        o@ == autostart_outcome(before, after),
{
    AppOutcome::TimerEffects { focus_audio: audio_change(before, after), stop_completion_audio: true }
}

/// `outcome` together with stopping the completion sound.
pub(super) fn stopping_completion(outcome: AppOutcome) -> (o: AppOutcome)
    ensures
        o@ == with_completion_stop(outcome@),
{
    match outcome {
        AppOutcome::FocusAudio(a) => AppOutcome::TimerEffects { focus_audio: Some(a), stop_completion_audio: true },
        AppOutcome::NoEffect => AppOutcome::TimerEffects { focus_audio: None, stop_completion_audio: true },
        other => other,
    }
}

/// Applies a timer change without asking.
fn change_timer(timer: &mut PomodoroTimer, change: TimerChange)
    ensures
        final(timer)@ == timer_changed(old(timer)@, change),
{
    timer.reset_session();
    match change {
        TimerChange::Reset => {},
        TimerChange::Cycle => timer.cycle_ready_session(),
        TimerChange::SelectSession(session) => timer.select_session(session),
        TimerChange::StartSession(session) => timer.start_session(session),
    }
}

impl App {
    /// Lets `elapsed` pass: write failures expire, an autostart countdown runs down and
    /// starts its session, and otherwise the timer counts down and reports a completion.
    pub fn tick(&mut self, elapsed: Duration) -> (outcome: AppOutcome)
        ensures
            (final(self)@, outcome@) == ticked(old(self)@, elapsed@),
    {
        self.age_write_errors(elapsed);
        if let Some((session, remaining)) = self.pending_autostart {
            if elapsed.lt(&remaining) {
                self.pending_autostart = Some((session, remaining.saturating_sub(elapsed)));
                return AppOutcome::NoEffect;
            }
            self.pending_autostart = None;
            self.completion_audio_active = false;
            let before = self.timer.state();
            self.timer.primary_action();
            return leaving_autostart(before, self.timer.state());
        }
        let completed = match self.timer.tick(elapsed) {
            Some(k) => k,
            None => return AppOutcome::NoEffect,
        };
        let recommended = match self.timer.state() {
            TimerState::Ready(s) | TimerState::Running(s) | TimerState::Paused(s) => s,
        };
        let enabled = match recommended {
            SessionKind::Focus => self.config.timer().autostart_focus(),
            SessionKind::ShortBreak | SessionKind::LongBreak => self.config.timer().autostart_breaks(),
        };
        if enabled {
            self.pending_autostart = Some((recommended, Duration::from_secs(5)));
        }
        self.completion_audio_active = true;
        AppOutcome::SessionCompleted(completed)
    }

    fn age_write_errors(&mut self, elapsed: Duration)
        ensures
            final(self)@ == write_errors_aged(old(self)@, elapsed@),
    {
        let aged = match &self.write_error {
            Some((message, left)) => if elapsed.lt(left) {
                Some((message.clone(), left.saturating_sub(elapsed)))
            } else {
                None
            },
            None => None,
        };
        self.write_error = aged;
        match &mut self.settings {
            Some(settings) => settings.age_write_error(elapsed),
            None => {},
        }
    }

    pub(super) fn request_timer_change(&mut self, change: TimerChange)
        ensures
            final(self)@ == old(self)@.request_timer_change(change),
    {
        if self.needs_confirmation() {
            self.ask(ConfirmationOperation::TimerChange(change));
        } else {
            change_timer(&mut self.timer, change);
        }
    }

    pub(super) fn request_quit(&mut self) -> (outcome: AppOutcome)
        ensures
            (final(self)@, outcome@) == old(self)@.request_quit(),
    {
        if self.needs_confirmation() {
            self.ask(ConfirmationOperation::Quit);
            AppOutcome::NoEffect
        } else {
            AppOutcome::Quit
        }
    }

    fn needs_confirmation(&self) -> (b: bool)
        ensures
            b == self@.needs_confirmation(),
    {
        match self.timer.state() {
            TimerState::Ready(_) => false,
            _ => !self.timer.progress().lt(&Duration::from_secs(10)),
        }
    }

    fn ask(&mut self, operation: ConfirmationOperation)
        ensures
            final(self)@ == old(self)@.ask(operation),
    {
        let prior_activity = match self.timer.state() {
            TimerState::Running(_) => PriorActivity::Running,
            _ => PriorActivity::Paused,
        };
        self.timer.pause();
        self.pending_confirmation = Some(PendingConfirmation { operation, prior_activity });
        self.last_click = None;
    }

    fn confirm_pending_action(&mut self) -> (outcome: AppOutcome)
        ensures
            (final(self)@, outcome@) == old(self)@.confirm_pending(),
    {
        let pending = self.pending_confirmation;
        self.pending_confirmation = None;
        self.last_click = None;
        match pending {
            Some(p) => match p.operation {
                ConfirmationOperation::Quit => AppOutcome::Quit,
                ConfirmationOperation::TimerChange(change) => {
                    change_timer(&mut self.timer, change);
                    AppOutcome::NoEffect
                },
            },
            None => AppOutcome::NoEffect,
        }
    }

    fn cancel_pending_action(&mut self)
        ensures
            final(self)@ == old(self)@.cancel_pending(),
    {
        let resume = match self.pending_confirmation {
            Some(p) => p.prior_activity == PriorActivity::Running,
            None => false,
        };
        self.pending_confirmation = None;
        self.last_click = None;
        if resume {
            self.timer.resume();
        }
    }

    /// Handles `action` while a confirmation is pending.
    pub(super) fn confirmation_step(&mut self, action: Action) -> (outcome: AppOutcome)
        ensures
            (final(self)@, outcome@) == old(self)@.confirmation_step(action),
    {
        let before = self.timer.state();
        let outcome = match action {
            Action::ConfirmPendingAction => self.confirm_pending_action(),
            Action::CancelPendingAction => {
                self.cancel_pending_action();
                AppOutcome::NoEffect
            },
            _ => AppOutcome::NoEffect,
        };
        transition_outcome(before, self.timer.state(), outcome)
    }
}

} // verus!
