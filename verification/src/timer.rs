//! The Pomodoro session state machine.
use vstd::prelude::*;

use crate::duration::Duration;

verus! {

/// The three kinds of Pomodoro sessions.
#[derive(Debug, Clone, Copy, PartialEq, Eq, Structural)]
pub enum SessionKind {
    Focus,
    ShortBreak,
    LongBreak,
}

/// The session that follows `session` in the manual selection cycle.
pub open spec fn next_session(session: SessionKind) -> SessionKind {
    match session {
        SessionKind::Focus => SessionKind::ShortBreak,
        SessionKind::ShortBreak => SessionKind::LongBreak,
        SessionKind::LongBreak => SessionKind::Focus,
    }
}

impl SessionKind {
    /// The session that follows this one in the manual selection cycle.
    pub fn next(self) -> (s: SessionKind)
        ensures
            s == next_session(self),
    {
        match self {
            SessionKind::Focus => SessionKind::ShortBreak,
            SessionKind::ShortBreak => SessionKind::LongBreak,
            SessionKind::LongBreak => SessionKind::Focus,
        }
    }
}

/// Whether a session is waiting, counting down, or paused.
#[derive(Debug, Clone, Copy, PartialEq, Eq, Structural)]
pub enum TimerState {
    Ready(SessionKind),
    Running(SessionKind),
    Paused(SessionKind),
}

/// The session a timer state refers to.
pub open spec fn state_session(state: TimerState) -> SessionKind {
    match state {
        TimerState::Ready(s) | TimerState::Running(s) | TimerState::Paused(s) => s,
    }
}

/// The abstract timer: durations and counts in nanoseconds and sessions.
pub struct TimerModel {
    pub state: TimerState,
    pub focus: nat,
    pub short_break: nat,
    pub long_break: nat,
    pub interval: nat,
    /// Time left in the current session.
    pub remaining: nat,
    /// The full length of the current session when it was installed.
    pub installed: nat,
    pub completed: nat,
}

impl TimerModel {
    /// The configured length of `session`.
    pub open spec fn duration_for(self, session: SessionKind) -> nat {
        match session {
            SessionKind::Focus => self.focus,
            SessionKind::ShortBreak => self.short_break,
            SessionKind::LongBreak => self.long_break,
        }
    }

    /// Elapsed time in the current session.
    pub open spec fn progress(self) -> nat {
        if self.installed >= self.remaining { (self.installed - self.remaining) as nat } else { 0 }
    }

    /// The timer holding `session`, ready, with its full configured length.
    pub open spec fn with_ready(self, session: SessionKind) -> TimerModel {
        TimerModel {
            state: TimerState::Ready(session),
            remaining: self.duration_for(session),
            installed: self.duration_for(session),
            ..self
        }
    }

    pub open spec fn with_state(self, state: TimerState) -> TimerModel {
        TimerModel { state, ..self }
    }

    pub open spec fn pause(self) -> TimerModel {
        match self.state {
            TimerState::Running(s) => self.with_state(TimerState::Paused(s)),
            _ => self,
        }
    }

    pub open spec fn resume(self) -> TimerModel {
        match self.state {
            TimerState::Paused(s) => self.with_state(TimerState::Running(s)),
            _ => self,
        }
    }

    pub open spec fn primary_action(self) -> TimerModel {
        match self.state {
            TimerState::Ready(s) => self.with_state(TimerState::Running(s)),
            TimerState::Running(s) => self.with_state(TimerState::Paused(s)),
            TimerState::Paused(s) => self.with_state(TimerState::Running(s)),
        }
    }

    pub open spec fn select_session(self, session: SessionKind) -> TimerModel {
        match self.state {
            TimerState::Ready(_) => self.with_ready(session),
            _ => self,
        }
    }

    pub open spec fn cycle_ready_session(self) -> TimerModel {
        match self.state {
            TimerState::Ready(s) => self.with_ready(next_session(s)),
            _ => self,
        }
    }

    pub open spec fn start_session(self, session: SessionKind) -> TimerModel {
        match self.state {
            TimerState::Ready(_) => TimerModel {
                state: TimerState::Running(session),
                ..self.with_ready(session)
            },
            _ => self,
        }
    }

    pub open spec fn reset_session(self) -> TimerModel {
        match self.state {
            TimerState::Running(s) | TimerState::Paused(s) => self.with_ready(s),
            TimerState::Ready(_) => self,
        }
    }

    /// The session recommended after the focus session that brings the count to `completed`.
    pub open spec fn recommendation_after_focus(self, completed: nat) -> SessionKind {
        if completed % self.interval == 0 { SessionKind::LongBreak } else { SessionKind::ShortBreak }
    }

    /// The timer after `elapsed` nanoseconds, and the session that completed, if any.
    pub open spec fn tick(self, elapsed: nat) -> (TimerModel, Option<SessionKind>) {
        match self.state {
            TimerState::Running(s) => if elapsed < self.remaining {
                (TimerModel { remaining: (self.remaining - elapsed) as nat, ..self }, None)
            } else {
                match s {
                    SessionKind::Focus => {
                        let completed = if self.completed < u32::MAX { self.completed + 1 } else { self.completed };
                        let counted = TimerModel { completed, ..self };
                        (counted.with_ready(self.recommendation_after_focus(completed)), Some(s))
                    },
                    _ => (self.with_ready(SessionKind::Focus), Some(s)),
                }
            },
            _ => (self, None),
        }
    }

    /// The timer with new configured lengths; a ready session adopts its new length.
    pub open spec fn reconfigure(self, focus: nat, short_break: nat, long_break: nat, interval: nat) -> TimerModel {
        let configured = TimerModel { focus, short_break, long_break, interval, ..self };
        match self.state {
            TimerState::Ready(s) => configured.with_ready(s),
            _ => configured,
        }
    }

    /// The invariant every timer keeps.
    pub open spec fn wf(self) -> bool {
        &&& self.interval > 0
        &&& self.interval <= u32::MAX
        &&& self.completed <= u32::MAX
        &&& self.remaining <= self.installed
    }
}

/// Cycling a ready timer through the three sessions returns to the session it held,
/// installed at its full length.
pub proof fn lemma_cycle_returns_after_three(t: TimerModel)
    requires
        t.state is Ready,
    ensures
        t.cycle_ready_session().cycle_ready_session().cycle_ready_session() == t.with_ready(state_session(t.state)),
{
}

/// Pausing a running timer and resuming it gives back the same timer.
pub proof fn lemma_pause_then_resume(t: TimerModel)
    requires
        t.state is Running,
    ensures
        t.pause().resume() == t,
        t.primary_action().primary_action() == t,
{
}

/// Every transition keeps the timer's invariant: a positive interval, a bounded count,
/// and never more time left than the session was installed with.
pub proof fn lemma_transitions_keep_invariant(t: TimerModel, session: SessionKind, elapsed: nat,
    focus: nat, short_break: nat, long_break: nat, interval: nat)
    requires
        t.wf(),
        0 < interval <= u32::MAX,
    ensures
        t.primary_action().wf(),
        t.pause().wf(),
        t.resume().wf(),
        t.select_session(session).wf(),
        t.cycle_ready_session().wf(),
        t.start_session(session).wf(),
        t.reset_session().wf(),
        t.tick(elapsed).0.wf(),
        t.reconfigure(focus, short_break, long_break, interval).wf(),
{
}

/// Completing a focus session counts it, recommends a long break exactly when the count
/// reaches a multiple of the interval, and a completed break leads back to focus.
pub proof fn lemma_completion_recommendation(t: TimerModel, elapsed: nat)
    requires
        t.wf(),
        t.state is Running,
        elapsed >= t.remaining,
        t.completed < u32::MAX,
    ensures
        t.tick(elapsed).1 == Some(state_session(t.state)),
        state_session(t.state) is Focus ==> t.tick(elapsed).0.completed == t.completed + 1
            && t.tick(elapsed).0.state == TimerState::Ready(
                if (t.completed + 1) % t.interval == 0 { SessionKind::LongBreak } else { SessionKind::ShortBreak }),
        !(state_session(t.state) is Focus) ==> t.tick(elapsed).0.state == TimerState::Ready(SessionKind::Focus)
            && t.tick(elapsed).0.completed == t.completed,
{
}

/// A ready or paused timer does not count down.
pub proof fn lemma_only_running_counts_down(t: TimerModel, elapsed: nat)
    requires
        !(t.state is Running),
    ensures
        t.tick(elapsed) == (t, None::<SessionKind>),
{
}

/// New session lengths leave a running or paused session as it is, with the time it has
/// left and the length it was installed with; a ready timer takes its session's new length.
pub proof fn lemma_reconfigure_keeps_active_session(t: TimerModel, focus: nat, short_break: nat, long_break: nat,
    interval: nat)
    ensures
        ({
            let r = t.reconfigure(focus, short_break, long_break, interval);
            &&& r.state == t.state
            &&& r.completed == t.completed
            &&& !(t.state is Ready) ==> r.remaining == t.remaining && r.installed == t.installed
            &&& t.state is Ready ==> r.remaining == r.duration_for(state_session(t.state)) && r.installed == r.remaining
        }),
{
}

/// The count of completed Focus sessions moves only when a tick completes a Focus session,
/// and then by one (staying at the largest count); every other transition keeps it, so the
/// count never decreases.
pub proof fn lemma_completed_count_moves_only_on_focus_completion(t: TimerModel, session: SessionKind, elapsed: nat,
    focus: nat, short_break: nat, long_break: nat, interval: nat)
    requires
        t.wf(),
    ensures
        t.primary_action().completed == t.completed,
        t.pause().completed == t.completed,
        t.resume().completed == t.completed,
        t.select_session(session).completed == t.completed,
        t.cycle_ready_session().completed == t.completed,
        t.start_session(session).completed == t.completed,
        t.reset_session().completed == t.completed,
        t.reconfigure(focus, short_break, long_break, interval).completed == t.completed,
        t.tick(elapsed).1 == Some(SessionKind::Focus) ==> t.tick(elapsed).0.completed == if t.completed < u32::MAX {
            t.completed + 1
        } else {
            t.completed
        },
        t.tick(elapsed).1 != Some(SessionKind::Focus) ==> t.tick(elapsed).0.completed == t.completed,
        t.tick(elapsed).0.completed >= t.completed,
{
}

/// A Pomodoro timer with three configurable session lengths.
#[derive(Debug, Clone, Copy)]
pub struct PomodoroTimer {
    state: TimerState,
    focus_duration: Duration,
    short_break_duration: Duration,
    long_break_duration: Duration,
    long_break_interval: u32,
    remaining: Duration,
    installed: Duration,
    completed_focus_sessions: u32,
}

impl View for PomodoroTimer {
    type V = TimerModel;

    closed spec fn view(&self) -> TimerModel {
        TimerModel {
            state: self.state,
            focus: self.focus_duration@,
            short_break: self.short_break_duration@,
            long_break: self.long_break_duration@,
            interval: self.long_break_interval as nat,
            remaining: self.remaining@,
            installed: self.installed@,
            completed: self.completed_focus_sessions as nat,
        }
    }
}

impl PomodoroTimer {
    #[verifier::type_invariant]
    spec fn inv(self) -> bool {
        &&& self.long_break_interval > 0
        &&& self.remaining@ <= self.installed@
    }

    /// A timer holding a ready Focus session with nothing completed yet.
    pub fn new(
        focus_duration: Duration,
        short_break_duration: Duration,
        long_break_duration: Duration,
        long_break_interval: u32,
    ) -> (t: PomodoroTimer)
        requires
            long_break_interval > 0,
        ensures
            t@.state == TimerState::Ready(SessionKind::Focus),
            t@.focus == focus_duration@,
            t@.short_break == short_break_duration@,
            t@.long_break == long_break_duration@,
            t@.interval == long_break_interval,
            t@.remaining == focus_duration@,
            t@.installed == focus_duration@,
            t@.completed == 0,
    {
        PomodoroTimer {
            state: TimerState::Ready(SessionKind::Focus),
            focus_duration,
            short_break_duration,
            long_break_duration,
            long_break_interval,
            remaining: focus_duration,
            installed: focus_duration,
            completed_focus_sessions: 0,
        }
    }

    pub fn state(&self) -> (s: TimerState)
        ensures
            s == self@.state,
    {
        self.state
    }

    pub fn remaining(&self) -> (d: Duration)
        ensures
            d@ == self@.remaining,
    {
        self.remaining
    }

    pub fn completed_focus_sessions(&self) -> (n: u32)
        ensures
            n == self@.completed,
    {
        self.completed_focus_sessions
    }

    /// Time already spent in the current session.
    pub fn progress(&self) -> (d: Duration)
        ensures
            d@ == self@.progress(),
    {
        self.installed.saturating_sub(self.remaining)
    }

    fn duration_for(&self, session: SessionKind) -> (d: Duration)
        ensures
            d@ == self@.duration_for(session),
    {
        match session {
            SessionKind::Focus => self.focus_duration,
            SessionKind::ShortBreak => self.short_break_duration,
            SessionKind::LongBreak => self.long_break_duration,
        }
    }

    fn install_ready(&mut self, session: SessionKind)
        ensures
            final(self)@ == old(self)@.with_ready(session),
    {
        proof {
            use_type_invariant(&*self);
        }
        let d = self.duration_for(session);
        *self = PomodoroTimer { state: TimerState::Ready(session), remaining: d, installed: d, ..*self };
    }

    /// Starts a ready session, pauses a running one, resumes a paused one.
    pub fn primary_action(&mut self)
        ensures
            final(self)@ == old(self)@.primary_action(),
    {
        proof {
            use_type_invariant(&*self);
        }
        match self.state {
            TimerState::Ready(s) => self.state = TimerState::Running(s),
            TimerState::Running(s) => self.state = TimerState::Paused(s),
            TimerState::Paused(s) => self.state = TimerState::Running(s),
        }
    }

    /// Moves a ready timer to the next session kind; other states are unchanged.
    pub fn select_next_session(&mut self)
        ensures
            final(self)@ == old(self)@.cycle_ready_session(),
    {
        proof {
            use_type_invariant(&*self);
        }
        self.cycle_ready_session();
    }

    /// Moves a ready timer to the next session kind; other states are unchanged.
    pub fn cycle_ready_session(&mut self)
        ensures
            final(self)@ == old(self)@.cycle_ready_session(),
    {
        proof {
            use_type_invariant(&*self);
        }
        if let TimerState::Ready(s) = self.state {
            self.install_ready(s.next());
        }
    }

    /// Makes `session` the ready session when the timer is ready.
    pub fn select_session(&mut self, session: SessionKind)
        ensures
            final(self)@ == old(self)@.select_session(session),
    {
        proof {
            use_type_invariant(&*self);
        }
        if let TimerState::Ready(_) = self.state {
            self.install_ready(session);
        }
    }

    /// Starts `session` from its full length when the timer is ready.
    pub fn start_session(&mut self, session: SessionKind)
        ensures
            final(self)@ == old(self)@.start_session(session),
    {
        proof {
            use_type_invariant(&*self);
        }
        if let TimerState::Ready(_) = self.state {
            self.install_ready(session);
            self.state = TimerState::Running(session);
        }
    }

    pub fn pause(&mut self)
        ensures
            final(self)@ == old(self)@.pause(),
    {
        proof {
            use_type_invariant(&*self);
        }
        if let TimerState::Running(s) = self.state {
            self.state = TimerState::Paused(s);
        }
    }

    pub fn resume(&mut self)
        ensures
            final(self)@ == old(self)@.resume(),
    {
        proof {
            use_type_invariant(&*self);
        }
        if let TimerState::Paused(s) = self.state {
            self.state = TimerState::Running(s);
        }
    }

    /// Returns a running or paused session to ready with its full length.
    pub fn reset_session(&mut self)
        ensures
            final(self)@ == old(self)@.reset_session(),
    {
        proof {
            use_type_invariant(&*self);
        }
        match self.state {
            TimerState::Running(s) | TimerState::Paused(s) => self.install_ready(s),
            TimerState::Ready(_) => {},
        }
    }

    /// Advances a running session and returns its completion event exactly once.
    pub fn tick(&mut self, elapsed: Duration) -> (completed: Option<SessionKind>)
        ensures
            (final(self)@, completed) == old(self)@.tick(elapsed@),
    {
        proof {
            use_type_invariant(&*self);
        }
        let completed_session = match self.state {
            TimerState::Running(s) => s,
            _ => return None,
        };
        if elapsed.lt(&self.remaining) {
            self.remaining = self.remaining.saturating_sub(elapsed);
            return None;
        }
        let next = match completed_session {
            SessionKind::Focus => {
                if self.completed_focus_sessions < u32::MAX {
                    self.completed_focus_sessions = self.completed_focus_sessions + 1;
                }
                if self.completed_focus_sessions % self.long_break_interval == 0 {
                    SessionKind::LongBreak
                } else {
                    SessionKind::ShortBreak
                }
            },
            SessionKind::ShortBreak | SessionKind::LongBreak => SessionKind::Focus,
        };
        self.install_ready(next);
        Some(completed_session)
    }

    /// Installs new configured lengths; a ready session adopts its new length,
    /// while a running or paused session keeps the length it started with.
    pub fn reconfigure(
        &mut self,
        focus_duration: Duration,
        short_break_duration: Duration,
        long_break_duration: Duration,
        long_break_interval: u32,
    )
        requires
            long_break_interval > 0,
        ensures
            final(self)@ == old(self)@.reconfigure(
                focus_duration@,
                short_break_duration@,
                long_break_duration@,
                long_break_interval as nat,
            ),
    {
        proof {
            use_type_invariant(&*self);
        }
        self.focus_duration = focus_duration;
        self.short_break_duration = short_break_duration;
        self.long_break_duration = long_break_duration;
        self.long_break_interval = long_break_interval;
        if let TimerState::Ready(s) = self.state {
            self.install_ready(s);
        }
    }
}

} // verus!
