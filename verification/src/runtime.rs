//! Decisions of the event loop that drives the application.
use vstd::prelude::*;

use crate::app::model::{clicked, dispatched, ticked};
use crate::app::{Action, App, AppOutcome, Direction, OutcomeModel};
use crate::duration::{Duration, Instant};
use crate::persistence::{config_error_text, task_error_text, ConfigError, TaskPersistenceError};
use crate::text::{owned, push_str};
use crate::ui::{click_target, click_target_of, scroll_target, scroll_target_of, FrameGeometry};

verus! {

/// How a terminal reports a key.
#[derive(Debug, Clone, Copy, PartialEq, Eq, Structural)]
pub enum KeyEventKind {
    Press,
    Repeat,
    Release,
}

/// Whether a key event is handled: presses and repeats are, releases are not.
pub fn should_handle_key_event(kind: KeyEventKind) -> (b: bool)
    ensures
        b == !(kind is Release),
{
    kind != KeyEventKind::Release
}

/// The time from `earlier` to `now` in nanoseconds, or zero when `now` is earlier.
pub open spec fn elapsed_between(earlier: nat, now: nat) -> nat {
    if earlier <= now { (now - earlier) as nat } else { 0 }
}

/// Lets the time since the last tick pass for the application and records `now` as the
/// last tick, so that time is charged exactly once.
pub fn advance_timer(app: &mut App, last_tick: &mut Instant, now: Instant) -> (outcome: AppOutcome)
    ensures
        (final(app)@, outcome@) == ticked(old(app)@, elapsed_between(old(last_tick)@, now@)),
        final(last_tick)@ == now@,
{
    let elapsed = match now.checked_duration_since(*last_tick) {
        Some(elapsed) => elapsed,
        None => Duration::zero(),
    };
    *last_tick = now;
    app.tick(elapsed)
}

/// What a mouse event is, as far as the application reads it.
#[derive(Debug, Clone, Copy, PartialEq, Eq, Structural)]
pub enum MouseKind {
    LeftPress,
    ScrollUp,
    ScrollDown,
    Other,
}

/// The target that a left press at `position` clicks in the last rendered frame.
pub open spec fn pressed_target(geometry: FrameGeometry, position: (u16, u16), m: crate::app::model::AppModel) -> crate::app::ClickTarget {
    click_target_of(geometry, position.0, position.1,
        match m.settings { Some(o) => Some(o.offset), None => None },
        m.todo_offset, m.tasks.pending.len() as usize, m.done_offset, m.tasks.completed.len() as usize)
}

/// Handles a mouse event at `position` of the last rendered frame: a left press clicks
/// what lies there, a wheel scrolls the list under it one row, and anything else, or a
/// wheel away from every list, does nothing.
pub fn handle_mouse(app: &mut App, kind: MouseKind, position: (u16, u16), geometry: &FrameGeometry, now: Instant) -> (outcome: AppOutcome)
    ensures
        kind is LeftPress ==> clicked(old(app)@, pressed_target(*geometry, position, old(app)@), now@, final(app)@,
            outcome@),
        kind is ScrollUp || kind is ScrollDown ==> match scroll_target_of(*geometry, position.0, position.1,
            old(app)@.settings is Some) {
            Some(target) => dispatched(old(app)@, Action::Scroll(target, if kind is ScrollUp { Direction::Up } else {
                Direction::Down }), final(app)@, outcome@),
            None => final(app)@ == old(app)@ && outcome@ == OutcomeModel::NoEffect,
        },
        kind is Other ==> final(app)@ == old(app)@ && outcome@ == OutcomeModel::NoEffect,
{
    match kind {
        MouseKind::LeftPress => {
            let target = click_target(geometry, position, app);
            app.handle_click_target(target, now)
        },
        MouseKind::ScrollUp | MouseKind::ScrollDown => {
            match scroll_target(geometry, position, app) {
                Some(target) => {
                    let direction = if kind == MouseKind::ScrollUp { Direction::Up } else { Direction::Down };
                    app.dispatch(Action::Scroll(target, direction))
                },
                None => AppOutcome::NoEffect,
            }
        },
        MouseKind::Other => AppOutcome::NoEffect,
    }
}

/// Why the program stopped with an error.
#[derive(Debug)]
pub enum RunError {
    /// The terminal failed, with the text of the failure.
    Terminal(String),
    Config(ConfigError),
    TaskPersistence(TaskPersistenceError),
    /// The run failed and restoring the terminal afterwards failed too.
    TerminalRestoration { run: Box<RunError>, restore: String },
}

/// The message of a run failure.
pub open spec fn run_error_text(e: RunError) -> Seq<char>
    decreases e,
{
    match e {
        RunError::Terminal(text) => text@,
        RunError::Config(c) => config_error_text(c),
        RunError::TaskPersistence(t) => task_error_text(t),
        RunError::TerminalRestoration { run, restore } => run_error_text(*run) + "; terminal restoration also failed: "@
            + restore@,
    }
}

impl RunError {
    /// The human-readable message of this failure.
    pub fn message(&self) -> (s: String)
        ensures
            s@ == run_error_text(*self),
        decreases self,
    {
        match self {
            RunError::Terminal(text) => owned(text.as_str()),
            RunError::Config(c) => c.message(),
            RunError::TaskPersistence(t) => t.message(),
            RunError::TerminalRestoration { run, restore } => {
                let mut s = run.message();
                push_str(&mut s, "; terminal restoration also failed: ");
                push_str(&mut s, restore.as_str());
                s
            },
        }
    }
}

/// The result of a run together with restoring the terminal after it: a failed run keeps
/// its error, a failed restoration after a good run is the error, and when both fail both
/// are reported.
pub fn combine_run_and_restore_results<T>(run_result: Result<T, RunError>, restore_result: Result<(), String>) -> (r:
    Result<T, RunError>)
    ensures
        match (run_result, restore_result) {
            (Ok(v), Ok(())) => r matches Ok(w) && w == v,
            (Err(e), Ok(())) => r matches Err(f) && f == e,
            (Ok(_), Err(text)) => r matches Err(f) && f == RunError::Terminal(text),
            (Err(e), Err(text)) => r matches Err(f) && f == (RunError::TerminalRestoration {
                run: Box::new(e),
                restore: text,
            }),
        },
{
    match (run_result, restore_result) {
        (Ok(value), Ok(())) => Ok(value),
        (Err(error), Ok(())) => Err(error),
        (Ok(_), Err(text)) => Err(RunError::Terminal(text)),
        (Err(run), Err(restore)) => Err(RunError::TerminalRestoration { run: Box::new(run), restore }),
    }
}

} // verus!
