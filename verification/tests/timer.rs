use pomock::timer::{PomodoroTimer, SessionKind, TimerState};
use pomock::Duration;


fn focus() -> Duration {
    Duration::from_secs(25 * 60)
}

fn short_break() -> Duration {
    Duration::from_secs(5 * 60)
}

fn long_break() -> Duration {
    Duration::from_secs(15 * 60)
}

fn timer() -> PomodoroTimer {
    PomodoroTimer::new(focus(), short_break(), long_break(), 4)
}

fn complete(timer: &mut PomodoroTimer, session: SessionKind) {
    timer.start_session(session);
    let duration = timer.remaining();
    assert_eq!(timer.tick(duration), Some(session));
}

#[test]
fn new_timer_starts_with_focus_ready() {
    let timer = timer();

    assert_eq!(timer.state(), TimerState::Ready(SessionKind::Focus));
    assert_eq!(timer.remaining(), focus());
    assert_eq!(timer.completed_focus_sessions(), 0);
}

#[test]
fn primary_action_transitions_ready_running_paused_and_running_for_every_kind() {
    for (session, selections, duration) in [
        (SessionKind::Focus, 0, focus()),
        (SessionKind::ShortBreak, 1, short_break()),
        (SessionKind::LongBreak, 2, long_break()),
    ] {
        let mut timer = timer();
        for _ in 0..selections {
            timer.select_next_session();
        }

        timer.primary_action();
        assert_eq!(timer.state(), TimerState::Running(session));
        timer.tick(Duration::from_secs(1));

        timer.primary_action();
        assert_eq!(timer.state(), TimerState::Paused(session));
        assert_eq!(timer.remaining(), duration.saturating_sub(Duration::from_secs(1)));

        timer.primary_action();
        assert_eq!(timer.state(), TimerState::Running(session));
        assert_eq!(timer.remaining(), duration.saturating_sub(Duration::from_secs(1)));
    }
}

#[test]
fn ready_selection_cycles_all_session_kinds_without_starting() {
    let mut timer = timer();

    timer.select_next_session();
    assert_eq!(timer.state(), TimerState::Ready(SessionKind::ShortBreak));
    assert_eq!(timer.remaining(), short_break());
    timer.select_next_session();
    assert_eq!(timer.state(), TimerState::Ready(SessionKind::LongBreak));
    assert_eq!(timer.remaining(), long_break());
    timer.select_next_session();
    assert_eq!(timer.state(), TimerState::Ready(SessionKind::Focus));
    assert_eq!(timer.remaining(), focus());
}

#[test]
fn selection_does_nothing_while_running_or_paused() {
    let mut timer = timer();
    timer.primary_action();

    timer.select_next_session();
    assert_eq!(timer.state(), TimerState::Running(SessionKind::Focus));
    timer.primary_action();

    timer.select_next_session();
    assert_eq!(timer.state(), TimerState::Paused(SessionKind::Focus));
}

#[test]
fn explicit_session_controls_start_only_from_ready() {
    let mut timer = timer();

    timer.start_session(SessionKind::LongBreak);
    assert_eq!(timer.state(), TimerState::Running(SessionKind::LongBreak));
    assert_eq!(timer.remaining(), long_break());

    timer.start_session(SessionKind::ShortBreak);
    assert_eq!(timer.state(), TimerState::Running(SessionKind::LongBreak));
    timer.primary_action();
    timer.start_session(SessionKind::Focus);
    assert_eq!(timer.state(), TimerState::Paused(SessionKind::LongBreak));
}

#[test]
fn explicit_session_selection_changes_only_a_ready_timer() {
    let mut timer = timer();

    timer.select_session(SessionKind::LongBreak);
    assert_eq!(timer.state(), TimerState::Ready(SessionKind::LongBreak));
    assert_eq!(timer.remaining(), long_break());

    timer.primary_action();
    timer.select_session(SessionKind::ShortBreak);
    assert_eq!(timer.state(), TimerState::Running(SessionKind::LongBreak));

    timer.primary_action();
    timer.select_session(SessionKind::Focus);
    assert_eq!(timer.state(), TimerState::Paused(SessionKind::LongBreak));
}

#[test]
fn tick_only_reduces_running_sessions() {
    let mut timer = timer();

    assert_eq!(timer.tick(Duration::from_secs(60)), None);
    assert_eq!(timer.remaining(), focus());
    timer.primary_action();
    assert_eq!(timer.tick(Duration::from_secs(60)), None);
    assert_eq!(timer.remaining(), Duration::from_secs(24 * 60));
    timer.primary_action();
    assert_eq!(timer.tick(Duration::from_secs(60)), None);
    assert_eq!(timer.remaining(), Duration::from_secs(24 * 60));
}

#[test]
fn completion_is_an_event_and_immediately_prepares_the_next_session() {
    let mut timer = timer();
    timer.primary_action();

    assert_eq!(timer.tick(focus()), Some(SessionKind::Focus));
    assert_eq!(timer.state(), TimerState::Ready(SessionKind::ShortBreak));
    assert_eq!(timer.remaining(), short_break());
    assert_eq!(timer.tick(Duration::from_secs(1)), None);
    assert_eq!(timer.completed_focus_sessions(), 1);
}

#[test]
fn focus_recommendations_cover_before_at_and_after_modulo_boundary() {
    let mut timer = timer();

    for completed in 1..=5 {
        complete(&mut timer, SessionKind::Focus);
        let recommendation = if completed == 4 {
            SessionKind::LongBreak
        } else {
            SessionKind::ShortBreak
        };
        assert_eq!(timer.state(), TimerState::Ready(recommendation));
        assert_eq!(timer.completed_focus_sessions(), completed);
    }
}

#[test]
fn manual_overrides_do_not_shift_focus_recommendations() {
    let mut timer = timer();

    for _ in 0..3 {
        complete(&mut timer, SessionKind::Focus);
        timer.select_next_session();
        timer.select_next_session();
    }
    assert_eq!(timer.completed_focus_sessions(), 3);

    complete(&mut timer, SessionKind::Focus);
    assert_eq!(timer.state(), TimerState::Ready(SessionKind::LongBreak));
}

#[test]
fn both_break_kinds_complete_back_to_focus_without_changing_count() {
    for session in [SessionKind::ShortBreak, SessionKind::LongBreak] {
        let mut timer = timer();

        complete(&mut timer, session);

        assert_eq!(timer.state(), TimerState::Ready(SessionKind::Focus));
        assert_eq!(timer.remaining(), focus());
        assert_eq!(timer.completed_focus_sessions(), 0);
    }
}

#[test]
fn reset_restores_full_duration_for_running_and_paused_sessions() {
    for pause_first in [false, true] {
        let mut timer = timer();
        timer.start_session(SessionKind::LongBreak);
        timer.tick(Duration::from_secs(60));
        if pause_first {
            timer.pause();
        }

        timer.reset_session();

        assert_eq!(timer.state(), TimerState::Ready(SessionKind::LongBreak));
        assert_eq!(timer.remaining(), long_break());
        assert_eq!(timer.progress(), Duration::zero());
    }
}

#[test]
fn reset_and_selection_do_not_change_completed_focus_count() {
    let mut timer = timer();
    timer.primary_action();
    timer.tick(Duration::from_secs(10));
    timer.reset_session();
    timer.select_next_session();

    assert_eq!(timer.completed_focus_sessions(), 0);
}

#[test]
fn reset_does_nothing_to_a_ready_session() {
    let mut timer = timer();
    timer.select_next_session();

    timer.reset_session();

    assert_eq!(timer.state(), TimerState::Ready(SessionKind::ShortBreak));
    assert_eq!(timer.remaining(), short_break());
}
