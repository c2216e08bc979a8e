use pomock::app::{Action, App, AppOutcome, FocusAudioAction};
use pomock::app::UiFocus;
use pomock::runtime::{
    advance_timer, combine_run_and_restore_results, handle_mouse, should_handle_key_event, KeyEventKind, MouseKind,
    RunError,
};
use pomock::ui::{ClockGeometry, FrameGeometry, Rect};
use pomock::{Duration, Instant, SessionKind};

fn after(at: Instant, span: Duration) -> Instant {
    at.checked_add(span).unwrap()
}

#[test]
fn tests_key_releases_are_ignored_while_presses_and_repeats_are_handled() {
    assert!(should_handle_key_event(KeyEventKind::Press));
    assert!(should_handle_key_event(KeyEventKind::Repeat));
    assert!(!should_handle_key_event(KeyEventKind::Release));
}

#[test]
fn tests_ready_time_before_start_is_not_charged_to_the_running_session() {
    let mut app = App::new();
    let start = Instant::from_duration(Duration::from_secs(1_000));
    let mut last_tick = start;
    let key_time = after(start, Duration::from_millis(80));

    assert_eq!(
        advance_timer(&mut app, &mut last_tick, key_time),
        AppOutcome::NoEffect
    );
    assert_eq!(
        app.dispatch(Action::PrimaryAction),
        AppOutcome::FocusAudio(FocusAudioAction::StartOrResume)
    );

    assert_eq!(
        advance_timer(
            &mut app,
            &mut last_tick,
            after(key_time, Duration::from_secs(25 * 60).saturating_sub(Duration::from_millis(1))),
        ),
        AppOutcome::NoEffect
    );
    assert_eq!(
        advance_timer(
            &mut app,
            &mut last_tick,
            after(key_time, Duration::from_secs(25 * 60)),
        ),
        AppOutcome::SessionCompleted(SessionKind::Focus)
    );
}

fn mouse_layout() -> FrameGeometry {
    FrameGeometry {
        clock: Some(ClockGeometry {
            area: Rect::new(1, 1, 78, 10),
            focus_control: Rect::new(10, 8, 10, 1),
            short_break_control: Rect::new(30, 8, 10, 1),
            long_break_control: Rect::new(50, 8, 10, 1),
        }),
        todo: Some(Rect::new(1, 11, 39, 10)),
        done: Some(Rect::new(40, 11, 39, 10)),
        settings_list: None,
    }
}

fn add_todo(app: &mut App, text: &str) {
    let _ = app.dispatch(Action::BeginAdd);
    for character in text.chars() {
        let _ = app.dispatch(Action::PushInput(character));
    }
    let _ = app.dispatch(Action::SubmitEdit);
}

#[test]
fn mouse_presses_click_and_wheels_scroll_the_list_under_them() {
    let mut app = App::new();
    let now = Instant::from_duration(Duration::from_secs(10));
    let layout = mouse_layout();

    let outcome = handle_mouse(&mut app, MouseKind::LeftPress, (5, 12), &layout, now);
    assert_eq!(outcome, AppOutcome::NoEffect);
    assert_eq!(app.ui_focus(), UiFocus::Todo);

    add_todo(&mut app, "one");
    add_todo(&mut app, "two");
    let outcome = handle_mouse(&mut app, MouseKind::ScrollDown, (5, 13), &layout, now);
    assert_eq!(outcome, AppOutcome::NoEffect);
    assert_eq!(app.todo_selection(), 1);
    let _ = handle_mouse(&mut app, MouseKind::ScrollUp, (5, 13), &layout, now);
    assert_eq!(app.todo_selection(), 0);

    let _ = handle_mouse(&mut app, MouseKind::ScrollDown, (5, 30), &layout, now);
    assert_eq!(app.todo_selection(), 0);
    let _ = handle_mouse(&mut app, MouseKind::Other, (50, 12), &layout, now);
    assert_eq!(app.ui_focus(), UiFocus::Todo);
}

#[test]
fn tests_run_error_is_preserved_when_restoration_succeeds() {
    let error = combine_run_and_restore_results::<()>(Err(RunError::Terminal("run failed".to_string())), Ok(()))
        .unwrap_err();

    assert!(matches!(error, RunError::Terminal(ref text) if text == "run failed"));
    assert_eq!(error.message(), "run failed");
}

#[test]
fn tests_restoration_error_is_reported_after_a_successful_run() {
    let error = combine_run_and_restore_results(Ok(()), Err("restore failed".to_string())).unwrap_err();

    assert!(matches!(error, RunError::Terminal(_)));
    assert_eq!(error.message(), "restore failed");
}

#[test]
fn tests_simultaneous_run_and_restoration_errors_are_both_reported() {
    let error = combine_run_and_restore_results::<()>(
        Err(RunError::Terminal("run failed".to_string())),
        Err("restore failed".to_string()),
    )
    .unwrap_err();

    assert!(matches!(error, RunError::TerminalRestoration { .. }));
    assert_eq!(error.message(), "run failed; terminal restoration also failed: restore failed");
}

#[test]
fn a_good_run_with_a_good_restoration_keeps_its_result() {
    let result = combine_run_and_restore_results(Ok(vec!["log".to_string()]), Ok(()));
    assert_eq!(result.unwrap(), vec!["log".to_string()]);
}
