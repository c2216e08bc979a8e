//! Runtime application state and terminal-independent state transitions.
pub mod action;
mod dispatch_flow;
pub mod laws;
pub mod model;
mod pointer;
mod settings_flow;
mod task_flow;
mod timer_flow;

use vstd::prelude::*;

use crate::config::keys::KeysConfig;
use crate::config::settings::Config;
use crate::duration::{Duration, Instant};
use crate::settings::SettingsOverlay;
use crate::tasks::TaskList;
use crate::timer::{PomodoroTimer, SessionKind, TimerState};

pub use action::{Action, AppOutcome, Direction, FocusAudioAction, OutcomeModel, ScrollTarget};
pub use crate::settings::{SettingsAdjustmentDirection, SettingsMoveDirection};
pub use model::{
    AppModel, ClickTarget, ConfirmationOperation, EditMode, PendingConfirmation, PriorActivity, SettingsMode,
    TimerChange, UiFocus,
};

verus! {

/// The texts of a list of strings, in order.
pub open spec fn texts(list: Seq<String>) -> Seq<Seq<char>> {
    list.map_values(|s: String| s@)
}

/// A span in nanoseconds as whole seconds rounded up, at most `u64::MAX`.
pub open spec fn whole_seconds_up(nanos: nat) -> u64 {
    let seconds = (nanos + 999_999_999) / 1_000_000_000;
    if seconds <= u64::MAX { seconds as u64 } else { u64::MAX }
}

/// A snapshot of durable task data for persistence adapters.
#[derive(Debug, Clone, PartialEq, Eq)]
pub struct TaskState {
    todo: Vec<String>,
    done: Vec<String>,
}

impl TaskState {
    /// The to-do descriptions, in order.
    pub closed spec fn todo_view(&self) -> Seq<Seq<char>> {
        texts(self.todo@)
    }

    /// The done descriptions, in order.
    pub closed spec fn done_view(&self) -> Seq<Seq<char>> {
        texts(self.done@)
    }

    pub fn from_lists(todo: Vec<String>, done: Vec<String>) -> (s: TaskState)
        ensures
            s.todo_view() == texts(todo@),
            s.done_view() == texts(done@),
    {
        TaskState { todo, done }
    }

    /// A snapshot with no tasks.
    pub fn empty() -> (s: TaskState)
        ensures
            s.todo_view() == Seq::<Seq<char>>::empty(),
            s.done_view() == Seq::<Seq<char>>::empty(),
    {
        let s = TaskState { todo: Vec::new(), done: Vec::new() };
        assert(s.todo_view() =~= Seq::<Seq<char>>::empty());
        assert(s.done_view() =~= Seq::<Seq<char>>::empty());
        s
    }

    pub fn todo(&self) -> (list: &[String])
        ensures
            texts(list@) == self.todo_view(),
    {
        self.todo.as_slice()
    }

    pub fn done(&self) -> (list: &[String])
        ensures
            texts(list@) == self.done_view(),
    {
        self.done.as_slice()
    }
}

impl Default for TaskState {
    fn default() -> (s: TaskState)
        ensures
            s.todo_view().len() == 0,
            s.done_view().len() == 0,
    {
        TaskState::empty()
    }
}

/// Runtime application state and terminal-independent state transitions.
#[derive(Debug)]
pub struct App {
    config: Config,
    timer: PomodoroTimer,
    tasks: TaskList,
    ui_focus: UiFocus,
    last_task_focus: UiFocus,
    todo_selection: usize,
    done_selection: usize,
    todo_offset: usize,
    done_offset: usize,
    edit_mode: EditMode,
    input: String,
    last_click: Option<(ClickTarget, Instant)>,
    pending_confirmation: Option<PendingConfirmation>,
    pending_autostart: Option<(SessionKind, Duration)>,
    completion_audio_active: bool,
    show_task_numbers: bool,
    settings: Option<SettingsOverlay>,
    write_error: Option<(String, Duration)>,
    write_error_log: Vec<String>,
}

impl View for App {
    type V = AppModel;

    closed spec fn view(&self) -> AppModel {
        AppModel {
            config: self.config@,
            timer: self.timer@,
            tasks: self.tasks@,
            ui_focus: self.ui_focus,
            last_task_focus: self.last_task_focus,
            todo_selection: self.todo_selection,
            done_selection: self.done_selection,
            todo_offset: self.todo_offset,
            done_offset: self.done_offset,
            edit_mode: self.edit_mode,
            input: self.input@,
            last_click: match self.last_click {
                Some((t, at)) => Some((t, at@)),
                None => None,
            },
            pending_confirmation: self.pending_confirmation,
            pending_autostart: match self.pending_autostart {
                Some((s, left)) => Some((s, left@)),
                None => None,
            },
            completion_audio_active: self.completion_audio_active,
            show_task_numbers: self.show_task_numbers,
            settings: match self.settings {
                Some(o) => Some(o@),
                None => None,
            },
            write_error: match self.write_error {
                Some((m, left)) => Some((m@, left@)),
                None => None,
            },
            write_error_log: texts(self.write_error_log@),
        }
    }
}

/// The application fresh from `config` and durable task lists: the clock has focus,
/// nothing is selected beyond the first entries, and no prompt, edit or overlay is open.
pub open spec fn initial(app: AppModel, config: crate::config::settings::ConfigSettings,
    todo: Seq<Seq<char>>, done: Seq<Seq<char>>) -> bool {
    let t = config.timer;
    &&& app.config == config
    &&& app.timer.state == TimerState::Ready(SessionKind::Focus)
    &&& app.timer.focus == t.focus_seconds * 1_000_000_000
    &&& app.timer.short_break == t.short_break_seconds * 1_000_000_000
    &&& app.timer.long_break == t.long_break_seconds * 1_000_000_000
    &&& app.timer.interval == t.long_break_interval
    &&& app.timer.remaining == app.timer.focus
    &&& app.timer.installed == app.timer.focus
    &&& app.timer.completed == 0
    &&& app.tasks.pending == todo
    &&& app.tasks.completed == done
    &&& app.ui_focus == UiFocus::Clock
    &&& app.last_task_focus == UiFocus::Todo
    &&& app.todo_selection == 0 && app.done_selection == 0
    &&& app.todo_offset == 0 && app.done_offset == 0
    &&& app.edit_mode == EditMode::Normal
    &&& app.input.len() == 0
    &&& app.last_click is None
    &&& app.pending_confirmation is None
    &&& app.pending_autostart is None
    &&& !app.completion_audio_active
    &&& app.show_task_numbers == config.tasks.show_numbers
    &&& app.settings is None
    &&& app.write_error is None
    &&& app.write_error_log.len() == 0
}

impl App {
    /// Creates an application with the default configuration and no tasks.
    pub fn new() -> (app: App)
        ensures
            initial(app@, app@.config, Seq::empty(), Seq::empty()),
            app@.config.timer == crate::config::timer::TimerConfig::default_spec(),
            app@.config.tasks.show_numbers,
    {
        let config = Config::default();
        App::from_config(&config)
    }

    /// Creates an application using validated configuration and no tasks.
    pub fn from_config(config: &Config) -> (app: App)
        ensures
            initial(app@, config@, Seq::empty(), Seq::empty()),
    {
        App::from_config_and_tasks(config, TaskState::empty())
    }

    /// Creates an application using validated configuration and durable tasks.
    pub fn from_config_and_tasks(config: &Config, task_state: TaskState) -> (app: App)
        ensures
            initial(app@, config@, task_state.todo_view(), task_state.done_view()),
    {
        let timer_config = config.timer();
        let timer = PomodoroTimer::new(
            timer_config.focus_duration(),
            timer_config.short_break_duration(),
            timer_config.long_break_duration(),
            timer_config.long_break_interval(),
        );
        let app = App {
            config: config.duplicate(),
            timer,
            tasks: TaskList::from_descriptions(task_state.todo, task_state.done),
            ui_focus: UiFocus::Clock,
            last_task_focus: UiFocus::Todo,
            todo_selection: 0,
            done_selection: 0,
            todo_offset: 0,
            done_offset: 0,
            edit_mode: EditMode::Normal,
            input: String::new(),
            last_click: None,
            pending_confirmation: None,
            pending_autostart: None,
            completion_audio_active: false,
            show_task_numbers: config.tasks().show_numbers,
            settings: None,
            write_error: None,
            write_error_log: Vec::new(),
        };
        proof {
            assert(app@.write_error_log =~= Seq::empty());
        }
        app
    }

    pub fn timer(&self) -> (t: &PomodoroTimer)
        ensures
            t@ == self@.timer,
    {
        &self.timer
    }

    pub fn tasks(&self) -> (t: &TaskList)
        ensures
            t@ == self@.tasks,
    {
        &self.tasks
    }

    /// The configuration in force.
    pub fn config(&self) -> (c: &Config)
        ensures
            c@ == self@.config,
    {
        &self.config
    }

    /// Captures the independently ordered to-do and done lists for persistence.
    pub fn task_state(&self) -> (s: TaskState)
        ensures
            s.todo_view() == self@.tasks.pending,
            s.done_view() == self@.tasks.completed,
    {
        let (todo, done) = self.tasks.to_descriptions();
        TaskState::from_lists(todo, done)
    }

    /// Applies a semantic action without depending on its physical key mapping.
    pub fn dispatch(&mut self, action: Action) -> (outcome: AppOutcome)
        ensures
            model::dispatched(old(self)@, action, final(self)@, outcome@),
    {
        if self.pending_confirmation.is_some() {
            self.confirmation_step(action)
        } else if self.settings.is_some() {
            self.dispatch_settings(action)
        } else {
            self.main_step(action)
        }
    }

    /// Returns the area that receives contextual semantic actions.
    pub fn ui_focus(&self) -> (f: UiFocus)
        ensures
            f == self@.ui_focus,
    {
        self.ui_focus
    }

    /// Returns the task panel most recently focused by the user.
    pub fn last_task_focus(&self) -> (f: UiFocus)
        ensures
            f == self@.last_task_focus,
    {
        self.last_task_focus
    }

    /// Returns the current text-entry context.
    pub fn edit_mode(&self) -> (m: EditMode)
        ensures
            m == self@.edit_mode,
    {
        self.edit_mode
    }

    /// Reports whether a confirmation owns keyboard and mouse input.
    pub fn is_confirmation_open(&self) -> (b: bool)
        ensures
            b == self@.pending_confirmation is Some,
    {
        self.pending_confirmation.is_some()
    }

    pub fn is_settings_open(&self) -> (b: bool)
        ensures
            b == self@.settings is Some,
    {
        self.settings.is_some()
    }

    /// Returns the recommended session and its countdown in whole seconds, rounded up,
    /// while autostart is pending.
    pub fn pending_autostart(&self) -> (p: Option<(SessionKind, u64)>)
        ensures
            match self@.pending_autostart {
                Some((s, left)) => p == Some((s, whole_seconds_up(left))),
                None => p is None,
            },
    {
        match self.pending_autostart {
            Some((session, remaining)) => {
                let seconds = remaining.as_secs();
                let rounded_up = if remaining.subsec_nanos() > 0 && seconds < u64::MAX { seconds + 1 } else { seconds };
                proof {
                    assert(remaining@ == seconds * 1_000_000_000 + remaining@ % 1_000_000_000);
                }
                Some((session, rounded_up))
            },
            None => None,
        }
    }

    /// Reports whether Focus is actively counting down.
    pub fn is_focus_running(&self) -> (b: bool)
        ensures
            b == (self@.timer.state == TimerState::Running(SessionKind::Focus)),
    {
        self.timer.state() == TimerState::Running(SessionKind::Focus)
    }

    pub fn settings_mode(&self) -> (m: SettingsMode)
        ensures
            m == match self@.settings {
                None => SettingsMode::Closed,
                Some(o) => if o.input is Some {
                    SettingsMode::EditingValue
                } else if o.capturing {
                    SettingsMode::CapturingKey
                } else {
                    SettingsMode::Navigating
                },
            },
    {
        match &self.settings {
            None => SettingsMode::Closed,
            Some(settings) => if settings.input().is_some() {
                SettingsMode::EditingValue
            } else if settings.is_capturing_key() {
                SettingsMode::CapturingKey
            } else {
                SettingsMode::Navigating
            },
        }
    }

    pub fn settings(&self) -> (s: Option<&SettingsOverlay>)
        ensures
            match s {
                Some(o) => self@.settings == Some(o@),
                None => self@.settings is None,
            },
    {
        match &self.settings {
            Some(o) => Some(o),
            None => None,
        }
    }

    /// Scrolls the settings rows, if the overlay is open.
    pub fn set_settings_offset(&mut self, offset: usize)
        ensures
            final(self)@ == (AppModel {
                settings: match old(self)@.settings {
                    Some(o) => Some(crate::settings::OverlayModel { offset: offset as nat, ..o }),
                    None => None,
                },
                ..old(self)@
            }),
    {
        match &mut self.settings {
            Some(settings) => settings.set_offset(offset),
            None => {},
        }
    }

    /// Returns the active keys, including changes accepted in the settings overlay.
    pub fn input_keys(&self) -> (k: &KeysConfig)
        ensures
            k@ == match self@.settings {
                Some(o) => o.config.keys,
                None => self@.config.keys,
            },
    {
        match &self.settings {
            Some(settings) => settings.config().keys(),
            None => self.config.keys(),
        }
    }

    pub fn pending_confirmation(&self) -> (op: Option<ConfirmationOperation>)
        ensures
            match self@.pending_confirmation {
                Some(p) => op == Some(p.operation),
                None => op is None,
            },
    {
        match self.pending_confirmation {
            Some(p) => Some(p.operation),
            None => None,
        }
    }

    /// The text being entered.
    pub fn input(&self) -> (s: &str)
        ensures
            s@ == self@.input,
    {
        self.input.as_str()
    }

    pub fn todo_selection(&self) -> (i: usize)
        ensures
            i == self@.todo_selection,
    {
        self.todo_selection
    }

    pub fn done_selection(&self) -> (i: usize)
        ensures
            i == self@.done_selection,
    {
        self.done_selection
    }

    pub fn todo_offset(&self) -> (i: usize)
        ensures
            i == self@.todo_offset,
    {
        self.todo_offset
    }

    pub fn done_offset(&self) -> (i: usize)
        ensures
            i == self@.done_offset,
    {
        self.done_offset
    }

    /// Records how far the task lists are scrolled.
    pub fn set_offsets(&mut self, todo_offset: usize, done_offset: usize)
        ensures
            final(self)@ == (AppModel { todo_offset, done_offset, ..old(self)@ }),
    {
        self.todo_offset = todo_offset;
        self.done_offset = done_offset;
    }

    pub fn show_task_numbers(&self) -> (b: bool)
        ensures
            b == self@.show_task_numbers,
    {
        self.show_task_numbers
    }

    /// Shows a task write failure for three seconds and logs its detail.
    pub fn report_task_write_error(&mut self, message: String, detail: String)
        ensures
            final(self)@ == (AppModel {
                write_error: Some((message@, crate::settings::write_error_lifetime())),
                write_error_log: old(self)@.write_error_log.push(detail@),
                ..old(self)@
            }),
    {
        self.write_error = Some((message, Duration::from_secs(3)));
        self.log_write_error(detail);
    }

    /// Shows a configuration write failure for three seconds, in the settings overlay when
    /// it is open, and logs its detail.
    pub fn report_config_write_error(&mut self, message: String, detail: String)
        ensures
            match old(self)@.settings {
                Some(o) => final(self)@ == (AppModel {
                    settings: Some(crate::settings::OverlayModel {
                        write_error: Some((message@, crate::settings::write_error_lifetime())),
                        ..o
                    }),
                    write_error_log: old(self)@.write_error_log.push(detail@),
                    ..old(self)@
                }),
                None => final(self)@ == (AppModel {
                    write_error: Some((message@, crate::settings::write_error_lifetime())),
                    write_error_log: old(self)@.write_error_log.push(detail@),
                    ..old(self)@
                }),
            },
    {
        match &mut self.settings {
            Some(settings) => settings.report_write_error(message),
            None => {
                self.write_error = Some((message, Duration::from_secs(3)));
            },
        }
        self.log_write_error(detail);
    }

    fn log_write_error(&mut self, detail: String)
        ensures
            final(self)@ == (AppModel { write_error_log: old(self)@.write_error_log.push(detail@), ..old(self)@ }),
    {
        self.write_error_log.push(detail);
        proof {
            assert(texts(self.write_error_log@) =~= old(self)@.write_error_log.push(detail@));
        }
    }

    /// The task write failure on screen, if any.
    pub fn task_write_error(&self) -> (s: Option<&str>)
        ensures
            match s {
                Some(t) => self@.write_error matches Some((m, _)) && m == t@,
                None => self@.write_error is None,
            },
    {
        match &self.write_error {
            Some((m, _)) => Some(m.as_str()),
            None => None,
        }
    }

    /// Every write failure detail reported so far, oldest first.
    pub fn write_error_log(&self) -> (log: &[String])
        ensures
            texts(log@) == self@.write_error_log,
    {
        self.write_error_log.as_slice()
    }
}

impl Default for App {
    fn default() -> (app: App)
        ensures
            initial(app@, app@.config, Seq::empty(), Seq::empty()),
    {
        App::new()
    }
}

} // verus!
