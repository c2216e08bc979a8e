//! The settings overlay: a navigable, editable copy of the configuration.
pub mod field;

use vstd::prelude::*;

use crate::config::error::{error_message, ConfigValidationError};
use crate::config::keys::{action_index, bindings_error, ConfigKey};
use crate::config::settings::{Config, ConfigSettings};
use crate::config::sound::{opt_text, sound_resolved, SoundConfigSettings, SoundFile, SoundSettings};
use crate::config::theme::{color_text, cycled, parse_color_text, color_error_text, ThemeColor};
use crate::config::timer::{duration_text_seconds, timer_error, TimerSettings};
use crate::config::basic::{NotificationConfig, TasksConfig};
use crate::duration::Duration;
use crate::text::{all_digits, clock_text, decimal, digits_value, pop_char, push_char};
use field::{field_at, is_duration_field, is_text_field, SettingField, FIELD_COUNT};

verus! {

/// A step of the selection through the rows.
#[derive(Debug, Clone, Copy, PartialEq, Eq, Structural)]
pub enum SettingsMoveDirection {
    Up,
    Down,
}

/// The direction a value is adjusted in.
#[derive(Debug, Clone, Copy, PartialEq, Eq, Structural)]
pub enum SettingsAdjustmentDirection {
    Backward,
    Forward,
}

/// How long a write failure stays on screen, in nanoseconds.
pub open spec fn write_error_lifetime() -> nat {
    3_000_000_000
}

/// The abstract overlay.
pub struct OverlayModel {
    pub config: ConfigSettings,
    pub selection: nat,
    pub input: Option<Seq<char>>,
    pub capturing: bool,
    pub error: Option<Seq<char>>,
    pub write_error: Option<(Seq<char>, nat)>,
    pub offset: nat,
}

/// The result of a configuration change, as an overlay would apply it.
pub enum ConfigChange {
    Accepted(ConfigSettings),
    Rejected(ConfigValidationError),
}

impl OverlayModel {
    /// Whether a value edit or key capture holds the selection.
    pub open spec fn locked(self) -> bool {
        self.input is Some || self.capturing
    }

    pub open spec fn field(self) -> SettingField {
        field_at(self.selection as int)
    }

    /// The overlay after a configuration change: accepted changes replace the
    /// configuration and clear the error; rejected ones keep it and show why.
    pub open spec fn applied(self, change: ConfigChange) -> OverlayModel {
        match change {
            ConfigChange::Accepted(c) => OverlayModel { config: c, error: None, ..self },
            ConfigChange::Rejected(e) => OverlayModel { error: Some(error_message(e)), ..self },
        }
    }

    pub open spec fn select(self, i: nat) -> OverlayModel {
        if self.locked() {
            self
        } else {
            OverlayModel { selection: if i < 36 { i } else { 36 }, error: None, ..self }
        }
    }

    pub open spec fn move_selection(self, direction: SettingsMoveDirection) -> OverlayModel {
        if self.locked() {
            self
        } else {
            let selection = match direction {
                SettingsMoveDirection::Down => if self.selection < 36 { self.selection + 1 } else { 36 },
                SettingsMoveDirection::Up => if self.selection > 0 { (self.selection - 1) as nat } else { 0 },
            };
            OverlayModel { selection, error: None, ..self }
        }
    }

    pub open spec fn push_input(self, c: char) -> OverlayModel {
        match self.input {
            Some(s) => OverlayModel { input: Some(s.push(c)), ..self },
            None => self,
        }
    }

    pub open spec fn pop_input(self) -> OverlayModel {
        match self.input {
            Some(s) => OverlayModel { input: Some(if s.len() > 0 { s.drop_last() } else { s }), ..self },
            None => self,
        }
    }

    pub open spec fn cancel_nested(self) -> (OverlayModel, bool) {
        if self.input is Some || self.capturing || self.error is Some {
            (OverlayModel { input: None, capturing: false, error: None, ..self }, true)
        } else {
            (self, false)
        }
    }
}

/// The configuration with new task settings.
pub open spec fn tasks_change(c: ConfigSettings, tasks: TasksConfig) -> ConfigChange {
    ConfigChange::Accepted(ConfigSettings { tasks, ..c })
}

/// The configuration with new timer settings, if they are valid.
pub open spec fn timer_change(c: ConfigSettings, t: TimerSettings) -> ConfigChange {
    match timer_error(t.focus_seconds, t.short_break_seconds, t.long_break_seconds, t.long_break_interval) {
        Some(e) => ConfigChange::Rejected(e),
        None => ConfigChange::Accepted(ConfigSettings { timer: t, ..c }),
    }
}

/// The change an interval text asks for: a whole number that fits `u32`, then the timer rules.
pub open spec fn interval_change(c: ConfigSettings, text: Seq<char>) -> ConfigChange {
    if text.len() == 0 || !all_digits(text) {
        ConfigChange::Rejected(ConfigValidationError::InvalidPositiveInteger { field: "long_break_interval" })
    } else if digits_value(text) > u32::MAX {
        ConfigChange::Rejected(ConfigValidationError::IntegerOverflow { field: "long_break_interval" })
    } else {
        timer_change(c, TimerSettings { long_break_interval: digits_value(text), ..c.timer })
    }
}

/// The configuration field name of a duration row.
pub open spec fn duration_field_name(f: SettingField) -> &'static str {
    match f {
        SettingField::FocusDuration => "focus_duration",
        SettingField::ShortBreakDuration => "short_break_duration",
        _ => "long_break_duration",
    }
}

/// The timer with the length of duration row `f` set to `seconds`.
pub open spec fn with_length(t: TimerSettings, f: SettingField, seconds: nat) -> TimerSettings {
    match f {
        SettingField::FocusDuration => TimerSettings { focus_seconds: seconds, ..t },
        SettingField::ShortBreakDuration => TimerSettings { short_break_seconds: seconds, ..t },
        _ => TimerSettings { long_break_seconds: seconds, ..t },
    }
}

/// The length of duration row `f`.
pub open spec fn length_of(t: TimerSettings, f: SettingField) -> nat {
    match f {
        SettingField::FocusDuration => t.focus_seconds,
        SettingField::ShortBreakDuration => t.short_break_seconds,
        _ => t.long_break_seconds,
    }
}

/// The change a duration text asks for: `MM:SS`, then the timer rules.
pub open spec fn duration_change(c: ConfigSettings, f: SettingField, text: Seq<char>) -> ConfigChange {
    match duration_text_seconds(text) {
        None => ConfigChange::Rejected(ConfigValidationError::InvalidDuration { field: duration_field_name(f) }),
        Some(secs) => if secs > u64::MAX {
            ConfigChange::Rejected(ConfigValidationError::DurationOverflow { field: duration_field_name(f) })
        } else {
            timer_change(c, with_length(c.timer, f, secs))
        },
    }
}

/// The change of a color text.
pub open spec fn color_change(c: ConfigSettings, role: crate::config::theme::ThemeRole, text: Seq<char>) -> Option<ConfigSettings> {
    match parse_color_text(text) {
        Some(color) => Some(ConfigSettings { theme: c.theme.recolored(role, color), ..c }),
        None => None,
    }
}

/// Whether `change` is a configuration whose sounds are `requested`, resolved, or the
/// first rejection while resolving them.
pub open spec fn sound_change(c: ConfigSettings, requested: SoundConfigSettings, change: ConfigChange) -> bool {
    match change {
        ConfigChange::Accepted(n) => n.timer == c.timer && n.tasks == c.tasks && n.theme == c.theme && n.keys == c.keys
            && n.notification == c.notification && sound_resolved(requested, n.sound, Ok(())),
        ConfigChange::Rejected(e) => exists|after: SoundConfigSettings| sound_resolved(requested, after, Err(e)),
    }
}

/// The change of a key capture.
pub open spec fn key_change(c: ConfigSettings, action: crate::config::keys::KeyAction, key: ConfigKey) -> ConfigChange {
    match bindings_error(c.keys.update(action_index(action), seq![key])) {
        Some(e) => ConfigChange::Rejected(e),
        None => ConfigChange::Accepted(ConfigSettings { keys: c.keys.update(action_index(action), seq![key]), ..c }),
    }
}

/// The sound settings asked for when one sound is toggled or re-pointed.
pub open spec fn sound_request(s: SoundConfigSettings, completion: bool, enabled: bool, file: Option<Seq<char>>) -> SoundConfigSettings {
    if completion {
        SoundConfigSettings { completion: SoundSettings { enabled, file, resolved: None }, focus: s.focus }
    } else {
        SoundConfigSettings { completion: s.completion, focus: SoundSettings { enabled, file, resolved: None } }
    }
}

/// Whether `after` is `before` with the result of `toggle`-ing a boolean row or an accepted
/// or rejected change of the row's value, for rows that hold booleans.
pub open spec fn toggled(before: OverlayModel, after: OverlayModel) -> bool {
    let c = before.config;
    match before.field() {
        SettingField::PersistTasks => after == before.applied(tasks_change(c, TasksConfig { persist: !c.tasks.persist, ..c.tasks })),
        SettingField::ShowTaskNumbers => after == before.applied(tasks_change(c, TasksConfig { show_numbers: !c.tasks.show_numbers, ..c.tasks })),
        SettingField::AutostartBreaks => after == before.applied(ConfigChange::Accepted(ConfigSettings {
            timer: TimerSettings { autostart_breaks: !c.timer.autostart_breaks, ..c.timer }, ..c })),
        SettingField::AutostartFocus => after == before.applied(ConfigChange::Accepted(ConfigSettings {
            timer: TimerSettings { autostart_focus: !c.timer.autostart_focus, ..c.timer }, ..c })),
        SettingField::NotificationEnabled => after == before.applied(ConfigChange::Accepted(ConfigSettings {
            notification: NotificationConfig { enabled: !c.notification.enabled }, ..c })),
        SettingField::CompletionSoundEnabled => exists|ch: ConfigChange| sound_change(c,
            sound_request(c.sound, true, !c.sound.completion.enabled, c.sound.completion.file), ch) && after == before.applied(ch),
        SettingField::FocusSoundEnabled => exists|ch: ConfigChange| sound_change(c,
            sound_request(c.sound, false, !c.sound.focus.enabled, c.sound.focus.file), ch) && after == before.applied(ch),
        _ => after == before,
    }
}

/// Whether `after` is `before` adjusted one step in `direction`.
pub open spec fn adjusted(before: OverlayModel, direction: SettingsAdjustmentDirection, after: OverlayModel) -> bool {
    let forward = direction == SettingsAdjustmentDirection::Forward;
    let c = before.config;
    if before.locked() {
        after == before
    } else {
        match before.field() {
            SettingField::Theme(role) => after == before.applied(ConfigChange::Accepted(ConfigSettings {
                theme: c.theme.recolored(role, cycled(c.theme.role_color(role), forward)), ..c })),
            SettingField::LongBreakInterval => after == before.applied(timer_change(c, TimerSettings {
                long_break_interval: if forward {
                    if c.timer.long_break_interval < u32::MAX { c.timer.long_break_interval + 1 } else { c.timer.long_break_interval }
                } else if c.timer.long_break_interval > 2 { (c.timer.long_break_interval - 1) as nat } else { 1 },
                ..c.timer })),
            SettingField::FocusDuration | SettingField::ShortBreakDuration | SettingField::LongBreakDuration => {
                let f = before.field();
                let secs = length_of(c.timer, f);
                after == before.applied(timer_change(c, with_length(c.timer, f,
                    if forward { secs + 60 } else if secs > 61 { (secs - 60) as nat } else { 1 })))
            },
            SettingField::CompletionSoundFile | SettingField::FocusSoundFile | SettingField::Key(_) => after == before,
            _ => toggled(before, after),
        }
    }
}

/// The text a row is edited as.
pub open spec fn edit_text(c: ConfigSettings, f: SettingField) -> Seq<char> {
    match f {
        SettingField::Theme(role) => color_text(c.theme.role_color(role)),
        SettingField::LongBreakInterval => decimal(c.timer.long_break_interval),
        SettingField::CompletionSoundFile => match c.sound.completion.file { Some(p) => p, None => seq![] },
        SettingField::FocusSoundFile => match c.sound.focus.file { Some(p) => p, None => seq![] },
        _ => clock_text(length_of(c.timer, f)),
    }
}

/// Whether `after` is `before` once its row is activated: text rows start an edit, key
/// rows start capturing, and boolean rows toggle.
pub open spec fn activated(before: OverlayModel, after: OverlayModel) -> bool {
    let f = before.field();
    if is_text_field(f) {
        after == OverlayModel { input: Some(edit_text(before.config, f)), error: None, ..before }
    } else if f is Key {
        after == OverlayModel { capturing: true, error: None, ..before }
    } else {
        adjusted(before, SettingsAdjustmentDirection::Forward, after)
    }
}

/// Whether `after` is `before` once the edited text is submitted for its row.
pub open spec fn submitted(before: OverlayModel, after: OverlayModel) -> bool {
    match before.input {
        None => after == before,
        Some(text) => {
            let cleared = OverlayModel { input: None, ..before };
            let c = before.config;
            match before.field() {
                SettingField::Theme(role) => match color_change(c, role, text) {
                    Some(n) => after == cleared.applied(ConfigChange::Accepted(n)),
                    None => after == OverlayModel { error: Some(color_error_text(text)), ..cleared },
                },
                SettingField::LongBreakInterval => after == cleared.applied(interval_change(c, text)),
                SettingField::CompletionSoundFile => exists|ch: ConfigChange| sound_change(c,
                    sound_request(c.sound, true, c.sound.completion.enabled, if text.len() == 0 { None } else { Some(text) }), ch)
                    && after == cleared.applied(ch),
                SettingField::FocusSoundFile => exists|ch: ConfigChange| sound_change(c,
                    sound_request(c.sound, false, c.sound.focus.enabled, if text.len() == 0 { None } else { Some(text) }), ch)
                    && after == cleared.applied(ch),
                f => if is_duration_field(f) {
                    after == cleared.applied(duration_change(c, f, text))
                } else {
                    after == cleared
                },
            }
        },
    }
}

/// Whether `after` is `before` once `key` is captured for the selected key row.
pub open spec fn captured(before: OverlayModel, key: ConfigKey, after: OverlayModel) -> bool {
    if !before.capturing {
        after == before
    } else {
        match before.field() {
            SettingField::Key(action) => match key_change(before.config, action, key) {
                ConfigChange::Accepted(n) => after == OverlayModel { config: n, capturing: false, error: None, ..before },
                ConfigChange::Rejected(e) => after == OverlayModel { error: Some(error_message(e)), ..before },
            },
            _ => after == before,
        }
    }
}

/// Whether `after` is `before` once `elapsed` nanoseconds pass for its write failure.
pub open spec fn write_error_aged(before: OverlayModel, elapsed: nat) -> OverlayModel {
    match before.write_error {
        Some((message, left)) => OverlayModel {
            write_error: if elapsed < left { Some((message, (left - elapsed) as nat)) } else { None },
            ..before
        },
        None => before,
    }
}

/// The settings overlay: a navigable, editable copy of the configuration.
#[derive(Debug)]
pub struct SettingsOverlay {
    config: Config,
    selection: usize,
    input: Option<String>,
    capturing_key: bool,
    error: Option<String>,
    write_error: Option<(String, Duration)>,
    offset: usize,
}

impl View for SettingsOverlay {
    type V = OverlayModel;

    closed spec fn view(&self) -> OverlayModel {
        OverlayModel {
            config: self.config@,
            selection: self.selection as nat,
            input: opt_text(self.input),
            capturing: self.capturing_key,
            error: opt_text(self.error),
            write_error: match self.write_error { Some((m, d)) => Some((m@, d@)), None => None },
            offset: self.offset as nat,
        }
    }
}

impl SettingsOverlay {
    /// An overlay over a copy of `config` with the first row selected.
    pub fn new(config: &Config) -> (s: SettingsOverlay)
        ensures
            s@ == (OverlayModel { config: config@, selection: 0, input: None, capturing: false, error: None,
                write_error: None, offset: 0 }),
    {
        SettingsOverlay {
            config: config.duplicate(),
            selection: 0,
            input: None,
            capturing_key: false,
            error: None,
            write_error: None,
            offset: 0,
        }
    }

    pub fn config(&self) -> (c: &Config)
        ensures
            c@ == self@.config,
    {
        &self.config
    }

    pub fn selection(&self) -> (i: usize)
        ensures
            i == self@.selection,
    {
        self.selection
    }

    /// The selected row.
    pub fn field(&self) -> (f: SettingField)
        ensures
            f == self@.field(),
    {
        SettingField::at(self.selection)
    }

    /// The text being edited, if any.
    pub fn input(&self) -> (s: Option<&str>)
        ensures
            match s { Some(t) => self@.input == Some(t@), None => self@.input is None },
    {
        match &self.input {
            Some(s) => Some(s.as_str()),
            None => None,
        }
    }

    pub fn is_capturing_key(&self) -> (b: bool)
        ensures
            b == self@.capturing,
    {
        self.capturing_key
    }

    /// Why the last change was rejected, if it was.
    pub fn error(&self) -> (s: Option<&str>)
        ensures
            match s { Some(t) => self@.error == Some(t@), None => self@.error is None },
    {
        match &self.error {
            Some(s) => Some(s.as_str()),
            None => None,
        }
    }

    /// The configuration write failure on screen, if any.
    pub fn write_error(&self) -> (s: Option<&str>)
        ensures
            match s { Some(t) => self@.write_error matches Some((m, _)) && m == t@, None => self@.write_error is None },
    {
        match &self.write_error {
            Some((s, _)) => Some(s.as_str()),
            None => None,
        }
    }

    pub fn offset(&self) -> (o: usize)
        ensures
            o == self@.offset,
    {
        self.offset
    }

    pub fn set_offset(&mut self, offset: usize)
        ensures
            final(self)@ == (OverlayModel { offset: offset as nat, ..old(self)@ }),
    {
        self.offset = offset;
    }

    /// Shows a configuration write failure for three seconds.
    pub fn report_write_error(&mut self, message: String)
        ensures
            final(self)@ == (OverlayModel { write_error: Some((message@, write_error_lifetime())), ..old(self)@ }),
    {
        self.write_error = Some((message, Duration::from_secs(3)));
    }

    /// Lets `elapsed` pass for the write failure on screen.
    pub fn age_write_error(&mut self, elapsed: Duration)
        ensures
            final(self)@ == write_error_aged(old(self)@, elapsed@),
    {
        let aged = match &self.write_error {
            Some((message, left)) => if elapsed.lt(left) {
                Some((message.clone(), left.saturating_sub(elapsed)))
            } else {
                None
            },
            None => None,
        };
        self.write_error = aged;
    }

    /// Selects row `selection`, clamped to the last row, unless an edit holds the selection.
    pub fn select(&mut self, selection: usize)
        ensures
            final(self)@ == old(self)@.select(selection as nat),
    {
        if self.input.is_none() && !self.capturing_key {
            self.selection = if selection < FIELD_COUNT - 1 { selection } else { FIELD_COUNT - 1 };
            self.error = None;
        }
    }

    /// Moves the selection one row, unless an edit holds it.
    pub fn move_selection(&mut self, direction: SettingsMoveDirection)
        ensures
            final(self)@ == old(self)@.move_selection(direction),
    {
        if self.input.is_some() || self.capturing_key {
            return;
        }
        match direction {
            SettingsMoveDirection::Down => {
                self.selection = if self.selection < FIELD_COUNT - 1 { self.selection + 1 } else { FIELD_COUNT - 1 };
            },
            SettingsMoveDirection::Up => {
                self.selection = if self.selection > 0 { self.selection - 1 } else { 0 };
            },
        }
        self.error = None;
    }

    fn apply(&mut self, r: Result<Config, ConfigValidationError>)
        ensures
            match r {
                Ok(c) => final(self)@ == old(self)@.applied(ConfigChange::Accepted(c@)),
                Err(e) => final(self)@ == old(self)@.applied(ConfigChange::Rejected(e)),
            },
    {
        match r {
            Ok(c) => {
                self.config = c;
                self.error = None;
            },
            Err(e) => {
                self.error = Some(e.message());
            },
        }
    }

    /// Replaces the task settings.
    pub fn set_tasks(&mut self, persist: bool, show_numbers: bool)
        ensures
            final(self)@ == old(self)@.applied(tasks_change(old(self)@.config, TasksConfig { persist, show_numbers })),
    {
        let config = self.config.duplicate().with_task_settings(TasksConfig::with_numbering(persist, show_numbers));
        self.apply(Ok(config));
    }

    /// Sets the long-break interval from text.
    pub fn set_number(&mut self, field: SettingField, value: String)
        ensures
            field == SettingField::LongBreakInterval ==> final(self)@ == old(self)@.applied(interval_change(old(self)@.config, value@)),
            field != SettingField::LongBreakInterval ==> final(self)@ == old(self)@,
    {
        if !field.is_number() {
            return;
        }
        let text = value.as_str();
        if text.unicode_len() == 0 || !crate::text::digits_only(text) {
            self.apply(Err(ConfigValidationError::InvalidPositiveInteger { field: "long_break_interval" }));
            return;
        }
        let parsed = crate::text::parse_digits(text);
        let v = match parsed {
            Some(v) => v,
            None => {
                self.apply(Err(ConfigValidationError::IntegerOverflow { field: "long_break_interval" }));
                return;
            },
        };
        if v > u32::MAX as u64 {
            self.apply(Err(ConfigValidationError::IntegerOverflow { field: "long_break_interval" }));
            return;
        }
        self.set_interval(v as u32);
    }

    fn set_interval(&mut self, interval: u32)
        ensures
            final(self)@ == old(self)@.applied(timer_change(old(self)@.config,
                TimerSettings { long_break_interval: interval as nat, ..old(self)@.config.timer })),
    {
        let timer = self.config.timer().with_long_break_interval(interval);
        self.apply_timer(timer);
    }

    fn apply_timer(&mut self, timer: Result<crate::config::timer::TimerConfig, ConfigValidationError>)
        ensures
            match timer {
                Ok(t) => final(self)@ == old(self)@.applied(ConfigChange::Accepted(ConfigSettings { timer: t@, ..old(self)@.config })),
                Err(e) => final(self)@ == old(self)@.applied(ConfigChange::Rejected(e)),
            },
    {
        match timer {
            Ok(t) => {
                let config = self.config.duplicate().with_timer(t);
                self.apply(config);
            },
            Err(e) => self.apply(Err(e)),
        }
    }

    fn set_length(&mut self, field: SettingField, seconds: u64)
        requires
            is_duration_field(field),
        ensures
            final(self)@ == old(self)@.applied(timer_change(old(self)@.config,
                with_length(old(self)@.config.timer, field, seconds as nat))),
    {
        let timer = match field {
            SettingField::FocusDuration => self.config.timer().with_focus_duration(seconds),
            SettingField::ShortBreakDuration => self.config.timer().with_short_break_duration(seconds),
            _ => self.config.timer().with_long_break_duration(seconds),
        };
        self.apply_timer(timer);
    }

    /// Sets the length of a duration row from `MM:SS` text.
    pub fn set_duration(&mut self, field: SettingField, value: String)
        ensures
            is_duration_field(field) ==> final(self)@ == old(self)@.applied(duration_change(old(self)@.config, field, value@)),
            !is_duration_field(field) ==> final(self)@ == old(self)@,
    {
        if !field.is_duration() {
            return;
        }
        let name = match field {
            SettingField::FocusDuration => "focus_duration",
            SettingField::ShortBreakDuration => "short_break_duration",
            _ => "long_break_duration",
        };
        match crate::config::timer::parse_duration(value.as_str(), name) {
            Ok(secs) => self.set_length(field, secs),
            Err(e) => self.apply(Err(e)),
        }
    }

    /// Sets the color of `role` from text.
    pub fn set_color(&mut self, role: crate::config::theme::ThemeRole, value: String)
        ensures
            match color_change(old(self)@.config, role, value@) {
                Some(n) => final(self)@ == old(self)@.applied(ConfigChange::Accepted(n)),
                None => final(self)@ == (OverlayModel { error: Some(color_error_text(value@)), ..old(self)@ }),
            },
    {
        match ThemeColor::parse(value.as_str()) {
            Ok(color) => {
                let config = self.config.duplicate().with_color(role, color);
                self.apply(Ok(config));
            },
            Err(message) => {
                self.error = Some(message);
            },
        }
    }

    fn set_sound(&mut self, completion: bool, enabled: bool, file: Option<String>)
        ensures
            exists|ch: ConfigChange| sound_change(old(self)@.config,
                sound_request(old(self)@.config.sound, completion, enabled, opt_text(file)), ch)
                && final(self)@ == old(self)@.applied(ch),
    {
        let current = self.config.sound().duplicate();
        let sound = if completion {
            current.with_completion(SoundFile::new(enabled, file))
        } else {
            current.with_focus(SoundFile::new(enabled, file))
        };
        let ghost requested = sound@;
        assert(requested == sound_request(self@.config.sound, completion, enabled, opt_text(file)));
        let r = self.config.duplicate().with_sound(sound);
        let ghost ch = if r is Ok { ConfigChange::Accepted(r->Ok_0@) } else { ConfigChange::Rejected(r->Err_0) };
        self.apply(r);
        assert(sound_change(old(self)@.config, requested, ch));
    }

    fn toggle(&mut self)
        requires
            !old(self)@.locked(),
        ensures
            toggled(old(self)@, final(self)@),
    {
        let c = &self.config;
        match self.field() {
            SettingField::PersistTasks => {
                let t = *c.tasks();
                self.set_tasks(!t.persist, t.show_numbers);
            },
            SettingField::ShowTaskNumbers => {
                let t = *c.tasks();
                self.set_tasks(t.persist, !t.show_numbers);
            },
            SettingField::AutostartBreaks => {
                let t = *c.timer();
                let updated = t.with_autostart(!t.autostart_breaks(), t.autostart_focus());
                self.apply_timer(Ok(updated));
            },
            SettingField::AutostartFocus => {
                let t = *c.timer();
                let updated = t.with_autostart(t.autostart_breaks(), !t.autostart_focus());
                self.apply_timer(Ok(updated));
            },
            SettingField::NotificationEnabled => {
                let enabled = c.notification().enabled();
                let config = self.config.duplicate().with_notification(NotificationConfig::new(!enabled));
                self.apply(Ok(config));
            },
            SettingField::CompletionSoundEnabled => {
                let s = c.sound().completion();
                let enabled = s.enabled();
                let file = match s.file() {
                    Some(f) => Some(crate::text::owned(f)),
                    None => None,
                };
                self.set_sound(true, !enabled, file);
            },
            SettingField::FocusSoundEnabled => {
                let s = c.sound().focus();
                let enabled = s.enabled();
                let file = match s.file() {
                    Some(f) => Some(crate::text::owned(f)),
                    None => None,
                };
                self.set_sound(false, !enabled, file);
            },
            _ => {},
        }
    }

    /// Adjusts the selected value one step: booleans toggle, colors cycle, numbers and
    /// lengths move by one and by a minute.
    pub fn adjust(&mut self, direction: SettingsAdjustmentDirection)
        ensures
            adjusted(old(self)@, direction, final(self)@),
    {
        if self.input.is_some() || self.capturing_key {
            return;
        }
        let forward = match direction {
            SettingsAdjustmentDirection::Forward => true,
            SettingsAdjustmentDirection::Backward => false,
        };
        let field = self.field();
        match field {
            SettingField::Theme(role) => {
                let color = self.config.theme().color(role).cycle(forward);
                let config = self.config.duplicate().with_color(role, color);
                self.apply(Ok(config));
            },
            SettingField::LongBreakInterval => {
                let current = self.config.timer().long_break_interval();
                let next = if forward {
                    if current < u32::MAX { current + 1 } else { current }
                } else if current > 2 { current - 1 } else { 1 };
                self.set_interval(next);
            },
            SettingField::FocusDuration | SettingField::ShortBreakDuration | SettingField::LongBreakDuration => {
                let t = self.config.timer();
                let secs = match field {
                    SettingField::FocusDuration => t.focus_seconds(),
                    SettingField::ShortBreakDuration => t.short_break_seconds(),
                    _ => t.long_break_seconds(),
                };
                proof {
                    crate::config::timer::lemma_lengths_bounded(t@);
                }
                let next = if forward { secs + 60 } else if secs > 61 { secs - 60 } else { 1 };
                self.set_length(field, next);
            },
            SettingField::CompletionSoundFile | SettingField::FocusSoundFile | SettingField::Key(_) => {},
            _ => self.toggle(),
        }
    }

    fn edit_text_of(&self, field: SettingField) -> (s: String)
        ensures
            s@ == edit_text(self@.config, field),
    {
        let c = &self.config;
        match field {
            SettingField::Theme(role) => c.theme().color(role).to_text(),
            SettingField::LongBreakInterval => crate::text::decimal_text(c.timer().long_break_interval() as u64),
            SettingField::CompletionSoundFile => match c.sound().completion().file() {
                Some(f) => crate::text::owned(f),
                None => String::new(),
            },
            SettingField::FocusSoundFile => match c.sound().focus().file() {
                Some(f) => crate::text::owned(f),
                None => String::new(),
            },
            SettingField::FocusDuration => crate::config::timer::format_duration(c.timer().focus_seconds()),
            SettingField::ShortBreakDuration => crate::config::timer::format_duration(c.timer().short_break_seconds()),
            _ => crate::config::timer::format_duration(c.timer().long_break_seconds()),
        }
    }

    /// Starts editing a text row, starts capturing a key row, or toggles a boolean row.
    pub fn activate(&mut self)
        ensures
            activated(old(self)@, final(self)@),
    {
        let field = self.field();
        if field.is_text() {
            let text = self.edit_text_of(field);
            self.input = Some(text);
            self.error = None;
        } else {
            match field {
                SettingField::Key(_) => {
                    self.capturing_key = true;
                    self.error = None;
                },
                _ => self.adjust(SettingsAdjustmentDirection::Forward),
            }
        }
    }

    /// Appends a character to the text being edited.
    pub fn push_input(&mut self, character: char)
        ensures
            final(self)@ == old(self)@.push_input(character),
    {
        let taken = self.input.take();
        match taken {
            Some(mut input) => {
                push_char(&mut input, character);
                self.input = Some(input);
            },
            None => {},
        }
    }

    /// Removes the last character of the text being edited.
    pub fn pop_input(&mut self)
        ensures
            final(self)@ == old(self)@.pop_input(),
    {
        let taken = self.input.take();
        match taken {
            Some(mut input) => {
                let _ = pop_char(&mut input);
                self.input = Some(input);
            },
            None => {},
        }
    }

    /// Submits the text being edited to its row.
    pub fn submit_input(&mut self)
        ensures
            submitted(old(self)@, final(self)@),
    {
        let value = match self.input.take() {
            Some(v) => v,
            None => return,
        };
        match self.field() {
            SettingField::Theme(role) => self.set_color(role, value),
            SettingField::LongBreakInterval => self.set_number(SettingField::LongBreakInterval, value),
            SettingField::CompletionSoundFile => {
                let enabled = self.config.sound().completion().enabled();
                let file = if value.as_str().unicode_len() == 0 { None } else { Some(value) };
                self.set_sound(true, enabled, file);
            },
            SettingField::FocusSoundFile => {
                let enabled = self.config.sound().focus().enabled();
                let file = if value.as_str().unicode_len() == 0 { None } else { Some(value) };
                self.set_sound(false, enabled, file);
            },
            field => self.set_duration(field, value),
        }
    }

    /// Leaves a value edit or key capture and clears the error; reports whether anything was left.
    pub fn cancel_nested(&mut self) -> (left: bool)
        ensures
            (final(self)@, left) == old(self)@.cancel_nested(),
    {
        if self.input.is_some() || self.capturing_key || self.error.is_some() {
            self.input = None;
            self.capturing_key = false;
            self.error = None;
            true
        } else {
            false
        }
    }

    /// Binds the captured key to the selected command, if the bindings stay valid.
    pub fn capture_key(&mut self, key: ConfigKey)
        ensures
            captured(old(self)@, key, final(self)@),
    {
        if !self.capturing_key {
            return;
        }
        let action = match self.field() {
            SettingField::Key(action) => action,
            _ => return,
        };
        match self.config.duplicate().with_key_binding(action, key) {
            Ok(config) => {
                self.config = config;
                self.capturing_key = false;
                self.error = None;
            },
            Err(e) => self.error = Some(e.message()),
        }
    }
}

/// Adjusting a session length backward never lengthens it: it takes one minute off a length
/// above a minute and leaves one second otherwise, is always accepted, and leaves the other
/// lengths as they were; adjusting forward adds one minute when the result is allowed.
pub proof fn lemma_length_steps(before: OverlayModel, direction: SettingsAdjustmentDirection, after: OverlayModel)
    requires
        !before.locked(),
        is_duration_field(before.field()),
        crate::config::timer::timer_valid(before.config.timer),
        adjusted(before, direction, after),
    ensures
        ({
            let f = before.field();
            let old_len = length_of(before.config.timer, f);
            let new_len = length_of(after.config.timer, f);
            &&& direction == SettingsAdjustmentDirection::Backward ==> {
                &&& new_len <= old_len
                &&& 1 <= new_len
                &&& old_len > 60 ==> old_len - new_len == 60
                &&& old_len <= 60 ==> new_len == 1
                &&& after.error is None
            }
            &&& direction == SettingsAdjustmentDirection::Forward && old_len + 60 <= 599_999 ==> {
                &&& new_len == old_len + 60
                &&& after.error is None
            }
            &&& forall|g: SettingField| is_duration_field(g) && g != f ==> length_of(after.config.timer, g)
                == length_of(before.config.timer, g)
            &&& after.config.timer.long_break_interval == before.config.timer.long_break_interval
            &&& after.field() == f
            &&& !after.locked()
        }),
{
}

/// Adjusting a session length forward and then backward gives back the configuration, when
/// the longer length is allowed; and backward then forward does too, for a length above a
/// minute.
pub proof fn lemma_length_steps_undo(before: OverlayModel, mid: OverlayModel, after: OverlayModel,
    first: SettingsAdjustmentDirection)
    requires
        !before.locked(),
        is_duration_field(before.field()),
        crate::config::timer::timer_valid(before.config.timer),
        adjusted(before, first, mid),
        adjusted(mid, if first == SettingsAdjustmentDirection::Forward {
            SettingsAdjustmentDirection::Backward
        } else {
            SettingsAdjustmentDirection::Forward
        }, after),
        first == SettingsAdjustmentDirection::Forward ==> length_of(before.config.timer, before.field()) + 60
            <= 599_999,
        first == SettingsAdjustmentDirection::Backward ==> length_of(before.config.timer, before.field()) > 60,
    ensures
        after.config == before.config,
{
    lemma_length_steps(before, first, mid);
    assert(crate::config::timer::timer_valid(mid.config.timer));
    let second = if first == SettingsAdjustmentDirection::Forward {
        SettingsAdjustmentDirection::Backward
    } else {
        SettingsAdjustmentDirection::Forward
    };
    lemma_length_steps(mid, second, after);
    assert(after.config.timer =~= before.config.timer);
}

/// Adjusting the long-break interval backward never raises it: it takes one off an interval
/// above one and leaves one otherwise; forward adds one below `u32::MAX`; and forward then
/// backward gives back the configuration.
pub proof fn lemma_interval_steps(before: OverlayModel, mid: OverlayModel, after: OverlayModel)
    requires
        !before.locked(),
        before.field() == SettingField::LongBreakInterval,
        crate::config::timer::timer_valid(before.config.timer),
        before.config.timer.long_break_interval < u32::MAX,
        adjusted(before, SettingsAdjustmentDirection::Forward, mid),
        adjusted(mid, SettingsAdjustmentDirection::Backward, after),
    ensures
        mid.config.timer.long_break_interval == before.config.timer.long_break_interval + 1,
        after.config.timer.long_break_interval + 1 == mid.config.timer.long_break_interval,
        after.config == before.config,
{
    assert(after.config.timer =~= before.config.timer);
}

/// Adjusting the long-break interval backward never raises it and keeps it at least one.
pub proof fn lemma_interval_backward(before: OverlayModel, after: OverlayModel)
    requires
        !before.locked(),
        before.field() == SettingField::LongBreakInterval,
        crate::config::timer::timer_valid(before.config.timer),
        adjusted(before, SettingsAdjustmentDirection::Backward, after),
    ensures
        1 <= after.config.timer.long_break_interval <= before.config.timer.long_break_interval,
        before.config.timer.long_break_interval > 1 ==> after.config.timer.long_break_interval + 1
            == before.config.timer.long_break_interval,
{
}

} // verus!
