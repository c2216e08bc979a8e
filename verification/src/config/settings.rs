//! The complete validated configuration.
use vstd::prelude::*;

use super::basic::{NotificationConfig, TasksConfig};
use super::error::ConfigValidationError;
use super::keys::{action_index, bindings_error, default_bindings, ConfigKey, KeyAction, KeysConfig};
use super::sound::{sound_resolved, SoundConfig, SoundConfigSettings, SoundSettings};
use super::theme::{ThemeColor, ThemeConfig, ThemeRole};
use super::timer::{
    duration_text_seconds, lemma_duration_text_round_trip, parse_duration, timer_error, timer_valid, TimerConfig,
    TimerSettings,
};
use crate::text::clock_text;

verus! {

/// The abstract configuration.
pub struct ConfigSettings {
    pub timer: TimerSettings,
    pub tasks: TasksConfig,
    pub theme: ThemeConfig,
    pub keys: Seq<Seq<ConfigKey>>,
    pub notification: NotificationConfig,
    pub sound: SoundConfigSettings,
}

/// Whether `r` is the configuration of these parts, or the first rejection: the key
/// bindings are checked before the sound files are resolved.
pub open spec fn assembled(
    timer: TimerSettings,
    tasks: TasksConfig,
    theme: ThemeConfig,
    keys: Seq<Seq<ConfigKey>>,
    notification: NotificationConfig,
    sound: SoundConfigSettings,
    r: Result<Config, ConfigValidationError>,
) -> bool {
    match bindings_error(keys) {
        Some(e) => r == Err::<Config, ConfigValidationError>(e),
        None => match r {
            Ok(c) => c@.timer == timer && c@.tasks == tasks && c@.theme == theme && c@.keys == keys
                && c@.notification == notification && sound_resolved(sound, c@.sound, Ok(())),
            Err(e) => exists|after: SoundConfigSettings| sound_resolved(sound, after, Err(e)),
        },
    }
}

/// The timer settings that stored duration texts and choices describe, or the first
/// rejection: each text must be a well-formed `MM:SS`, checked in order, and then the
/// lengths and interval must be valid.
pub open spec fn stored_timer_settings(focus: Seq<char>, short_break: Seq<char>, long_break: Seq<char>, interval: nat,
    autostart_breaks: bool, autostart_focus: bool) -> Result<TimerSettings, ConfigValidationError> {
    match (duration_text_seconds(focus), duration_text_seconds(short_break), duration_text_seconds(long_break)) {
        (None, _, _) => Err(ConfigValidationError::InvalidDuration { field: "focus_duration" }),
        (Some(_), None, _) => Err(ConfigValidationError::InvalidDuration { field: "short_break_duration" }),
        (Some(_), Some(_), None) => Err(ConfigValidationError::InvalidDuration { field: "long_break_duration" }),
        (Some(f), Some(s), Some(l)) => match timer_error(f, s, l, interval) {
            Some(e) => Err(e),
            None => Ok(TimerSettings {
                focus_seconds: f,
                short_break_seconds: s,
                long_break_seconds: l,
                long_break_interval: interval,
                autostart_breaks,
                autostart_focus,
            }),
        },
    }
}

/// Valid timer settings, written out with their lengths as `MM:SS` texts, read back unchanged.
pub proof fn lemma_stored_timer_round_trip(t: TimerSettings)
    requires
        timer_valid(t),
    ensures
        stored_timer_settings(clock_text(t.focus_seconds), clock_text(t.short_break_seconds),
            clock_text(t.long_break_seconds), t.long_break_interval, t.autostart_breaks, t.autostart_focus) == Ok::<
            TimerSettings,
            ConfigValidationError,
        >(t),
{
    lemma_duration_text_round_trip(t.focus_seconds);
    lemma_duration_text_round_trip(t.short_break_seconds);
    lemma_duration_text_round_trip(t.long_break_seconds);
}

/// Validated user settings shared by the application and settings overlay.
#[derive(Debug)]
pub struct Config {
    timer: TimerConfig,
    tasks: TasksConfig,
    theme: ThemeConfig,
    keys: KeysConfig,
    notification: NotificationConfig,
    sound: SoundConfig,
}

impl View for Config {
    type V = ConfigSettings;

    closed spec fn view(&self) -> ConfigSettings {
        ConfigSettings {
            timer: self.timer@,
            tasks: self.tasks,
            theme: self.theme,
            keys: self.keys@,
            notification: self.notification,
            sound: self.sound@,
        }
    }
}

/// The sound settings of a fresh configuration.
pub open spec fn default_sound() -> SoundConfigSettings {
    SoundConfigSettings {
        completion: SoundSettings { enabled: false, file: None, resolved: None },
        focus: SoundSettings { enabled: false, file: None, resolved: None },
    }
}

impl Config {
    #[verifier::type_invariant]
    spec fn inv(self) -> bool {
        bindings_error(self.keys@) is None
    }

    /// Configuration with explicit timer settings and defaults elsewhere.
    pub fn new(timer: TimerConfig) -> (r: Result<Config, ConfigValidationError>)
        ensures
            r is Ok,
            r matches Ok(c) ==> c@.timer == timer@ && c@.tasks == TasksConfig::default_spec()
                && c@.theme.is_default() && c@.keys == default_bindings() && c@.notification.enabled
                && c@.sound == default_sound(),
    {
        Config::with_tasks(timer, TasksConfig::default())
    }

    /// Configuration with explicit timer and task settings.
    pub fn with_tasks(timer: TimerConfig, tasks: TasksConfig) -> (r: Result<Config, ConfigValidationError>)
        ensures
            r is Ok,
            r matches Ok(c) ==> c@.timer == timer@ && c@.tasks == tasks && c@.theme.is_default()
                && c@.keys == default_bindings() && c@.notification.enabled && c@.sound == default_sound(),
    {
        Config::with_tasks_and_theme(timer, tasks, ThemeConfig::default())
    }

    /// Configuration with explicit timer, task and theme settings.
    pub fn with_tasks_and_theme(timer: TimerConfig, tasks: TasksConfig, theme: ThemeConfig) -> (r: Result<Config, ConfigValidationError>)
        ensures
            r is Ok,
            r matches Ok(c) ==> c@.timer == timer@ && c@.tasks == tasks && c@.theme == theme
                && c@.keys == default_bindings() && c@.notification.enabled && c@.sound == default_sound(),
    {
        proof {
            super::keys::lemma_default_bindings_valid();
        }
        Config::with_settings(timer, tasks, theme, KeysConfig::default_keys())
    }

    /// Configuration with explicit timer, task, theme and key settings.
    pub fn with_settings(timer: TimerConfig, tasks: TasksConfig, theme: ThemeConfig, keys: KeysConfig) -> (r: Result<Config, ConfigValidationError>)
        ensures
            assembled(timer@, tasks, theme, keys@, NotificationConfig { enabled: true }, default_sound(), r),
            r matches Ok(c) ==> c@.sound == default_sound(),
    {
        let r = Config::with_all_settings(timer, tasks, theme, keys, NotificationConfig::default(), SoundConfig::default());
        proof {
            if r is Ok {
                assert(r->Ok_0@.sound =~= default_sound());
            }
        }
        r
    }

    /// Configuration from every part, after checking the keys and resolving the sounds.
    pub fn with_all_settings(
        timer: TimerConfig,
        tasks: TasksConfig,
        theme: ThemeConfig,
        keys: KeysConfig,
        notification: NotificationConfig,
        sound: SoundConfig,
    ) -> (r: Result<Config, ConfigValidationError>)
        ensures
            assembled(timer@, tasks, theme, keys@, notification, sound@, r),
    {
        keys.validate()?;
        let mut sound = sound;
        let ghost before = sound@;
        let resolved = sound.validate();
        match resolved {
            Ok(()) => Ok(Config { timer, tasks, theme, keys, notification, sound }),
            Err(e) => Err(e),
        }
    }

    /// Configuration from its stored form: durations as `MM:SS` texts, then every other part.
    pub fn from_stored(
        focus_duration: &str,
        short_break_duration: &str,
        long_break_duration: &str,
        long_break_interval: u32,
        autostart_breaks: bool,
        autostart_focus: bool,
        tasks: TasksConfig,
        theme: ThemeConfig,
        keys: KeysConfig,
        notification: NotificationConfig,
        sound: SoundConfig,
    ) -> (r: Result<Config, ConfigValidationError>)
        ensures
            match stored_timer_settings(focus_duration@, short_break_duration@, long_break_duration@,
                long_break_interval as nat, autostart_breaks, autostart_focus) {
                Err(e) => r == Err::<Config, ConfigValidationError>(e),
                Ok(t) => assembled(t, tasks, theme, keys@, notification, sound@, r),
            },
    {
        let focus = parse_duration(focus_duration, "focus_duration")?;
        let short_break = parse_duration(short_break_duration, "short_break_duration")?;
        let long_break = parse_duration(long_break_duration, "long_break_duration")?;
        let timer = TimerConfig::from_seconds(focus, short_break, long_break, long_break_interval)?;
        Config::with_all_settings(timer.with_autostart(autostart_breaks, autostart_focus), tasks, theme, keys,
            notification, sound)
    }

    /// The default configuration.
    pub fn default_config() -> (c: Config)
        ensures
            c@.timer == TimerConfig::default_spec(),
            c@.tasks == TasksConfig::default_spec(),
            c@.theme.is_default(),
            c@.keys == default_bindings(),
            c@.notification.enabled,
            c@.sound == default_sound(),
    {
        let keys = KeysConfig::default_keys();
        proof {
            super::keys::lemma_default_bindings_valid();
        }
        Config {
            timer: TimerConfig::default(),
            tasks: TasksConfig::default(),
            theme: ThemeConfig::default(),
            keys,
            notification: NotificationConfig::default(),
            sound: SoundConfig::default(),
        }
    }

    pub fn timer(&self) -> (t: &TimerConfig)
        ensures
            t@ == self@.timer,
    {
        &self.timer
    }

    pub fn tasks(&self) -> (t: &TasksConfig)
        ensures
            *t == self@.tasks,
    {
        &self.tasks
    }

    pub fn theme(&self) -> (t: &ThemeConfig)
        ensures
            *t == self@.theme,
    {
        &self.theme
    }

    pub fn keys(&self) -> (k: &KeysConfig)
        ensures
            k@ == self@.keys,
            bindings_error(k@) is None,
    {
        proof {
            use_type_invariant(self);
        }
        &self.keys
    }

    pub fn notification(&self) -> (n: NotificationConfig)
        ensures
            n == self@.notification,
    {
        self.notification
    }

    pub fn sound(&self) -> (s: &SoundConfig)
        ensures
            s@ == self@.sound,
    {
        &self.sound
    }

    /// This configuration with new notification settings.
    pub fn with_notification(self, notification: NotificationConfig) -> (c: Config)
        ensures
            c@ == (ConfigSettings { notification, ..self@ }),
    {
        proof {
            use_type_invariant(&self);
        }
        Config { notification, ..self }
    }

    /// This configuration with new sound settings, once both files resolve.
    pub fn with_sound(self, sound: SoundConfig) -> (r: Result<Config, ConfigValidationError>)
        ensures
            match r {
                Ok(c) => c@.timer == self@.timer && c@.tasks == self@.tasks && c@.theme == self@.theme
                    && c@.keys == self@.keys && c@.notification == self@.notification
                    && sound_resolved(sound@, c@.sound, Ok(())),
                Err(e) => exists|after: SoundConfigSettings| sound_resolved(sound@, after, Err(e)),
            },
    {
        proof {
            use_type_invariant(&self);
        }
        let mut sound = sound;
        match sound.validate() {
            Ok(()) => Ok(Config { sound, ..self }),
            Err(e) => Err(e),
        }
    }

    /// This configuration with new timer settings; the timer is already validated.
    pub fn with_timer(self, timer: TimerConfig) -> (r: Result<Config, ConfigValidationError>)
        ensures
            r matches Ok(c) && c@ == (ConfigSettings { timer: timer@, ..self@ }),
    {
        proof {
            use_type_invariant(&self);
        }
        Ok(Config { timer, ..self })
    }

    /// This configuration with `role` recolored.
    pub fn with_color(self, role: ThemeRole, color: ThemeColor) -> (c: Config)
        ensures
            c@ == (ConfigSettings { theme: self@.theme.recolored(role, color), ..self@ }),
            c@.theme.role_color(role) == color,
            forall|r: ThemeRole| r != role ==> c@.theme.role_color(r) == self@.theme.role_color(r),
            c@.timer == self@.timer,
            c@.tasks == self@.tasks,
            c@.keys == self@.keys,
            c@.notification == self@.notification,
            c@.sound == self@.sound,
    {
        proof {
            use_type_invariant(&self);
        }
        let theme = self.theme.with_color(role, color);
        Config { theme, ..self }
    }

    /// This configuration with new task settings.
    pub fn with_task_settings(self, tasks: TasksConfig) -> (c: Config)
        ensures
            c@ == (ConfigSettings { tasks, ..self@ }),
    {
        proof {
            use_type_invariant(&self);
        }
        Config { tasks, ..self }
    }

    /// This configuration with `action` bound to `key` alone, if the bindings stay valid.
    pub fn with_key_binding(self, action: KeyAction, key: ConfigKey) -> (r: Result<Config, ConfigValidationError>)
        ensures
            match bindings_error(self@.keys.update(action_index(action), seq![key])) {
                Some(e) => r == Err::<Config, ConfigValidationError>(e),
                None => r matches Ok(c) && c@ == (ConfigSettings {
                    keys: self@.keys.update(action_index(action), seq![key]),
                    ..self@
                }),
            },
    {
        proof {
            use_type_invariant(&self);
        }
        let keys = self.keys.with_binding(action, key);
        match keys.validate() {
            Ok(()) => Ok(Config {
                timer: self.timer,
                tasks: self.tasks,
                theme: self.theme,
                keys,
                notification: self.notification,
                sound: self.sound,
            }),
            Err(e) => Err(e),
        }
    }

    /// A copy of this configuration.
    pub fn duplicate(&self) -> (c: Config)
        ensures
            c@ == self@,
    {
        proof {
            use_type_invariant(self);
        }
        Config {
            timer: self.timer,
            tasks: self.tasks,
            theme: self.theme,
            keys: self.keys.duplicate(),
            notification: self.notification,
            sound: self.sound.duplicate(),
        }
    }

    /// Whether both configurations hold the same settings.
    pub fn same_as(&self, other: &Config) -> (r: bool)
        ensures
            r == (self@ == other@),
    {
        let same_timer = self.timer == other.timer;
        proof {
            if self@.timer == other@.timer {
                TimerConfig::lemma_view_injective(self.timer, other.timer);
            }
        }
        same_timer && self.tasks == other.tasks && self.theme == other.theme && self.keys.same_as(&other.keys)
            && self.notification == other.notification && self.sound.same_as(&other.sound)
    }
}

impl PartialEq for Config {
    fn eq(&self, other: &Config) -> (r: bool) {
        self.same_as(other)
    }
}

impl vstd::std_specs::cmp::PartialEqSpecImpl for Config {
    open spec fn obeys_eq_spec() -> bool {
        true
    }

    open spec fn eq_spec(&self, other: &Config) -> bool {
        self@ == other@
    }
}

impl Default for Config {
    fn default() -> (c: Config)
        ensures
            c@.timer == TimerConfig::default_spec(),
            c@.tasks == TasksConfig::default_spec(),
            c@.theme.is_default(),
            c@.keys == default_bindings(),
            c@.notification.enabled,
            c@.sound == default_sound(),
    {
        Config::default_config()
    }
}

} // verus!
