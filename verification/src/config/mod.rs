//! Validated user settings shared by the application and settings overlay.
pub mod basic;
pub mod error;
pub mod keys;
pub mod settings;
pub mod sound;
pub mod stored;
pub mod theme;
pub mod timer;

pub use error::ConfigValidationError;
pub use keys::{ConfigKey, KeyAction, KeysConfig};
pub use theme::{ThemeColor, ThemeConfig, ThemeRole};
pub use timer::{TimerConfig, parse_duration, format_duration};
pub use basic::{NotificationConfig, TasksConfig};
pub use sound::{CompletionSoundConfig, FocusSoundConfig, SoundConfig, SoundFile};
pub use settings::Config;
