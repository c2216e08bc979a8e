//! Task and notification settings.
use vstd::prelude::*;

verus! {

/// Durable task behavior and presentation settings.
#[derive(Debug, Clone, Copy, PartialEq, Eq, Structural)]
pub struct TasksConfig {
    pub persist: bool,
    pub show_numbers: bool,
}

impl TasksConfig {
    /// Tasks persist and show their numbers.
    pub open spec fn default_spec() -> TasksConfig {
        TasksConfig { persist: true, show_numbers: true }
    }

    /// Task settings with numbering shown.
    pub fn new(persist: bool) -> (t: TasksConfig)
        ensures
            t == (TasksConfig { persist, show_numbers: true }),
    {
        TasksConfig::with_numbering(persist, true)
    }

    pub fn with_numbering(persist: bool, show_numbers: bool) -> (t: TasksConfig)
        ensures
            t == (TasksConfig { persist, show_numbers }),
    {
        TasksConfig { persist, show_numbers }
    }

    pub fn persist(&self) -> (b: bool)
        ensures
            b == self.persist,
    {
        self.persist
    }

    pub fn show_numbers(&self) -> (b: bool)
        ensures
            b == self.show_numbers,
    {
        self.show_numbers
    }
}

impl Default for TasksConfig {
    /// Tasks persist and show their numbers.
    fn default() -> (t: TasksConfig)
        ensures
            t == (TasksConfig { persist: true, show_numbers: true }),
    {
        TasksConfig::with_numbering(true, true)
    }
}

/// Native desktop-notification settings.
#[derive(Debug, Clone, Copy, PartialEq, Eq, Structural)]
pub struct NotificationConfig {
    pub enabled: bool,
}

impl NotificationConfig {
    pub fn new(enabled: bool) -> (n: NotificationConfig)
        ensures
            n.enabled == enabled,
    {
        NotificationConfig { enabled }
    }

    pub fn enabled(self) -> (b: bool)
        ensures
            b == self.enabled,
    {
        self.enabled
    }
}

impl Default for NotificationConfig {
    /// Notifications are on.
    fn default() -> (n: NotificationConfig)
        ensures
            n.enabled,
    {
        NotificationConfig { enabled: true }
    }
}

} // verus!
