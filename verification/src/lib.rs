//! Terminal-independent logic of the `pomock` Pomodoro timer and task list.
//!
//! Semantic [`app::Action`] values drive [`app::App`], which owns every
//! terminal-independent transition and reports boundary work through
//! [`app::AppOutcome`]. Terminal IO, rendering and audio stay in the binary.
pub mod app;
pub mod cli;
pub mod config;
pub mod display;
pub mod effects;
pub mod input;
pub mod duration;
pub mod notification;
pub mod persistence;
pub mod runtime;
pub mod settings;
pub mod sound;
pub mod tasks;
pub mod text;
pub mod timer;
pub mod ui;

pub use duration::{Duration, Instant};
pub use timer::SessionKind;
