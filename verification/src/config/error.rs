//! Reasons a configuration is rejected, and their messages.
use vstd::prelude::*;

use super::keys::{key_stored_name, ConfigKey};
use crate::text::push_str;

verus! {

/// Why a configuration value was rejected.
#[derive(Debug, Clone, PartialEq, Eq)]
pub enum ConfigValidationError {
    ZeroDuration { field: &'static str },
    DurationOverflow { field: &'static str },
    InvalidDuration { field: &'static str },
    InvalidPositiveInteger { field: &'static str },
    IntegerOverflow { field: &'static str },
    ZeroLongBreakInterval,
    EmptyKeyBindings { field: &'static str },
    ConflictingKeys { first: &'static str, second: &'static str },
    ReservedKey { field: &'static str, key: ConfigKey },
    SettingsOverlayKey { key: ConfigKey },
    RelativeSoundPath { field: &'static str, path: String },
    HomeDirectoryUnavailable { field: &'static str },
}

/// The human-readable message of a rejection.
pub open spec fn error_message(e: ConfigValidationError) -> Seq<char> {
    match e {
        ConfigValidationError::ZeroDuration { field } => field@ + " must be greater than zero"@,
        ConfigValidationError::DurationOverflow { field } => field@ + " is too large"@,
        ConfigValidationError::InvalidDuration { field } => field@
            + " must use MM:SS with minutes from 00 to 9999 and seconds from 00 to 59"@,
        ConfigValidationError::InvalidPositiveInteger { field } => field@ + " must be a positive integer"@,
        ConfigValidationError::IntegerOverflow { field } => field@ + " is too large"@,
        ConfigValidationError::ZeroLongBreakInterval => "long_break_interval must be greater than zero"@,
        ConfigValidationError::EmptyKeyBindings { field } => "keys."@ + field@ + " must contain at least one key"@,
        ConfigValidationError::ConflictingKeys { first, second } => "keys."@ + first@ + " conflicts with keys."@ + second@,
        ConfigValidationError::ReservedKey { field, key } => "keys."@ + field@ + " cannot use reserved key "@
            + key_stored_name(key),
        ConfigValidationError::SettingsOverlayKey { key } => "keys.settings cannot use fixed settings-overlay control "@
            + key_stored_name(key),
        ConfigValidationError::RelativeSoundPath { field, path } => field@
            + " must be an absolute path or start with ~/; got "@ + path@,
        ConfigValidationError::HomeDirectoryUnavailable { field } => "could not expand "@ + field@
            + " because the home directory is unavailable"@,
    }
}

impl ConfigValidationError {
    /// The human-readable message of this rejection.
    pub fn message(&self) -> (s: String)
        ensures
            s@ == error_message(*self),
    {
        let mut s = String::new();
        match self {
            ConfigValidationError::ZeroDuration { field } => {
                push_str(&mut s, field);
                push_str(&mut s, " must be greater than zero");
            },
            ConfigValidationError::DurationOverflow { field } => {
                push_str(&mut s, field);
                push_str(&mut s, " is too large");
            },
            ConfigValidationError::InvalidDuration { field } => {
                push_str(&mut s, field);
                push_str(&mut s, " must use MM:SS with minutes from 00 to 9999 and seconds from 00 to 59");
            },
            ConfigValidationError::InvalidPositiveInteger { field } => {
                push_str(&mut s, field);
                push_str(&mut s, " must be a positive integer");
            },
            ConfigValidationError::IntegerOverflow { field } => {
                push_str(&mut s, field);
                push_str(&mut s, " is too large");
            },
            ConfigValidationError::ZeroLongBreakInterval => {
                push_str(&mut s, "long_break_interval must be greater than zero");
            },
            ConfigValidationError::EmptyKeyBindings { field } => {
                push_str(&mut s, "keys.");
                push_str(&mut s, field);
                push_str(&mut s, " must contain at least one key");
            },
            ConfigValidationError::ConflictingKeys { first, second } => {
                push_str(&mut s, "keys.");
                push_str(&mut s, first);
                push_str(&mut s, " conflicts with keys.");
                push_str(&mut s, second);
            },
            ConfigValidationError::ReservedKey { field, key } => {
                push_str(&mut s, "keys.");
                push_str(&mut s, field);
                push_str(&mut s, " cannot use reserved key ");
                let name = key.stored_name();
                push_str(&mut s, name.as_str());
            },
            ConfigValidationError::SettingsOverlayKey { key } => {
                push_str(&mut s, "keys.settings cannot use fixed settings-overlay control ");
                let name = key.stored_name();
                push_str(&mut s, name.as_str());
            },
            ConfigValidationError::RelativeSoundPath { field, path } => {
                push_str(&mut s, field);
                push_str(&mut s, " must be an absolute path or start with ~/; got ");
                push_str(&mut s, path.as_str());
            },
            ConfigValidationError::HomeDirectoryUnavailable { field } => {
                push_str(&mut s, "could not expand ");
                push_str(&mut s, field);
                push_str(&mut s, " because the home directory is unavailable");
            },
        }
        assert(s@ =~= error_message(*self));
        s
    }
}

} // verus!
