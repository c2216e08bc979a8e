//! Validated timer presets.
use vstd::prelude::*;

use super::error::ConfigValidationError;
use crate::duration::Duration;
use crate::text::{
    all_digits, clock_text, decimal2, digits_only, digits_value, find_char, index_from, is_digit,
    lemma_decimal2_reads_back, lemma_index_from_first, parse_digits,
};

verus! {

/// Seconds in one minute.
pub const SECONDS_PER_MINUTE: u64 = 60;

/// The longest accepted session: 9999 minutes and 59 seconds.
pub const MAX_DURATION_SECONDS: u64 = 599_999;

/// The number of seconds an `MM:SS` text denotes, if it is well formed: two to four minute
/// digits, a colon, two second digits, and seconds below sixty.
pub open spec fn duration_text_seconds(v: Seq<char>) -> Option<nat> {
    match index_from(v, ':', 0) {
        None => None,
        Some(p) => {
            let minutes = v.subrange(0, p);
            let seconds = v.subrange(p + 1, v.len() as int);
            if 2 <= minutes.len() <= 4 && seconds.len() == 2 && all_digits(minutes) && all_digits(seconds)
                && digits_value(seconds) < 60 {
                Some(digits_value(minutes) * 60 + digits_value(seconds))
            } else {
                None
            }
        },
    }
}

/// Reads an `MM:SS` duration into seconds.
pub fn parse_duration(value: &str, field: &'static str) -> (r: Result<u64, ConfigValidationError>)
    ensures
        r matches Ok(secs) ==> duration_text_seconds(value@) == Some(secs as nat),
        r matches Err(e) ==> e == (ConfigValidationError::InvalidDuration { field }),
        r is Ok <==> duration_text_seconds(value@) is Some,
{
    let p = match find_char(value, ':') {
        Some(p) => p,
        None => return Err(ConfigValidationError::InvalidDuration { field }),
    };
    let n = value.unicode_len();
    let minutes = value.substring_char(0, p);
    let seconds = value.substring_char(p + 1, n);
    let m_len = minutes.unicode_len();
    let s_len = seconds.unicode_len();
    if m_len < 2 || m_len > 4 || s_len != 2 || !digits_only(minutes) || !digits_only(seconds) {
        return Err(ConfigValidationError::InvalidDuration { field });
    }
    proof {
        lemma_digits_bound(minutes@);
        lemma_digits_bound(seconds@);
    }
    let m = match parse_digits(minutes) {
        Some(m) => m,
        None => return Err(ConfigValidationError::InvalidDuration { field }),
    };
    let s = match parse_digits(seconds) {
        Some(s) => s,
        None => return Err(ConfigValidationError::InvalidDuration { field }),
    };
    if s >= 60 {
        return Err(ConfigValidationError::InvalidDuration { field });
    }
    Ok(m * 60 + s)
}

/// A length written as `MM:SS` reads back as the same number of seconds, for every length
/// up to 9999:59.
pub proof fn lemma_duration_text_round_trip(seconds: nat)
    requires
        seconds <= 599_999,
    ensures
        duration_text_seconds(clock_text(seconds)) == Some(seconds),
{
    let m = seconds / 60;
    let s = seconds % 60;
    lemma_decimal2_reads_back(m);
    lemma_decimal2_reads_back(s);
    let t = clock_text(seconds);
    let k = decimal2(m).len() as int;
    assert(t[k] == ':');
    assert forall|j: int| 0 <= j < k implies t[j] != ':' by {
        assert(t[j] == decimal2(m)[j]);
        assert(is_digit(decimal2(m)[j]));
    }
    lemma_index_from_first(t, ':', 0, k);
    assert(t.subrange(0, k) =~= decimal2(m));
    assert(t.subrange(k + 1, t.len() as int) =~= decimal2(s));
}

/// Digits of a short text denote a value below ten to the number of digits.
proof fn lemma_digits_bound(s: Seq<char>)
    requires
        all_digits(s),
        s.len() <= 4,
    ensures
        s.len() <= 1 ==> digits_value(s) < 10,
        s.len() <= 2 ==> digits_value(s) < 100,
        s.len() <= 3 ==> digits_value(s) < 1000,
        digits_value(s) < 10000,
    decreases s.len(),
{
    if s.len() > 0 {
        assert(all_digits(s.drop_last()));
        lemma_digits_bound(s.drop_last());
        let v = digits_value(s.drop_last());
        let d = crate::text::digit_value(s.last());
        assert(crate::text::is_digit(s.last()));
        assert(d < 10);
        assert(digits_value(s) == v * 10 + d);
        if s.len() == 1 {
            assert(v == 0);
        }
    }
}

/// The abstract timer settings.
pub struct TimerSettings {
    pub focus_seconds: nat,
    pub short_break_seconds: nat,
    pub long_break_seconds: nat,
    pub long_break_interval: nat,
    pub autostart_breaks: bool,
    pub autostart_focus: bool,
}

/// Why timer settings are rejected, or `None` when they are valid: each length must be
/// positive and at most 9999:59, checked in order, then the interval must be positive.
pub open spec fn timer_error(focus: nat, short_break: nat, long_break: nat, interval: nat) -> Option<ConfigValidationError> {
    if focus == 0 {
        Some(ConfigValidationError::ZeroDuration { field: "focus_duration" })
    } else if focus > 599_999 {
        Some(ConfigValidationError::DurationOverflow { field: "focus_duration" })
    } else if short_break == 0 {
        Some(ConfigValidationError::ZeroDuration { field: "short_break_duration" })
    } else if short_break > 599_999 {
        Some(ConfigValidationError::DurationOverflow { field: "short_break_duration" })
    } else if long_break == 0 {
        Some(ConfigValidationError::ZeroDuration { field: "long_break_duration" })
    } else if long_break > 599_999 {
        Some(ConfigValidationError::DurationOverflow { field: "long_break_duration" })
    } else if interval == 0 {
        Some(ConfigValidationError::ZeroLongBreakInterval)
    } else {
        None
    }
}

/// Whether settings satisfy the timer rules.
pub open spec fn timer_valid(t: TimerSettings) -> bool {
    timer_error(t.focus_seconds, t.short_break_seconds, t.long_break_seconds, t.long_break_interval) is None
}

/// The result of validating `t`.
pub open spec fn validated(t: TimerSettings, r: Result<TimerConfig, ConfigValidationError>) -> bool {
    match timer_error(t.focus_seconds, t.short_break_seconds, t.long_break_seconds, t.long_break_interval) {
        Some(e) => r == Err::<TimerConfig, ConfigValidationError>(e),
        None => r matches Ok(c) && c@ == t,
    }
}

/// Valid lengths are at most 9999:59.
pub proof fn lemma_lengths_bounded(t: TimerSettings)
    requires
        timer_valid(t),
    ensures
        t.focus_seconds <= 599_999,
        t.short_break_seconds <= 599_999,
        t.long_break_seconds <= 599_999,
        t.long_break_interval >= 1,
{
}

/// Validated timer presets used by the application.
#[derive(Debug, Clone, Copy, PartialEq, Eq, Structural)]
pub struct TimerConfig {
    focus_seconds: u64,
    short_break_seconds: u64,
    long_break_seconds: u64,
    long_break_interval: u32,
    autostart_breaks: bool,
    autostart_focus: bool,
}

impl View for TimerConfig {
    type V = TimerSettings;

    closed spec fn view(&self) -> TimerSettings {
        TimerSettings {
            focus_seconds: self.focus_seconds as nat,
            short_break_seconds: self.short_break_seconds as nat,
            long_break_seconds: self.long_break_seconds as nat,
            long_break_interval: self.long_break_interval as nat,
            autostart_breaks: self.autostart_breaks,
            autostart_focus: self.autostart_focus,
        }
    }
}

impl TimerConfig {
    /// The default presets: 25, 5 and 15 minutes, a long break every fourth focus session.
    pub open spec fn default_spec() -> TimerSettings {
        TimerSettings {
            focus_seconds: 1500,
            short_break_seconds: 300,
            long_break_seconds: 900,
            long_break_interval: 4,
            autostart_breaks: false,
            autostart_focus: false,
        }
    }

    #[verifier::type_invariant]
    spec fn inv(self) -> bool {
        timer_valid(self@)
    }

    /// Configurations with the same settings are the same.
    pub proof fn lemma_view_injective(a: TimerConfig, b: TimerConfig)
        requires
            a@ == b@,
        ensures
            a == b,
    {
    }

    /// Timer presets from whole minutes.
    pub fn new(
        focus_minutes: u64,
        short_break_minutes: u64,
        long_break_minutes: u64,
        long_break_interval: u32,
    ) -> (r: Result<TimerConfig, ConfigValidationError>)
        ensures
            focus_minutes * 60 > u64::MAX ==> r == Err::<TimerConfig, ConfigValidationError>(
                ConfigValidationError::DurationOverflow { field: "focus_duration" }),
            focus_minutes * 60 <= u64::MAX && short_break_minutes * 60 > u64::MAX
                ==> r == Err::<TimerConfig, ConfigValidationError>(
                ConfigValidationError::DurationOverflow { field: "short_break_duration" }),
            focus_minutes * 60 <= u64::MAX && short_break_minutes * 60 <= u64::MAX && long_break_minutes * 60 > u64::MAX
                ==> r == Err::<TimerConfig, ConfigValidationError>(
                ConfigValidationError::DurationOverflow { field: "long_break_duration" }),
            focus_minutes * 60 <= u64::MAX && short_break_minutes * 60 <= u64::MAX && long_break_minutes * 60 <= u64::MAX
                ==> validated(TimerSettings {
                    focus_seconds: (focus_minutes * 60) as nat,
                    short_break_seconds: (short_break_minutes * 60) as nat,
                    long_break_seconds: (long_break_minutes * 60) as nat,
                    long_break_interval: long_break_interval as nat,
                    autostart_breaks: false,
                    autostart_focus: false,
                }, r),
    {
        let focus = match focus_minutes.checked_mul(SECONDS_PER_MINUTE) {
            Some(v) => v,
            None => return Err(ConfigValidationError::DurationOverflow { field: "focus_duration" }),
        };
        let short_break = match short_break_minutes.checked_mul(SECONDS_PER_MINUTE) {
            Some(v) => v,
            None => return Err(ConfigValidationError::DurationOverflow { field: "short_break_duration" }),
        };
        let long_break = match long_break_minutes.checked_mul(SECONDS_PER_MINUTE) {
            Some(v) => v,
            None => return Err(ConfigValidationError::DurationOverflow { field: "long_break_duration" }),
        };
        TimerConfig::from_seconds(focus, short_break, long_break, long_break_interval)
    }

    /// Timer presets from whole seconds, without autostart.
    pub fn from_seconds(
        focus_seconds: u64,
        short_break_seconds: u64,
        long_break_seconds: u64,
        long_break_interval: u32,
    ) -> (r: Result<TimerConfig, ConfigValidationError>)
        ensures
            validated(TimerSettings {
                focus_seconds: focus_seconds as nat,
                short_break_seconds: short_break_seconds as nat,
                long_break_seconds: long_break_seconds as nat,
                long_break_interval: long_break_interval as nat,
                autostart_breaks: false,
                autostart_focus: false,
            }, r),
    {
        TimerConfig::checked(focus_seconds, short_break_seconds, long_break_seconds, long_break_interval, false, false)
    }

    fn checked(
        focus_seconds: u64,
        short_break_seconds: u64,
        long_break_seconds: u64,
        long_break_interval: u32,
        autostart_breaks: bool,
        autostart_focus: bool,
    ) -> (r: Result<TimerConfig, ConfigValidationError>)
        ensures
            validated(TimerSettings {
                focus_seconds: focus_seconds as nat,
                short_break_seconds: short_break_seconds as nat,
                long_break_seconds: long_break_seconds as nat,
                long_break_interval: long_break_interval as nat,
                autostart_breaks,
                autostart_focus,
            }, r),
    {
        if focus_seconds == 0 {
            return Err(ConfigValidationError::ZeroDuration { field: "focus_duration" });
        }
        if focus_seconds > MAX_DURATION_SECONDS {
            return Err(ConfigValidationError::DurationOverflow { field: "focus_duration" });
        }
        if short_break_seconds == 0 {
            return Err(ConfigValidationError::ZeroDuration { field: "short_break_duration" });
        }
        if short_break_seconds > MAX_DURATION_SECONDS {
            return Err(ConfigValidationError::DurationOverflow { field: "short_break_duration" });
        }
        if long_break_seconds == 0 {
            return Err(ConfigValidationError::ZeroDuration { field: "long_break_duration" });
        }
        if long_break_seconds > MAX_DURATION_SECONDS {
            return Err(ConfigValidationError::DurationOverflow { field: "long_break_duration" });
        }
        if long_break_interval == 0 {
            return Err(ConfigValidationError::ZeroLongBreakInterval);
        }
        Ok(TimerConfig {
            focus_seconds,
            short_break_seconds,
            long_break_seconds,
            long_break_interval,
            autostart_breaks,
            autostart_focus,
        })
    }

    /// The default presets: 25, 5 and 15 minutes, a long break every fourth focus session.
    pub fn default_timer() -> (t: TimerConfig)
        ensures
            t@ == (TimerSettings {
                focus_seconds: 1500,
                short_break_seconds: 300,
                long_break_seconds: 900,
                long_break_interval: 4,
                autostart_breaks: false,
                autostart_focus: false,
            }),
    {
        TimerConfig {
            focus_seconds: 25 * SECONDS_PER_MINUTE,
            short_break_seconds: 5 * SECONDS_PER_MINUTE,
            long_break_seconds: 15 * SECONDS_PER_MINUTE,
            long_break_interval: 4,
            autostart_breaks: false,
            autostart_focus: false,
        }
    }

    /// These presets with the given autostart choices.
    pub fn with_autostart(self, breaks: bool, focus: bool) -> (t: TimerConfig)
        ensures
            t@ == (TimerSettings { autostart_breaks: breaks, autostart_focus: focus, ..self@ }),
    {
        proof {
            use_type_invariant(self);
        }
        TimerConfig { autostart_breaks: breaks, autostart_focus: focus, ..self }
    }

    pub fn autostart_breaks(&self) -> (b: bool)
        ensures
            b == self@.autostart_breaks,
    {
        self.autostart_breaks
    }

    pub fn autostart_focus(&self) -> (b: bool)
        ensures
            b == self@.autostart_focus,
    {
        self.autostart_focus
    }

    pub fn focus_seconds(&self) -> (s: u64)
        ensures
            s == self@.focus_seconds,
            timer_valid(self@),
    {
        proof {
            use_type_invariant(self);
        }
        self.focus_seconds
    }

    pub fn short_break_seconds(&self) -> (s: u64)
        ensures
            s == self@.short_break_seconds,
            timer_valid(self@),
    {
        proof {
            use_type_invariant(self);
        }
        self.short_break_seconds
    }

    pub fn long_break_seconds(&self) -> (s: u64)
        ensures
            s == self@.long_break_seconds,
            timer_valid(self@),
    {
        proof {
            use_type_invariant(self);
        }
        self.long_break_seconds
    }

    pub fn focus_duration(&self) -> (d: Duration)
        ensures
            d@ == self@.focus_seconds * 1_000_000_000,
    {
        Duration::from_secs(self.focus_seconds)
    }

    pub fn short_break_duration(&self) -> (d: Duration)
        ensures
            d@ == self@.short_break_seconds * 1_000_000_000,
    {
        Duration::from_secs(self.short_break_seconds)
    }

    pub fn long_break_duration(&self) -> (d: Duration)
        ensures
            d@ == self@.long_break_seconds * 1_000_000_000,
    {
        Duration::from_secs(self.long_break_seconds)
    }

    /// How many focus sessions separate long breaks; always positive.
    pub fn long_break_interval(&self) -> (n: u32)
        ensures
            n == self@.long_break_interval,
            n > 0,
    {
        proof {
            use_type_invariant(self);
        }
        self.long_break_interval
    }

    /// These presets with a new focus length, if it is valid.
    pub fn with_focus_duration(&self, seconds: u64) -> (r: Result<TimerConfig, ConfigValidationError>)
        ensures
            validated(TimerSettings { focus_seconds: seconds as nat, ..self@ }, r),
    {
        proof {
            use_type_invariant(self);
        }
        TimerConfig::checked(seconds, self.short_break_seconds, self.long_break_seconds, self.long_break_interval,
            self.autostart_breaks, self.autostart_focus)
    }

    /// These presets with a new short-break length, if it is valid.
    pub fn with_short_break_duration(&self, seconds: u64) -> (r: Result<TimerConfig, ConfigValidationError>)
        ensures
            validated(TimerSettings { short_break_seconds: seconds as nat, ..self@ }, r),
    {
        proof {
            use_type_invariant(self);
        }
        TimerConfig::checked(self.focus_seconds, seconds, self.long_break_seconds, self.long_break_interval,
            self.autostart_breaks, self.autostart_focus)
    }

    /// These presets with a new long-break length, if it is valid.
    pub fn with_long_break_duration(&self, seconds: u64) -> (r: Result<TimerConfig, ConfigValidationError>)
        ensures
            validated(TimerSettings { long_break_seconds: seconds as nat, ..self@ }, r),
    {
        proof {
            use_type_invariant(self);
        }
        TimerConfig::checked(self.focus_seconds, self.short_break_seconds, seconds, self.long_break_interval,
            self.autostart_breaks, self.autostart_focus)
    }

    /// These presets with a new long-break interval, if it is positive.
    pub fn with_long_break_interval(&self, interval: u32) -> (r: Result<TimerConfig, ConfigValidationError>)
        ensures
            validated(TimerSettings { long_break_interval: interval as nat, ..self@ }, r),
    {
        proof {
            use_type_invariant(self);
        }
        TimerConfig::checked(self.focus_seconds, self.short_break_seconds, self.long_break_seconds, interval,
            self.autostart_breaks, self.autostart_focus)
    }
}

impl Default for TimerConfig {
    fn default() -> (t: TimerConfig)
        ensures
            t@ == (TimerSettings {
                focus_seconds: 1500,
                short_break_seconds: 300,
                long_break_seconds: 900,
                long_break_interval: 4,
                autostart_breaks: false,
                autostart_focus: false,
            }),
    {
        TimerConfig::default_timer()
    }
}

/// The stored `MM:SS` text of a length in seconds.
pub fn format_duration(seconds: u64) -> (s: String)
    ensures
        s@ == crate::text::clock_text(seconds as nat),
{
    let mut s = String::new();
    crate::text::push_clock(&mut s, seconds);
    assert(s@ =~= crate::text::clock_text(seconds as nat));
    s
}

} // verus!
