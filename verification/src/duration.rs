//! Monotonic time spans and points measured in nanoseconds.
use vstd::prelude::*;

verus! {

/// Nanoseconds in one second.
pub const NANOS_PER_SEC: u128 = 1_000_000_000;

/// Nanoseconds in one millisecond.
pub const NANOS_PER_MILLI: u128 = 1_000_000;

/// The largest span: `u64::MAX` whole seconds and the largest sub-second part.
pub open spec fn max_nanos() -> nat {
    (u64::MAX as nat) * 1_000_000_000 + 999_999_999
}

/// A non-negative span of time with nanosecond precision.
#[derive(Debug, Clone, Copy, PartialEq, Eq, Structural)]
pub struct Duration {
    nanos: u128,
}

impl View for Duration {
    type V = nat;

    /// The span in nanoseconds.
    closed spec fn view(&self) -> nat {
        self.nanos as nat
    }
}

impl Duration {
    #[verifier::type_invariant]
    spec fn bounded(self) -> bool {
        self.nanos as nat <= max_nanos()
    }

    /// The empty span.
    pub fn zero() -> (d: Duration)
        ensures
            d@ == 0,
    {
        Duration { nanos: 0 }
    }

    pub fn from_secs(secs: u64) -> (d: Duration)
        ensures
            d@ == secs as nat * 1_000_000_000,
    {
        Duration { nanos: secs as u128 * NANOS_PER_SEC }
    }

    pub fn from_millis(millis: u64) -> (d: Duration)
        ensures
            d@ == millis as nat * 1_000_000,
    {
        Duration { nanos: millis as u128 * NANOS_PER_MILLI }
    }

    pub fn from_nanos(nanos: u64) -> (d: Duration)
        ensures
            d@ == nanos as nat,
    {
        Duration { nanos: nanos as u128 }
    }

    /// Whole seconds of the span.
    pub fn as_secs(&self) -> (s: u64)
        ensures
            s as nat == self@ / 1_000_000_000,
    {
        proof {
            use_type_invariant(*self);
        }
        (self.nanos / NANOS_PER_SEC) as u64
    }

    /// The part of the span below one second, in nanoseconds.
    pub fn subsec_nanos(&self) -> (n: u32)
        ensures
            n as nat == self@ % 1_000_000_000,
    {
        (self.nanos % NANOS_PER_SEC) as u32
    }

    /// Whether this span is strictly shorter than `other`.
    pub fn lt(&self, other: &Duration) -> (b: bool)
        ensures
            b == (self@ < other@),
    {
        self.nanos < other.nanos
    }

    /// Whether this span is at most `other`.
    pub fn le(&self, other: &Duration) -> (b: bool)
        ensures
            b == (self@ <= other@),
    {
        self.nanos <= other.nanos
    }

    /// The difference, or the empty span when `other` is longer.
    pub fn saturating_sub(&self, other: Duration) -> (d: Duration)
        ensures
            d@ == if self@ >= other@ { (self@ - other@) as nat } else { 0 },
    {
        proof {
            use_type_invariant(*self);
        }
        if self.nanos >= other.nanos {
            Duration { nanos: self.nanos - other.nanos }
        } else {
            Duration { nanos: 0 }
        }
    }

    /// The sum, or `None` when it exceeds the largest span.
    pub fn checked_add(&self, other: Duration) -> (d: Option<Duration>)
        ensures
            d matches Some(s) ==> s@ == self@ + other@,
            d is None <==> self@ + other@ > max_nanos(),
    {
        proof {
            use_type_invariant(*self);
            use_type_invariant(other);
        }
        let sum = self.nanos + other.nanos;
        if sum <= u64::MAX as u128 * NANOS_PER_SEC + 999_999_999 {
            Some(Duration { nanos: sum })
        } else {
            None
        }
    }
}

/// A point on a monotonic clock, measured from an arbitrary origin.
#[derive(Debug, Clone, Copy, PartialEq, Eq, Structural)]
pub struct Instant {
    since_origin: Duration,
}

impl View for Instant {
    type V = nat;

    /// Nanoseconds since the clock's origin.
    closed spec fn view(&self) -> nat {
        self.since_origin@
    }
}

impl Instant {
    /// The point `since_origin` after the clock's origin.
    pub fn from_duration(since_origin: Duration) -> (i: Instant)
        ensures
            i@ == since_origin@,
    {
        Instant { since_origin }
    }

    /// The point `span` after this one, or `None` beyond the clock's range.
    pub fn checked_add(&self, span: Duration) -> (i: Option<Instant>)
        ensures
            i matches Some(p) ==> p@ == self@ + span@,
            i is None <==> self@ + span@ > max_nanos(),
    {
        match self.since_origin.checked_add(span) {
            Some(d) => Some(Instant { since_origin: d }),
            None => None,
        }
    }

    /// The span from `earlier` to this point, or `None` when `earlier` is later.
    pub fn checked_duration_since(&self, earlier: Instant) -> (d: Option<Duration>)
        ensures
            d matches Some(s) ==> s@ == self@ - earlier@,
            d is None <==> self@ < earlier@,
    {
        if earlier.since_origin.le(&self.since_origin) {
            Some(self.since_origin.saturating_sub(earlier.since_origin))
        } else {
            None
        }
    }
}

} // verus!
