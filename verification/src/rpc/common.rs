//! Messages shared by every service: identifiers, spans and retry policies.

use crate::retry::{nanos_of, policy, RetryLike, RetryView};
use crate::uuid::{lower, upper, UuidLike};
use vstd::prelude::*;

verus! {

/// An identifier on the wire: its two 64-bit halves.
#[derive(Clone, Copy, Debug, PartialEq, Eq, Structural)]
pub struct Uuid {
    pub hi: u64,
    pub lo: u64,
}

/// A signed span on the wire. Seconds and nanoseconds may each be negative
/// and the nanoseconds need not be below a second.
#[derive(Clone, Copy, Debug, PartialEq, Eq, Structural)]
pub struct Duration {
    pub seconds: i64,
    pub nanos: i32,
}

/// A retry policy on the wire. An absent interval or timeout stands for the
/// default.
#[derive(Clone, Copy, Debug, PartialEq, Eq)]
pub struct Retry {
    pub retry_max: u64,
    pub interval: Option<Duration>,
    pub timeout: Option<Duration>,
}

/// What `prost_types` makes of a wire span when it converts it to a standard
/// span: whole seconds and the nanoseconds beyond them, or nothing where the
/// wire span is negative.
pub uninterp spec fn std_duration(seconds: i64, nanos: i32) -> Option<(u64, u32)>;

/// The least number of seconds a wire span may hold to be converted. Below
/// it the span is negative whatever its nanoseconds are.
pub const SECONDS_MIN: i64 = -9_223_372_036_854_775_805;

impl UuidLike for Uuid {
    fn hi(&self) -> (h: u64)
        ensures
            h == self.hi,
    {
        self.hi
    }

    fn lo(&self) -> (l: u64)
        ensures
            l == self.lo,
    {
        self.lo
    }
}

impl Uuid {
    /// The wire form of `d`.
    pub fn from(d: crate::uuid::Uuid) -> (u: Self)
        ensures
            u.hi == upper(d@),
            u.lo == lower(d@),
    {
        let (hi, lo) = d.split();
        Self { hi, lo }
    }
}

impl Duration {
    /// The standard span this wire span stands for: nothing where it is
    /// negative.
    pub open spec fn std_spec(&self) -> Option<(u64, u32)> {
        if self.seconds < SECONDS_MIN {
            None
        } else {
            std_duration(self.seconds, self.nanos)
        }
    }

    /// The view of the standard span this wire span stands for.
    pub open spec fn std_nanos(&self) -> Option<nat> {
        match self.std_spec() {
            Some(p) => Some(p.0 as nat * 1_000_000_000 + p.1 as nat),
            None => None,
        }
    }

    /// Converts the wire span to a standard span. Negative spans give
    /// nothing.
    pub fn to_std(&self) -> (r: Option<crate::time::Duration>)
        ensures
            r is Some <==> self.std_spec() is Some,
            r matches Some(d) ==> self.std_spec() == Some((d.secs(), d.nanos())),
            r matches Some(d) ==> self.std_nanos() == Some(d@),
    {
        if self.seconds < SECONDS_MIN {
            None
        } else {
            match std_parts(self.seconds, self.nanos) {
                Some((secs, nanos)) => {
                    let d = crate::time::Duration::new(secs, nanos);
                    proof {
                        if let Some(d) = d {
                            d.lemma_view();
                        }
                    }
                    d
                },
                None => None,
            }
        }
    }
}

impl Retry {
    /// The interval in nanoseconds, where there is a usable one.
    pub open spec fn interval_nanos(&self) -> Option<nat> {
        match self.interval {
            Some(d) => d.std_nanos(),
            None => None,
        }
    }

    /// The timeout in nanoseconds, where there is a usable one.
    pub open spec fn timeout_nanos(&self) -> Option<nat> {
        match self.timeout {
            Some(d) => d.std_nanos(),
            None => None,
        }
    }

    /// The policy that this wire policy stands for: an absent or negative
    /// span gets its default.
    pub open spec fn policy(&self) -> RetryView {
        policy(self.retry_max, self.interval_nanos(), self.timeout_nanos())
    }
}

impl RetryLike for Retry {
    fn as_retry_max(&self) -> (n: u64)
        ensures
            n == self.retry_max,
    {
        self.retry_max
    }

    fn as_interval(&self) -> (d: Option<crate::time::Duration>)
        ensures
            nanos_of(d) == self.interval_nanos(),
    {
        match self.interval {
            Some(d) => d.to_std(),
            None => None,
        }
    }

    fn as_timeout(&self) -> (d: Option<crate::time::Duration>)
        ensures
            nanos_of(d) == self.timeout_nanos(),
    {
        match self.timeout {
            Some(d) => d.to_std(),
            None => None,
        }
    }
}

/// Converts a wire span with `core::time::Duration::try_from`, as
/// `prost_types` implements it for its `Duration`, and reads the seconds and
/// the sub-second nanoseconds of what comes back. The conversion brings the
/// span to its canonical form and fails where that is negative. A span that
/// is canonical and not negative comes back unchanged; one that is canonical
/// and negative gives nothing. The least numbers of seconds are left out:
/// negating them overflows.
#[verifier::external_body]
fn std_parts(seconds: i64, nanos: i32) -> (r: Option<(u64, u32)>)
    requires
        seconds >= SECONDS_MIN,
    ensures
        r == std_duration(seconds, nanos),
        r matches Some(p) ==> p.1 < 1_000_000_000,
        0 <= seconds && 0 <= nanos < 1_000_000_000 ==> r == Some((seconds as u64, nanos as u32)),
        seconds <= 0 && -1_000_000_000 < nanos <= 0 && (seconds < 0 || nanos < 0) ==> r is None,
{
    let d = prost_types::Duration { seconds, nanos };
    match core::time::Duration::try_from(d) {
        Ok(d) => Some((d.as_secs(), d.subsec_nanos())),
        Err(_) => None,
    }
}

} // verus!
