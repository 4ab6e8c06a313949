//! The retry policy of a bounded poll: how often to try, how long to wait
//! between tries and when to give up.

use crate::status::{Code, Status};
use crate::time::Duration;
use vstd::prelude::*;

verus! {

/// The interval between tries where the caller names none, in microseconds.
pub const INTERVAL_DEFAULT_MICROS: u64 = 100;

/// The shortest interval between tries, in nanoseconds. It keeps a poll from
/// spinning.
pub const INTERVAL_MIN_NANOS: u64 = 1;

/// The timeout where the caller names none, in milliseconds.
pub const TIMEOUT_DEFAULT_MILLIS: u64 = 100;

/// The interval between tries where the caller names none: 100 microseconds.
pub fn interval_default() -> (d: Duration)
    ensures
        d@ == 100_000,
{
    Duration::from_micros(INTERVAL_DEFAULT_MICROS)
}

/// The shortest interval between tries: one nanosecond.
pub fn interval_min() -> (d: Duration)
    ensures
        d@ == 1,
{
    Duration::from_nanos(INTERVAL_MIN_NANOS)
}

/// The timeout where the caller names none: 100 milliseconds.
pub fn timeout_default() -> (d: Duration)
    ensures
        d@ == 100_000_000,
{
    Duration::from_millis(TIMEOUT_DEFAULT_MILLIS)
}

/// A retry policy. It is fixed once made and copied for each call.
#[derive(Clone, Copy, Debug, PartialEq, Eq, Structural)]
pub struct Retry {
    retry_max: u64,
    interval: Duration,
    timeout: Duration,
}

/// A retry policy as numbers: the most tries, and the interval and the
/// timeout in nanoseconds.
pub struct RetryView {
    pub retry_max: u64,
    pub interval: nat,
    pub timeout: nat,
}

impl View for Retry {
    type V = RetryView;

    closed spec fn view(&self) -> RetryView {
        RetryView {
            retry_max: self.retry_max,
            interval: self.interval@,
            timeout: self.timeout@,
        }
    }
}

/// The policy that the three parts of a request stand for: an absent
/// interval is 100 microseconds, an absent timeout 100 milliseconds.
pub open spec fn policy(retry_max: u64, interval: Option<nat>, timeout: Option<nat>) -> RetryView {
    RetryView {
        retry_max,
        interval: match interval {
            Some(i) => i,
            None => 100_000,
        },
        timeout: match timeout {
            Some(t) => t,
            None => 100_000_000,
        },
    }
}

/// Anything that carries the parts of a retry policy, each span optional.
pub trait RetryLike {
    /// The most tries.
    fn as_retry_max(&self) -> u64;

    /// The interval between tries, where there is a usable one.
    fn as_interval(&self) -> Option<Duration>;

    /// The timeout, where there is a usable one.
    fn as_timeout(&self) -> Option<Duration>;
}

/// Whether `p` is the policy that `r` carries: the policy that stands for
/// what `as_retry_max`, `as_interval` and `as_timeout` give for `r`.
pub open spec fn carried<R: RetryLike>(r: &R, p: RetryView) -> bool {
    exists|n: u64, i: Option<Duration>, t: Option<Duration>|
        call_ensures(R::as_retry_max, (r,), n) && call_ensures(R::as_interval, (r,), i)
            && call_ensures(R::as_timeout, (r,), t) && p == policy(n, nanos_of(i), nanos_of(t))
}

/// The view of an optional span.
pub open spec fn nanos_of(d: Option<Duration>) -> Option<nat> {
    match d {
        Some(d) => Some(d@),
        None => None,
    }
}

impl Retry {
    /// The policy with the given most tries, interval and timeout, each span
    /// replaced by its default where it is absent.
    pub fn new(retry_max: u64, interval: Option<Duration>, timeout: Option<Duration>) -> (r: Self)
        ensures
            r@ == policy(retry_max, nanos_of(interval), nanos_of(timeout)),
    {
        let interval: Duration = match interval {
            Some(d) => d,
            None => interval_default(),
        };
        let timeout: Duration = match timeout {
            Some(d) => d,
            None => timeout_default(),
        };
        Self { retry_max, interval, timeout }
    }

    /// The most tries of a poll.
    pub fn as_retry_max(&self) -> (n: u64)
        ensures
            n == self@.retry_max,
    {
        self.retry_max
    }

    /// The interval between two tries: the policy's own, but never shorter
    /// than one nanosecond.
    pub fn as_interval(&self) -> (d: Duration)
        ensures
            d@ == if self@.interval >= 1 { self@.interval } else { 1 },
            d@ >= 1,
    {
        self.interval.max(interval_min())
    }

    /// The time after which a poll gives up.
    pub fn as_timeout(&self) -> (d: Duration)
        ensures
            d@ == self@.timeout,
    {
        self.timeout
    }

    /// The policy that `r` carries, with the defaults where it names no
    /// usable span.
    pub fn from<R: RetryLike>(r: &R) -> (p: Self)
        ensures
            carried(r, p@),
    {
        let retry_max: u64 = r.as_retry_max();
        let interval: Option<Duration> = r.as_interval();
        let timeout: Option<Duration> = r.as_timeout();
        Self::new(retry_max, interval, timeout)
    }

    /// The policy that `o` carries, or an invalid-argument failure where
    /// there is none.
    pub fn try_from<R: RetryLike>(o: Option<&R>) -> (res: Result<Self, Status>)
        ensures
            match o {
                Some(r) => res matches Ok(p) && carried(r, p@),
                None => res matches Err(e) && e.is(Code::InvalidArgument, "retry missing"@),
            },
    {
        match o {
            None => Err(Status::invalid_argument("retry missing")),
            Some(r) => Ok(Self::from(r)),
        }
    }
}

} // verus!
