//! The bounded poll: wait one tick, check the deadline, try once, and go
//! round again only where the try found nothing.
//!
//! A polling task alternates waiting and trying with the decisions made
//! here. It starts with [`Event::Start`], does what the returned
//! [`Action`] says and reports back what happened, until it is told to emit
//! its single outcome or to close without one.

use crate::retry::Retry;
use crate::status::{Code, Status};
use crate::text::{decimal, push_decimal};
use crate::time::Duration;
use vstd::prelude::*;
use vstd::string::*;

verus! {

/// What happened since the last decision.
#[derive(Debug, PartialEq, Eq)]
pub enum Event<T> {
    /// The poll begins.
    Start,
    /// One tick has passed. The time elapsed since the poll began, or nothing
    /// where the clock could not tell.
    Tick(Option<Duration>),
    /// One try was made, with this result.
    Reply(Result<T, Status>),
}

/// What drives a poll that makes its tries itself.
#[derive(Clone, Copy, Debug, PartialEq, Eq)]
pub enum Pulse {
    /// The poll begins.
    Start,
    /// One tick has passed. The time elapsed since the poll began, or nothing
    /// where the clock could not tell.
    Tick(Option<Duration>),
}

/// What the polling task does next.
#[derive(Debug, PartialEq, Eq)]
pub enum Action<T> {
    /// Wait one tick and read the clock.
    Wait,
    /// Try once.
    Try,
    /// Deliver this single outcome and end.
    Emit(Result<T, Status>),
    /// End without an outcome.
    Close,
}

/// What a decision amounts to, apart from the wording of failures.
pub enum Decision<T> {
    /// Wait one tick and read the clock.
    Wait,
    /// Try once.
    Try,
    /// Deliver what the try found.
    Deliver(T),
    /// Pass on the failure of the try.
    Fail(Status),
    /// Fail because the clock could not tell the elapsed time.
    ClockBroken,
    /// Fail because `elapsed` is past the timeout, after `tried` tries.
    Deadline { elapsed: Duration, tried: u64 },
    /// End without an outcome.
    Close,
}

/// The state of a poll as numbers.
pub struct PollerView {
    /// The most tries.
    pub retry_max: u64,
    /// The timeout in nanoseconds.
    pub timeout: nat,
    /// The tries made so far that found nothing.
    pub tried: u64,
}

/// The state of one poll.
#[derive(Clone, Copy, Debug, PartialEq, Eq)]
pub struct Poller {
    retry_max: u64,
    timeout: Duration,
    tried: u64,
}

/// The text of the failure of a poll that ran past its timeout.
pub open spec fn deadline_text(elapsed: Duration, tried: u64) -> Seq<char> {
    "timeout. elapsed="@ + elapsed.debug() + ", tried: "@ + decimal(tried as nat)
}

/// The verdict on a clock reading: nothing where the poll may go on.
pub open spec fn overdue<T>(timeout: nat, elapsed: Option<Duration>, tried: u64) -> Option<
    Decision<T>,
> {
    match elapsed {
        None => Some(Decision::ClockBroken),
        Some(e) => if e@ > timeout {
            Some(Decision::Deadline { elapsed: e, tried })
        } else {
            None
        },
    }
}

/// The state after `ev` and the decision taken on it.
pub open spec fn decide<T>(p: PollerView, ev: Event<T>) -> (PollerView, Decision<T>) {
    match ev {
        Event::Start => (
            p,
            if p.tried < p.retry_max {
                Decision::Wait
            } else {
                Decision::Close
            },
        ),
        Event::Tick(elapsed) => match overdue::<T>(p.timeout, elapsed, p.tried) {
            Some(d) => (p, d),
            None => (p, Decision::Try),
        },
        Event::Reply(Ok(v)) => (p, Decision::Deliver(v)),
        Event::Reply(Err(s)) => if s.code == Code::NotFound {
            missed(p)
        } else {
            (p, Decision::Fail(s))
        },
    }
}

/// The state and the decision after a try that found nothing.
pub open spec fn missed<T>(p: PollerView) -> (PollerView, Decision<T>) {
    if p.tried < p.retry_max {
        (
            PollerView { tried: (p.tried + 1) as u64, ..p },
            if p.tried + 1 < p.retry_max {
                Decision::Wait
            } else {
                Decision::Close
            },
        )
    } else {
        (p, Decision::Close)
    }
}

/// How a whole poll ends when the clock reads `clock(i)` after the tick
/// before try `i` and try `i` returns `source(i)`.
pub open spec fn run<T>(
    p: PollerView,
    clock: spec_fn(u64) -> Option<Duration>,
    source: spec_fn(u64) -> Result<T, Status>,
) -> Decision<T>
    decreases p.retry_max - p.tried,
{
    if p.tried >= p.retry_max {
        Decision::Close
    } else {
        let ticked = decide::<T>(p, Event::Tick(clock(p.tried)));
        if ticked.1 is Try {
            let replied = decide(ticked.0, Event::Reply(source(p.tried)));
            if replied.1 is Wait {
                run(replied.0, clock, source)
            } else {
                replied.1
            }
        } else {
            ticked.1
        }
    }
}

/// How many tries a whole poll makes.
pub open spec fn tries<T>(
    p: PollerView,
    clock: spec_fn(u64) -> Option<Duration>,
    source: spec_fn(u64) -> Result<T, Status>,
) -> nat
    decreases p.retry_max - p.tried,
{
    if p.tried >= p.retry_max {
        0
    } else {
        let ticked = decide::<T>(p, Event::Tick(clock(p.tried)));
        if ticked.1 is Try {
            let replied = decide(ticked.0, Event::Reply(source(p.tried)));
            if replied.1 is Wait {
                1 + tries(replied.0, clock, source)
            } else {
                1
            }
        } else {
            0
        }
    }
}

impl<T> Action<T> {
    /// Whether this action carries out the decision `d`.
    pub open spec fn amounts_to(self, d: Decision<T>) -> bool {
        match d {
            Decision::Wait => self is Wait,
            Decision::Try => self is Try,
            Decision::Close => self is Close,
            Decision::Deliver(v) => self == Action::Emit(Ok::<T, Status>(v)),
            Decision::Fail(s) => self == Action::Emit(Err::<T, Status>(s)),
            Decision::ClockBroken => self matches Action::Emit(Err(e)) && e.is(
                Code::Internal,
                "CLOCK BROKEN"@,
            ),
            Decision::Deadline { elapsed, tried } => self matches Action::Emit(Err(e)) && e.is(
                Code::DeadlineExceeded,
                deadline_text(elapsed, tried),
            ),
        }
    }
}

impl View for Poller {
    type V = PollerView;

    closed spec fn view(&self) -> PollerView {
        PollerView { retry_max: self.retry_max, timeout: self.timeout@, tried: self.tried }
    }
}

impl Poller {
    #[verifier::type_invariant]
    closed spec fn inv(&self) -> bool {
        self.tried <= self.retry_max
    }

    /// A poll under the policy `retry` that has not tried yet.
    pub fn new(retry: &Retry) -> (p: Self)
        ensures
            p@ == (PollerView {
                retry_max: retry@.retry_max,
                timeout: retry@.timeout,
                tried: 0,
            }),
    {
        Poller { retry_max: retry.as_retry_max(), timeout: retry.as_timeout(), tried: 0 }
    }

    /// The tries made so far that found nothing.
    pub fn tried(&self) -> (n: u64)
        ensures
            n == self@.tried,
            n <= self@.retry_max,
    {
        proof {
            use_type_invariant(self);
        }
        self.tried
    }

    /// Checks a clock reading against `timeout`: a missing reading is an
    /// internal failure, one past the timeout a deadline failure that names
    /// the reading and the number of earlier tries.
    pub fn check(timeout: &Duration, elapsed: Option<Duration>, tried: u64) -> (r: Result<
        (),
        Status,
    >)
        ensures
            match overdue::<()>(timeout@, elapsed, tried) {
                None => r is Ok,
                Some(d) => r is Err && Action::Emit(r).amounts_to(d),
            },
    {
        match elapsed {
            None => Err(Status::internal("CLOCK BROKEN")),
            Some(e) => {
                if e.is_longer_than(timeout) {
                    let mut message = String::from_str("timeout. elapsed=");
                    let pretty = e.pretty();
                    message.append(pretty.as_str());
                    message.append(", tried: ");
                    push_decimal(&mut message, tried as u128);
                    Err(Status::new(Code::DeadlineExceeded, message))
                } else {
                    Ok(())
                }
            },
        }
    }

    /// Takes the next decision of the poll on the event `ev`.
    pub fn step<T>(&mut self, ev: Event<T>) -> (action: Action<T>)
        ensures
            final(self)@ == decide(old(self)@, ev).0,
            action.amounts_to(decide(old(self)@, ev).1),
    {
        proof {
            use_type_invariant(&*self);
        }
        match ev {
            Event::Start => {
                if self.tried < self.retry_max {
                    Action::Wait
                } else {
                    Action::Close
                }
            },
            Event::Tick(elapsed) => {
                match Self::check(&self.timeout, elapsed, self.tried) {
                    Ok(_) => Action::Try,
                    Err(e) => Action::Emit(Err(e)),
                }
            },
            Event::Reply(Ok(v)) => Action::Emit(Ok(v)),
            Event::Reply(Err(s)) => {
                if Self::retries(&s) {
                    if self.tried < self.retry_max {
                        self.tried = self.tried + 1;
                        if self.tried < self.retry_max {
                            Action::Wait
                        } else {
                            Action::Close
                        }
                    } else {
                        Action::Close
                    }
                } else {
                    Action::Emit(Err(s))
                }
            },
        }
    }

    /// Whether a poll goes on after the failure `s`: only where nothing was
    /// found.
    pub fn retries(s: &Status) -> (b: bool)
        ensures
            b == (s.code == Code::NotFound),
    {
        match s.code {
            Code::NotFound => true,
            _ => false,
        }
    }
}

/// Whether every try against `source` finds nothing.
pub open spec fn never_ready<T>(source: spec_fn(u64) -> Result<T, Status>) -> bool {
    forall|i: u64| (#[trigger] source(i)) matches Err(s) && s.code == Code::NotFound
}

/// Whether the clock reads a time within the timeout of `p` at every tick
/// from the next one up to, but not including, tick `end`.
pub open spec fn in_time(p: PollerView, clock: spec_fn(u64) -> Option<Duration>, end: u64) -> bool {
    forall|i: u64|
        p.tried <= i < end ==> ((#[trigger] clock(i)) matches Some(e) && e@ <= p.timeout)
}

/// A poll never makes more tries than its policy has left.
pub proof fn lemma_tries_bounded<T>(
    p: PollerView,
    clock: spec_fn(u64) -> Option<Duration>,
    source: spec_fn(u64) -> Result<T, Status>,
)
    ensures
        p.tried + tries(p, clock, source) <= p.retry_max || tries(p, clock, source) == 0,
    decreases p.retry_max - p.tried,
{
    if p.tried < p.retry_max {
        let ticked = decide::<T>(p, Event::Tick(clock(p.tried)));
        if ticked.1 is Try {
            let replied = decide(ticked.0, Event::Reply(source(p.tried)));
            if replied.1 is Wait {
                lemma_tries_bounded(replied.0, clock, source);
            }
        }
    }
}

/// Against a source that never has anything, a poll whose clock stays within
/// the timeout makes every try its policy has left and then closes without an
/// outcome and without a failure.
pub proof fn lemma_exhausted_poll_closes<T>(
    p: PollerView,
    clock: spec_fn(u64) -> Option<Duration>,
    source: spec_fn(u64) -> Result<T, Status>,
)
    requires
        p.tried <= p.retry_max,
        never_ready(source),
        in_time(p, clock, p.retry_max),
    ensures
        run(p, clock, source) is Close,
        tries(p, clock, source) == p.retry_max - p.tried,
    decreases p.retry_max - p.tried,
{
    if p.tried < p.retry_max {
        assert(clock(p.tried) is Some);
        assert(source(p.tried) is Err);
        let ticked = decide::<T>(p, Event::Tick(clock(p.tried)));
        let replied = decide(ticked.0, Event::Reply(source(p.tried)));
        if replied.1 is Wait {
            lemma_exhausted_poll_closes(replied.0, clock, source);
        }
    }
}

/// Against a source that never has anything, a poll whose clock first reads
/// past the timeout at tick `late` fails there with a deadline failure,
/// having made one try for each tick before.
pub proof fn lemma_late_poll_fails<T>(
    p: PollerView,
    clock: spec_fn(u64) -> Option<Duration>,
    source: spec_fn(u64) -> Result<T, Status>,
    late: u64,
)
    requires
        p.tried <= late < p.retry_max,
        never_ready(source),
        in_time(p, clock, late),
        clock(late) matches Some(e) && e@ > p.timeout,
    ensures
        run(p, clock, source) == (Decision::<T>::Deadline {
            elapsed: clock(late)->0,
            tried: late,
        }),
        tries(p, clock, source) == late - p.tried,
    decreases late - p.tried,
{
    if p.tried < late {
        assert(clock(p.tried) is Some);
        assert(source(p.tried) is Err);
        let ticked = decide::<T>(p, Event::Tick(clock(p.tried)));
        let replied = decide(ticked.0, Event::Reply(source(p.tried)));
        assert(replied.1 is Wait);
        lemma_late_poll_fails(replied.0, clock, source, late);
    }
}

/// Against a source that never has anything, a fresh poll of `n` tries whose
/// tick `i` comes `i` intervals after the start closes without an outcome
/// after `n` tries, provided that `n` intervals fit into the timeout.
pub proof fn lemma_steady_poll_closes<T>(
    p: PollerView,
    interval: nat,
    clock: spec_fn(u64) -> Option<Duration>,
    source: spec_fn(u64) -> Result<T, Status>,
)
    requires
        p.tried == 0,
        never_ready(source),
        forall|i: u64|
            i < p.retry_max ==> ((#[trigger] clock(i)) matches Some(e) && e@ == i * interval),
        p.retry_max * interval <= p.timeout,
    ensures
        run(p, clock, source) is Close,
        tries(p, clock, source) == p.retry_max,
{
    assert forall|i: u64| p.tried <= i < p.retry_max implies ((#[trigger] clock(i)) matches Some(e)
        && e@ <= p.timeout) by {
        assert(i * interval <= p.retry_max * interval) by (nonlinear_arith)
            requires
                i < p.retry_max,
        ;
    }
    lemma_exhausted_poll_closes(p, clock, source);
}

/// A poll delivers what the first try finds, where the clock reads a time
/// within the timeout at the first tick.
pub proof fn lemma_ready_poll_delivers<T>(
    p: PollerView,
    clock: spec_fn(u64) -> Option<Duration>,
    source: spec_fn(u64) -> Result<T, Status>,
)
    requires
        p.tried < p.retry_max,
        clock(p.tried) matches Some(e) && e@ <= p.timeout,
        source(p.tried) is Ok,
    ensures
        run(p, clock, source) == Decision::Deliver(source(p.tried)->Ok_0),
        tries(p, clock, source) == 1,
{
}

} // verus!
