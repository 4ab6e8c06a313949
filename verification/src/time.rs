//! Wall-clock points and spans of time, as plain numbers.

use vstd::prelude::*;

verus! {

/// The number of nanoseconds in a second.
pub const NANOS_PER_SEC: u32 = 1_000_000_000;

/// A wall-clock point: seconds and nanoseconds since the Unix epoch. It is
/// carried through unchanged and never computed with.
#[derive(Clone, Copy, Debug, PartialEq, Eq, Structural)]
pub struct Timestamp {
    pub seconds: i64,
    pub nanos: i32,
}

/// A non-negative span of time: whole seconds and the nanoseconds beyond
/// them, fewer than a second's worth.
#[derive(Clone, Copy, Debug, PartialEq, Eq, Structural)]
pub struct Duration {
    secs: u64,
    nanos: u32,
}

/// The text that the standard library's pretty debug rendering gives a span of
/// `secs` seconds and `nanos` nanoseconds.
pub uninterp spec fn duration_debug(secs: u64, nanos: u32) -> Seq<char>;

impl View for Duration {
    type V = nat;

    /// The span in nanoseconds.
    closed spec fn view(&self) -> nat {
        self.secs as nat * 1_000_000_000 + self.nanos as nat
    }
}

impl Duration {
    #[verifier::type_invariant]
    closed spec fn inv(&self) -> bool {
        self.nanos < 1_000_000_000
    }

    /// The whole seconds of the span.
    pub closed spec fn secs(&self) -> u64 {
        self.secs
    }

    /// The nanoseconds of the span beyond its whole seconds.
    pub closed spec fn nanos(&self) -> u32 {
        self.nanos
    }

    /// The span's pretty debug text.
    pub open spec fn debug(&self) -> Seq<char> {
        duration_debug(self.secs(), self.nanos())
    }

    /// A span is its seconds and nanoseconds taken together.
    pub proof fn lemma_view(&self)
        ensures
            self@ == self.secs() as nat * 1_000_000_000 + self.nanos() as nat,
    {
    }

    /// The span of `secs` seconds and `nanos` nanoseconds, or nothing where
    /// `nanos` is a second or more.
    pub fn new(secs: u64, nanos: u32) -> (d: Option<Self>)
        ensures
            d is Some <==> nanos < NANOS_PER_SEC,
            d matches Some(d) ==> d.secs() == secs && d.nanos() == nanos,
    {
        if nanos < NANOS_PER_SEC {
            Some(Duration { secs, nanos })
        } else {
            None
        }
    }

    pub fn from_secs(secs: u64) -> (d: Self)
        ensures
            d@ == secs as nat * 1_000_000_000,
            d.secs() == secs,
            d.nanos() == 0,
    {
        Duration { secs, nanos: 0 }
    }

    pub fn from_millis(millis: u64) -> (d: Self)
        ensures
            d@ == millis as nat * 1_000_000,
    {
        let sub: u32 = (millis % 1000) as u32;
        Duration { secs: millis / 1000, nanos: sub * 1_000_000 }
    }

    pub fn from_micros(micros: u64) -> (d: Self)
        ensures
            d@ == micros as nat * 1_000,
    {
        let sub: u32 = (micros % 1_000_000) as u32;
        Duration { secs: micros / 1_000_000, nanos: sub * 1_000 }
    }

    pub fn from_nanos(nanos: u64) -> (d: Self)
        ensures
            d@ == nanos as nat,
    {
        let sub: u32 = (nanos % 1_000_000_000) as u32;
        Duration { secs: nanos / 1_000_000_000, nanos: sub }
    }

    pub fn as_secs(&self) -> (s: u64)
        ensures
            s == self.secs(),
            s == self@ / 1_000_000_000,
    {
        proof {
            use_type_invariant(self);
        }
        self.secs
    }

    pub fn subsec_nanos(&self) -> (n: u32)
        ensures
            n == self.nanos(),
            n == self@ % 1_000_000_000,
            n < NANOS_PER_SEC,
    {
        proof {
            use_type_invariant(self);
        }
        self.nanos
    }

    pub fn as_nanos(&self) -> (n: u128)
        ensures
            n == self@,
    {
        proof {
            use_type_invariant(self);
        }
        let whole: u128 = self.secs as u128;
        let sub: u128 = self.nanos as u128;
        whole * 1_000_000_000 + sub
    }

    /// Whether this span is strictly longer than `other`.
    pub fn is_longer_than(&self, other: &Duration) -> (b: bool)
        ensures
            b == (self@ > other@),
    {
        proof {
            use_type_invariant(self);
            use_type_invariant(other);
        }
        self.secs > other.secs || (self.secs == other.secs && self.nanos > other.nanos)
    }

    /// The longer of the two spans.
    pub fn max(self, other: Duration) -> (d: Self)
        ensures
            d@ == if self@ >= other@ { self@ } else { other@ },
            d == self || d == other,
    {
        if other.is_longer_than(&self) {
            other
        } else {
            self
        }
    }

    /// The span's pretty debug text, as in `30ms` or `1.5s`.
    pub fn pretty(&self) -> (s: String)
        ensures
            s@ == self.debug(),
    {
        proof {
            use_type_invariant(self);
        }
        debug_text(self.secs, self.nanos)
    }
}

/// Renders a span through `core::time::Duration`'s `Debug` impl in its
/// alternate form. The text is whatever the standard library prints for that
/// span; nothing else is claimed of it.
#[verifier::external_body]
fn debug_text(secs: u64, nanos: u32) -> (s: String)
    requires
        nanos < 1_000_000_000,
    ensures
        s@ == duration_debug(secs, nanos),
{
    format!("{:#?}", core::time::Duration::new(secs, nanos))
}

/// Reads the wall clock with `std::time::SystemTime::now` and turns it into
/// seconds and nanoseconds with `prost_types::Timestamp::from`. Nothing is
/// claimed of the point that comes back.
#[verifier::external_body]
pub(crate) fn now() -> (t: Timestamp) {
    let t = prost_types::Timestamp::from(std::time::SystemTime::now());
    Timestamp { seconds: t.seconds, nanos: t.nanos }
}

} // verus!
