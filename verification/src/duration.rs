//! Spans of time with nanosecond precision.

use vstd::prelude::*;

verus! {

pub const NANOS_PER_SEC: u32 = 1_000_000_000;

pub const NANOS_PER_MILLI: u32 = 1_000_000;

/// A span of time: whole seconds and, below one second, nanoseconds.
///
/// Its view is the span in nanoseconds.
#[derive(Clone, Copy, Debug, PartialEq, Eq)]
pub struct Duration {
    secs: u64,
    nanos: u32,
}

impl View for Duration {
    type V = nat;

    closed spec fn view(&self) -> nat {
        self.secs as nat * NANOS_PER_SEC as nat + self.nanos as nat
    }
}

impl Duration {
    #[verifier::type_invariant]
    spec fn inv(self) -> bool {
        self.nanos < NANOS_PER_SEC
    }

    /// The span of `secs` seconds and `nanos` nanoseconds. Nanoseconds that add up to whole
    /// seconds are carried over.
    pub fn new(secs: u64, nanos: u32) -> (duration: Self)
        requires
            secs + nanos / NANOS_PER_SEC <= u64::MAX,
        ensures
            duration@ == secs * NANOS_PER_SEC + nanos,
    {
        Duration { secs: secs + (nanos / NANOS_PER_SEC) as u64, nanos: nanos % NANOS_PER_SEC }
    }

    /// The span of `secs` seconds.
    pub fn from_secs(secs: u64) -> (duration: Self)
        ensures
            duration@ == secs * NANOS_PER_SEC,
    {
        Duration { secs, nanos: 0 }
    }

    /// The span of `millis` milliseconds.
    pub fn from_millis(millis: u64) -> (duration: Self)
        ensures
            duration@ == millis * NANOS_PER_MILLI,
    {
        Duration { secs: millis / 1_000, nanos: (millis % 1_000) as u32 * NANOS_PER_MILLI }
    }

    /// The whole seconds of the span; what is below one second is dropped.
    pub fn as_secs(&self) -> (secs: u64)
        ensures
            secs == self@ / NANOS_PER_SEC as nat,
    {
        proof {
            use_type_invariant(self);
        }
        self.secs
    }

    /// The nanoseconds of the span that are left besides its whole seconds.
    pub fn subsec_nanos(&self) -> (nanos: u32)
        ensures
            nanos == self@ % NANOS_PER_SEC as nat,
    {
        proof {
            use_type_invariant(self);
        }
        self.nanos
    }

    /// The whole milliseconds of the span; what is below one millisecond is dropped.
    pub fn as_millis(&self) -> (millis: u128)
        ensures
            millis == self@ / NANOS_PER_MILLI as nat,
    {
        proof {
            use_type_invariant(self);
        }
        self.secs as u128 * 1_000 + (self.nanos / NANOS_PER_MILLI) as u128
    }
}

/// A span reads back in the seconds and nanoseconds that it was made of, once nanoseconds that add
/// up to whole seconds are carried over, and in its milliseconds.
pub proof fn spans_read_back(
    secs: u64,
    nanos: u32,
    span: Duration,
    whole_secs: u64,
    rest: u32,
    millis: u128,
)
    requires
        call_ensures(Duration::new, (secs, nanos), span),
        call_ensures(Duration::as_secs, (&span,), whole_secs),
        call_ensures(Duration::subsec_nanos, (&span,), rest),
        call_ensures(Duration::as_millis, (&span,), millis),
    ensures
        whole_secs * 1_000_000_000 + rest == secs * 1_000_000_000 + nanos,
        rest < 1_000_000_000,
        nanos < 1_000_000_000 ==> whole_secs == secs && rest == nanos,
        millis == secs * 1_000 + nanos / 1_000_000,
{
}

/// A span of whole seconds reads back as that many seconds, and as a thousand times as many
/// milliseconds.
pub proof fn seconds_read_back(secs: u64, span: Duration, back: u64, rest: u32, millis: u128)
    requires
        call_ensures(Duration::from_secs, (secs,), span),
        call_ensures(Duration::as_secs, (&span,), back),
        call_ensures(Duration::subsec_nanos, (&span,), rest),
        call_ensures(Duration::as_millis, (&span,), millis),
    ensures
        span@ == secs * 1_000_000_000,
        back == secs,
        rest == 0,
        millis == secs * 1_000,
{
}

/// A span of milliseconds reads back as that many milliseconds, of which a thousand are a second.
pub proof fn milliseconds_read_back(
    millis: u64,
    span: Duration,
    secs: u64,
    rest: u32,
    back: u128,
)
    requires
        call_ensures(Duration::from_millis, (millis,), span),
        call_ensures(Duration::as_secs, (&span,), secs),
        call_ensures(Duration::subsec_nanos, (&span,), rest),
        call_ensures(Duration::as_millis, (&span,), back),
    ensures
        span@ == millis * 1_000_000,
        back == millis,
        secs == millis / 1_000,
        rest == (millis % 1_000) * 1_000_000,
{
}

} // verus!
