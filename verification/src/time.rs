//! Spans of time and readings of a monotonic clock.

use vstd::prelude::*;

verus! {

pub const NANOS_PER_SEC: u128 = 1_000_000_000;

pub const NANOS_PER_MILLI: u128 = 1_000_000;

/// The whole seconds of a span fit in a `u64`, so a span is shorter than
/// 2^64 seconds, which is this many nanoseconds.
pub const DURATION_LIMIT_NANOS: u128 = 18_446_744_073_709_551_616_000_000_000;

/// A span of time with nanosecond resolution. Its view is its length in
/// nanoseconds.
#[derive(Clone, Copy, Debug, PartialEq, Eq, Structural)]
pub struct Duration {
    nanos: u128,
}

impl View for Duration {
    type V = nat;

    closed spec fn view(&self) -> nat {
        self.nanos as nat
    }
}

impl Duration {
    #[verifier::type_invariant]
    spec fn in_range(self) -> bool {
        self.nanos < DURATION_LIMIT_NANOS
    }

    /// The span of `nanos` nanoseconds.
    pub closed spec fn of_nanos(nanos: nat) -> Duration {
        Duration { nanos: nanos as u128 }
    }

    /// The span of `millis` milliseconds.
    pub open spec fn of_millis(millis: nat) -> Duration {
        Duration::of_nanos(millis * NANOS_PER_MILLI as nat)
    }

    /// The span of `secs` seconds.
    pub open spec fn of_secs(secs: nat) -> Duration {
        Duration::of_nanos(secs * NANOS_PER_SEC as nat)
    }

    /// The span of `nanos` nanoseconds has that length.
    pub broadcast proof fn lemma_of_nanos(nanos: nat)
        requires
            nanos < DURATION_LIMIT_NANOS,
        ensures
            (#[trigger] Duration::of_nanos(nanos))@ == nanos,
    {
    }

    /// The span of `secs` seconds and `nanos` nanoseconds.
    pub fn new(secs: u64, nanos: u32) -> (d: Duration)
        requires
            secs * NANOS_PER_SEC + nanos < DURATION_LIMIT_NANOS,
        ensures
            d@ == secs * NANOS_PER_SEC + nanos,
            d == Duration::of_nanos((secs * NANOS_PER_SEC + nanos) as nat),
    {
        Duration { nanos: secs as u128 * NANOS_PER_SEC + nanos as u128 }
    }

    pub fn from_secs(secs: u64) -> (d: Duration)
        ensures
            d@ == secs * NANOS_PER_SEC,
            d == Duration::of_secs(secs as nat),
    {
        Duration { nanos: secs as u128 * NANOS_PER_SEC }
    }

    pub fn from_millis(millis: u64) -> (d: Duration)
        ensures
            d@ == millis * NANOS_PER_MILLI,
            d == Duration::of_millis(millis as nat),
    {
        Duration { nanos: millis as u128 * NANOS_PER_MILLI }
    }

    /// The whole seconds of the span.
    pub fn as_secs(&self) -> (secs: u64)
        ensures
            secs == self@ / NANOS_PER_SEC as nat,
    {
        proof {
            use_type_invariant(self);
        }
        (self.nanos / NANOS_PER_SEC) as u64
    }

    /// What is left of the span beyond its whole seconds, in nanoseconds.
    pub fn subsec_nanos(&self) -> (nanos: u32)
        ensures
            nanos == self@ % NANOS_PER_SEC as nat,
    {
        (self.nanos % NANOS_PER_SEC) as u32
    }

    /// Whether this span is strictly longer than `limit`.
    pub fn exceeds(&self, limit: &Duration) -> (longer: bool)
        ensures
            longer == (self@ > limit@),
    {
        self.nanos > limit.nanos
    }
}

/// Seconds and milliseconds have their lengths: a billion and a million
/// nanoseconds each.
pub proof fn law_unit_lengths(n: u64)
    ensures
        Duration::of_secs(n as nat)@ == n * 1_000_000_000,
        Duration::of_millis(n as nat)@ == n * 1_000_000,
{
}

/// A reading of a monotonic clock: the time since an origin that stays fixed
/// while a worker runs.
#[derive(Clone, Copy, Debug, PartialEq, Eq, Structural)]
pub struct Instant {
    pub since_origin: Duration,
}

impl Instant {
    /// The nanoseconds from this instant to `now`; none if `now` is earlier.
    pub open spec fn elapsed_nanos(self, now: Instant) -> nat {
        if now.since_origin@ > self.since_origin@ {
            (now.since_origin@ - self.since_origin@) as nat
        } else {
            0
        }
    }

    /// The time from this instant to `now`; zero if `now` is earlier.
    pub fn elapsed(&self, now: &Instant) -> (d: Duration)
        ensures
            d@ == self.elapsed_nanos(*now),
    {
        let then = self.since_origin;
        let current = now.since_origin;
        proof {
            use_type_invariant(&current);
        }
        if current.nanos > then.nanos {
            Duration { nanos: current.nanos - then.nanos }
        } else {
            Duration { nanos: 0 }
        }
    }
}

/// What has elapsed since an instant, added to it, gives the instant of the
/// reading; nothing has elapsed if the reading is earlier.
pub proof fn law_elapsed(then: Instant, now: Instant)
    ensures
        then.since_origin@ <= now.since_origin@ ==> then.since_origin@ + then.elapsed_nanos(now)
            == now.since_origin@,
        then.since_origin@ > now.since_origin@ ==> then.elapsed_nanos(now) == 0,
{
}

} // verus!
