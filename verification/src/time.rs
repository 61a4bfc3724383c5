//! Spans of time and points in time, to the nanosecond.
use vstd::prelude::*;

verus! {

/// Nanoseconds in one second.
pub const NANOS_PER_SECOND: u32 = 1_000_000_000;

/// A span of time: whole seconds and the nanoseconds beyond them.
#[derive(Debug, Clone, Copy, PartialEq, Eq, Structural)]
pub struct Duration {
    seconds: u64,
    nanos: u32,
}

impl View for Duration {
    type V = int;

    /// The length of the span in nanoseconds.
    closed spec fn view(&self) -> int {
        self.seconds * NANOS_PER_SECOND + self.nanos
    }
}

/// The longest span, in nanoseconds.
pub open spec fn longest_span() -> int {
    u64::MAX * NANOS_PER_SECOND + (NANOS_PER_SECOND - 1)
}

/// A number of nanoseconds as a span can hold it: below zero there is none, and beyond the longest
/// span stands the longest one.
pub open spec fn clamped_span(nanos: int) -> int {
    if nanos < 0 {
        0
    } else if nanos > longest_span() {
        longest_span()
    } else {
        nanos
    }
}

impl Duration {
    #[verifier::type_invariant]
    spec fn normalised(self) -> bool {
        self.nanos < NANOS_PER_SECOND
    }

    /// A span of whole seconds.
    pub fn from_secs(seconds: u64) -> (r: Duration)
        ensures
            r@ == seconds * NANOS_PER_SECOND,
    {
        Duration { seconds, nanos: 0 }
    }

    /// The whole seconds of the span.
    pub fn as_secs(&self) -> (r: u64)
        ensures
            r == self@ / (NANOS_PER_SECOND as int),
    {
        proof {
            use_type_invariant(self);
        }
        self.seconds
    }

    /// The nanoseconds beyond the whole seconds.
    pub fn subsec_nanos(&self) -> (r: u32)
        ensures
            r == self@ % (NANOS_PER_SECOND as int),
    {
        proof {
            use_type_invariant(self);
        }
        self.nanos
    }

    /// The span of `nanos` nanoseconds, clamped to what a span can hold.
    fn from_nanos_clamped(nanos: i128) -> (r: Duration)
        ensures
            r@ == clamped_span(nanos as int),
    {
        let limit: i128 = 18_446_744_073_709_551_615_999_999_999;
        if nanos < 0 {
            Duration { seconds: 0, nanos: 0 }
        } else if nanos > limit {
            Duration { seconds: u64::MAX, nanos: NANOS_PER_SECOND - 1 }
        } else {
            Duration {
                seconds: (nanos / 1_000_000_000) as u64,
                nanos: (nanos % 1_000_000_000) as u32,
            }
        }
    }
}

/// A point in time, counted from the Unix epoch.
#[derive(Debug, Clone, Copy, PartialEq, Eq, Structural)]
pub struct Timestamp {
    nanos: i128,
}

impl View for Timestamp {
    type V = int;

    /// Nanoseconds after the epoch; negative before it.
    closed spec fn view(&self) -> int {
        self.nanos as int
    }
}

impl Timestamp {
    #[verifier::type_invariant]
    spec fn in_range(self) -> bool {
        -0x1_0000_0000_0000_0000_0000_0000 <= self.nanos <= 0x1_0000_0000_0000_0000_0000_0000
    }

    /// The point `seconds` seconds and `nanos` nanoseconds after the epoch.
    pub fn after_epoch(seconds: u64, nanos: u32) -> (r: Timestamp)
        ensures
            r@ == seconds * NANOS_PER_SECOND + nanos,
    {
        Timestamp { nanos: seconds as i128 * 1_000_000_000 + nanos as i128 }
    }

    /// The point `seconds` seconds and `nanos` nanoseconds before the epoch.
    pub fn before_epoch(seconds: u64, nanos: u32) -> (r: Timestamp)
        ensures
            r@ == -(seconds * NANOS_PER_SECOND + nanos),
    {
        Timestamp { nanos: -(seconds as i128 * 1_000_000_000 + nanos as i128) }
    }

    /// The point whose whole second is `seconds` (negative before the epoch), `nanos` nanoseconds
    /// into it.
    pub fn from_unix(seconds: i64, nanos: u32) -> (r: Timestamp)
        ensures
            r@ == seconds * NANOS_PER_SECOND + nanos,
    {
        Timestamp { nanos: seconds as i128 * 1_000_000_000 + nanos as i128 }
    }

    /// How long after `earlier` this point is; nothing if it is not after it.
    pub fn duration_since(&self, earlier: &Timestamp) -> (r: Duration)
        ensures
            r@ == clamped_span(self@ - earlier@),
    {
        proof {
            use_type_invariant(self);
            use_type_invariant(earlier);
        }
        Duration::from_nanos_clamped(self.nanos - earlier.nanos)
    }
}

/// A span of whole seconds has that many seconds and nothing beyond them.
pub proof fn law_seconds_make_a_span(seconds: u64, d: Duration, whole: u64, beyond: u32)
    requires
        call_ensures(Duration::from_secs, (seconds,), d),
        call_ensures(Duration::as_secs, (&d,), whole),
        call_ensures(Duration::subsec_nanos, (&d,), beyond),
    ensures
        whole == seconds,
        beyond == 0,
        d@ == seconds * 1_000_000_000,
{
}

/// A span is its whole seconds and the nanoseconds beyond them, which are less than a second.
pub proof fn law_span_is_seconds_and_nanoseconds(d: Duration, whole: u64, beyond: u32)
    requires
        call_ensures(Duration::as_secs, (&d,), whole),
        call_ensures(Duration::subsec_nanos, (&d,), beyond),
    ensures
        beyond < 1_000_000_000,
        d@ == whole * 1_000_000_000 + beyond,
{
}

/// From one point in time to a later one it is as long as the two are apart, to the nanosecond, up
/// to the longest span there is; to an earlier one it is no time at all.
pub proof fn law_span_between_points(
    seconds: i64,
    nanos: u32,
    from_seconds: u64,
    from_nanos: u32,
    point: Timestamp,
    after: Timestamp,
    before: Timestamp,
    since_after: Duration,
    since_before: Duration,
)
    requires
        call_ensures(Timestamp::from_unix, (seconds, nanos), point),
        call_ensures(Timestamp::after_epoch, (from_seconds, from_nanos), after),
        call_ensures(Timestamp::before_epoch, (from_seconds, from_nanos), before),
        call_ensures(Timestamp::duration_since, (&point, &after), since_after),
        call_ensures(Timestamp::duration_since, (&point, &before), since_before),
    ensures
        ({
            let apart = (seconds - from_seconds) * 1_000_000_000 + (nanos - from_nanos);
            &&& apart <= 0 ==> since_after@ == 0
            &&& apart >= 0 ==> since_after@ == apart
        }),
        ({
            let apart = (seconds + from_seconds) * 1_000_000_000 + (nanos + from_nanos);
            &&& apart <= 0 ==> since_before@ == 0
            &&& 0 <= apart <= 18_446_744_073_709_551_615_999_999_999 ==> since_before@ == apart
            &&& apart > 18_446_744_073_709_551_615_999_999_999 ==> since_before@
                == 18_446_744_073_709_551_615_999_999_999
        }),
{
}

} // verus!
