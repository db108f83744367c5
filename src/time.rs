use vstd::prelude::*;

verus! {

/// An instant as whole seconds since the Unix epoch and the nanoseconds
/// within that second.
#[derive(Clone, Copy, Debug, PartialEq, Eq, Structural)]
pub struct Timestamp {
    pub secs: i64,
    pub nanos: u32,
}

impl Timestamp {
    /// `self` is not later than `other`.
    pub open spec fn spec_le(self, other: Timestamp) -> bool {
        self.secs < other.secs || (self.secs == other.secs && self.nanos <= other.nanos)
    }

    /// Whether `self` comes strictly before `other`.
    pub fn is_before(&self, other: &Timestamp) -> (r: bool)
        ensures
            r == !other.spec_le(*self),
    {
        self.secs < other.secs || (self.secs == other.secs && self.nanos < other.nanos)
    }

    /// The later of two instants.
    pub fn later_of(a: Timestamp, b: Timestamp) -> (r: Timestamp)
        ensures
            a.spec_le(r),
            b.spec_le(r),
            r == a || r == b,
    {
        if a.is_before(&b) {
            b
        } else {
            a
        }
    }
}

/// Largest number of seconds since the epoch that the clock reports.
pub const MAX_CLOCK_SECS: i64 = 10_000_000_000_000;

/// Relies on chrono::Utc::now: the current system time, which chrono builds
/// from the seconds and sub-second nanoseconds since the epoch. It panics on
/// a clock before the epoch or beyond its supported range (years up to
/// 262142), so what it returns lies within both.
#[verifier::external_body]
pub(crate) fn now() -> (r: Timestamp)
    ensures
        0 <= r.secs <= MAX_CLOCK_SECS,
        r.nanos < 1_000_000_000,
{
    let t = chrono::Utc::now();
    Timestamp { secs: t.timestamp(), nanos: t.timestamp_subsec_nanos() }
}

} // verus!
