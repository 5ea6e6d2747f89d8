//! Points in time (UTC), as found in the release dates of game versions.
use vstd::prelude::*;

verus! {

/// A UTC instant: whole seconds since the Unix epoch and the nanoseconds
/// within that second.
#[derive(Clone, Copy, PartialEq, Eq, Structural)]
pub struct UtcTime {
    pub secs: i64,
    pub nanos: u32,
}

/// Chronological order of instants: earlier second first, then earlier
/// nanosecond.
pub open spec fn time_le(a: UtcTime, b: UtcTime) -> bool {
    a.secs < b.secs || (a.secs == b.secs && a.nanos <= b.nanos)
}

impl UtcTime {
    /// Whether `self` is not later than `other`.
    pub fn is_before_or_at(&self, other: &UtcTime) -> (r: bool)
        ensures
            r == time_le(*self, *other),
    {
        self.secs < other.secs || (self.secs == other.secs && self.nanos <= other.nanos)
    }
}

/// The order is total.
pub proof fn lemma_time_le_total(a: UtcTime, b: UtcTime)
    ensures
        time_le(a, b) || time_le(b, a),
{
}

/// The order is transitive.
pub proof fn lemma_time_le_transitive(a: UtcTime, b: UtcTime, c: UtcTime)
    requires
        time_le(a, b),
        time_le(b, c),
    ensures
        time_le(a, c),
{
}

} // verus!
