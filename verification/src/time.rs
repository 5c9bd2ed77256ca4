//! Points in time, to the nanosecond.

use vstd::prelude::*;

verus! {

/// A UTC instant: whole seconds since the Unix epoch, and the nanoseconds within the
/// second. During a leap second `nanos` runs on past one billion.
#[derive(Clone, Copy, Debug, PartialEq, Eq, Structural)]
pub struct Timestamp {
    pub seconds: i64,
    pub nanos: u32,
}

impl Timestamp {
    /// Whether `self` lies strictly before `other`.
    pub open spec fn before(self, other: Timestamp) -> bool {
        self.seconds < other.seconds || (self.seconds == other.seconds && self.nanos < other.nanos)
    }

    /// Whether `self` lies strictly before `other`.
    pub fn is_before(&self, other: &Timestamp) -> (result: bool)
        ensures
            result == self.before(*other),
    {
        self.seconds < other.seconds || (self.seconds == other.seconds && self.nanos < other.nanos)
    }
}

/// Nanoseconds from the Unix epoch to a moment that is no leap second.
pub open spec fn epoch_nanos(moment: Timestamp) -> int {
    moment.seconds * 1_000_000_000 + moment.nanos
}

/// Of two moments the earlier is the one with fewer nanoseconds since the epoch. Moments
/// within one second, a leap second included, are told apart by their nanoseconds, and those
/// of different seconds by their seconds.
pub proof fn law_earlier_moments_have_fewer_nanoseconds(a: Timestamp, b: Timestamp)
    ensures
        a.nanos < 1_000_000_000 && b.nanos < 1_000_000_000 ==> (a.before(b) <==> epoch_nanos(a)
            < epoch_nanos(b)),
        a.seconds == b.seconds ==> (a.before(b) <==> a.nanos < b.nanos),
        a.seconds != b.seconds ==> (a.before(b) <==> a.seconds < b.seconds),
{
}

/// Of two different moments exactly one comes before the other.
pub proof fn law_moments_are_totally_ordered(a: Timestamp, b: Timestamp, c: Timestamp)
    ensures
        a != b <==> a.before(b) || b.before(a),
        !(a.before(b) && b.before(a)),
        a.before(b) && b.before(c) ==> a.before(c),
{
}

} // verus!
