//! A plain notion of a moment in time.
//!
//! The loop never reads a clock itself: backends hand it the current moment
//! whenever one is needed, as a count of milliseconds since an arbitrary
//! origin fixed for the life of the process.

use vstd::prelude::*;

verus! {

/// A moment in time, in milliseconds since an arbitrary per-process origin.
///
/// Later moments have larger values; the origin never changes while the
/// process runs, so differences between two moments are meaningful.
#[derive(Debug, Clone, Copy, PartialEq, Eq, Hash, Structural)]
pub struct Instant {
    /// Milliseconds since the origin.
    pub millis: u64,
}

impl Instant {
    /// Construct a moment from its millisecond count.
    pub fn from_millis(millis: u64) -> (r: Instant)
        ensures
            r.millis == millis,
    {
        Instant { millis }
    }

    /// True when `self` is at or after `other`.
    pub fn is_at_or_after(&self, other: &Instant) -> (r: bool)
        ensures
            r == (self.millis >= other.millis),
    {
        self.millis >= other.millis
    }

    /// Milliseconds from `self` until `deadline`; zero when the deadline has
    /// already passed.
    pub fn millis_until(&self, deadline: &Instant) -> (r: u64)
        ensures
            r == if deadline.millis > self.millis {
                deadline.millis - self.millis
            } else {
                0
            },
    {
        if deadline.millis > self.millis {
            deadline.millis - self.millis
        } else {
            0
        }
    }
}

} // verus!
