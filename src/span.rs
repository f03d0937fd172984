use vstd::prelude::*;

verus! {

/// Nanoseconds in one second.
pub const NANOS_PER_SEC: u64 = 1_000_000_000;

/// A length of time, in whole nanoseconds.
#[derive(Clone, Copy, Debug, PartialEq, Eq, Structural)]
pub struct TimeSpan {
    pub nanos: u64,
}

impl TimeSpan {
    /// A span of whole seconds.
    pub fn from_secs(secs: u32) -> (r: TimeSpan)
        ensures
            r.nanos == secs * NANOS_PER_SEC,
    {
        proof {
            assert(secs * NANOS_PER_SEC <= u32::MAX * NANOS_PER_SEC) by (nonlinear_arith);
        }
        TimeSpan { nanos: secs as u64 * NANOS_PER_SEC }
    }

    /// A span of the given nanoseconds.
    pub fn from_nanos(nanos: u64) -> (r: TimeSpan)
        ensures
            r.nanos == nanos,
    {
        TimeSpan { nanos }
    }

    /// The span in nanoseconds.
    pub fn as_nanos(&self) -> (r: u64)
        ensures
            r == self.nanos,
    {
        self.nanos
    }

    /// The shorter of two spans.
    pub fn min(self, other: TimeSpan) -> (r: TimeSpan)
        ensures
            r.nanos == if self.nanos <= other.nanos { self.nanos } else { other.nanos },
    {
        if self.nanos <= other.nanos {
            self
        } else {
            other
        }
    }
}

} // verus!
