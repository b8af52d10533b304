use vstd::prelude::*;

verus! {

/// Number of nanoseconds in one second.
pub const NANOS_PER_SECOND: u32 = 1_000_000_000;

/// Whether a time point lies at or after the reference epoch (`Present`) or before it (`Past`).
#[derive(Clone, Copy, Debug, PartialEq, Eq, Structural)]
pub enum Era {
    Present,
    Past,
}

/// A time point relative to the reference epoch of 01 Jan 1900, 00:00: a magnitude of whole
/// seconds and a sub-second remainder in nanoseconds, both measured away from the epoch in the
/// direction given by the era.
#[derive(Clone, Copy, Debug, PartialEq, Eq, Structural)]
pub struct Instant {
    pub seconds: u64,
    pub nanos: u32,
    pub era: Era,
}

impl Instant {
    /// The sub-second part is below one second.
    pub open spec fn wf(&self) -> bool {
        self.nanos < NANOS_PER_SECOND
    }

    /// Distance from the epoch in nanoseconds, without its sign.
    pub open spec fn magnitude_ns(&self) -> int {
        self.seconds * NANOS_PER_SECOND + self.nanos
    }

    /// Signed offset from the epoch in nanoseconds.
    pub open spec fn offset_ns(&self) -> int {
        match self.era {
            Era::Present => self.magnitude_ns(),
            Era::Past => -self.magnitude_ns(),
        }
    }

    /// Whether `self` comes strictly before `other`: every past instant precedes every present
    /// one; within the present era the larger distance is later, within the past era earlier.
    pub open spec fn precedes(&self, other: &Instant) -> bool {
        match (self.era, other.era) {
            (Era::Past, Era::Present) => true,
            (Era::Present, Era::Present) => self.seconds < other.seconds || (self.seconds
                == other.seconds && self.nanos < other.nanos),
            (Era::Past, Era::Past) => self.seconds > other.seconds || (self.seconds
                == other.seconds && self.nanos > other.nanos),
            (Era::Present, Era::Past) => false,
        }
    }

    /// Builds an instant, carrying whole seconds out of `nanos`.
    pub fn new(seconds: u64, nanos: u32, era: Era) -> (r: Instant)
        requires
            seconds + nanos / NANOS_PER_SECOND <= u64::MAX,
        ensures
            r.wf(),
            r.seconds == seconds + nanos / NANOS_PER_SECOND,
            r.nanos == nanos % NANOS_PER_SECOND,
            r.era == era,
    {
        Instant {
            seconds: seconds + (nanos / NANOS_PER_SECOND) as u64,
            nanos: nanos % NANOS_PER_SECOND,
            era,
        }
    }

    /// The era of this instant.
    pub fn era(&self) -> (r: Era)
        ensures
            r == self.era,
    {
        self.era
    }

    /// Whole seconds away from the epoch.
    pub fn secs(&self) -> (r: u64)
        ensures
            r == self.seconds,
    {
        self.seconds
    }

    /// Sub-second remainder in nanoseconds.
    pub fn nanos(&self) -> (r: u32)
        ensures
            r == self.nanos,
    {
        self.nanos
    }
}

} // verus!
