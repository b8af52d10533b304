use vstd::prelude::*;

pub mod instant;
pub mod julian;

use crate::instant::Instant;

verus! {

/// A representation of time points that converts to and from an `Instant`.
pub trait TimeSystem: Sized {
    /// Whether this value maps to an instant whose fields fit their widths.
    spec fn convertible(&self) -> bool;

    /// The representation of the given instant.
    fn from_instant(instant: Instant) -> Self;

    /// The instant that this value stands for.
    fn as_instant(self) -> Instant
        requires
            self.convertible(),
    ;
}

} // verus!
