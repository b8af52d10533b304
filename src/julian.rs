use vstd::arithmetic::div_mod::lemma_fundamental_div_mod_converse;
use vstd::prelude::*;

use crate::instant::{Era, Instant, NANOS_PER_SECOND};
use crate::TimeSystem;

verus! {

/// Number of seconds in one day.
pub const SECONDS_PER_DAY: u64 = 86_400;

/// Number of nanoseconds in one day.
pub const NANOS_PER_DAY: i128 = 86_400_000_000_000;

/// Modified Julian Day number of the instant epoch, 01 Jan 1900 at midnight.
pub const J1900_OFFSET_DAYS: i128 = 15_020;

/// The instant epoch, in nanoseconds since the Modified Julian epoch.
pub const J1900_OFFSET_NS: i128 = J1900_OFFSET_DAYS * NANOS_PER_DAY;

/// Offset between the Modified Julian Date and the true Julian Date (2 400 000.5 days), in
/// nanoseconds: the true Julian epoch is 01 Jan -4713 at noon.
pub const JULIAN_OFFSET_NS: i128 = 4_800_001 * 43_200_000_000_000;

/// Half a second, in nanoseconds.
pub const HALF_SECOND_NS: u128 = 500_000_000;

/// Half a day, in seconds.
pub const HALF_DAY_SECS: u128 = 43_200;

/// Largest sub-second count whose share of a day, taken as billionths of a day, stays under
/// half a second.
pub const MAX_ROUND_TRIP_NANOS: u32 = 5_787;

/// A Modified Julian Date held exactly: the count of nanoseconds elapsed since the Modified
/// Julian epoch, 17 November 1858 at midnight. One day is `NANOS_PER_DAY` units.
#[derive(Clone, Copy, Debug, PartialEq, Eq, Structural)]
pub struct ModifiedJulianNanos {
    pub nanos: i128,
}

/// Nearest integer to `num / den`, halves rounded away from zero.
pub open spec fn round_half_away(num: int, den: int) -> int {
    if num >= 0 {
        (num + den / 2) / den
    } else {
        -((-num + den / 2) / den)
    }
}

/// Day count of `i`, in nanoseconds since the Modified Julian epoch: the epoch offset, plus
/// the seconds signed by era, plus the sub-second count taken as billionths of a day whatever
/// the era.
pub open spec fn mjd_nanos_of(i: Instant) -> int {
    J1900_OFFSET_NS + match i.era {
        Era::Present => i.seconds * NANOS_PER_SECOND,
        Era::Past => -(i.seconds * NANOS_PER_SECOND),
    } + i.nanos * SECONDS_PER_DAY
}

/// Era of the point `d` nanoseconds away from the instant epoch.
pub open spec fn era_at(d: int) -> Era {
    if d >= 0 {
        Era::Present
    } else {
        Era::Past
    }
}

/// Distance of `d` from zero.
pub open spec fn magnitude(d: int) -> int {
    if d >= 0 {
        d
    } else {
        -d
    }
}

/// Whole seconds of the point `d` nanoseconds away from the instant epoch: its distance in
/// seconds, rounded to the nearest integer, halves up.
pub open spec fn seconds_at(d: int) -> int {
    (magnitude(d) + HALF_SECOND_NS) / (NANOS_PER_SECOND as int)
}

/// What rounding left over, in nanoseconds: the distance minus the whole seconds.
pub open spec fn residual_at(d: int) -> int {
    magnitude(d) - seconds_at(d) * (NANOS_PER_SECOND as int)
}

/// Sub-second field of the point `d` nanoseconds away from the instant epoch: the residual
/// divided by one day's seconds signed by era, rounded to the nearest integer, and zero where
/// that is negative.
pub open spec fn nanos_at(d: int) -> int {
    let signed = match era_at(d) {
        Era::Present => residual_at(d),
        Era::Past => -residual_at(d),
    };
    let q = round_half_away(signed, SECONDS_PER_DAY as int);
    if q < 0 {
        0
    } else {
        q
    }
}

impl ModifiedJulianNanos {
    /// Distance from the instant epoch, in nanoseconds.
    pub open spec fn since_j1900(&self) -> int {
        self.nanos - J1900_OFFSET_NS
    }

    /// The true Julian Date, in nanoseconds since 01 Jan -4713 at noon.
    pub fn julian_nanos(self) -> (r: i128)
        requires
            self.nanos + JULIAN_OFFSET_NS <= i128::MAX,
        ensures
            r == self.nanos + JULIAN_OFFSET_NS,
    {
        self.nanos + JULIAN_OFFSET_NS
    }
}

impl TimeSystem for ModifiedJulianNanos {
    /// The distance from the instant epoch rounds to a number of seconds that fits in `u64`.
    open spec fn convertible(&self) -> bool {
        magnitude(self.since_j1900()) <= u64::MAX * NANOS_PER_SECOND
    }

    fn from_instant(instant: Instant) -> (r: ModifiedJulianNanos)
        ensures
            r.nanos == mjd_nanos_of(instant),
    {
        assert(instant.seconds * NANOS_PER_SECOND <= u64::MAX * NANOS_PER_SECOND) by (nonlinear_arith);
        assert(instant.nanos * SECONDS_PER_DAY <= u32::MAX * SECONDS_PER_DAY) by (nonlinear_arith);
        let secs: i128 = instant.seconds as i128 * NANOS_PER_SECOND as i128;
        let signed: i128 = match instant.era {
            Era::Present => secs,
            Era::Past => -secs,
        };
        ModifiedJulianNanos {
            nanos: J1900_OFFSET_NS + signed + instant.nanos as i128 * SECONDS_PER_DAY as i128,
        }
    }

    fn as_instant(self) -> (r: Instant)
        ensures
            r.wf(),
            r.era == era_at(self.since_j1900()),
            r.seconds == seconds_at(self.since_j1900()),
            r.nanos == nanos_at(self.since_j1900()),
    {
        let d: i128 = self.nanos - J1900_OFFSET_NS;
        let era: Era;
        let a: u128;
        if d >= 0 {
            era = Era::Present;
            a = d as u128;
        } else {
            era = Era::Past;
            a = (-d) as u128;
        }
        let seconds: u128 = (a + HALF_SECOND_NS) / NANOS_PER_SECOND as u128;
        assert(seconds * NANOS_PER_SECOND <= a + HALF_SECOND_NS
            < seconds * NANOS_PER_SECOND + NANOS_PER_SECOND) by (nonlinear_arith)
            requires
                seconds == (a + HALF_SECOND_NS) / NANOS_PER_SECOND as int,
        ;
        assert(seconds <= u64::MAX) by (nonlinear_arith)
            requires
                seconds * NANOS_PER_SECOND <= a + HALF_SECOND_NS,
                a <= u64::MAX * NANOS_PER_SECOND,
        ;
        let whole: u128 = seconds * NANOS_PER_SECOND as u128;
        // The residual `a - whole` is divided by one day's seconds signed by era; where the
        // residual's sign and the era's disagree the quotient is not positive and the field is 0.
        let sub: u32;
        if a >= whole {
            let rest: u128 = a - whole;
            match era {
                Era::Present => {
                    sub = ((rest + HALF_DAY_SECS) / SECONDS_PER_DAY as u128) as u32;
                },
                Era::Past => {
                    sub = 0;
                },
            }
        } else {
            let rest: u128 = whole - a;
            match era {
                Era::Present => {
                    sub = 0;
                },
                Era::Past => {
                    sub = ((rest + HALF_DAY_SECS) / SECONDS_PER_DAY as u128) as u32;
                },
            }
        }
        Instant { seconds: seconds as u64, nanos: sub, era }
    }
}

/// Converting a present-era instant whose sub-second count is at most `MAX_ROUND_TRIP_NANOS`
/// and back gives the same instant.
pub proof fn lemma_round_trip_present(i: Instant)
    requires
        i.era == Era::Present,
        i.seconds <= 100_000_000,
        i.nanos <= MAX_ROUND_TRIP_NANOS,
    ensures
        ({
            let m = ModifiedJulianNanos { nanos: mjd_nanos_of(i) as i128 };
            &&& m.convertible()
            &&& era_at(m.since_j1900()) == i.era
            &&& seconds_at(m.since_j1900()) == i.seconds
            &&& nanos_at(m.since_j1900()) == i.nanos
        }),
{
    let s = i.seconds as int;
    let n = i.nanos as int;
    let d = s * NANOS_PER_SECOND + n * SECONDS_PER_DAY;
    assert(0 <= n * SECONDS_PER_DAY <= MAX_ROUND_TRIP_NANOS * SECONDS_PER_DAY) by (nonlinear_arith)
        requires
            0 <= n <= MAX_ROUND_TRIP_NANOS,
    ;
    assert(0 <= s * NANOS_PER_SECOND <= 100_000_000 * NANOS_PER_SECOND) by (nonlinear_arith)
        requires
            0 <= s <= 100_000_000,
    ;
    assert(mjd_nanos_of(i) - J1900_OFFSET_NS == d);
    lemma_fundamental_div_mod_converse(
        d + HALF_SECOND_NS,
        NANOS_PER_SECOND as int,
        s,
        n * SECONDS_PER_DAY + HALF_SECOND_NS,
    );
    assert(residual_at(d) == n * SECONDS_PER_DAY);
    lemma_fundamental_div_mod_converse(
        n * SECONDS_PER_DAY + HALF_DAY_SECS,
        SECONDS_PER_DAY as int,
        n,
        HALF_DAY_SECS as int,
    );
}

/// Converting a past-era instant at least one second before the epoch, whose sub-second count
/// is at most `MAX_ROUND_TRIP_NANOS`, and back gives the same instant.
pub proof fn lemma_round_trip_past(i: Instant)
    requires
        i.era == Era::Past,
        1 <= i.seconds <= 100_000_000,
        i.nanos <= MAX_ROUND_TRIP_NANOS,
    ensures
        ({
            let m = ModifiedJulianNanos { nanos: mjd_nanos_of(i) as i128 };
            &&& m.convertible()
            &&& era_at(m.since_j1900()) == i.era
            &&& seconds_at(m.since_j1900()) == i.seconds
            &&& nanos_at(m.since_j1900()) == i.nanos
        }),
{
    let s = i.seconds as int;
    let n = i.nanos as int;
    let d = -(s * NANOS_PER_SECOND) + n * SECONDS_PER_DAY;
    assert(0 <= n * SECONDS_PER_DAY <= MAX_ROUND_TRIP_NANOS * SECONDS_PER_DAY) by (nonlinear_arith)
        requires
            0 <= n <= MAX_ROUND_TRIP_NANOS,
    ;
    assert(NANOS_PER_SECOND <= s * NANOS_PER_SECOND <= 100_000_000 * NANOS_PER_SECOND)
        by (nonlinear_arith)
        requires
            1 <= s <= 100_000_000,
    ;
    assert(mjd_nanos_of(i) - J1900_OFFSET_NS == d);
    assert(d < 0);
    lemma_fundamental_div_mod_converse(
        -d + HALF_SECOND_NS,
        NANOS_PER_SECOND as int,
        s,
        HALF_SECOND_NS - n * SECONDS_PER_DAY,
    );
    assert(residual_at(d) == -(n * SECONDS_PER_DAY));
    lemma_fundamental_div_mod_converse(
        n * SECONDS_PER_DAY + HALF_DAY_SECS,
        SECONDS_PER_DAY as int,
        n,
        HALF_DAY_SECS as int,
    );
}

/// Among instants with the same sub-second count, a preceding instant never has a larger day
/// count.
pub proof fn lemma_monotonic(x: Instant, y: Instant)
    requires
        x.precedes(&y),
        x.nanos == y.nanos,
    ensures
        mjd_nanos_of(x) <= mjd_nanos_of(y),
{
    let xs = x.seconds as int;
    let ys = y.seconds as int;
    assert(0 <= xs * NANOS_PER_SECOND && 0 <= ys * NANOS_PER_SECOND) by (nonlinear_arith)
        requires
            0 <= xs && 0 <= ys,
    ;
    if xs < ys {
        assert(xs * NANOS_PER_SECOND < ys * NANOS_PER_SECOND) by (nonlinear_arith)
            requires
                xs < ys,
        ;
    } else if xs > ys {
        assert(xs * NANOS_PER_SECOND > ys * NANOS_PER_SECOND) by (nonlinear_arith)
            requires
                xs > ys,
        ;
    }
}

} // verus!
