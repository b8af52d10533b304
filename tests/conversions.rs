use modified_julian::instant::{Era, Instant};
use modified_julian::julian::{
    ModifiedJulianNanos, J1900_OFFSET_NS, MAX_ROUND_TRIP_NANOS, NANOS_PER_DAY,
};
use modified_julian::TimeSystem;

fn round_trip(i: Instant) -> Instant {
    ModifiedJulianNanos::from_instant(i).as_instant()
}

fn days(m: ModifiedJulianNanos) -> f64 {
    m.nanos as f64 / NANOS_PER_DAY as f64
}

#[test]
fn epoch_fixed_point() {
    let m = ModifiedJulianNanos::from_instant(Instant::new(0, 0, Era::Present));
    assert_eq!(m.nanos, 15_020 * NANOS_PER_DAY);
    assert_eq!(days(m), 15020.0);
}

#[test]
fn true_julian_day_offset() {
    let m = ModifiedJulianNanos { nanos: 15_020 * NANOS_PER_DAY };
    assert_eq!(m.julian_nanos(), 208_657_771_200_000_000_000);
    assert_eq!(m.julian_nanos() as f64 / NANOS_PER_DAY as f64, 2_415_020.5);
}

#[test]
fn julian_nanos_twice_is_the_same() {
    let m = ModifiedJulianNanos { nanos: 4_567_890_123_456_789 };
    assert_eq!(m.julian_nanos(), m.julian_nanos());
}

#[test]
fn era_boundary_at_epoch() {
    let i = ModifiedJulianNanos { nanos: J1900_OFFSET_NS }.as_instant();
    assert_eq!(i.era(), Era::Present);
    assert_eq!(i.secs(), 0);
    assert_eq!(i.nanos(), 0);
}

#[test]
fn era_boundary_one_second_before() {
    let i = ModifiedJulianNanos { nanos: J1900_OFFSET_NS - 1_000_000_000 }.as_instant();
    assert_eq!(i.era(), Era::Past);
    assert_eq!(i.secs(), 1);
    assert_eq!(i.nanos(), 0);
}

#[test]
fn from_instant_present_adds_seconds_and_day_fraction() {
    let m = ModifiedJulianNanos::from_instant(Instant::new(86_400, 500_000_000, Era::Present));
    assert_eq!(m.nanos, 15_021 * NANOS_PER_DAY + NANOS_PER_DAY / 2);
    assert_eq!(days(m), 15021.5);
}

#[test]
fn from_instant_past_adds_sub_second_part_unsigned() {
    let m = ModifiedJulianNanos::from_instant(Instant::new(86_400, 500_000_000, Era::Past));
    assert_eq!(m.nanos, 15_019 * NANOS_PER_DAY + NANOS_PER_DAY / 2);
    assert_eq!(days(m), 15019.5);
}

#[test]
fn round_trip_present_samples() {
    for (s, n) in [(0u64, 0u32), (1, 1), (12_345, 999), (100_000_000, MAX_ROUND_TRIP_NANOS)] {
        let i = Instant::new(s, n, Era::Present);
        assert_eq!(round_trip(i), i);
    }
}

#[test]
fn round_trip_past_samples() {
    for (s, n) in [(1u64, 0u32), (2, 17), (54_321, 4_000), (100_000_000, MAX_ROUND_TRIP_NANOS)] {
        let i = Instant::new(s, n, Era::Past);
        assert_eq!(round_trip(i), i);
    }
}

#[test]
fn round_trip_breaks_past_the_bound() {
    let i = round_trip(Instant::new(0, 6_000, Era::Present));
    assert_eq!(i, Instant::new(1, 0, Era::Present));
    let j = round_trip(Instant::new(0, 0, Era::Past));
    assert_eq!(j, Instant::new(0, 0, Era::Present));
}

#[test]
fn past_residual_rounds_to_nanos() {
    let up = ModifiedJulianNanos { nanos: J1900_OFFSET_NS - 1_000_000_000 + 86_400 }.as_instant();
    assert_eq!(up, Instant::new(1, 1, Era::Past));
    let down = ModifiedJulianNanos { nanos: J1900_OFFSET_NS - 1_000_000_000 - 86_400 }.as_instant();
    assert_eq!(down, Instant::new(1, 0, Era::Past));
}

#[test]
fn present_residual_half_rounds_away() {
    let m = ModifiedJulianNanos { nanos: J1900_OFFSET_NS + 43_200 }.as_instant();
    assert_eq!(m, Instant::new(0, 1, Era::Present));
    let n = ModifiedJulianNanos { nanos: J1900_OFFSET_NS + 43_199 }.as_instant();
    assert_eq!(n, Instant::new(0, 0, Era::Present));
}

#[test]
fn half_second_rounds_up() {
    let m = ModifiedJulianNanos { nanos: J1900_OFFSET_NS + 500_000_000 }.as_instant();
    assert_eq!(m.secs(), 1);
    assert_eq!(m.nanos(), 0);
}

#[test]
fn monotonic_samples() {
    let xs = [
        Instant::new(100, 7, Era::Past),
        Instant::new(3, 7, Era::Past),
        Instant::new(0, 7, Era::Present),
        Instant::new(5, 7, Era::Present),
        Instant::new(86_400, 7, Era::Present),
    ];
    for w in xs.windows(2) {
        let a = ModifiedJulianNanos::from_instant(w[0]);
        let b = ModifiedJulianNanos::from_instant(w[1]);
        assert!(a.nanos <= b.nanos);
    }
}

#[test]
fn new_carries_whole_seconds() {
    let i = Instant::new(1, 2_500_000_000, Era::Past);
    assert_eq!(i.secs(), 3);
    assert_eq!(i.nanos(), 500_000_000);
    assert_eq!(i.era(), Era::Past);
}
