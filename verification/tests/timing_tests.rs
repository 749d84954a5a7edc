use autoclick::timing::{compute_timing, DUTY_FULL, MIN_PRESS_NS, PICOS_PER_UNIT, RATE_FLOOR};

// One fixed-point unit of rate or duty per whole unit.
const PICO: u64 = PICOS_PER_UNIT;

#[test]
fn timing_ten_cps_half_duty() {
    // 10 actuations per second at 50% duty: 100 ms period, split evenly.
    let t = compute_timing(10 * PICO, 50 * PICO);
    assert_eq!(t.period_ns, 100_000_000);
    assert_eq!(t.on_ns, 50_000_000);
    assert_eq!(t.off_ns, 50_000_000);
}

#[test]
fn timing_high_rate_tiny_duty_caps_at_period() {
    // 10000 actuations per second: the period (0.1 ms) is itself shorter
    // than the 1 ms press floor, so the press fills the whole period.
    let t = compute_timing(10_000 * PICO, 10_000_000_000);
    assert_eq!(t.period_ns, 100_000);
    assert_eq!(t.on_ns, 100_000);
    assert_eq!(t.off_ns, 0);
}

#[test]
fn timing_zero_rate_floored() {
    // A rate of zero is floored to 0.1 per second: a 10 s period.
    let t = compute_timing(0, 50 * PICO);
    assert_eq!(t.period_ns, 10_000_000_000);
    assert_eq!(t.on_ns, 5_000_000_000);
    assert_eq!(t.off_ns, 5_000_000_000);
}

#[test]
fn timing_full_duty_no_gap() {
    // 100% duty: continuous press-release-press with no idle gap.
    let t = compute_timing(10 * PICO, 100 * PICO);
    assert_eq!(t.on_ns, t.period_ns);
    assert_eq!(t.off_ns, 0);
}

#[test]
fn timing_min_press_floor_applies() {
    // 10 per second at 0% duty: the duty-derived press is 0, raised to
    // the 1 ms floor; the idle part is what the floor leaves.
    let t = compute_timing(10 * PICO, 0);
    assert_eq!(t.period_ns, 100_000_000);
    assert_eq!(t.on_ns, MIN_PRESS_NS);
    assert_eq!(t.off_ns, 99_000_000);
}

#[test]
fn timing_duty_above_full_clamped() {
    // A duty cycle above 100% behaves as 100%.
    let t = compute_timing(10 * PICO, 2 * DUTY_FULL);
    assert_eq!(t.on_ns, t.period_ns);
    assert_eq!(t.off_ns, 0);
}

#[test]
fn timing_on_off_partition_period() {
    // The on and off parts always partition the period exactly.
    let cases: Vec<(u64, u64)> = vec![
        (10 * PICO, 50 * PICO),
        (1, 1),
        (u64::MAX, DUTY_FULL),
        (24_323_452_375_730, 36_836_218_324_712),
        (0, 0),
        (10_000 * PICO, 10_000_000_000),
    ];
    for (rate, duty) in cases {
        let t = compute_timing(rate, duty);
        assert_eq!(t.on_ns + t.off_ns, t.period_ns);
        assert!(t.on_ns <= t.period_ns);
        assert!(t.period_ns >= 1);
    }
}

#[test]
fn timing_fractional_rate_exact() {
    // 0.1 per second is held exactly in fixed point: a 10 s period.
    assert_eq!(RATE_FLOOR, PICO / 10);
    let t = compute_timing(RATE_FLOOR, 25 * PICO);
    assert_eq!(t.period_ns, 10_000_000_000);
    assert_eq!(t.on_ns, 2_500_000_000);
    assert_eq!(t.off_ns, 7_500_000_000);
}
