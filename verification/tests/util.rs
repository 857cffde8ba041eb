use frclib::math::binary64::Binary64;
use frclib::math::util::{
    deadband_region, interpolation_weight, within_tolerance, DeadbandRegion,
    DEGENERATE_RATIO_BITS,
};

fn encode(x: f64) -> Binary64 {
    Binary64::from_bits(x.to_bits())
}

fn region(value: f64, deadband: f64, max_magnitude: f64) -> DeadbandRegion {
    deadband_region(encode(value), encode(deadband), encode(max_magnitude / deadband))
}

/// The deadband formula, with the library choosing the branch.
fn apply_deadband(value: f64, deadband: f64, max_magnitude: f64) -> f64 {
    match region(value, deadband, max_magnitude) {
        DeadbandRegion::Inside => 0.0,
        DeadbandRegion::ShiftAbove => value - deadband,
        DeadbandRegion::ShiftBelow => value + deadband,
        DeadbandRegion::ScaleAbove => {
            max_magnitude * (value - deadband) / (max_magnitude - deadband)
        }
        DeadbandRegion::ScaleBelow => {
            max_magnitude * (value + deadband) / (max_magnitude - deadband)
        }
    }
}

/// Wraps `input` into `[minimum_input, maximum_input)`.
fn input_modulus(input: f64, minimum_input: f64, maximum_input: f64) -> f64 {
    let modulus = maximum_input - minimum_input;
    let num_max = (input - minimum_input) / modulus;
    let input = num_max.floor().mul_add(-modulus, input);
    let num_min = (input - minimum_input) / modulus;
    num_min.floor().mul_add(-modulus, input)
}

fn is_near(expected: f64, actual: f64, tolerance: f64) -> bool {
    within_tolerance(encode(expected - actual), encode(tolerance))
}

fn is_near_min_max(expected: f64, actual: f64, tolerance: f64, min: f64, max: f64) -> bool {
    let error_bound = (max - min) / 2.0;
    let error = input_modulus(expected - actual, -error_bound, error_bound);
    within_tolerance(encode(error), encode(tolerance))
}

#[test]
fn degenerate_ratio_is_ten_to_the_twelfth() {
    assert_eq!(DEGENERATE_RATIO_BITS, 1.0e12f64.to_bits());
}

#[test]
fn deadband_regions() {
    assert_eq!(region(0.05, 0.1, 1.0), DeadbandRegion::Inside);
    assert_eq!(region(-0.05, 0.1, 1.0), DeadbandRegion::Inside);
    assert_eq!(region(0.1, 0.1, 1.0), DeadbandRegion::Inside);
    assert_eq!(region(-0.1, 0.1, 1.0), DeadbandRegion::Inside);
    assert_eq!(region(0.0, 0.0, 1.0), DeadbandRegion::Inside);
    assert_eq!(region(0.5, 0.1, 1.0), DeadbandRegion::ScaleAbove);
    assert_eq!(region(-0.5, 0.1, 1.0), DeadbandRegion::ScaleBelow);
    assert_eq!(region(0.5, 1e-13, 1.0), DeadbandRegion::ShiftAbove);
    assert_eq!(region(-0.5, 1e-13, 1.0), DeadbandRegion::ShiftBelow);
    assert_eq!(region(0.5, 0.0, 1.0), DeadbandRegion::ShiftAbove);
    assert_eq!(region(-0.5, 0.0, 1.0), DeadbandRegion::ShiftBelow);
}

#[test]
fn deadband_ratio_at_the_threshold_still_rescales() {
    let value = encode(0.5);
    let deadband = encode(0.1);
    assert_eq!(
        deadband_region(value, deadband, encode(1.0e12)),
        DeadbandRegion::ScaleAbove
    );
    assert_eq!(
        deadband_region(value, deadband, encode(1.000_000_000_000_1e12)),
        DeadbandRegion::ShiftAbove
    );
    assert_eq!(
        deadband_region(value, deadband, encode(f64::NAN)),
        DeadbandRegion::ScaleAbove
    );
    assert_eq!(
        deadband_region(value, deadband, encode(f64::INFINITY)),
        DeadbandRegion::ShiftAbove
    );
}

#[test]
fn deadband_of_nan_is_inside() {
    assert_eq!(region(f64::NAN, 0.1, 1.0), DeadbandRegion::Inside);
    assert_eq!(region(0.5, f64::NAN, 1.0), DeadbandRegion::Inside);
}

#[test]
fn deadband_is_zero_inside() {
    for value in [-0.1, -0.07, -1e-300, -0.0, 0.0, 1e-300, 0.03, 0.1] {
        assert_eq!(apply_deadband(value, 0.1, 1.0), 0.0, "value {value:?}");
        assert_eq!(apply_deadband(value, 0.1, 12.0), 0.0, "value {value:?}");
    }
}

#[test]
fn deadband_saturates_at_the_maximum() {
    assert_eq!(apply_deadband(1.0, 0.1, 1.0), 1.0);
    assert_eq!(apply_deadband(-1.0, 0.1, 1.0), -1.0);
    assert_eq!(apply_deadband(2.0, 0.5, 2.0), 2.0);
}

#[test]
fn deadband_rescales_linearly() {
    assert_eq!(apply_deadband(0.75, 0.5, 1.0), 0.5);
    assert_eq!(apply_deadband(-0.75, 0.5, 1.0), -0.5);
    assert_eq!(apply_deadband(3.0, 2.0, 4.0), 2.0);
}

#[test]
fn degenerate_deadband_only_shifts() {
    assert_eq!(apply_deadband(0.5, 0.0, 1.0), 0.5);
    assert_eq!(apply_deadband(-0.5, 0.0, 1.0), -0.5);
    assert_eq!(apply_deadband(0.5, 1e-13, 1.0), 0.5 - 1e-13);
}

#[test]
fn tolerance_is_strict_and_never_negative() {
    assert!(is_near(1.0, 1.05, 0.1));
    assert!(is_near(1.05, 1.0, 0.1));
    assert!(!is_near(1.0, 1.5, 0.1));
    assert!(!is_near(1.0, 1.0, 0.0));
    assert!(!is_near(1.0, 1.0, -0.1));
    assert!(!is_near(1.0, 1.0, -0.0));
    assert!(!is_near(2.0, 1.0, 1.0));
    assert!(is_near(2.0, 1.0, 1.000_000_1));
    assert!(!is_near(f64::NAN, 1.0, 1.0));
    assert!(!is_near(1.0, 1.0, f64::NAN));
    assert!(is_near(1.0, 1e300, f64::INFINITY));
}

#[test]
fn within_tolerance_table() {
    assert!(within_tolerance(encode(-2.0), encode(3.0)));
    assert!(within_tolerance(encode(2.0), encode(3.0)));
    assert!(!within_tolerance(encode(3.0), encode(3.0)));
    assert!(!within_tolerance(encode(-3.0), encode(3.0)));
    assert!(!within_tolerance(encode(0.0), encode(-1.0)));
    assert!(!within_tolerance(encode(0.0), encode(0.0)));
}

#[test]
fn wraparound_is_near() {
    assert!(is_near_min_max(179.0, -179.0, 3.0, -180.0, 180.0));
    assert!(is_near_min_max(-179.0, 179.0, 3.0, -180.0, 180.0));
    assert!(!is_near_min_max(179.0, -179.0, 1.0, -180.0, 180.0));
    assert!(!is_near_min_max(90.0, -90.0, 3.0, -180.0, 180.0));
    assert!(!is_near_min_max(179.0, -179.0, -3.0, -180.0, 180.0));
    assert!(!is_near(179.0, -179.0, 3.0));
}

#[test]
fn interpolation_weight_stays_in_the_unit_interval() {
    for (t, want) in [
        (-1.0, 0.0),
        (-1e-300, 0.0),
        (0.0, 0.0),
        (0.25, 0.25),
        (1.0, 1.0),
        (1.000_000_1, 1.0),
        (f64::INFINITY, 1.0),
        (f64::NEG_INFINITY, 0.0),
    ] {
        let got = f64::from_bits(interpolation_weight(encode(t)).to_bits());
        assert_eq!(got, want, "weight at {t:?}");
        let std_clamp: f64 = t;
        assert_eq!(got.to_bits(), std_clamp.clamp(0.0, 1.0).to_bits());
    }
    assert!(f64::from_bits(interpolation_weight(encode(f64::NAN)).to_bits()).is_nan());
}
