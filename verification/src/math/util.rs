//! Scalar helpers: which part of a deadband an input falls in, and whether
//! an error is within a tolerance.
use crate::math::binary64::{Binary64, ONE_BITS, ZERO_BITS};
use vstd::prelude::*;

verus! {

/// Encoding of `1.0e12`: beyond this ratio of maximum magnitude to deadband
/// the rescaling of a deadband is skipped.
pub const DEGENERATE_RATIO_BITS: u64 = 0x426D_1A94_A200_0000;

/// How a deadband treats an input.
#[derive(Debug, Clone, Copy, PartialEq, Eq, Structural, Hash)]
pub enum DeadbandRegion {
    /// The input is inside the deadband: the output is zero.
    Inside,
    /// Positive input, rescaled: `max * (value - deadband) / (max - deadband)`.
    ScaleAbove,
    /// Other input, rescaled: `max * (value + deadband) / (max - deadband)`.
    ScaleBelow,
    /// Positive input, degenerate deadband: `value - deadband`.
    ShiftAbove,
    /// Other input, degenerate deadband: `value + deadband`.
    ShiftBelow,
}

/// The region of `value` for a deadband of half-width `deadband`, where
/// `ratio` is the maximum magnitude divided by `deadband`.
///
/// An input is inside unless its absolute value exceeds the deadband, so a
/// NaN input is inside. Outside, the deadband is degenerate when `ratio`
/// exceeds `1.0e12`, and the input counts as positive when it exceeds zero.
pub open spec fn deadband_region_of(
    value: Binary64,
    deadband: Binary64,
    ratio: Binary64,
) -> DeadbandRegion {
    let positive = value.spec_gt(Binary64 { bits: 0 });
    if !value.spec_abs().spec_gt(deadband) {
        DeadbandRegion::Inside
    } else if ratio.spec_gt(Binary64 { bits: DEGENERATE_RATIO_BITS }) {
        if positive {
            DeadbandRegion::ShiftAbove
        } else {
            DeadbandRegion::ShiftBelow
        }
    } else {
        if positive {
            DeadbandRegion::ScaleAbove
        } else {
            DeadbandRegion::ScaleBelow
        }
    }
}

/// Decides how a deadband treats `value`. See [`deadband_region_of`].
pub fn deadband_region(value: Binary64, deadband: Binary64, ratio: Binary64) -> (region:
    DeadbandRegion)
    ensures
        region == deadband_region_of(value, deadband, ratio),
{
    let zero = Binary64::from_bits(0);
    if value.abs().gt(deadband) {
        if ratio.gt(Binary64::from_bits(DEGENERATE_RATIO_BITS)) {
            if value.gt(zero) {
                DeadbandRegion::ShiftAbove
            } else {
                DeadbandRegion::ShiftBelow
            }
        } else {
            if value.gt(zero) {
                DeadbandRegion::ScaleAbove
            } else {
                DeadbandRegion::ScaleBelow
            }
        }
    } else {
        DeadbandRegion::Inside
    }
}

/// Every input whose absolute value is at most the deadband is inside it,
/// whatever the maximum magnitude.
pub proof fn lemma_deadband_inside(value: Binary64, deadband: Binary64, ratio: Binary64)
    requires
        value.spec_abs().spec_le(deadband),
    ensures
        deadband_region_of(value, deadband, ratio) == DeadbandRegion::Inside,
{
}

/// Whether `error` is within `tolerance`: never for a negative tolerance,
/// else when the absolute error is below the tolerance.
pub open spec fn within_tolerance_of(error: Binary64, tolerance: Binary64) -> bool {
    !tolerance.spec_lt(Binary64 { bits: 0 }) && error.spec_abs().spec_lt(tolerance)
}

/// Decides whether `error` is within `tolerance`. See
/// [`within_tolerance_of`].
pub fn within_tolerance(error: Binary64, tolerance: Binary64) -> (near: bool)
    ensures
        near == within_tolerance_of(error, tolerance),
{
    if tolerance.lt(Binary64::from_bits(0)) {
        false
    } else {
        error.abs().lt(tolerance)
    }
}

/// The weight of the end point in an interpolation at `t`: `t` limited to
/// `[0, 1]`, so that no interpolation leaves the segment between its two
/// ends. A NaN stays a NaN.
pub open spec fn interpolation_weight_of(t: Binary64) -> Binary64 {
    t.spec_clamp(Binary64 { bits: ZERO_BITS }, Binary64 { bits: ONE_BITS })
}

/// Limits an interpolation parameter to `[0, 1]`. See
/// [`interpolation_weight_of`].
pub fn interpolation_weight(t: Binary64) -> (weight: Binary64)
    ensures
        weight == interpolation_weight_of(t),
        !t.nan() ==> (Binary64 { bits: ZERO_BITS }).spec_le(weight) && weight.spec_le(
            Binary64 { bits: ONE_BITS },
        ),
{
    t.clamp(Binary64::from_bits(ZERO_BITS), Binary64::from_bits(ONE_BITS))
}

} // verus!
