//! Saturation of the pitch angle at gimbal lock.
use crate::math::binary64::{Binary64, ONE_BITS};
use vstd::prelude::*;

verus! {

/// Encoding of the double nearest to π/2.
pub const HALF_PI_BITS: u64 = 0x3FF9_21FB_5444_2D18;

/// The pitch of a rotation whose sine of pitch is `ratio`, where no arcsine
/// is taken: π/2 with the sign of `ratio` once `|ratio| >= 1`, none below.
pub open spec fn saturated_pitch_of(ratio: Binary64) -> Option<Binary64> {
    if ratio.spec_abs().spec_ge(Binary64 { bits: ONE_BITS }) {
        Some(Binary64 { bits: HALF_PI_BITS }.spec_copysign(ratio))
    } else {
        None
    }
}

/// Decides whether the pitch saturates, and to which of ±π/2. A `ratio`
/// that is NaN does not saturate.
pub fn saturated_pitch(ratio: Binary64) -> (pitch: Option<Binary64>)
    ensures
        pitch == saturated_pitch_of(ratio),
{
    if ratio.abs().ge(Binary64::from_bits(ONE_BITS)) {
        Some(Binary64::from_bits(HALF_PI_BITS).copysign(ratio))
    } else {
        None
    }
}

} // verus!
