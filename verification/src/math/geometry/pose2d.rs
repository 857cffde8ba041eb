//! Branch decisions of the planar exponential and logarithmic maps and of
//! pose interpolation.
use crate::math::binary64::{Binary64, ONE_BITS, ZERO_BITS};
use vstd::prelude::*;

verus! {

/// Encoding of `1.0e-9`, the threshold below which the exponential and
/// logarithmic maps replace their closed forms by a series.
pub const SMALL_ANGLE_BITS: u64 = 0x3E11_2E0B_E826_D695;

/// Whether `x` is too close to zero to divide by: its absolute value is
/// below `1.0e-9`. A NaN is not.
pub open spec fn spec_is_small_angle(x: Binary64) -> bool {
    x.spec_abs().spec_lt(Binary64 { bits: SMALL_ANGLE_BITS })
}

/// Decides whether a map uses its series in place of its closed form. The
/// exponential map asks this of the twist's rotation, the logarithmic map
/// of the cosine of the relative rotation less one.
#[verifier::when_used_as_spec(spec_is_small_angle)]
pub fn is_small_angle(x: Binary64) -> (small: bool)
    ensures
        small == spec_is_small_angle(x),
{
    x.abs().lt(Binary64::from_bits(SMALL_ANGLE_BITS))
}

/// The pose that an interpolation at `t` returns without computing: the
/// start where `t < 0`, the end where `t >= 1`, none otherwise.
pub open spec fn interpolation_endpoint_of<P>(start: P, end: P, t: Binary64) -> Option<P> {
    if t.spec_lt(Binary64 { bits: ZERO_BITS }) {
        Some(start)
    } else if t.spec_ge(Binary64 { bits: ONE_BITS }) {
        Some(end)
    } else {
        None
    }
}

/// Decides whether an interpolation at `t` is one of its two endpoints, and
/// hands that endpoint back as it was given.
pub fn interpolation_endpoint<P>(start: P, end: P, t: Binary64) -> (endpoint: Option<P>)
    ensures
        endpoint == interpolation_endpoint_of(start, end, t),
{
    if t.lt(Binary64::from_bits(ZERO_BITS)) {
        Some(start)
    } else if t.ge(Binary64::from_bits(ONE_BITS)) {
        Some(end)
    } else {
        None
    }
}

/// At `t = 1`, and at any `t` from there on, an interpolation is its end,
/// bit for bit; below zero it is its start. Zero itself is no endpoint: at
/// `t = 0` the interpolation is computed.
pub proof fn lemma_interpolation_boundary<P>(start: P, end: P, t: Binary64)
    ensures
        interpolation_endpoint_of(start, end, Binary64 { bits: ONE_BITS }) == Some(end),
        t.spec_ge(Binary64 { bits: ONE_BITS }) ==> interpolation_endpoint_of(start, end, t)
            == Some(end),
        t.spec_lt(Binary64 { bits: ZERO_BITS }) ==> interpolation_endpoint_of(start, end, t)
            == Some(start),
        interpolation_endpoint_of(start, end, Binary64 { bits: ZERO_BITS }) == None::<P>,
{
}

} // verus!
