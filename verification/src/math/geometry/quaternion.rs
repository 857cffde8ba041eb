//! Quaternions as four scalars.
use crate::math::binary64::{Binary64, ZERO_BITS};
use vstd::prelude::*;

verus! {

/// A quaternion `w + i·x + j·y + k·z`, in the order in which it is stored
/// and sent: real part first.
#[derive(Copy, Clone, Debug, PartialEq, Eq, Structural, Hash)]
pub struct FrcQuaternion {
    pub w: Binary64,
    pub i: Binary64,
    pub j: Binary64,
    pub k: Binary64,
}

impl FrcQuaternion {
    /// The quaternion with every part negated. It stands for the same
    /// rotation.
    pub open spec fn spec_neg(self) -> Self {
        FrcQuaternion {
            w: self.w.spec_neg(),
            i: self.i.spec_neg(),
            j: self.j.spec_neg(),
            k: self.k.spec_neg(),
        }
    }

    /// Of the two quaternions of a rotation, the one on the hemisphere of
    /// non-negative real part: `self` where `w >= 0`, its negation
    /// otherwise.
    pub open spec fn spec_shortest_arc(self) -> Self {
        if self.w.spec_ge(Binary64 { bits: ZERO_BITS }) {
            self
        } else {
            self.spec_neg()
        }
    }

    /// Negates every part.
    #[verifier::when_used_as_spec(spec_neg)]
    pub fn neg(self) -> (negated: Self)
        ensures
            negated == self.spec_neg(),
    {
        FrcQuaternion { w: self.w.neg(), i: self.i.neg(), j: self.j.neg(), k: self.k.neg() }
    }

    /// Picks the representative from which a rotation is scaled, so that
    /// the scaled rotation stays on the shortest arc. Its real part is
    /// never negative unless it is NaN.
    #[verifier::when_used_as_spec(spec_shortest_arc)]
    pub fn shortest_arc(self) -> (chosen: Self)
        ensures
            chosen == self.spec_shortest_arc(),
            !self.w.nan() ==> chosen.w.spec_ge(Binary64 { bits: ZERO_BITS }),
    {
        if self.w.ge(Binary64::from_bits(ZERO_BITS)) {
            self
        } else {
            self.neg()
        }
    }
}

} // verus!
