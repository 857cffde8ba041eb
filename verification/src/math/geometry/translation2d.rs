//! Choosing the nearest of several points.
use crate::math::binary64::Binary64;
use vstd::prelude::*;

verus! {

/// Whether `index` is the place of the nearest point, given the distance to
/// each point.
///
/// The nearest point is the first one at the least distance. A distance
/// that is NaN compares with nothing: such a point is nearest only when it
/// comes first, and then it is.
pub open spec fn is_nearest(distances: Seq<Binary64>, index: int) -> bool {
    &&& 0 <= index < distances.len()
    &&& distances[0].nan() ==> index == 0
    &&& forall|j: int|
        0 <= j < distances.len() ==> !(#[trigger] distances[j]).spec_lt(distances[index])
    &&& forall|j: int|
        0 <= j < index ==> (#[trigger] distances[j]).nan() || distances[index].spec_lt(
            distances[j],
        )
}

/// Finds the nearest point, given the distance to each point. Among points
/// at the same distance the first wins.
pub fn nearest_index(distances: &Vec<Binary64>) -> (index: usize)
    requires
        distances.len() > 0,
    ensures
        is_nearest(distances@, index as int),
{
    let mut best: usize = 0;
    let mut i: usize = 1;
    while i < distances.len()
        invariant
            1 <= i <= distances.len(),
            best < i,
            distances@[0].nan() ==> best == 0,
            !distances@[0].nan() ==> !distances@[best as int].nan(),
            forall|j: int|
                0 <= j < i ==> !(#[trigger] distances@[j]).spec_lt(distances@[best as int]),
            forall|j: int|
                0 <= j < best ==> (#[trigger] distances@[j]).nan() || distances@[best as int].spec_lt(
                    distances@[j],
                ),
        decreases distances.len() - i,
    {
        if distances[i].lt(distances[best]) {
            best = i;
        }
        i += 1;
    }
    best
}

/// No two places are both nearest.
pub proof fn lemma_nearest_unique(distances: Seq<Binary64>, a: int, b: int)
    requires
        is_nearest(distances, a),
        is_nearest(distances, b),
    ensures
        a == b,
{
    if a < b {
        if a > 0 {
            assert(distances[0].nan() || distances[a].spec_lt(distances[0]));
        }
    } else if b < a {
        if b > 0 {
            assert(distances[0].nan() || distances[b].spec_lt(distances[0]));
        }
    }
}

} // verus!
