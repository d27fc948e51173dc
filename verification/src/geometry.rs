//! Index data of the triangle fans used to draw filled circles.
use vstd::prelude::*;

verus! {

/// Entry `k` of the index list of a triangle fan: triangle `t = k / 3` is
/// `(0, t + 1, t + 2)`.
pub open spec fn fan_index(k: int) -> int {
    if k % 3 == 0 {
        0
    } else if k % 3 == 1 {
        k / 3 + 1
    } else {
        k / 3 + 2
    }
}

/// The triangle fan of a circle cut into `segments` slices: vertex 0 is the
/// center and vertices `1..=segments + 1` go round the rim (the last one
/// repeats the first position), so slice `t` is the triangle
/// `(0, t + 1, t + 2)`.
pub fn fan_indices(segments: u32) -> (indices: Vec<u32>)
    requires
        segments < u32::MAX,
    ensures
        indices@.len() == 3 * segments,
        forall|k: int| 0 <= k < indices@.len() ==> #[trigger] indices@[k] == fan_index(k),
        forall|k: int| 0 <= k < indices@.len() ==> #[trigger] indices@[k] <= segments + 1,
{
    let mut indices: Vec<u32> = Vec::new();
    let mut i: u32 = 0;
    while i < segments
        invariant
            i <= segments < u32::MAX,
            indices@.len() == 3 * i,
            forall|k: int| 0 <= k < indices@.len() ==> #[trigger] indices@[k] == fan_index(k),
            forall|k: int| 0 <= k < indices@.len() ==> #[trigger] indices@[k] <= i + 1,
        decreases segments - i,
    {
        let ghost prev = indices@;
        indices.push(0);
        indices.push(i + 1);
        indices.push(i + 2);
        assert forall|k: int| 0 <= k < indices@.len() implies #[trigger] indices@[k] == fan_index(k) by {
            if k < 3 * i {
                assert(indices@[k] == prev[k]);
            } else {
                assert(k == 3 * i || k == 3 * i + 1 || k == 3 * i + 2);
                assert((3 * i) % 3 == 0 && (3 * i) / 3 == i) by (nonlinear_arith);
                assert((3 * i + 1) % 3 == 1 && (3 * i + 1) / 3 == i) by (nonlinear_arith);
                assert((3 * i + 2) % 3 == 2 && (3 * i + 2) / 3 == i) by (nonlinear_arith);
            }
        }
        i = i + 1;
    }
    indices
}

/// Triangle `t` of a fan is `(0, t + 1, t + 2)`: every triangle has the
/// center as its first corner, and each
/// triangle shares its last rim vertex with the next one, so the fan closes
/// without gaps.
pub proof fn lemma_fan_triangles_are_adjacent(t: int)
    requires
        t >= 0,
    ensures
        fan_index(3 * t) == 0,
        fan_index(3 * t + 1) == t + 1,
        fan_index(3 * t + 2) == t + 2,
        fan_index(3 * t + 2) == fan_index(3 * (t + 1) + 1),
        fan_index(3 * t + 1) + 1 == fan_index(3 * t + 2),
{
    assert((3 * t) % 3 == 0 && (3 * t) / 3 == t) by (nonlinear_arith);
    assert((3 * t + 1) % 3 == 1 && (3 * t + 1) / 3 == t) by (nonlinear_arith);
    assert((3 * t + 2) % 3 == 2 && (3 * t + 2) / 3 == t) by (nonlinear_arith);
    assert((3 * (t + 1) + 1) % 3 == 1 && (3 * (t + 1) + 1) / 3 == t + 1) by (nonlinear_arith);
}

} // verus!
