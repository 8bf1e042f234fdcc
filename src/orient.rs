use vstd::prelude::*;
use crate::table::TilingTypeData;

verus! {

/// An affine map of the plane with small integer coefficients, stored by
/// columns: `(x, y) ↦ (m00·x + m10·y + tx, m01·x + m11·y + ty)`.
#[derive(Debug, Clone, Copy, PartialEq, Eq, Structural)]
pub struct IntAffine {
    pub m00: i8,
    pub m01: i8,
    pub m10: i8,
    pub m11: i8,
    pub tx: i8,
    pub ty: i8,
}

impl IntAffine {
    /// The image of the point `(x, y)`.
    pub open spec fn apply(self, x: int, y: int) -> (int, int) {
        (
            self.m00 * x + self.m10 * y + self.tx,
            self.m01 * x + self.m11 * y + self.ty,
        )
    }
}

/// The four orientations of the canonical edge `(0,0)→(1,0)`, by index
/// `2·mirror + half_turn`: identity, half turn about the midpoint, mirror
/// across the perpendicular bisector, and mirror across the edge's line.
pub open spec fn orientation_spec(k: int) -> IntAffine {
    if k == 0 {
        IntAffine { m00: 1, m01: 0, m10: 0, m11: 1, tx: 0, ty: 0 }
    } else if k == 1 {
        IntAffine { m00: -1i8, m01: 0, m10: 0, m11: -1i8, tx: 1, ty: 0 }
    } else if k == 2 {
        IntAffine { m00: -1i8, m01: 0, m10: 0, m11: 1, tx: 1, ty: 0 }
    } else {
        IntAffine { m00: 1, m01: 0, m10: 0, m11: -1i8, tx: 0, ty: 0 }
    }
}

/// The orientation with index `k` (see [`orientation_spec`]).
pub fn orientation(k: usize) -> (r: IntAffine)
    requires
        k < 4,
    ensures
        r == orientation_spec(k as int),
{
    if k == 0 {
        IntAffine { m00: 1, m01: 0, m10: 0, m11: 1, tx: 0, ty: 0 }
    } else if k == 1 {
        IntAffine { m00: -1, m01: 0, m10: 0, m11: -1, tx: 1, ty: 0 }
    } else if k == 2 {
        IntAffine { m00: -1, m01: 0, m10: 0, m11: 1, tx: 1, ty: 0 }
    } else {
        IntAffine { m00: 1, m01: 0, m10: 0, m11: -1, tx: 0, ty: 0 }
    }
}

/// For every polygon edge, the orientation chosen for it maps the canonical
/// edge's endpoints `(0,0)` and `(1,0)` onto themselves, in the same order
/// when the edge is not reversed and swapped when it is.
pub proof fn lemma_orientation_endpoints(row: &TilingTypeData, i: int)
    requires
        row.wf(),
        0 <= i < row.num_vertices,
    ensures
        ({
            let o = orientation_spec(row.orientation(i));
            if row.reversal(i) {
                o.apply(0, 0) == (1int, 0int) && o.apply(1, 0) == (0int, 0int)
            } else {
                o.apply(0, 0) == (0int, 0int) && o.apply(1, 0) == (1int, 0int)
            }
        }),
{
}

} // verus!
