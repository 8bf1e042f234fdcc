use vstd::prelude::*;
use crate::tiling::{EdgeShape, NUM_TILING_TYPES};

verus! {

/// Position, in a type's colouring table, of the modulus of the colouring.
pub const COLOUR_MODULUS_AT: usize = 18;

/// Length of a type's colouring table: 12 starting colours (one per aspect),
/// 3 entries for a step along the first lattice vector, 3 for a step along
/// the second, and the modulus.
pub const COLOURING_LEN: usize = 19;

/// Start of the colour recurrence for a step along the first lattice vector.
pub const STEP_T1_AT: usize = 12;

/// Start of the colour recurrence for a step along the second lattice vector.
pub const STEP_T2_AT: usize = 15;

/// The combinatorial part of one row of the tiling-type catalogue: counts,
/// edge classification, edge orientation flags and the colouring table.
/// The real-valued coefficient rows are kept by the caller; their layout is
/// given by [`vector_row_start`] and [`aspect_row_start`].
#[derive(Debug, Clone)]
pub struct TilingTypeData {
    pub num_params: usize,
    pub num_aspects: usize,
    pub num_vertices: usize,
    /// Shape class of each distinct edge shape.
    pub edge_shapes: Vec<EdgeShape>,
    /// For each polygon edge, the index of its edge shape.
    pub edge_shape_ids: Vec<usize>,
    /// Two flags per polygon edge: mirror, then half turn.
    pub edge_orientations: Vec<bool>,
    pub colouring: Vec<u8>,
}

impl TilingTypeData {
    pub open spec fn wf(&self) -> bool {
        &&& self.num_params <= 6
        &&& 1 <= self.num_aspects <= 12
        &&& 3 <= self.num_vertices <= 6
        &&& self.edge_shape_ids@.len() == self.num_vertices
        &&& forall|i: int|
            0 <= i < self.num_vertices ==> #[trigger] self.edge_shape_ids@[i]
                < self.edge_shapes@.len()
        &&& self.edge_orientations@.len() == 2 * self.num_vertices
        &&& self.colouring@.len() == COLOURING_LEN
        &&& self.colouring@[COLOUR_MODULUS_AT as int] >= 1
        &&& forall|i: int| 0 <= i < COLOUR_MODULUS_AT ==> #[trigger] self.colouring@[i] < 3
    }

    /// Equality of the two rows as values.
    pub open spec fn same(&self, o: &Self) -> bool {
        &&& self.num_params == o.num_params
        &&& self.num_aspects == o.num_aspects
        &&& self.num_vertices == o.num_vertices
        &&& self.edge_shapes@ == o.edge_shapes@
        &&& self.edge_shape_ids@ == o.edge_shape_ids@
        &&& self.edge_orientations@ == o.edge_orientations@
        &&& self.colouring@ == o.colouring@
    }

    /// A copy of this row.
    pub fn copy(&self) -> (r: Self)
        ensures
            r.same(self),
    {
        TilingTypeData {
            num_params: self.num_params,
            num_aspects: self.num_aspects,
            num_vertices: self.num_vertices,
            edge_shapes: copy_vec(&self.edge_shapes),
            edge_shape_ids: copy_vec(&self.edge_shape_ids),
            edge_orientations: copy_vec(&self.edge_orientations),
            colouring: copy_vec(&self.colouring),
        }
    }

    /// Whether polygon edge `i` is walked backward: its two orientation
    /// flags differ.
    pub open spec fn reversal(&self, i: int) -> bool {
        self.edge_orientations@[2 * i] != self.edge_orientations@[2 * i + 1]
    }

    /// Index, among the four orientations, of the one that places the
    /// canonical edge for polygon edge `i`.
    pub open spec fn orientation(&self, i: int) -> int {
        2 * (if self.edge_orientations@[2 * i] { 1int } else { 0 }) + (if self.edge_orientations@[2
            * i + 1] {
            1int
        } else {
            0
        })
    }
}

/// The catalogue of all tiling types, one row per type index.
#[derive(Debug, Clone)]
pub struct TilingTable {
    pub rows: Vec<TilingTypeData>,
}

impl TilingTable {
    pub open spec fn wf(&self) -> bool {
        &&& self.rows@.len() == NUM_TILING_TYPES
        &&& forall|i: int| 0 <= i < self.rows@.len() ==> (#[trigger] self.rows@[i]).wf()
    }
}

fn copy_vec<T: Copy>(v: &Vec<T>) -> (r: Vec<T>)
    ensures
        r@ == v@,
{
    let mut r: Vec<T> = Vec::new();
    let mut i: usize = 0;
    while i < v.len()
        invariant
            i <= v@.len(),
            r@ == v@.subrange(0, i as int),
        decreases v@.len() - i,
    {
        r.push(v[i]);
        i += 1;
        proof {
            assert(r@ =~= v@.subrange(0, i as int));
        }
    }
    proof {
        assert(r@ =~= v@);
    }
    r
}

/// Offset of the coefficients of vector `idx` (a vertex or a lattice vector)
/// in a row of vectors: each vector takes `2 * (np + 1)` coefficients.
pub fn vector_row_start(np: usize, idx: usize) -> (r: usize)
    requires
        np <= 6,
        idx <= 6,
    ensures
        r == 2 * (np + 1) * idx,
{
    assert(2 * (np + 1) * idx <= 84) by (nonlinear_arith)
        requires
            np <= 6,
            idx <= 6,
    ;
    2 * (np + 1) * idx
}

/// Offset, within the coefficients of one vector or aspect, of its entry
/// `k`: each entry is a row of `np` parameter weights and a constant.
pub fn entry_start(np: usize, k: usize) -> (r: usize)
    requires
        np <= 6,
        k <= 6,
    ensures
        r == k * (np + 1),
{
    assert(k * (np + 1) <= 42) by (nonlinear_arith)
        requires
            np <= 6,
            k <= 6,
    ;
    k * (np + 1)
}

/// Offset of the coefficients of aspect `idx` in a row of aspects: each
/// aspect takes `6 * (np + 1)` coefficients.
pub fn aspect_row_start(np: usize, idx: usize) -> (r: usize)
    requires
        np <= 6,
        idx <= 12,
    ensures
        r == 6 * (np + 1) * idx,
{
    assert(6 * (np + 1) * idx <= 504) by (nonlinear_arith)
        requires
            np <= 6,
            idx <= 12,
    ;
    6 * (np + 1) * idx
}

} // verus!
