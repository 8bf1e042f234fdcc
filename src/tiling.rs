use vstd::prelude::*;
use crate::fill::{cells_in_box, in_box, lists_box, LatticeBox, TileCell};
use crate::table::{
    TilingTable, TilingTypeData, COLOURING_LEN, COLOUR_MODULUS_AT, STEP_T1_AT, STEP_T2_AT,
};

verus! {

/// Number of isohedral tiling classes.
pub const NUM_TILING_TYPES: usize = 93;

/// Returned when a tiling-type index lies outside `0..NUM_TILING_TYPES`.
#[derive(Debug, Clone, Copy, PartialEq, Eq, Structural)]
pub struct InvalidTilingType {
    pub index: usize,
}

/// One of the 93 isohedral tiling types.
#[derive(Debug, Clone, Copy, PartialEq, Eq, Structural)]
pub struct TilingType(usize);

impl TilingType {
    pub closed spec fn id(self) -> nat {
        self.0 as nat
    }

    pub open spec fn wf(self) -> bool {
        self.id() < NUM_TILING_TYPES
    }

    #[verifier::type_invariant]
    spec fn in_range(self) -> bool {
        self.0 < NUM_TILING_TYPES
    }

    /// The tiling type with the given index, or `InvalidTilingType` when the
    /// index is out of range.
    pub fn new(index: usize) -> (r: Result<TilingType, InvalidTilingType>)
        ensures
            index < NUM_TILING_TYPES <==> r is Ok,
            r matches Ok(t) ==> t.id() == index && t.wf(),
            r matches Err(e) ==> e.index == index,
    {
        if index < NUM_TILING_TYPES {
            Ok(TilingType(index))
        } else {
            Err(InvalidTilingType { index })
        }
    }

    /// The index of this tiling type.
    pub fn index(&self) -> (r: usize)
        ensures
            r == self.id(),
            r < NUM_TILING_TYPES,
    {
        proof {
            use_type_invariant(self);
        }
        self.0
    }

    /// The conventional name of the type: `IH` followed by the two-digit
    /// index (the first type is `IH00`).
    pub fn label(&self) -> (r: String)
        ensures
            r@ == label_of(self.id()),
    {
        proof {
            use_type_invariant(self);
        }
        let tens = (self.0 / 10) as u8;
        let ones = (self.0 % 10) as u8;
        let mut s = String::new();
        push_char(&mut s, 'I');
        push_char(&mut s, 'H');
        push_char(&mut s, digit(tens));
        push_char(&mut s, digit(ones));
        proof {
            assert(s@ =~= label_of(self.id()));
        }
        s
    }
}

/// The name `IH` + two decimal digits of an index below 100.
pub open spec fn label_of(i: nat) -> Seq<char> {
    seq!['I', 'H', digit_char((i / 10) as nat), digit_char(i % 10)]
}

pub open spec fn digit_char(d: nat) -> char {
    (48 + d) as char
}

fn digit(d: u8) -> (r: char)
    requires
        d < 10,
    ensures
        r == digit_char(d as nat),
{
    (48u8 + d) as char
}

/// Relies on `String::push`: appends one character at the end.
#[verifier::external_body]
fn push_char(s: &mut String, c: char)
    ensures
        final(s)@ == old(s)@.push(c),
{
    s.push(c)
}

/// The symmetry class of an edge of the prototile.
#[derive(Debug, Clone, Copy, PartialEq, Eq, Structural)]
pub enum EdgeShape {
    /// No constraint on the edge's shape.
    J,
    /// Mirror-symmetric across the perpendicular bisector (like `U`).
    U,
    /// Symmetric under a half turn about its midpoint (like `S`).
    S,
    /// Both mirror- and half-turn-symmetric (like `I`).
    I,
}

impl EdgeShape {
    /// Whether an edge of this shape is drawn as two halves, one the image of
    /// the other (the `U` and `S` classes).
    pub open spec fn is_split(self) -> bool {
        self is U || self is S
    }

    pub fn is_split_edge(&self) -> (r: bool)
        ensures
            r == self.is_split(),
    {
        match self {
            EdgeShape::U | EdgeShape::S => true,
            _ => false,
        }
    }
}

} // verus!

verus! {

/// Applies the recurrence stored at `base` of a colouring table `k` times,
/// starting from colour `c`.
pub open spec fn step_iter(tab: Seq<u8>, base: int, c: int, k: nat) -> int
    decreases k,
{
    if k == 0 {
        c
    } else {
        step_iter(tab, base, tab[base + c] as int, (k - 1) as nat)
    }
}

/// Colour of the tile at lattice position `(n1, n2)` with the given aspect:
/// the aspect's starting colour, stepped `n1 mod nc` times along the first
/// lattice vector and then `n2 mod nc` times along the second.
pub open spec fn colour_of(tab: Seq<u8>, n1: int, n2: int, aspect: int) -> int {
    let nc = tab[COLOUR_MODULUS_AT as int] as int;
    step_iter(
        tab,
        STEP_T2_AT as int,
        step_iter(tab, STEP_T1_AT as int, tab[aspect] as int, (n1 % nc) as nat),
        (n2 % nc) as nat,
    )
}

/// A lattice-cell corner whose neighbours, and theirs, are still
/// representable.
pub open spec fn corner_fits(p: (isize, isize)) -> bool {
    &&& isize::MIN < p.0 < isize::MAX - 1
    &&& isize::MIN < p.1 < isize::MAX - 1
}

pub open spec fn min4(a: int, b: int, c: int, d: int) -> int {
    vstd::math::min(vstd::math::min(a, b), vstd::math::min(c, d))
}

pub open spec fn max4(a: int, b: int, c: int, d: int) -> int {
    vstd::math::max(vstd::math::max(a, b), vstd::math::max(c, d))
}

/// The bounding box of four lattice cells, widened by one cell on each side.
pub open spec fn corner_box(
    a: (isize, isize),
    b: (isize, isize),
    c: (isize, isize),
    d: (isize, isize),
) -> LatticeBox {
    LatticeBox {
        lo1: min4(a.0 as int, b.0 as int, c.0 as int, d.0 as int) - 1,
        hi1: max4(a.0 as int, b.0 as int, c.0 as int, d.0 as int) + 1,
        lo2: min4(a.1 as int, b.1 as int, c.1 as int, d.1 as int) - 1,
        hi2: max4(a.1 as int, b.1 as int, c.1 as int, d.1 as int) + 1,
    }
}

fn min_of(x: isize, y: isize) -> (r: isize)
    ensures
        r == vstd::math::min(x as int, y as int),
{
    if x < y {
        x
    } else {
        y
    }
}

fn max_of(x: isize, y: isize) -> (r: isize)
    ensures
        r == vstd::math::max(x as int, y as int),
{
    if x < y {
        y
    } else {
        x
    }
}

/// One polygon edge of the prototile, as met in winding order.
#[derive(Debug, Clone, Copy, PartialEq, Eq, Structural)]
pub struct ShapeEntry {
    /// Index of the polygon edge.
    pub edge: usize,
    /// Index of its edge shape.
    pub id: usize,
    pub shape: EdgeShape,
    /// Whether the canonical edge is walked from `(1,0)` to `(0,0)`.
    pub reversed: bool,
}

/// A drawn part of the outline: a whole edge, or one half of an edge whose
/// shape is split (`U` or `S`).
#[derive(Debug, Clone, Copy, PartialEq, Eq, Structural)]
pub struct PartEntry {
    pub edge: usize,
    pub id: usize,
    pub shape: EdgeShape,
    /// Whether this part is a half of its edge.
    pub split: bool,
    /// For a half, whether it is the second half of the canonical edge.
    pub second: bool,
    /// Whether the part is walked backward.
    pub reversed: bool,
}

/// The state of one tiling type: which type it is, its catalogue row, and
/// the reversal flag of each polygon edge.
#[derive(Debug, Clone)]
pub struct IsohedralTiling {
    tiling_type: TilingType,
    ttd: TilingTypeData,
    reversals: Vec<bool>,
}

impl IsohedralTiling {
    pub closed spec fn ty(&self) -> TilingType {
        self.tiling_type
    }

    /// The catalogue row in use.
    pub closed spec fn data(&self) -> TilingTypeData {
        self.ttd
    }

    pub closed spec fn wf(&self) -> bool {
        &&& self.ttd.wf()
        &&& self.reversals@.len() == self.ttd.num_vertices
        &&& forall|i: int|
            0 <= i < self.ttd.num_vertices ==> #[trigger] self.reversals@[i]
                == self.ttd.reversal(i)
    }

    /// The tiling for `ihtype`, as catalogued in `table`.
    pub fn new(ihtype: TilingType, table: &TilingTable) -> (r: Self)
        requires
            table.wf(),
        ensures
            ihtype.wf(),
            r.wf(),
            r.ty() == ihtype,
            r.data().same(&table.rows@[ihtype.id() as int]),
    {
        proof {
            use_type_invariant(&ihtype);
        }
        let ttd = table.rows[ihtype.index()].copy();
        Self::from_row(ihtype, ttd)
    }

    fn from_row(ihtype: TilingType, ttd: TilingTypeData) -> (r: Self)
        requires
            ttd.wf(),
        ensures
            r.wf(),
            r.ty() == ihtype,
            r.data() == ttd,
    {
        let n = ttd.num_vertices;
        let mut reversals: Vec<bool> = Vec::new();
        let mut i: usize = 0;
        while i < n
            invariant
                ttd.wf(),
                n == ttd.num_vertices,
                i <= n,
                reversals@.len() == i,
                forall|j: int| 0 <= j < i ==> #[trigger] reversals@[j] == ttd.reversal(j),
            decreases n - i,
        {
            let fl = ttd.edge_orientations[2 * i];
            let ro = ttd.edge_orientations[2 * i + 1];
            reversals.push(fl != ro);
            i += 1;
        }
        IsohedralTiling { tiling_type: ihtype, ttd, reversals }
    }

    /// The reversal flag of each polygon edge.
    pub closed spec fn reversal_flags(&self) -> Seq<bool> {
        self.reversals@
    }

    /// What a reset to `ihtype` from the catalogue `table` leaves.
    pub open spec fn is_reset_to(&self, ihtype: TilingType, table: &TilingTable) -> bool {
        &&& self.wf()
        &&& self.ty() == ihtype
        &&& self.data().same(&table.rows@[ihtype.id() as int])
    }

    /// Switches to the tiling type `ihtype` and recomputes the derived state.
    /// Fails with `InvalidTilingType`, leaving the state unchanged, when the
    /// type's index is out of range.
    pub fn reset(&mut self, ihtype: TilingType, table: &TilingTable) -> (r: Result<
        (),
        InvalidTilingType,
    >)
        requires
            table.wf(),
        ensures
            r is Ok <==> ihtype.wf(),
            r is Ok ==> final(self).is_reset_to(ihtype, table),
            r matches Err(e) ==> e.index == ihtype.id() && *final(self) == *old(self),
    {
        let index = ihtype.index();
        if index < NUM_TILING_TYPES {
            *self = Self::new(ihtype, table);
            Ok(())
        } else {
            Err(InvalidTilingType { index })
        }
    }

    /// The tiling type described.
    pub fn tiling_type(&self) -> (r: TilingType)
        ensures
            r == self.ty(),
    {
        self.tiling_type
    }

    /// Number of distinct edge shapes of the prototile.
    pub fn num_edge_shapes(&self) -> (r: usize)
        ensures
            r == self.data().edge_shapes@.len(),
    {
        self.ttd.edge_shapes.len()
    }

    /// Number of vertices (and of edges) of the prototile.
    pub fn num_vertices(&self) -> (r: usize)
        ensures
            r == self.data().num_vertices,
    {
        self.ttd.num_vertices
    }

    /// Number of aspects of the tiling type.
    pub fn num_aspects(&self) -> (r: usize)
        ensures
            r == self.data().num_aspects,
    {
        self.ttd.num_aspects
    }

    /// The shape class of edge shape `idx`.
    pub fn edge_shape(&self, idx: usize) -> (r: EdgeShape)
        requires
            idx < self.data().edge_shapes@.len(),
        ensures
            r == self.data().edge_shapes@[idx as int],
    {
        self.ttd.edge_shapes[idx]
    }

    /// Whether polygon edge `idx` is walked backward.
    pub fn reversal(&self, idx: usize) -> (r: bool)
        requires
            self.wf(),
            idx < self.data().num_vertices,
        ensures
            r == self.data().reversal(idx as int),
    {
        self.reversals[idx]
    }

    /// Index, in `0..4`, of the orientation that places the canonical edge on
    /// polygon edge `idx` (see [`orientation`]).
    pub fn edge_orientation(&self, idx: usize) -> (r: usize)
        requires
            self.wf(),
            idx < self.data().num_vertices,
        ensures
            r == self.data().orientation(idx as int),
            r < 4,
    {
        let fl = self.ttd.edge_orientations[2 * idx];
        let ro = self.ttd.edge_orientations[2 * idx + 1];
        2 * (if fl { 1 } else { 0 }) + (if ro { 1 } else { 0 })
    }

    /// The shape entry of polygon edge `i`.
    pub open spec fn shape_entry(&self, i: int) -> ShapeEntry {
        let id = self.data().edge_shape_ids@[i];
        ShapeEntry {
            edge: i as usize,
            id,
            shape: self.data().edge_shapes@[id as int],
            reversed: self.data().reversal(i),
        }
    }

    /// One entry per polygon edge, in winding order.
    pub fn shapes(&self) -> (r: Vec<ShapeEntry>)
        requires
            self.wf(),
        ensures
            r@.len() == self.data().num_vertices,
            forall|i: int| 0 <= i < r@.len() ==> #[trigger] r@[i] == self.shape_entry(i),
    {
        let n = self.ttd.num_vertices;
        let mut r: Vec<ShapeEntry> = Vec::new();
        let mut i: usize = 0;
        while i < n
            invariant
                self.wf(),
                n == self.data().num_vertices,
                i <= n,
                r@.len() == i,
                forall|j: int| 0 <= j < i ==> #[trigger] r@[j] == self.shape_entry(j),
            decreases n - i,
        {
            r.push(self.shape_at(i));
            i += 1;
        }
        r
    }

    fn shape_at(&self, i: usize) -> (r: ShapeEntry)
        requires
            self.wf(),
            i < self.data().num_vertices,
        ensures
            r == self.shape_entry(i as int),
    {
        let id = self.ttd.edge_shape_ids[i];
        ShapeEntry { edge: i, id, shape: self.ttd.edge_shapes[id], reversed: self.reversals[i] }
    }

    /// The parts of polygon edge `i`: the whole edge when its shape has no
    /// split symmetry, else its two halves, in winding order.
    pub open spec fn edge_parts(&self, i: int) -> Seq<PartEntry> {
        let e = self.shape_entry(i);
        if !e.shape.is_split() {
            seq![PartEntry { edge: e.edge, id: e.id, shape: e.shape, split: false, second: false, reversed: e.reversed }]
        } else {
            let first = PartEntry { edge: e.edge, id: e.id, shape: e.shape, split: true, second: false, reversed: e.reversed };
            let second = PartEntry { edge: e.edge, id: e.id, shape: e.shape, split: true, second: true, reversed: !e.reversed };
            if e.reversed { seq![second, first] } else { seq![first, second] }
        }
    }

    /// The parts of the first `k` polygon edges, in winding order.
    pub open spec fn parts_upto(&self, k: nat) -> Seq<PartEntry>
        decreases k,
    {
        if k == 0 {
            seq![]
        } else {
            self.parts_upto((k - 1) as nat) + self.edge_parts(k - 1)
        }
    }

    /// All parts of the prototile's outline, in winding order.
    pub fn parts(&self) -> (r: Vec<PartEntry>)
        requires
            self.wf(),
        ensures
            r@ == self.parts_upto(self.data().num_vertices as nat),
    {
        let n = self.ttd.num_vertices;
        let mut r: Vec<PartEntry> = Vec::new();
        let mut i: usize = 0;
        while i < n
            invariant
                self.wf(),
                n == self.data().num_vertices,
                i <= n,
                r@ == self.parts_upto(i as nat),
            decreases n - i,
        {
            let e = self.shape_at(i);
            if !e.shape.is_split_edge() {
                r.push(PartEntry { edge: e.edge, id: e.id, shape: e.shape, split: false, second: false, reversed: e.reversed });
            } else {
                let first = PartEntry { edge: e.edge, id: e.id, shape: e.shape, split: true, second: false, reversed: e.reversed };
                let second = PartEntry { edge: e.edge, id: e.id, shape: e.shape, split: true, second: true, reversed: !e.reversed };
                if e.reversed {
                    r.push(second);
                    r.push(first);
                } else {
                    r.push(first);
                    r.push(second);
                }
            }
            proof {
                assert(r@ =~= self.parts_upto((i + 1) as nat));
            }
            i += 1;
        }
        r
    }

    /// Every aspect at every lattice position of the box spanned by the four
    /// lattice-cell corners of a viewport, widened by one cell on each side,
    /// in lexicographic order of `(t1, t2, aspect)`.
    pub fn fill_cells(
        &self,
        a: (isize, isize),
        b: (isize, isize),
        c: (isize, isize),
        d: (isize, isize),
    ) -> (r: Vec<TileCell>)
        requires
            self.wf(),
            corner_fits(a),
            corner_fits(b),
            corner_fits(c),
            corner_fits(d),
        ensures
            lists_box(r@, corner_box(a, b, c, d), self.data().num_aspects as int),
            r@.len() > 0,
    {
        let lo1 = min_of(min_of(a.0, b.0), min_of(c.0, d.0)) - 1;
        let hi1 = max_of(max_of(a.0, b.0), max_of(c.0, d.0)) + 1;
        let lo2 = min_of(min_of(a.1, b.1), min_of(c.1, d.1)) - 1;
        let hi2 = max_of(max_of(a.1, b.1), max_of(c.1, d.1)) + 1;
        let r = cells_in_box(lo1, hi1, lo2, hi2, self.ttd.num_aspects);
        proof {
            let first = TileCell { t1: lo1, t2: lo2, aspect: 0 };
            assert(in_box(first, corner_box(a, b, c, d), self.data().num_aspects as int));
            assert(r@.contains(first));
        }
        r
    }

    /// Number of real parameters that shape the prototile (0 to 6).
    pub fn num_params(&self) -> (r: usize)
        requires
            self.wf(),
        ensures
            r == self.data().num_params,
            r <= 6,
    {
        self.ttd.num_params
    }

    /// Colour class (0, 1 or 2) of the tile at lattice position `(t1, t2)`
    /// with the given aspect.
    pub fn colour(&self, t1: isize, t2: isize, aspect: usize) -> (r: usize)
        requires
            self.wf(),
            aspect < self.data().num_aspects,
        ensures
            r == colour_of(self.data().colouring@, t1 as int, t2 as int, aspect as int),
            r < 3,
    {
        let tab = &self.ttd.colouring;
        let nc = tab[COLOUR_MODULUS_AT] as isize;
        let mt1: isize = match t1.checked_rem_euclid(nc) {
            Some(m) => m,
            None => 0,
        };
        let mt2: isize = match t2.checked_rem_euclid(nc) {
            Some(m) => m,
            None => 0,
        };
        let ghost start = tab@[aspect as int] as int;
        let mut col: u8 = tab[aspect];
        let mut i: isize = 0;
        while i < mt1
            invariant
                self.wf(),
                tab == &self.ttd.colouring,
                0 <= i <= mt1,
                col < 3,
                step_iter(tab@, STEP_T1_AT as int, col as int, (mt1 - i) as nat) == step_iter(
                    tab@,
                    STEP_T1_AT as int,
                    start,
                    mt1 as nat,
                ),
            decreases mt1 - i,
        {
            col = tab[STEP_T1_AT + col as usize];
            i += 1;
        }
        let ghost mid = col as int;
        let mut j: isize = 0;
        while j < mt2
            invariant
                self.wf(),
                tab == &self.ttd.colouring,
                0 <= j <= mt2,
                col < 3,
                step_iter(tab@, STEP_T2_AT as int, col as int, (mt2 - j) as nat) == step_iter(
                    tab@,
                    STEP_T2_AT as int,
                    mid,
                    mt2 as nat,
                ),
            decreases mt2 - j,
        {
            col = tab[STEP_T2_AT + col as usize];
            j += 1;
        }
        col as usize
    }
}

/// The colour of a tile lies in `{0, 1, 2}` and does not change when either
/// lattice coordinate moves by a multiple of the colouring's modulus `nc`.
pub proof fn lemma_colour_periodic(t: &IsohedralTiling, n1: int, n2: int, aspect: int, k: int)
    requires
        t.wf(),
        0 <= aspect < t.data().num_aspects,
    ensures
        ({
            let tab = t.data().colouring@;
            let nc = tab[COLOUR_MODULUS_AT as int] as int;
            &&& 0 <= colour_of(tab, n1, n2, aspect) < 3
            &&& colour_of(tab, n1 + k * nc, n2, aspect) == colour_of(tab, n1, n2, aspect)
            &&& colour_of(tab, n1, n2 + k * nc, aspect) == colour_of(tab, n1, n2, aspect)
        }),
{
    let tab = t.data().colouring@;
    let nc = tab[COLOUR_MODULUS_AT as int] as int;
    vstd::arithmetic::div_mod::lemma_mod_multiples_vanish(k, n1, nc);
    vstd::arithmetic::div_mod::lemma_mod_multiples_vanish(k, n2, nc);
    assert(n1 + k * nc == nc * k + n1) by (nonlinear_arith);
    assert(n2 + k * nc == nc * k + n2) by (nonlinear_arith);
    let c1 = step_iter(tab, STEP_T1_AT as int, tab[aspect] as int, (n1 % nc) as nat);
    lemma_step_iter_range(tab, STEP_T1_AT as int, tab[aspect] as int, (n1 % nc) as nat);
    lemma_step_iter_range(tab, STEP_T2_AT as int, c1, (n2 % nc) as nat);
}

/// Stepping a colour through a recurrence whose entries lie in `{0, 1, 2}`
/// keeps it in `{0, 1, 2}`.
proof fn lemma_step_iter_range(tab: Seq<u8>, base: int, c: int, k: nat)
    requires
        0 <= base,
        base + 3 <= COLOUR_MODULUS_AT,
        tab.len() == COLOURING_LEN,
        forall|i: int| 0 <= i < COLOUR_MODULUS_AT ==> #[trigger] tab[i] < 3,
        0 <= c < 3,
    ensures
        0 <= step_iter(tab, base, c, k) < 3,
    decreases k,
{
    if k > 0 {
        lemma_step_iter_range(tab, base, tab[base + c] as int, (k - 1) as nat);
    }
}

/// Resetting twice to one tiling type leaves the same state as resetting
/// once: the same type, the same catalogue row and the same edge reversals.
pub proof fn lemma_reset_idempotent(
    once: &IsohedralTiling,
    twice: &IsohedralTiling,
    ihtype: TilingType,
    table: &TilingTable,
)
    requires
        table.wf(),
        once.is_reset_to(ihtype, table),
        twice.is_reset_to(ihtype, table),
    ensures
        twice.ty() == once.ty(),
        twice.data().same(&once.data()),
        twice.reversal_flags() == once.reversal_flags(),
{
    assert(twice.reversal_flags() =~= once.reversal_flags());
}

/// After a reset to a tiling type, the number of parameters is the one that
/// the catalogue declares for that type.
pub proof fn lemma_reset_num_params(t: &IsohedralTiling, ihtype: TilingType, table: &TilingTable)
    requires
        table.wf(),
        t.is_reset_to(ihtype, table),
    ensures
        t.data().num_params == table.rows@[ihtype.id() as int].num_params,
{
}

} // verus!
