use vstd::prelude::*;

verus! {

/// A placed copy of the prototile: lattice position `(t1, t2)` and aspect.
#[derive(Debug, Clone, Copy, PartialEq, Eq, Structural)]
pub struct TileCell {
    pub t1: isize,
    pub t2: isize,
    pub aspect: usize,
}

/// Whether `c` comes before the position `(n1, n2, a)` in lexicographic order.
pub open spec fn before(c: TileCell, n1: int, n2: int, a: int) -> bool {
    c.t1 < n1 || (c.t1 == n1 && (c.t2 < n2 || (c.t2 == n2 && c.aspect < a)))
}

/// Strict lexicographic order on cells.
pub open spec fn cell_lt(c: TileCell, d: TileCell) -> bool {
    before(c, d.t1 as int, d.t2 as int, d.aspect as int)
}

/// A rectangle of lattice positions, inclusive at both ends.
pub struct LatticeBox {
    pub lo1: int,
    pub hi1: int,
    pub lo2: int,
    pub hi2: int,
}

pub open spec fn in_box(c: TileCell, b: LatticeBox, num_aspects: int) -> bool {
    &&& b.lo1 <= c.t1 <= b.hi1
    &&& b.lo2 <= c.t2 <= b.hi2
    &&& c.aspect < num_aspects
}

/// The cells listed exactly: every one lies in the box, every cell of the box
/// is listed, and the list is strictly increasing (so has no duplicates).
pub open spec fn lists_box(r: Seq<TileCell>, b: LatticeBox, num_aspects: int) -> bool {
    &&& forall|k: int| 0 <= k < r.len() ==> in_box(#[trigger] r[k], b, num_aspects)
    &&& forall|c: TileCell| in_box(c, b, num_aspects) ==> r.contains(c)
    &&& forall|i: int, j: int| 0 <= i < j < r.len() ==> cell_lt(#[trigger] r[i], #[trigger] r[j])
}

/// Every cell `(t1, t2, aspect)` with `t1` in `lo1..=hi1`, `t2` in
/// `lo2..=hi2` and `aspect < num_aspects`, in lexicographic order.
pub fn cells_in_box(lo1: isize, hi1: isize, lo2: isize, hi2: isize, num_aspects: usize) -> (r: Vec<
    TileCell,
>)
    requires
        hi1 < isize::MAX,
        hi2 < isize::MAX,
    ensures
        lists_box(
            r@,
            LatticeBox { lo1: lo1 as int, hi1: hi1 as int, lo2: lo2 as int, hi2: hi2 as int },
            num_aspects as int,
        ),
{
    let ghost b = LatticeBox { lo1: lo1 as int, hi1: hi1 as int, lo2: lo2 as int, hi2: hi2 as int };
    let ghost na = num_aspects as int;
    let mut r: Vec<TileCell> = Vec::new();
    let mut n1 = lo1;
    while n1 <= hi1
        invariant
            hi1 < isize::MAX,
            hi2 < isize::MAX,
            b == (LatticeBox { lo1: lo1 as int, hi1: hi1 as int, lo2: lo2 as int, hi2: hi2 as int }),
            na == num_aspects,
            lo1 <= n1,
            n1 <= hi1 + 1 || n1 == lo1,
            forall|k: int|
                0 <= k < r@.len() ==> in_box(#[trigger] r@[k], b, na) && before(
                    r@[k],
                    n1 as int,
                    lo2 as int,
                    0,
                ),
            forall|c: TileCell| in_box(c, b, na) && before(c, n1 as int, lo2 as int, 0) ==> r@.contains(c),
            forall|i: int, j: int| 0 <= i < j < r@.len() ==> cell_lt(#[trigger] r@[i], #[trigger] r@[j]),
        decreases hi1 + 1 - n1,
    {
        let mut n2 = lo2;
        while n2 <= hi2
            invariant
                hi1 < isize::MAX,
                hi2 < isize::MAX,
                b == (LatticeBox { lo1: lo1 as int, hi1: hi1 as int, lo2: lo2 as int, hi2: hi2 as int }),
                na == num_aspects,
                lo1 <= n1 <= hi1,
                lo2 <= n2,
                n2 <= hi2 + 1 || n2 == lo2,
                forall|k: int|
                    0 <= k < r@.len() ==> in_box(#[trigger] r@[k], b, na) && before(
                        r@[k],
                        n1 as int,
                        n2 as int,
                        0,
                    ),
                forall|c: TileCell| in_box(c, b, na) && before(c, n1 as int, n2 as int, 0) ==> r@.contains(c),
                forall|i: int, j: int|
                    0 <= i < j < r@.len() ==> cell_lt(#[trigger] r@[i], #[trigger] r@[j]),
            decreases hi2 + 1 - n2,
        {
            let mut a: usize = 0;
            while a < num_aspects
                invariant
                    hi1 < isize::MAX,
                    hi2 < isize::MAX,
                    b == (LatticeBox { lo1: lo1 as int, hi1: hi1 as int, lo2: lo2 as int, hi2: hi2 as int }),
                    na == num_aspects,
                    lo1 <= n1 <= hi1,
                    lo2 <= n2 <= hi2,
                    a <= num_aspects,
                    forall|k: int|
                        0 <= k < r@.len() ==> in_box(#[trigger] r@[k], b, na) && before(
                            r@[k],
                            n1 as int,
                            n2 as int,
                            a as int,
                        ),
                    forall|c: TileCell|
                        in_box(c, b, na) && before(c, n1 as int, n2 as int, a as int) ==> r@.contains(c),
                    forall|i: int, j: int|
                        0 <= i < j < r@.len() ==> cell_lt(#[trigger] r@[i], #[trigger] r@[j]),
                decreases num_aspects - a,
            {
                let cell = TileCell { t1: n1, t2: n2, aspect: a };
                let ghost prev = r@;
                r.push(cell);
                proof {
                    assert(r@.last() == cell);
                    assert forall|c: TileCell|
                        in_box(c, b, na) && before(
                            c,
                            n1 as int,
                            n2 as int,
                            a + 1,
                        ) implies r@.contains(c) by {
                        if c == cell {
                            assert(r@[r@.len() - 1] == c);
                        } else {
                            assert(prev.contains(c));
                            let k = choose|k: int| 0 <= k < prev.len() && prev[k] == c;
                            assert(r@[k] == c);
                        }
                    }
                }
                a += 1;
            }
            n2 += 1;
        }
        n1 += 1;
    }
    r
}

/// A list that gives a box exactly holds no cell twice.
pub proof fn lemma_listed_cells_distinct(r: Seq<TileCell>, b: LatticeBox, num_aspects: int)
    requires
        lists_box(r, b, num_aspects),
    ensures
        forall|i: int, j: int| 0 <= i < r.len() && 0 <= j < r.len() && i != j ==> r[i] != r[j],
{
    assert forall|i: int, j: int| 0 <= i < r.len() && 0 <= j < r.len() && i != j implies r[i]
        != r[j] by {
        if i < j {
            assert(cell_lt(r[i], r[j]));
        } else {
            assert(cell_lt(r[j], r[i]));
        }
    }
}

} // verus!
