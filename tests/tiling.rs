use isohedral::fill::{cells_in_box, TileCell};
use isohedral::orient::{orientation, IntAffine};
use isohedral::table::{aspect_row_start, vector_row_start, TilingTable, TilingTypeData};
use isohedral::tiling::{EdgeShape, InvalidTilingType, IsohedralTiling, PartEntry, TilingType};

fn sample_row(num_params: usize) -> TilingTypeData {
    TilingTypeData {
        num_params,
        num_aspects: 2,
        num_vertices: 4,
        edge_shapes: vec![EdgeShape::J, EdgeShape::U, EdgeShape::S, EdgeShape::I],
        edge_shape_ids: vec![0, 1, 2, 3],
        edge_orientations: vec![false, false, false, true, true, false, true, true],
        colouring: vec![0, 1, 2, 0, 1, 2, 0, 1, 2, 0, 1, 2, 1, 2, 0, 2, 0, 1, 3],
    }
}

fn sample_table() -> TilingTable {
    let mut rows = Vec::new();
    for i in 0..93 {
        rows.push(sample_row(i % 7));
    }
    TilingTable { rows }
}

fn sample_tiling(index: usize) -> IsohedralTiling {
    IsohedralTiling::new(TilingType::new(index).unwrap(), &sample_table())
}

fn apply(a: &IntAffine, x: i32, y: i32) -> (i32, i32) {
    (
        a.m00 as i32 * x + a.m10 as i32 * y + a.tx as i32,
        a.m01 as i32 * x + a.m11 as i32 * y + a.ty as i32,
    )
}

#[test]
fn tiling_type_in_range() {
    let t = TilingType::new(92).unwrap();
    assert_eq!(t.index(), 92);
    assert_eq!(TilingType::new(0).unwrap().index(), 0);
}

#[test]
fn tiling_type_out_of_range() {
    assert_eq!(TilingType::new(93), Err(InvalidTilingType { index: 93 }));
    assert_eq!(TilingType::new(1000), Err(InvalidTilingType { index: 1000 }));
}

#[test]
fn tiling_type_labels() {
    assert_eq!(TilingType::new(0).unwrap().label(), "IH00");
    assert_eq!(TilingType::new(5).unwrap().label(), "IH05");
    assert_eq!(TilingType::new(47).unwrap().label(), "IH47");
    assert_eq!(TilingType::new(92).unwrap().label(), "IH92");
}

#[test]
fn counts_follow_the_catalogue() {
    let table = sample_table();
    for i in 0..93 {
        let t = IsohedralTiling::new(TilingType::new(i).unwrap(), &table);
        assert_eq!(t.num_params(), i % 7);
        assert_eq!(t.tiling_type().index(), i);
        assert_eq!(t.num_vertices(), 4);
        assert_eq!(t.num_aspects(), 2);
        assert_eq!(t.num_edge_shapes(), 4);
    }
}

#[test]
fn edge_shapes_and_reversals() {
    let t = sample_tiling(3);
    assert_eq!(t.edge_shape(0), EdgeShape::J);
    assert_eq!(t.edge_shape(1), EdgeShape::U);
    assert_eq!(t.edge_shape(2), EdgeShape::S);
    assert_eq!(t.edge_shape(3), EdgeShape::I);
    assert_eq!(
        (0..4).map(|i| t.reversal(i)).collect::<Vec<_>>(),
        vec![false, true, true, false]
    );
    assert_eq!(
        (0..4).map(|i| t.edge_orientation(i)).collect::<Vec<_>>(),
        vec![0, 1, 2, 3]
    );
}

#[test]
fn colour_values() {
    let t = sample_tiling(0);
    assert_eq!(t.colour(0, 0, 0), 0);
    assert_eq!(t.colour(0, 0, 1), 1);
    assert_eq!(t.colour(1, 0, 0), 1);
    assert_eq!(t.colour(0, 1, 0), 2);
    assert_eq!(t.colour(1, 1, 0), 0);
    assert_eq!(t.colour(4, 0, 1), 2);
}

#[test]
fn colour_negative_coordinates_use_floor_modulo() {
    let t = sample_tiling(0);
    assert_eq!(t.colour(-1, 0, 0), 2);
    assert_eq!(t.colour(0, -1, 0), 1);
    assert_eq!(t.colour(-4, -4, 1), t.colour(2, 2, 1));
    assert_eq!(t.colour(isize::MIN, 0, 0), t.colour(isize::MIN % 3 + 3, 0, 0));
}

#[test]
fn colour_range_and_period() {
    let t = sample_tiling(0);
    for a in 0..2 {
        for n1 in -7..7 {
            for n2 in -7..7 {
                let c = t.colour(n1, n2, a);
                assert!(c < 3);
                for k in -3..3 {
                    assert_eq!(t.colour(n1 + 3 * k, n2, a), c);
                    assert_eq!(t.colour(n1, n2 + 3 * k, a), c);
                }
            }
        }
    }
}

#[test]
fn reset_twice_equals_reset_once() {
    let table = sample_table();
    let ty = TilingType::new(5).unwrap();
    let mut once = sample_tiling(40);
    assert_eq!(once.reset(ty, &table), Ok(()));
    let mut twice = sample_tiling(12);
    assert_eq!(twice.reset(ty, &table), Ok(()));
    assert_eq!(twice.reset(ty, &table), Ok(()));
    assert_eq!(once.tiling_type().index(), twice.tiling_type().index());
    assert_eq!(once.num_params(), twice.num_params());
    assert_eq!(once.num_params(), 5);
    assert_eq!(once.shapes(), twice.shapes());
    assert_eq!(once.parts(), twice.parts());
}

#[test]
fn shapes_in_winding_order() {
    let t = sample_tiling(1);
    let s = t.shapes();
    assert_eq!(s.len(), 4);
    assert_eq!(s[1].edge, 1);
    assert_eq!(s[1].id, 1);
    assert_eq!(s[1].shape, EdgeShape::U);
    assert!(s[1].reversed);
    assert!(!s[3].reversed);
}

#[test]
fn parts_split_symmetric_edges() {
    let t = sample_tiling(1);
    let p = t.parts();
    let part = |edge: usize, shape: EdgeShape, split: bool, second: bool, reversed: bool| PartEntry {
        edge,
        id: edge,
        shape,
        split,
        second,
        reversed,
    };
    assert_eq!(
        p,
        vec![
            part(0, EdgeShape::J, false, false, false),
            part(1, EdgeShape::U, true, true, false),
            part(1, EdgeShape::U, true, false, true),
            part(2, EdgeShape::S, true, true, false),
            part(2, EdgeShape::S, true, false, true),
            part(3, EdgeShape::I, false, false, false),
        ]
    );
}

#[test]
fn orientations_map_the_canonical_edge() {
    for fl in [false, true] {
        for ro in [false, true] {
            let o = orientation(2 * fl as usize + ro as usize);
            let ends = (apply(&o, 0, 0), apply(&o, 1, 0));
            if fl != ro {
                assert_eq!(ends, ((1, 0), (0, 0)));
            } else {
                assert_eq!(ends, ((0, 0), (1, 0)));
            }
        }
    }
    assert_eq!(apply(&orientation(1), 0, 1), (1, -1));
    assert_eq!(apply(&orientation(3), 0, 1), (0, -1));
}

#[test]
fn fill_cells_covers_the_widened_box() {
    let t = sample_tiling(0);
    let cells = t.fill_cells((0, 0), (2, 0), (2, 1), (0, 1));
    assert_eq!(cells.len(), 5 * 4 * 2);
    assert_eq!(cells[0], TileCell { t1: -1, t2: -1, aspect: 0 });
    assert_eq!(cells[1], TileCell { t1: -1, t2: -1, aspect: 1 });
    assert_eq!(cells[39], TileCell { t1: 3, t2: 2, aspect: 1 });
    for i in 0..cells.len() {
        for j in 0..cells.len() {
            if i != j {
                assert_ne!(cells[i], cells[j]);
            }
        }
    }
    for t1 in -1..=3 {
        for t2 in -1..=2 {
            for aspect in 0..2 {
                assert!(cells.contains(&TileCell { t1, t2, aspect }));
            }
        }
    }
}

#[test]
fn fill_cells_single_corner() {
    let t = sample_tiling(0);
    let cells = t.fill_cells((-5, 7), (-5, 7), (-5, 7), (-5, 7));
    assert_eq!(cells.len(), 3 * 3 * 2);
    assert_eq!(cells[0], TileCell { t1: -6, t2: 6, aspect: 0 });
}

#[test]
fn cells_in_empty_box() {
    assert!(cells_in_box(2, 1, 0, 0, 3).is_empty());
    assert!(cells_in_box(0, 0, 0, 0, 0).is_empty());
    assert_eq!(cells_in_box(0, 0, 0, 0, 3).len(), 3);
}

#[test]
fn coefficient_row_offsets() {
    assert_eq!(vector_row_start(0, 0), 0);
    assert_eq!(vector_row_start(2, 3), 18);
    assert_eq!(vector_row_start(6, 6), 84);
    assert_eq!(aspect_row_start(2, 3), 54);
    assert_eq!(aspect_row_start(6, 12), 504);
}

#[test]
fn split_edge_shapes() {
    assert!(EdgeShape::U.is_split_edge());
    assert!(EdgeShape::S.is_split_edge());
    assert!(!EdgeShape::J.is_split_edge());
    assert!(!EdgeShape::I.is_split_edge());
}
