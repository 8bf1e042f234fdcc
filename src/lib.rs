// Geometry engine for the 93 isohedral tiling classes: catalogue rows,
// edge orientations and parts, tile colouring, and lattice enumeration.

use vstd::prelude::*;

pub mod fill;
pub mod orient;
pub mod params;
pub mod table;
pub mod tiling;

verus! {

} // verus!
