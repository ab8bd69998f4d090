//! One cell of the grid.

use vstd::prelude::*;

verus! {

/// One grid position: the pixel coordinates of its top-left corner on
/// screen, and whether the cell is alive.
#[derive(Clone, Copy, PartialEq, Eq, Structural, Debug)]
pub struct Cell {
    pub x: u32,
    pub y: u32,
    pub state: bool,
}

} // verus!
