//! The Game of Life transition rule on a toroidal grid, as specification
//! functions over a flat sequence of per-cell state words.
//!
//! A state word is `0` for a dead cell and anything `>= 1` for a live one:
//! the display encoding adds `2` to the cell under the cursor, and such a
//! highlighted word still counts as live when a generation is stepped.

use vstd::prelude::*;

verus! {

/// Wrap one grid coordinate onto a grid of extent `n`, the way a single
/// neighbor step can leave the grid: one step below `0` lands on the far
/// edge, and any coordinate at or past `n` lands on `0`.
pub open spec fn wrap(v: int, n: int) -> int {
    if v < 0 {
        n - 1
    } else if v >= n {
        0
    } else {
        v
    }
}

/// Flat index of the cell at column `x`, row `y` on a `w` by `h` grid,
/// after wrapping both coordinates.
pub open spec fn flat_index(w: int, h: int, x: int, y: int) -> int {
    wrap(y, h) * w + wrap(x, w)
}

/// How much the cell at flat index `i` contributes to a neighbor count:
/// `1` when its state word is nonzero, else `0`.
pub open spec fn occupancy(s: Seq<u32>, i: int) -> int {
    if s[i] >= 1 {
        1
    } else {
        0
    }
}

/// Column offset of the `k`-th of the eight neighbor directions.
pub open spec fn offset_x(k: int) -> int {
    if k == 0 || k == 1 || k == 2 {
        -1
    } else if k == 3 || k == 4 {
        0
    } else {
        1
    }
}

/// Row offset of the `k`-th of the eight neighbor directions.
pub open spec fn offset_y(k: int) -> int {
    if k == 0 || k == 3 || k == 5 {
        -1
    } else if k == 1 || k == 6 {
        0
    } else {
        1
    }
}

/// Live neighbors of the cell at column `x`, row `y`, counted over the
/// first `k` of the eight neighbor directions.
pub open spec fn live_neighbors_upto(s: Seq<u32>, w: int, h: int, x: int, y: int, k: int) -> int
    decreases k,
{
    if k <= 0 {
        0
    } else {
        live_neighbors_upto(s, w, h, x, y, k - 1) + occupancy(
            s,
            flat_index(w, h, x + offset_x(k - 1), y + offset_y(k - 1)),
        )
    }
}

/// Live neighbors of the cell at column `x`, row `y`, over all eight
/// neighbor directions, with wraparound at the grid edges.
pub open spec fn live_neighbors(s: Seq<u32>, w: int, h: int, x: int, y: int) -> int {
    live_neighbors_upto(s, w, h, x, y, 8)
}

/// The state word of the cell at flat index `i` after one generation:
/// a live cell survives with two or three live neighbors, a dead cell
/// is born with exactly three, and every cell ends at `0` or `1`.
pub open spec fn next_cell_state(s: Seq<u32>, w: int, h: int, i: int) -> u32 {
    let n = live_neighbors(s, w, h, i % w, i / w);
    if s[i] >= 1 {
        if n == 2 || n == 3 {
            1u32
        } else {
            0u32
        }
    } else {
        if n == 3 {
            1u32
        } else {
            0u32
        }
    }
}

/// The state word shown for a cell: `0` or `1` for its live state, plus
/// `2` when it is the cell under the cursor.
pub open spec fn display_value(alive: bool, highlighted: bool) -> u32 {
    if highlighted {
        if alive {
            3u32
        } else {
            2u32
        }
    } else {
        if alive {
            1u32
        } else {
            0u32
        }
    }
}

} // verus!
