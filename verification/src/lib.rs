//! Navigation of the slippy-map tile quad-tree.
//!
//! A slippy map addresses its tiles by `(zoom, x, y)`: zoom level 0 holds a
//! single tile covering the whole map, and each finer zoom level doubles the
//! number of tiles per axis, so every tile splits into a 2x2 grid of
//! children. `zoom_in` returns a tile's four children at the next-finer zoom
//! level, and `zoom_out` returns its one parent at the next-coarser level.
//! The zoom level itself plays no part in either computation, so neither
//! function takes it: the same doubling and halving rules apply at every
//! level.
//!
//! Neither function checks that `(x, y)` is a valid tile for any particular
//! zoom level; callers that pass indices outside the valid range of their
//! zoom level get arithmetically well-defined but geographically meaningless
//! tiles back.

use vstd::prelude::*;

verus! {

/// The parent of tile `(x, y)`: the tile one zoom level coarser that
/// contains it, obtained by halving each coordinate (floor division).
pub open spec fn parent_tile(x: int, y: int) -> (int, int) {
    (x / 2, y / 2)
}

/// The four children of tile `(x, y)` at the next-finer zoom level, as a
/// 2x2 grid in the order top-left, top-right, bottom-left, bottom-right.
pub open spec fn child_tiles(x: int, y: int) -> ((int, int), (int, int), (int, int), (int, int)) {
    ((2 * x, 2 * y), (2 * x + 1, 2 * y), (2 * x, 2 * y + 1), (2 * x + 1, 2 * y + 1))
}

/// Zooms in from the given tile: returns the four tiles that `(x, y)`
/// splits into at the next-finer zoom level, as
/// `((x1, y1), (x2, y1), (x1, y2), (x2, y2))` with `x1 = 2x`, `x2 = 2x + 1`,
/// `y1 = 2y`, `y2 = 2y + 1`:
///
/// ```text
/// +--------+--------+
/// | x1, y1 | x2, y1 |
/// +--------+--------+
/// | x1, y2 | x2, y2 |
/// +--------+--------+
/// ```
///
/// The coordinates of a tile on any zoom level up to 31 stay below
/// `2^31`, so for every such tile the children's coordinates fit in `u32`;
/// inputs whose doubled coordinates would not fit are excluded.
pub fn zoom_in(x: u32, y: u32) -> (r: ((u32, u32), (u32, u32), (u32, u32), (u32, u32)))
    requires
        2 * x + 1 <= u32::MAX,
        2 * y + 1 <= u32::MAX,
    ensures
        ((r.0.0 as int, r.0.1 as int), (r.1.0 as int, r.1.1 as int),
         (r.2.0 as int, r.2.1 as int), (r.3.0 as int, r.3.1 as int))
            == child_tiles(x as int, y as int),
{
    let x2: u32 = 2 * x;
    let y2: u32 = 2 * y;
    ((x2, y2), (x2 + 1, y2), (x2, y2 + 1), (x2 + 1, y2 + 1))
}

/// Zooms out from the given tile: returns the tile that `(x, y)` merges
/// into at the next-coarser zoom level, `(x / 2, y / 2)` with integer
/// (floor) division. The root tile is a fixed point: zooming out from
/// `(0, 0)` yields `(0, 0)` again.
pub fn zoom_out(x: u32, y: u32) -> (r: (u32, u32))
    ensures
        (r.0 as int, r.1 as int) == parent_tile(x as int, y as int),
{
    (x / 2, y / 2)
}

/// Zooming out undoes zooming in: each of the four children of a tile has
/// that tile as its parent. (The converse does not hold: a tile's parent
/// has three other children besides it.)
pub proof fn lemma_zoom_in_then_out(x: int, y: int)
    requires
        0 <= x,
        0 <= y,
    ensures
        parent_tile(child_tiles(x, y).0.0, child_tiles(x, y).0.1) == (x, y),
        parent_tile(child_tiles(x, y).1.0, child_tiles(x, y).1.1) == (x, y),
        parent_tile(child_tiles(x, y).2.0, child_tiles(x, y).2.1) == (x, y),
        parent_tile(child_tiles(x, y).3.0, child_tiles(x, y).3.1) == (x, y),
{
    assert((2 * x) / 2 == x && (2 * x + 1) / 2 == x) by (nonlinear_arith)
        requires 0 <= x;
    assert((2 * y) / 2 == y && (2 * y + 1) / 2 == y) by (nonlinear_arith)
        requires 0 <= y;
}

} // verus!
