//! Tile coordinates and the 8-directional neighbor relation.

use vstd::prelude::*;

verus! {

/// A tile coordinate on a row-major grid: `x` is the column, `y` the row.
#[derive(Clone, Copy, Debug, PartialEq, Eq, Hash, Structural)]
pub struct TilePos {
    pub x: u32,
    pub y: u32,
}

impl TilePos {
    pub fn new(x: u32, y: u32) -> (r: TilePos)
        ensures
            r.x == x,
            r.y == y,
    {
        TilePos { x, y }
    }
}

/// Two tiles are neighbors when their Chebyshev distance is at most 1:
/// a tile is a neighbor of itself and of the 8 tiles surrounding it.
pub open spec fn is_neighbor_spec(a: TilePos, b: TilePos) -> bool {
    abs_diff_spec(a.x as int, b.x as int) <= 1 && abs_diff_spec(a.y as int, b.y as int) <= 1
}

pub open spec fn abs_diff_spec(a: int, b: int) -> int {
    if a >= b {
        a - b
    } else {
        b - a
    }
}

/// Chebyshev adjacency of two tiles; true for `pos1 == pos2` as well.
pub fn is_neighbor(pos1: &TilePos, pos2: &TilePos) -> (r: bool)
    ensures
        r == is_neighbor_spec(*pos1, *pos2),
{
    abs_diff_u32(pos1.x, pos2.x) <= 1 && abs_diff_u32(pos1.y, pos2.y) <= 1
}

/// The absolute difference of two coordinates.
pub fn abs_diff_u32(a: u32, b: u32) -> (r: u32)
    ensures
        r == abs_diff_spec(a as int, b as int),
{
    if a >= b {
        a - b
    } else {
        b - a
    }
}

/// The neighbor relation is symmetric, and every tile neighbors itself.
pub proof fn lemma_neighbor_symmetry(a: TilePos, b: TilePos)
    ensures
        is_neighbor_spec(a, b) == is_neighbor_spec(b, a),
        is_neighbor_spec(a, a),
{
}

} // verus!
