//! The fixed tile map: a 20-by-50 grid where each cell either holds a solid
//! tile or is empty.  The pattern (border walls, ground row, and floating
//! platforms) is stated cell by cell, so the built grid is pinned exactly.

use vstd::prelude::*;

use crate::constants::POS_LIMIT;
use crate::geom::Recti;

verus! {

pub open spec fn map_rows() -> int {
    20
}

pub open spec fn map_cols() -> int {
    50
}

/// Whether the map has a solid tile at row `r`, column `c`: the left and
/// right border columns, the bottom ground row, and a handful of platform
/// runs on the lower rows.
pub open spec fn map_cell(r: int, c: int) -> bool {
    ||| c == 0
    ||| c == 49
    ||| r == 19
    ||| (r == 13 && (10 <= c < 13 || 44 <= c < 47))
    ||| (r == 15 && (c == 3 || c == 4 || c == 6 || c == 7 || 31 <= c < 34))
    ||| (r == 16 && 8 <= c < 15 && c != 12)
    ||| (r == 17 && (c == 2 || c == 17 || c == 22))
    ||| (r == 18 && 20 <= c < 28)
}

fn cell(r: usize, c: usize) -> (b: bool)
    ensures
        b == map_cell(r as int, c as int),
{
    c == 0 || c == 49 || r == 19 || (r == 13 && ((10 <= c && c < 13) || (44 <= c && c < 47))) || (r
        == 15 && (c == 3 || c == 4 || c == 6 || c == 7 || (31 <= c && c < 34))) || (r == 16 && 8
        <= c && c < 15 && c != 12) || (r == 17 && (c == 2 || c == 17 || c == 22)) || (r == 18 && 20
        <= c && c < 28)
}

/// Builds the level: 20 rows of 50 cells, each cell solid exactly where
/// [`map_cell`] says so.
pub fn create_map() -> (map: Vec<Vec<bool>>)
    ensures
        map@.len() == map_rows(),
        forall|r: int| 0 <= r < map_rows() ==> (#[trigger] map@[r])@.len() == map_cols(),
        forall|r: int, c: int|
            0 <= r < map_rows() && 0 <= c < map_cols() ==> (#[trigger] map@[r]@[c]) == map_cell(
                r,
                c,
            ),
{
    let mut map: Vec<Vec<bool>> = Vec::new();
    let mut r: usize = 0;
    while r < 20
        invariant
            r <= 20,
            map@.len() == r,
            forall|i: int| 0 <= i < r ==> (#[trigger] map@[i])@.len() == map_cols(),
            forall|i: int, c: int|
                0 <= i < r && 0 <= c < map_cols() ==> (#[trigger] map@[i]@[c]) == map_cell(i, c),
        decreases 20 - r,
    {
        let mut row: Vec<bool> = Vec::new();
        let mut c: usize = 0;
        while c < 50
            invariant
                c <= 50,
                row@.len() == c,
                forall|j: int| 0 <= j < c ==> (#[trigger] row@[j]) == map_cell(r as int, j),
            decreases 50 - c,
        {
            row.push(cell(r, c));
            c = c + 1;
        }
        map.push(row);
        r = r + 1;
    }
    map
}

/// The world-space box of the tile at column `x`, row `y`: the grid hangs
/// from `y_offset` so its bottom row meets the world bottom.
pub open spec fn tile_rect_spec(x: int, y: int, tile_size: i64, y_offset: i64) -> Recti {
    Recti {
        x: (x * tile_size) as i64,
        y: (y_offset + y * tile_size) as i64,
        w: tile_size,
        h: tile_size,
    }
}

/// Exec counterpart of [`tile_rect_spec`].
pub fn tile_rect(x: usize, y: usize, tile_size: i64, y_offset: i64) -> (r: Recti)
    requires
        x < 1000,
        y < 1000,
        0 <= tile_size <= 1_000_000_000,
        -500_000_000_000_000 <= y_offset <= 500_000_000_000_000,
    ensures
        r == tile_rect_spec(x as int, y as int, tile_size, y_offset),
        r.in_range(POS_LIMIT as int),
{
    proof {
        assert(0 <= (x as i64) * tile_size <= 1000 * tile_size) by (nonlinear_arith)
            requires
                0 <= x < 1000,
                0 <= tile_size,
        ;
        assert(0 <= (y as i64) * tile_size <= 1000 * tile_size) by (nonlinear_arith)
            requires
                0 <= y < 1000,
                0 <= tile_size,
        ;
    }
    let tx = (x as i64) * tile_size;
    let ty = y_offset + (y as i64) * tile_size;
    Recti { x: tx, y: ty, w: tile_size, h: tile_size }
}

} // verus!
