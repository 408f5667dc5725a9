//! The spatial model: an 8x4 grid of cells, the four wall directions per
//! cell, a deduplicating wall-identity scheme, and adjacency queries.
//!
//! Cells are numbered `FIRST_CELL + row * 8 + col` with `row` in `[0, 4)` and
//! `col` in `[0, 8)`. A wall between two adjacent cells is one shared
//! identity: cell A's `Right` wall and its right neighbor's `Left` wall
//! resolve to the same `usize` id. Horizontal walls take the ids
//! `[0, 40)` (5 edge rows of 8), vertical walls `[40, 76)` (4 rows of 9).

use vstd::prelude::*;

verus! {

/// One of the four wall positions relative to a cell.
#[derive(Debug, Copy, Clone, Hash, PartialEq, Eq, Structural)]
pub enum Wall {
    Top,
    Right,
    Bottom,
    Left,
}

/// Failure of a wall-identity lookup: the cell lies outside the grid, so the
/// (cell, direction) pair was never registered.
#[derive(Debug, Copy, Clone, PartialEq, Eq, Structural)]
pub enum GridError {
    UnknownWall,
}

/// Cell id of the top-left grid square.
pub const FIRST_CELL: usize = 36;

/// Cell id of the bottom-right grid square.
pub const LAST_CELL: usize = 67;

/// Number of columns in the grid.
pub const GRID_COLS: usize = 8;

/// Number of rows in the grid.
pub const GRID_ROWS: usize = 4;

/// Number of distinct physical walls: 5 edge rows of 8 horizontal walls plus
/// 4 rows of 9 vertical walls.
pub const NUM_WALLS: usize = 76;

/// Teleport cell in the first row, first column.
pub const TELEPORT_LEFT: usize = 36;

/// Teleport cell in the first row, last column.
pub const TELEPORT_RIGHT: usize = 43;

/// The player's starting cell.
pub const START_CELL: usize = 60;

/// Tile-effect cell granting the idol.
pub const IDOL_CELL: usize = 40;

/// Tile-effect cell granting the pickaxe.
pub const PICKAXE_CELL: usize = 45;

/// Tile-effect cell granting the elixir.
pub const ELIXIR_CELL: usize = 57;

/// Tile-effect cell granting the machete.
pub const MACHETE_CELL: usize = 63;

/// A cell id addresses one of the 32 grid squares.
pub open spec fn valid_cell(c: usize) -> bool {
    FIRST_CELL <= c <= LAST_CELL
}

/// Row of a cell, in `[0, 4)` for valid cells.
pub open spec fn cell_row(c: usize) -> int {
    (c - FIRST_CELL) / (GRID_COLS as int)
}

/// Column of a cell, in `[0, 8)` for valid cells.
pub open spec fn cell_col(c: usize) -> int {
    (c - FIRST_CELL) % (GRID_COLS as int)
}

/// One of the two teleport cells.
pub open spec fn is_teleport_cell(c: usize) -> bool {
    c == TELEPORT_LEFT || c == TELEPORT_RIGHT
}

/// One of the four one-time tile-effect cells.
pub open spec fn is_tile_effect_cell(c: usize) -> bool {
    c == IDOL_CELL || c == PICKAXE_CELL || c == ELIXIR_CELL || c == MACHETE_CELL
}

/// The deduplicated identity of the wall on side `w` of cell `c`.
///
/// Horizontal walls are keyed by the edge row above them and their column;
/// vertical walls by their row and the edge column left of them. Adjacent
/// cells therefore agree on the identity of their shared wall.
pub open spec fn wall_id_spec(c: usize, w: Wall) -> int {
    match w {
        Wall::Top => cell_row(c) * 8 + cell_col(c),
        Wall::Bottom => (cell_row(c) + 1) * 8 + cell_col(c),
        Wall::Left => 40 + cell_row(c) * 9 + cell_col(c),
        Wall::Right => 40 + cell_row(c) * 9 + cell_col(c) + 1,
    }
}

/// The direction facing back across the same wall.
pub open spec fn opposite(w: Wall) -> Wall {
    match w {
        Wall::Top => Wall::Bottom,
        Wall::Bottom => Wall::Top,
        Wall::Left => Wall::Right,
        Wall::Right => Wall::Left,
    }
}

/// The adjacent cell in direction `w`, or `None` at the board boundary.
pub open spec fn neighbor_in_dir(c: usize, w: Wall) -> Option<usize> {
    match w {
        Wall::Left => if cell_col(c) > 0 { Some((c - 1) as usize) } else { None },
        Wall::Right => if cell_col(c) < 7 { Some((c + 1) as usize) } else { None },
        Wall::Top => if cell_row(c) > 0 { Some((c - 8) as usize) } else { None },
        Wall::Bottom => if cell_row(c) < 3 { Some((c + 8) as usize) } else { None },
    }
}

/// The up-to-4 (direction, neighbor) pairs of a cell, in the order
/// left, right, top, bottom, excluding directions that leave the grid.
pub open spec fn neighbors_spec(c: usize) -> Seq<(Wall, usize)> {
    let l: Seq<(Wall, usize)> = if cell_col(c) > 0 {
        seq![(Wall::Left, (c - 1) as usize)]
    } else {
        Seq::empty()
    };
    let r: Seq<(Wall, usize)> = if cell_col(c) < 7 {
        seq![(Wall::Right, (c + 1) as usize)]
    } else {
        Seq::empty()
    };
    let t: Seq<(Wall, usize)> = if cell_row(c) > 0 {
        seq![(Wall::Top, (c - 8) as usize)]
    } else {
        Seq::empty()
    };
    let b: Seq<(Wall, usize)> = if cell_row(c) < 3 {
        seq![(Wall::Bottom, (c + 8) as usize)]
    } else {
        Seq::empty()
    };
    l + r + t + b
}

/// Returns the deduplicated identity for the wall on side `wall` of `cell`,
/// or `UnknownWall` for a cell outside the grid.
pub fn wall_id(cell: usize, wall: Wall) -> (r: Result<usize, GridError>)
    ensures
        r is Ok <==> valid_cell(cell),
        r matches Ok(id) ==> id == wall_id_spec(cell, wall) && id < NUM_WALLS,
{
    if cell < FIRST_CELL || cell > LAST_CELL {
        return Err(GridError::UnknownWall);
    }
    let row = (cell - FIRST_CELL) / GRID_COLS;
    let col = (cell - FIRST_CELL) % GRID_COLS;
    let id = match wall {
        Wall::Top => row * 8 + col,
        Wall::Bottom => (row + 1) * 8 + col,
        Wall::Left => 40 + row * 9 + col,
        Wall::Right => 40 + row * 9 + col + 1,
    };
    Ok(id)
}

/// Returns the (direction, neighbor) pairs of `cell`, in the order
/// left, right, top, bottom.
pub fn neighbors(cell: usize) -> (r: Vec<(Wall, usize)>)
    requires
        valid_cell(cell),
    ensures
        r@ == neighbors_spec(cell),
{
    let mut r: Vec<(Wall, usize)> = Vec::new();
    if !(cell == 36 || cell == 44 || cell == 52 || cell == 60) {
        r.push((Wall::Left, cell - 1));
    }
    if !(cell == 43 || cell == 51 || cell == 59 || cell == 67) {
        r.push((Wall::Right, cell + 1));
    }
    if cell >= FIRST_CELL + GRID_COLS {
        r.push((Wall::Top, cell - 8));
    }
    if cell + GRID_COLS <= LAST_CELL {
        r.push((Wall::Bottom, cell + 8));
    }
    r
}

/// Every wall of a valid cell has an identity below `NUM_WALLS`.
pub proof fn lemma_wall_id_bounds(c: usize, w: Wall)
    requires
        valid_cell(c),
    ensures
        0 <= wall_id_spec(c, w) < NUM_WALLS,
{
}

/// Wall-identity dedup: a cell and its neighbor across a shared wall resolve
/// that wall to the same identity.
pub proof fn lemma_wall_id_dedup(c: usize, w: Wall)
    requires
        valid_cell(c),
        neighbor_in_dir(c, w) is Some,
    ensures
        wall_id_spec(c, w) == wall_id_spec(neighbor_in_dir(c, w)->0, opposite(w)),
{
}

} // verus!
