//! Laws of the engine, proved once and for all: how the probe relates to
//! the actor's cell, and how the effects compose across ticks.

use vstd::arithmetic::div_mod::lemma_fundamental_div_mod_converse;
use vstd::prelude::*;

use crate::cell_feature::CellStatus;
use crate::circle::{advance_rel, direction_dx, direction_dy, Circle, Direction};
use crate::field::Field;
use crate::mapper::{next_cell_col, next_cell_row};

verus! {

/// The position `(x, y)` lies strictly inside cell `(row, col)`: on
/// neither boundary of the thirty-pixel cell square.
pub open spec fn strictly_inside_cell(x: int, y: int, row: int, col: int) -> bool {
    &&& 30 * col < x < 30 * col + 30
    &&& 30 * row < y < 30 * row + 30
}

/// Within cell `(row, col)`, the position has passed the cell's midline
/// in the direction of travel `d` — east and south need the far half,
/// west and north the near half.
pub open spec fn in_leading_half(x: int, y: int, row: int, col: int, d: Direction) -> bool {
    match d {
        Direction::East => x >= 30 * col + 15,
        Direction::South => y >= 30 * row + 15,
        Direction::West => x < 30 * col + 15,
        Direction::North => y < 30 * row + 15,
    }
}

/// Row of the cell one step from `(row, col)` in direction `d`.
pub open spec fn adjacent_row(row: int, d: Direction) -> int {
    match d {
        Direction::East => row,
        Direction::South => row + 1,
        Direction::West => row,
        Direction::North => row - 1,
    }
}

/// Column of the cell one step from `(row, col)` in direction `d`.
pub open spec fn adjacent_col(col: int, d: Direction) -> int {
    match d {
        Direction::East => col + 1,
        Direction::South => col,
        Direction::West => col - 1,
        Direction::North => col,
    }
}

/// From a position strictly inside a cell and past its midline in the
/// direction of travel, the mapper probes exactly the neighboring cell in
/// that direction: never the cell the actor is in, never two cells away.
pub proof fn lemma_probe_is_adjacent(x: int, y: int, row: int, col: int, d: Direction)
    requires
        0 <= row,
        0 <= col,
        strictly_inside_cell(x, y, row, col),
        in_leading_half(x, y, row, col, d),
    ensures
        next_cell_row(x, y, d) == adjacent_row(row, d),
        next_cell_col(x, y, d) == adjacent_col(col, d),
        (next_cell_row(x, y, d), next_cell_col(x, y, d)) != (row, col),
{
    lemma_floor_inside(x, col);
    lemma_floor_inside(y, row);
    match d {
        Direction::East => {
            lemma_fundamental_div_mod_converse(x + 15, 30, col + 1, x + 15 - 30 * (col + 1));
        },
        Direction::South => {
            lemma_fundamental_div_mod_converse(y + 15, 30, row + 1, y + 15 - 30 * (row + 1));
        },
        Direction::West => {
            lemma_fundamental_div_mod_converse(x + 15, 30, col, x + 15 - 30 * col);
        },
        Direction::North => {
            lemma_fundamental_div_mod_converse(y + 15, 30, row, y + 15 - 30 * row);
        },
    }
}

/// A coordinate strictly inside cell `k` floors to cell `k`.
proof fn lemma_floor_inside(p: int, k: int)
    requires
        30 * k < p < 30 * k + 30,
    ensures
        p / 30 == k,
{
    lemma_fundamental_div_mod_converse(p, 30, k, p - 30 * k);
}

/// Probing from the leading half of an outermost cell while heading off
/// the grid lands outside the frame: the walk off the edge is caught by
/// the bounds check and becomes the out-of-bounds terminal signal, never
/// a cell-store fault.
pub proof fn lemma_outward_probe_leaves_frame(f: Field, row: int, col: int)
    requires
        f.wf(),
        0 <= row < f.rows,
        0 <= col < f.columns,
        strictly_inside_cell(f.circle.x as int, f.circle.y as int, row, col),
        in_leading_half(f.circle.x as int, f.circle.y as int, row, col, f.circle.direction),
        match f.circle.direction {
            Direction::East => col == f.columns - 1,
            Direction::South => row == f.rows - 1,
            Direction::West => col == 0,
            Direction::North => row == 0,
        },
    ensures
        f.out_of_frame(f.probe_row(), f.probe_col()),
{
    lemma_probe_is_adjacent(f.circle.x as int, f.circle.y as int, row, col, f.circle.direction);
}

/// Collecting a cell's item is idempotent: clearing the item-present flag
/// a second time leaves the cell exactly as the first clearing did.
pub proof fn lemma_item_effect_idempotent(s: CellStatus)
    ensures
        s.collected().collected() == s.collected(),
{
}

/// The wall effect halts the actor: after it, an advance step leaves the
/// position unchanged. Any non-wall, non-terminal effect then clears the
/// stopped flag, and the next advance step moves the actor again.
pub proof fn lemma_wall_halts_then_clear_resumes(
    c0: Circle,
    c1: Circle,
    c2: Circle,
    c3: Circle,
    c4: Circle,
)
    requires
        c1 == c0.halted(),
        advance_rel(c1, c2),
        c3 == c2.cleared(),
        advance_rel(c3, c4),
    ensures
        c2 == c1,
        c4.x == c3.x + direction_dx(c3.direction),
        c4.y == c3.y + direction_dy(c3.direction),
        (c4.x, c4.y) != (c3.x, c3.y),
{
    match c3.direction {
        Direction::East => {},
        Direction::South => {},
        Direction::West => {},
        Direction::North => {},
    }
}

} // verus!
