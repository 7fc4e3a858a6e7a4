//! The coordinate mapper: from a continuous position and a heading to the
//! grid cell the actor is about to enter.
//!
//! The actor moves continuously while the grid is discrete, so the probed
//! cell lies one step ahead of the direction of travel. That produces the
//! intentional rounding asymmetry: the axis of travel rounds to nearest
//! (west and north then step back one whole cell), the cross axis rounds
//! down.

use vstd::arithmetic::div_mod::{lemma_fundamental_div_mod, lemma_fundamental_div_mod_converse};
use vstd::prelude::*;

use crate::circle::Direction;
use crate::constants::CELL_WIDTH;

verus! {

/// The cell a coordinate falls in when rounded down: `p / CELL_WIDTH`.
pub open spec fn cell_floor(p: int) -> int {
    p / (CELL_WIDTH as int)
}

/// The cell a coordinate falls in when rounded to nearest, halves away
/// from the cell the coordinate sits in.
pub open spec fn cell_round(p: int) -> int {
    (p + (CELL_WIDTH as int) / 2) / (CELL_WIDTH as int)
}

/// Row of the cell probed from position `(x, y)` heading `d`.
pub open spec fn next_cell_row(x: int, y: int, d: Direction) -> int {
    match d {
        Direction::East => cell_floor(y),
        Direction::South => cell_round(y),
        Direction::West => cell_floor(y),
        Direction::North => cell_round(y) - 1,
    }
}

/// Column of the cell probed from position `(x, y)` heading `d`.
pub open spec fn next_cell_col(x: int, y: int, d: Direction) -> int {
    match d {
        Direction::East => cell_round(x),
        Direction::South => cell_floor(x),
        Direction::West => cell_round(x) - 1,
        Direction::North => cell_floor(x),
    }
}

/// `cell_floor` of a nonnegative pixel coordinate, exactly.
pub fn floor_cell_of(p: i32) -> (r: i32)
    requires
        0 <= p,
    ensures
        r == cell_floor(p as int),
{
    let pu = p as u32;
    let q = pu / 30;
    proof {
        assert(pu == p);
        assert(q == p as int / 30);
    }
    q as i32
}

/// `cell_round` of a nonnegative pixel coordinate, exactly.
pub fn round_cell_of(p: i32) -> (r: i32)
    requires
        0 <= p,
    ensures
        r == cell_round(p as int),
{
    let pu = p as u32;
    let q = pu / 30;
    let rem = pu % 30;
    proof {
        assert(pu == p);
        lemma_fundamental_div_mod(p as int, 30);
        if rem >= 15 {
            lemma_fundamental_div_mod_converse(p + 15, 30, q + 1, rem - 15);
        } else {
            lemma_fundamental_div_mod_converse(p + 15, 30, q as int, rem + 15);
        }
    }
    if rem >= 15 {
        (q + 1) as i32
    } else {
        q as i32
    }
}

/// If a nonnegative coordinate rounds to cell `k` or below, it lies left
/// of the right half of cell `k`.
pub proof fn lemma_round_upper(p: int, k: int)
    requires
        0 <= p,
        cell_round(p) <= k,
    ensures
        p <= 30 * k + 14,
{
    lemma_fundamental_div_mod(p + 15, 30);
}

/// If a nonnegative coordinate rounds to cell `k` or above, it lies right
/// of the right half of cell `k - 1`.
pub proof fn lemma_round_lower(p: int, k: int)
    requires
        0 <= p,
        k <= cell_round(p),
    ensures
        30 * k - 15 <= p,
{
    lemma_fundamental_div_mod(p + 15, 30);
}

} // verus!
