//! Screen and grid geometry, and the plain color values the cells carry.

use vstd::prelude::*;

verus! {

/// Width of the game canvas in pixels.
pub const SCREEN_WIDTH: i32 = 600;

/// Height of the game canvas in pixels.
pub const SCREEN_HEIGHT: i32 = 600;

/// Width of one grid cell in pixels.
pub const CELL_WIDTH: i32 = 30;

/// Height of one grid cell in pixels.
pub const CELL_HEIGHT: i32 = 30;

/// How many columns of cells fit on the canvas: `SCREEN_WIDTH / CELL_WIDTH`.
pub const COLUMNS_NUMBER: i32 = 20;

/// How many rows of cells fit on the canvas: `SCREEN_HEIGHT / CELL_HEIGHT`.
pub const ROWS_NUMBER: i32 = 20;

/// How far the actor moves along its heading in one tick, in pixels.
pub const MOVE_STEP: i32 = 10;

/// A plain RGB color, handed to whatever rendering backend the caller uses.
#[derive(Clone, Copy, PartialEq, Eq, Structural, Debug)]
pub struct Rgb {
    pub red: u8,
    pub green: u8,
    pub blue: u8,
}

} // verus!
