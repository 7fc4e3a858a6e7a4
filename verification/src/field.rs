//! The grid of cells, the actor that walks it, and the frame controller:
//! one `renew` call is one tick of the game.

use vstd::pervasive::VecAdditionalExecFns;
use vstd::prelude::*;

use crate::cell_feature::{
    cell_color, BlockFeature, CellStatus, CellType, DamageFeature, ItemFeature, NormalFeature,
    WallFeature,
};
use crate::circle::{advance_rel, Circle, Direction};
use crate::constants::{
    CELL_HEIGHT, CELL_WIDTH, COLUMNS_NUMBER, MOVE_STEP, ROWS_NUMBER, SCREEN_HEIGHT, SCREEN_WIDTH,
};
use crate::error_handling::{CustomError, GameOverError};
use crate::game_status::GameStatus;
use crate::mapper::{
    floor_cell_of, lemma_round_lower, lemma_round_upper, next_cell_col, next_cell_row,
    round_cell_of,
};

verus! {

/// The decoded map as a mathematical sequence of rows.
pub open spec fn rows_view(m: Vec<Vec<CellType>>) -> Seq<Seq<CellType>> {
    Seq::new(m@.len(), |i: int| m@[i]@)
}

/// A decoded map is usable when it is nonempty, rectangular, and fits on
/// the canvas. Anything else is a construction-time fault.
pub open spec fn valid_map(m: Seq<Seq<CellType>>) -> bool {
    &&& 1 <= m.len() <= ROWS_NUMBER as int
    &&& 1 <= m[0].len() <= COLUMNS_NUMBER as int
    &&& forall|i: int| 0 <= i < m.len() ==> #[trigger] m[i].len() == m[0].len()
}

/// The cell the constructor places at grid position `(i, j)` for map
/// entry `t`: drawing bounds one cell apart, the type's color, and the
/// collectible present exactly on item cells.
pub open spec fn make_cell(t: CellType, i: int, j: int) -> CellStatus {
    CellStatus {
        cell_type: t,
        row: i as usize,
        column: j as usize,
        x: (j * CELL_WIDTH) as i32,
        y: (i * CELL_HEIGHT) as i32,
        width: CELL_WIDTH as u32,
        height: CELL_HEIGHT as u32,
        background_color: cell_color(t),
        exist_item: t is Item,
    }
}

/// The playing field: the rectangular grid of cells (stored row-major),
/// the moving actor, and the pause switch.
#[derive(PartialEq, Eq, Debug)]
pub struct Field {
    pub cells: Vec<CellStatus>,
    pub rows: usize,
    pub columns: usize,
    pub circle: Circle,
    pub game_status: GameStatus,
}

impl Field {
    /// Structural invariant: the cell store holds exactly `rows` times
    /// `columns` cells and both dimensions fit on the canvas.
    pub open spec fn wf(self) -> bool {
        &&& self.cells@.len() == self.rows * self.columns
        &&& 1 <= self.rows <= ROWS_NUMBER as int
        &&& 1 <= self.columns <= COLUMNS_NUMBER as int
    }

    /// Row-major position of cell `(row, column)` in the store.
    pub open spec fn cell_index(self, row: int, column: int) -> int {
        row * self.columns + column
    }

    /// The cell at grid position `(row, column)`.
    pub open spec fn cell_at(self, row: int, column: int) -> CellStatus {
        self.cells@[self.cell_index(row, column)]
    }

    /// An index pair that does not name a cell of this grid.
    pub open spec fn out_of_frame(self, row: int, column: int) -> bool {
        ||| row < 0
        ||| self.rows <= row
        ||| column < 0
        ||| self.columns <= column
    }

    /// Row of the cell the actor is about to enter.
    pub open spec fn probe_row(self) -> int {
        next_cell_row(self.circle.x as int, self.circle.y as int, self.circle.direction)
    }

    /// Column of the cell the actor is about to enter.
    pub open spec fn probe_col(self) -> int {
        next_cell_col(self.circle.x as int, self.circle.y as int, self.circle.direction)
    }
}

/// What one tick does, relating the field before the call, the field
/// after it, and the returned value.
///
/// A paused tick is a no-op. Otherwise the probed cell decides: a probe
/// outside the grid or onto a hazard ends the game with the matching
/// terminal signal and changes nothing; a wall halts the actor in place;
/// a passable cell (collecting the item if one is present) releases the
/// actor, which then advances one step along its heading.
pub open spec fn tick_spec(pre: Field, post: Field, r: Result<(), CustomError>) -> bool {
    &&& post.rows == pre.rows
    &&& post.columns == pre.columns
    &&& post.game_status == pre.game_status
    &&& if pre.game_status.is_pause {
        &&& post == pre
        &&& r is Ok
    } else {
        let nr = pre.probe_row();
        let nc = pre.probe_col();
        if pre.out_of_frame(nr, nc) {
            &&& post == pre
            &&& r matches Err(
                CustomError::ParseGameOverError(GameOverError::OtherError(m)),
            ) && m@ == "out of the frame"@
        } else {
            match pre.cell_at(nr, nc).cell_type {
                CellType::Damage | CellType::Block => {
                    &&& post == pre
                    &&& r matches Err(
                        CustomError::ParseGameOverError(GameOverError::HitEnemy(m)),
                    ) && m@ == "hit enemy"@
                },
                CellType::Wall => {
                    &&& post.circle == pre.circle.halted()
                    &&& post.cells@ == pre.cells@
                    &&& r is Ok
                },
                CellType::Normal => {
                    &&& advance_rel(pre.circle.cleared(), post.circle)
                    &&& post.cells@ == pre.cells@
                    &&& r is Ok
                },
                CellType::Item => {
                    &&& advance_rel(pre.circle.cleared(), post.circle)
                    &&& post.cells@ == pre.cells@.update(
                        pre.cell_index(nr, nc),
                        pre.cell_at(nr, nc).collected(),
                    )
                    &&& r is Ok
                },
            }
        }
    }
}

impl Field {
    /// Builds the field from the already-decoded map: one cell type per
    /// grid position, row by row. Item cells start with their collectible
    /// present; every cell gets its drawing bounds and color. Fails, and
    /// builds nothing, exactly on a map that is empty, ragged, or larger
    /// than the canvas.
    pub fn new(cell_types: Vec<Vec<CellType>>) -> (r: Result<Field, CustomError>)
        ensures
            r is Ok <==> valid_map(rows_view(cell_types)),
            r matches Ok(f) ==> {
                &&& f.wf()
                &&& f.rows == cell_types@.len()
                &&& f.columns == cell_types@[0]@.len()
                &&& forall|i: int, j: int|
                    0 <= i < f.rows && 0 <= j < f.columns ==> #[trigger] f.cell_at(i, j)
                        == make_cell(cell_types@[i]@[j], i, j)
                &&& f.circle == crate::circle::start_circle()
                &&& !f.game_status.is_pause
            },
            r matches Err(e) ==> e matches CustomError::ParseString(m) && m@ == "invalid map"@,
    {
        let ghost m = rows_view(cell_types);
        let rows = cell_types.len();
        if rows == 0 || rows > ROWS_NUMBER as usize {
            return Err(CustomError::ParseString("invalid map".to_owned()));
        }
        let columns = cell_types[0].len();
        proof {
            assert(m[0].len() == columns);
        }
        if columns == 0 || columns > COLUMNS_NUMBER as usize {
            return Err(CustomError::ParseString("invalid map".to_owned()));
        }
        let mut i: usize = 0;
        while i < rows
            invariant
                m == rows_view(cell_types),
                rows == cell_types@.len(),
                columns == cell_types@[0]@.len(),
                i <= rows,
                forall|k: int| 0 <= k < i ==> #[trigger] cell_types@[k]@.len() == columns,
            decreases rows - i,
        {
            if cell_types[i].len() != columns {
                proof {
                    assert(m[i as int].len() == cell_types@[i as int]@.len());
                    assert(m[i as int].len() != m[0].len());
                }
                return Err(CustomError::ParseString("invalid map".to_owned()));
            }
            i = i + 1;
        }
        let mut cells: Vec<CellStatus> = Vec::new();
        let mut row: usize = 0;
        while row < rows
            invariant
                rows == cell_types@.len(),
                columns == cell_types@[0]@.len(),
                1 <= rows <= ROWS_NUMBER as int,
                1 <= columns <= COLUMNS_NUMBER as int,
                forall|k: int| 0 <= k < rows ==> #[trigger] cell_types@[k]@.len() == columns,
                row <= rows,
                cells@.len() == row * columns,
                forall|i2: int, j2: int|
                    0 <= i2 < row && 0 <= j2 < columns ==> #[trigger] cells@[i2 * columns + j2]
                        == make_cell(cell_types@[i2]@[j2], i2, j2),
            decreases rows - row,
        {
            let mut column: usize = 0;
            while column < columns
                invariant
                    rows == cell_types@.len(),
                    columns == cell_types@[0]@.len(),
                    1 <= rows <= ROWS_NUMBER as int,
                    1 <= columns <= COLUMNS_NUMBER as int,
                    forall|k: int| 0 <= k < rows ==> #[trigger] cell_types@[k]@.len() == columns,
                    row < rows,
                    column <= columns,
                    cells@.len() == row * columns + column,
                    forall|i2: int, j2: int|
                        0 <= i2 < row && 0 <= j2 < columns ==> #[trigger] cells@[i2 * columns + j2]
                            == make_cell(cell_types@[i2]@[j2], i2, j2),
                    forall|j2: int|
                        0 <= j2 < column ==> #[trigger] cells@[row * columns + j2] == make_cell(
                            cell_types@[row as int]@[j2],
                            row as int,
                            j2,
                        ),
                decreases columns - column,
            {
                let t = cell_types[row][column];
                let color = match t {
                    CellType::Normal => crate::constants::Rgb { red: 0, green: 0, blue: 0 },
                    CellType::Damage => crate::constants::Rgb { red: 255, green: 0, blue: 0 },
                    CellType::Block => crate::constants::Rgb { red: 128, green: 128, blue: 128 },
                    CellType::Wall => crate::constants::Rgb { red: 0, green: 0, blue: 255 },
                    CellType::Item => crate::constants::Rgb { red: 0, green: 0, blue: 0 },
                };
                let is_item = match t {
                    CellType::Item => true,
                    _ => false,
                };
                let ghost pre = cells@;
                cells.push(
                    CellStatus {
                        cell_type: t,
                        row,
                        column,
                        x: column as i32 * CELL_WIDTH,
                        y: row as i32 * CELL_HEIGHT,
                        width: CELL_WIDTH as u32,
                        height: CELL_HEIGHT as u32,
                        background_color: color,
                        exist_item: is_item,
                    },
                );
                proof {
                    assert forall|i2: int, j2: int|
                        0 <= i2 < row && 0 <= j2 < columns implies #[trigger] cells@[i2 * columns
                        + j2] == make_cell(cell_types@[i2]@[j2], i2, j2) by {
                        assert(0 <= i2 * columns + j2 < row * columns) by (nonlinear_arith)
                            requires
                                0 <= i2 < row,
                                0 <= j2 < columns,
                        ;
                        assert(pre[i2 * columns + j2] == make_cell(cell_types@[i2]@[j2], i2, j2));
                    }
                    assert forall|j2: int|
                        0 <= j2 < column + 1 implies #[trigger] cells@[row * columns + j2]
                        == make_cell(cell_types@[row as int]@[j2], row as int, j2) by {
                        if j2 < column {
                            assert(pre[row * columns + j2] == make_cell(
                                cell_types@[row as int]@[j2],
                                row as int,
                                j2,
                            ));
                        } else {
                            assert(cells@[row * columns + column] == make_cell(
                                cell_types@[row as int]@[column as int],
                                row as int,
                                column as int,
                            ));
                        }
                    }
                }
                column = column + 1;
            }
            proof {
                assert((row + 1) * columns == row * columns + columns) by (nonlinear_arith);
                assert forall|i2: int, j2: int|
                    0 <= i2 < row + 1 && 0 <= j2 < columns implies #[trigger] cells@[i2 * columns
                    + j2] == make_cell(cell_types@[i2]@[j2], i2, j2) by {
                    if i2 == row as int {
                        assert(cells@[row * columns + j2] == make_cell(
                            cell_types@[row as int]@[j2],
                            row as int,
                            j2,
                        ));
                    }
                }
            }
            row = row + 1;
        }
        proof {
            assert forall|k: int| 0 <= k < m.len() implies #[trigger] m[k].len() == m[0].len() by {
                assert(cell_types@[k]@.len() == columns);
            }
            assert(valid_map(m));
        }
        Ok(
            Field {
                cells,
                rows,
                columns,
                circle: Circle::new(),
                game_status: GameStatus::new(),
            },
        )
    }

    /// The grid index the actor is about to enter, with the direction-
    /// dependent rounding: the axis of travel rounds to nearest (west and
    /// north step back one extra cell to probe the cell being entered),
    /// the cross axis rounds down.
    pub fn get_next_cell_index(&self) -> (r: (i32, i32))
        requires
            self.circle.in_screen(),
        ensures
            r.0 == self.probe_row(),
            r.1 == self.probe_col(),
    {
        match self.circle.direction {
            Direction::East => (floor_cell_of(self.circle.y), round_cell_of(self.circle.x)),
            Direction::South => (round_cell_of(self.circle.y), floor_cell_of(self.circle.x)),
            Direction::West => (floor_cell_of(self.circle.y), round_cell_of(self.circle.x) - 1),
            Direction::North => (round_cell_of(self.circle.y) - 1, floor_cell_of(self.circle.x)),
        }
    }

    /// Whether an index pair misses the grid. The probe can legitimately
    /// walk off the grid; landing there ends the game, it never faults.
    pub fn is_outof_frame(&self, row: i32, column: i32) -> (r: bool)
        requires
            self.wf(),
        ensures
            r == self.out_of_frame(row as int, column as int),
    {
        row < 0 || (self.rows as i32 - 1) < row || column < 0 || (self.columns as i32 - 1)
            < column
    }

    /// The type of the cell the actor is about to enter, or the generic
    /// terminal signal if the probe left the grid. The bounds check comes
    /// first; the cell store is never dereferenced out of range.
    pub fn get_current_cell_type(&self) -> (r: Result<CellType, GameOverError>)
        requires
            self.wf(),
            self.circle.in_screen(),
        ensures
            self.out_of_frame(self.probe_row(), self.probe_col()) ==> {
                &&& r matches Err(GameOverError::OtherError(m)) && m@ == "out of the frame"@
            },
            !self.out_of_frame(self.probe_row(), self.probe_col()) ==> r == Ok::<
                CellType,
                GameOverError,
            >(self.cell_at(self.probe_row(), self.probe_col()).cell_type),
    {
        let (row, column) = self.get_next_cell_index();
        if self.is_outof_frame(row, column) {
            return Err(GameOverError::OtherError("out of the frame"));
        }
        proof {
            lemma_cell_index_in_store(*self, row as int, column as int);
        }
        let idx = row as usize * self.columns + column as usize;
        Ok(self.cells[idx].cell_type)
    }

    /// Dispatches the probed cell type to its effect: hazards raise the
    /// terminal signal and change nothing, a wall halts the actor, the
    /// passable types release it, and an item cell additionally gives up
    /// its collectible. `(row, column)` is the probed cell the effect
    /// belongs to.
    pub fn take_action_from_cell_type(
        &mut self,
        current_cell_type: CellType,
        row: usize,
        column: usize,
    ) -> (r: Result<(), GameOverError>)
        requires
            old(self).wf(),
            row < old(self).rows,
            column < old(self).columns,
        ensures
            final(self).wf(),
            final(self).rows == old(self).rows,
            final(self).columns == old(self).columns,
            final(self).game_status == old(self).game_status,
            current_cell_type is Damage || current_cell_type is Block ==> {
                &&& *final(self) == *old(self)
                &&& r matches Err(GameOverError::HitEnemy(m)) && m@ == "hit enemy"@
            },
            current_cell_type is Wall ==> {
                &&& final(self).circle == old(self).circle.halted()
                &&& final(self).cells@ == old(self).cells@
                &&& r is Ok
            },
            current_cell_type is Normal ==> {
                &&& final(self).circle == old(self).circle.cleared()
                &&& final(self).cells@ == old(self).cells@
                &&& r is Ok
            },
            current_cell_type is Item ==> {
                &&& final(self).circle == old(self).circle.cleared()
                &&& final(self).cells@ == old(self).cells@.update(
                    old(self).cell_index(row as int, column as int),
                    old(self).cell_at(row as int, column as int).collected(),
                )
                &&& r is Ok
            },
    {
        proof {
            lemma_cell_index_in_store(*self, row as int, column as int);
        }
        let idx = row * self.columns + column;
        let mut circle = self.circle;
        match current_cell_type {
            CellType::Damage => {
                let mut status = self.cells[idx];
                let r = DamageFeature {  }.effect(&mut circle, &mut status);
                self.circle = circle;
                r
            },
            CellType::Block => {
                let mut status = self.cells[idx];
                let r = BlockFeature {  }.effect(&mut circle, &mut status);
                self.circle = circle;
                r
            },
            CellType::Wall => {
                let mut status = self.cells[idx];
                let r = WallFeature {  }.effect(&mut circle, &mut status);
                self.circle = circle;
                r
            },
            CellType::Normal => {
                let mut status = self.cells[idx];
                let r = NormalFeature {  }.effect(&mut circle, &mut status);
                self.circle = circle;
                r
            },
            CellType::Item => {
                let mut status = self.cells[idx];
                let r = ItemFeature {  }.effect(&mut circle, &mut status);
                self.circle = circle;
                self.cells.set(idx, status);
                r
            },
        }
    }

    /// One tick of the frame controller: skip everything while paused;
    /// otherwise probe the next cell, apply its effect, and advance the
    /// actor if no terminal signal was raised. A terminal signal is
    /// returned as the distinguishable failure value and short-circuits
    /// the rest of the tick.
    pub fn renew(&mut self) -> (r: Result<(), CustomError>)
        requires
            old(self).wf(),
            old(self).circle.in_screen(),
        ensures
            final(self).wf(),
            final(self).circle.in_screen(),
            tick_spec(*old(self), *final(self), r),
    {
        if self.game_status.is_pause {
            return Ok(());
        }
        let current_cell_type = match self.get_current_cell_type() {
            Ok(t) => t,
            Err(e) => {
                return Err(CustomError::from(e));
            },
        };
        let (row, column) = self.get_next_cell_index();
        proof {
            lemma_probe_in_frame_bounds(*self, row as int, column as int);
        }
        match self.take_action_from_cell_type(current_cell_type, row as usize, column as usize) {
            Ok(_) => {},
            Err(e) => {
                return Err(CustomError::from(e));
            },
        }
        let mut circle = self.circle;
        circle.renew();
        self.circle = circle;
        Ok(())
    }
}

/// A grid position inside the frame names a store slot: its row-major
/// index lies below the store's length.
proof fn lemma_cell_index_in_store(f: Field, row: int, column: int)
    requires
        f.wf(),
        0 <= row < f.rows,
        0 <= column < f.columns,
    ensures
        0 <= f.cell_index(row, column) < f.cells@.len(),
        f.cells@.len() <= 400,
{
    assert(row * f.columns + column < f.rows * f.columns && f.rows * f.columns <= 400)
        by (nonlinear_arith)
        requires
            0 <= row < f.rows,
            0 <= column < f.columns,
            f.rows <= 20,
            f.columns <= 20,
    ;
}

/// When the probe from an on-screen actor lands inside the grid, the
/// actor sits far enough from the canvas edge that one advance step along
/// its heading stays on the canvas.
proof fn lemma_probe_in_frame_bounds(f: Field, row: int, column: int)
    requires
        f.wf(),
        f.circle.in_screen(),
        row == f.probe_row(),
        column == f.probe_col(),
        !f.out_of_frame(row, column),
    ensures
        f.circle.direction is East ==> f.circle.x + MOVE_STEP <= SCREEN_WIDTH,
        f.circle.direction is West ==> f.circle.x - MOVE_STEP >= 0,
        f.circle.direction is South ==> f.circle.y + MOVE_STEP <= SCREEN_HEIGHT,
        f.circle.direction is North ==> f.circle.y - MOVE_STEP >= 0,
{
    match f.circle.direction {
        Direction::East => {
            lemma_round_upper(f.circle.x as int, f.columns - 1);
        },
        Direction::West => {
            lemma_round_lower(f.circle.x as int, 1);
        },
        Direction::South => {
            lemma_round_upper(f.circle.y as int, f.rows - 1);
        },
        Direction::North => {
            lemma_round_lower(f.circle.y as int, 1);
        },
    }
}

} // verus!
