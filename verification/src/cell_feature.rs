//! The cells of the grid and the per-cell-type effect table.
//!
//! Every cell type maps to exactly one effect on the actor's motion
//! state. The five feature types make each tag's behavior explicit; the
//! grid dispatches to them by matching on [`CellType`].

use vstd::prelude::*;

use crate::circle::Circle;
use crate::collision_handler::CollisionFrame;
use crate::constants::Rgb;
use crate::error_handling::GameOverError;

verus! {

/// Classification of a grid cell, fixed when the grid is built.
///
/// `Damage` and `Block` behave identically today (both end the game) but
/// stay distinct tags: they are semantically different hazards.
#[derive(Clone, Copy, PartialEq, Eq, Structural, Debug)]
pub enum CellType {
    Normal,
    Damage,
    Block,
    Wall,
    Item,
}

/// The cell type a map token decodes to, or `None` for a foreign token.
pub open spec fn token_cell_type(token: u8) -> Option<CellType> {
    if token == 48 {
        Some(CellType::Normal)
    } else if token == 49 {
        Some(CellType::Wall)
    } else if token == 50 {
        Some(CellType::Damage)
    } else if token == 51 {
        Some(CellType::Block)
    } else if token == 52 {
        Some(CellType::Item)
    } else {
        None
    }
}

/// The background color a cell of the given type is drawn with.
pub open spec fn cell_color(t: CellType) -> Rgb {
    match t {
        CellType::Normal => Rgb { red: 0, green: 0, blue: 0 },
        CellType::Damage => Rgb { red: 255, green: 0, blue: 0 },
        CellType::Block => Rgb { red: 128, green: 128, blue: 128 },
        CellType::Wall => Rgb { red: 0, green: 0, blue: 255 },
        CellType::Item => Rgb { red: 0, green: 0, blue: 0 },
    }
}

impl CellType {
    /// Decodes one map-file token: the digits `0` through `4` stand for
    /// Normal, Wall, Damage, Block and Item in that order.
    pub fn of_token(token: u8) -> (r: Option<CellType>)
        ensures
            r == token_cell_type(token),
    {
        if token == 48 {
            Some(CellType::Normal)
        } else if token == 49 {
            Some(CellType::Wall)
        } else if token == 50 {
            Some(CellType::Damage)
        } else if token == 51 {
            Some(CellType::Block)
        } else if token == 52 {
            Some(CellType::Item)
        } else {
            None
        }
    }
}

/// One grid cell: its fixed type, its grid position, its drawing bounds
/// in canvas pixels, and — for `Item` cells — whether the collectible is
/// still present. Only `exist_item` ever changes after construction.
#[derive(Clone, Copy, PartialEq, Eq, Structural, Debug)]
pub struct CellStatus {
    pub cell_type: CellType,
    pub row: usize,
    pub column: usize,
    pub x: i32,
    pub y: i32,
    pub width: u32,
    pub height: u32,
    pub background_color: Rgb,
    pub exist_item: bool,
}

impl CellStatus {
    /// The same cell with its collectible gone. Clearing is one-way and
    /// idempotent: a cell whose item is already gone stays as it is.
    pub open spec fn collected(self) -> CellStatus {
        CellStatus { exist_item: false, ..self }
    }
}

/// Effect of a passable cell: release the actor.
pub struct NormalFeature {}

impl NormalFeature {
    /// Clears the stopped flag; always succeeds, touches nothing else.
    pub fn effect(&self, circle: &mut Circle, cell_status: &mut CellStatus) -> (r: Result<
        (),
        GameOverError,
    >)
        ensures
            *final(circle) == old(circle).cleared(),
            *final(cell_status) == *old(cell_status),
            r is Ok,
    {
        circle.is_stoped = false;
        Ok(())
    }
}

/// Effect of a damage cell: the collision ends the game.
pub struct DamageFeature {}

impl DamageFeature {
    /// Raises the hazard terminal signal whatever the actor's state;
    /// actor and cell are left untouched.
    pub fn effect(&self, circle: &mut Circle, cell_status: &mut CellStatus) -> (r: Result<
        (),
        GameOverError,
    >)
        ensures
            *final(circle) == *old(circle),
            *final(cell_status) == *old(cell_status),
            r matches Err(GameOverError::HitEnemy(m)) && m@ == "hit enemy"@,
    {
        Err(CollisionFrame::hit_enemy())
    }
}

/// Effect of a block cell: like damage, the collision ends the game.
pub struct BlockFeature {}

impl BlockFeature {
    /// Raises the hazard terminal signal whatever the actor's state;
    /// actor and cell are left untouched.
    pub fn effect(&self, circle: &mut Circle, cell_status: &mut CellStatus) -> (r: Result<
        (),
        GameOverError,
    >)
        ensures
            *final(circle) == *old(circle),
            *final(cell_status) == *old(cell_status),
            r matches Err(GameOverError::HitEnemy(m)) && m@ == "hit enemy"@,
    {
        Err(CollisionFrame::hit_enemy())
    }
}

/// Effect of a wall cell: halt the actor at the boundary.
pub struct WallFeature {}

impl WallFeature {
    /// Sets the stopped flag; succeeds — a wall is no terminal signal.
    pub fn effect(&self, circle: &mut Circle, cell_status: &mut CellStatus) -> (r: Result<
        (),
        GameOverError,
    >)
        ensures
            *final(circle) == old(circle).halted(),
            *final(cell_status) == *old(cell_status),
            r is Ok,
    {
        circle.is_stoped = true;
        Ok(())
    }
}

/// Effect of an item cell: collect the item and release the actor.
pub struct ItemFeature {}

impl ItemFeature {
    /// Clears the cell's item-present flag (idempotently: a second visit
    /// finds it already false) and the actor's stopped flag; always
    /// succeeds.
    pub fn effect(&self, circle: &mut Circle, cell_status: &mut CellStatus) -> (r: Result<
        (),
        GameOverError,
    >)
        ensures
            *final(circle) == old(circle).cleared(),
            *final(cell_status) == old(cell_status).collected(),
            r is Ok,
    {
        circle.is_stoped = false;
        cell_status.exist_item = false;
        Ok(())
    }
}

} // verus!
