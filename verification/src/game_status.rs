//! The externally toggled pause switch.

use vstd::prelude::*;

verus! {

/// Whether the game is paused. While `is_pause` holds, a tick does no
/// movement or collision work at all.
#[derive(Clone, Copy, PartialEq, Eq, Structural, Debug)]
pub struct GameStatus {
    pub is_pause: bool,
}

impl GameStatus {
    /// A fresh session starts unpaused.
    pub fn new() -> (s: GameStatus)
        ensures
            !s.is_pause,
    {
        GameStatus { is_pause: false }
    }
}

} // verus!
