//! Construction of the hazard collision signal.

use vstd::prelude::*;

use crate::error_handling::GameOverError;

verus! {

/// Builds the terminal signal raised when the actor runs into a hazard
/// cell. Pure construction: playing the collision sound and showing the
/// message are the receiving boundary's work.
pub struct CollisionFrame {}

impl CollisionFrame {
    /// The hazard signal for colliding with a `Damage` or `Block` cell.
    pub fn hit_enemy() -> (e: GameOverError)
        ensures
            e matches GameOverError::HitEnemy(m) && m@ == "hit enemy"@,
    {
        GameOverError::HitEnemy("hit enemy")
    }
}

} // verus!
