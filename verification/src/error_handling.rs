//! The terminal signals that end a game session, and the outer error the
//! frame pipeline hands its caller.
//!
//! Producing either value is pure data work: the side effects the caller
//! owes on a terminal transition (a sound, a modal message, ending the
//! process) all belong to the boundary that receives the value.

use vstd::prelude::*;

verus! {

/// A game-ending condition with its human-readable cause.
///
/// `OtherError` is the generic session end (the probe left the grid);
/// `HitEnemy` is the hazard collision. Exactly one such value ends a
/// session; no further ticks should run once it is produced.
#[derive(Clone, Copy, PartialEq, Eq, Debug)]
pub enum GameOverError {
    OtherError(&'static str),
    HitEnemy(&'static str),
}

impl GameOverError {
    /// The human-readable cause the signal carries, for display at the
    /// outer boundary.
    pub fn description(&self) -> (m: &'static str)
        ensures
            self matches GameOverError::OtherError(s) ==> m@ == s@,
            self matches GameOverError::HitEnemy(s) ==> m@ == s@,
    {
        match *self {
            GameOverError::OtherError(error_message) => error_message,
            GameOverError::HitEnemy(error_message) => error_message,
        }
    }
}

/// The error type the frame pipeline returns to its driver: either a
/// wrapped terminal signal, or a construction-time fault carried as its
/// message. `ParseWindowBuildError` keeps the message of a failure in the
/// window layer, which lives outside this library.
#[derive(PartialEq, Eq, Debug)]
pub enum CustomError {
    ParseWindowBuildError(String),
    ParseString(String),
    ParseGameOverError(GameOverError),
}

impl From<GameOverError> for CustomError {
    fn from(err: GameOverError) -> (r: CustomError) {
        CustomError::ParseGameOverError(err)
    }
}

impl vstd::std_specs::convert::FromSpecImpl<GameOverError> for CustomError {
    open spec fn obeys_from_spec() -> bool {
        true
    }

    open spec fn from_spec(err: GameOverError) -> CustomError {
        CustomError::ParseGameOverError(err)
    }
}

impl From<String> for CustomError {
    fn from(err: String) -> (r: CustomError) {
        CustomError::ParseString(err)
    }
}

impl vstd::std_specs::convert::FromSpecImpl<String> for CustomError {
    open spec fn obeys_from_spec() -> bool {
        true
    }

    open spec fn from_spec(err: String) -> CustomError {
        CustomError::ParseString(err)
    }
}

} // verus!
