//! The moving actor: its heading, its motion state, and the advance step.

use vstd::prelude::*;

use crate::constants::{Rgb, MOVE_STEP, SCREEN_HEIGHT, SCREEN_WIDTH};

verus! {

/// One of the four compass headings the actor can travel in.
///
/// The heading is a closed enumeration; the numeric angle an input or
/// rendering layer may want is recovered through [`Direction::value`].
#[derive(Clone, Copy, PartialEq, Eq, Structural, Debug)]
pub enum Direction {
    East,
    South,
    West,
    North,
}

/// The angle, in degrees, that a heading is drawn at.
pub open spec fn angle_of(d: Direction) -> int {
    match d {
        Direction::East => 0,
        Direction::South => 90,
        Direction::West => 180,
        Direction::North => 270,
    }
}

/// Horizontal displacement of one advance step along heading `d`.
pub open spec fn direction_dx(d: Direction) -> int {
    match d {
        Direction::East => MOVE_STEP as int,
        Direction::South => 0,
        Direction::West => -(MOVE_STEP as int),
        Direction::North => 0,
    }
}

/// Vertical displacement of one advance step along heading `d`.
pub open spec fn direction_dy(d: Direction) -> int {
    match d {
        Direction::East => 0,
        Direction::South => MOVE_STEP as int,
        Direction::West => 0,
        Direction::North => -(MOVE_STEP as int),
    }
}

impl Direction {
    /// The numeric angle value of the heading, in degrees.
    pub fn value(&self) -> (v: i16)
        ensures
            v == angle_of(*self),
    {
        match *self {
            Direction::East => 0,
            Direction::South => 90,
            Direction::West => 180,
            Direction::North => 270,
        }
    }
}

/// The moving circle: continuous position in canvas pixels, current
/// heading, and the stopped flag that gates the advance step.
#[derive(Clone, Copy, PartialEq, Eq, Structural, Debug)]
pub struct Circle {
    pub x: i32,
    pub y: i32,
    pub direction: Direction,
    pub is_stoped: bool,
}

/// The actor state a fresh game session starts from: the center of cell
/// (1, 1), heading east, free to move.
pub open spec fn start_circle() -> Circle {
    Circle { x: 45, y: 45, direction: Direction::East, is_stoped: false }
}

/// Holds when one advance step relates the actor state before a tick to
/// the state after it: a stopped actor stays put, a moving one shifts by
/// one step along its heading; heading and stopped flag are untouched.
pub open spec fn advance_rel(pre: Circle, post: Circle) -> bool {
    if pre.is_stoped {
        post == pre
    } else {
        &&& post.x == pre.x + direction_dx(pre.direction)
        &&& post.y == pre.y + direction_dy(pre.direction)
        &&& post.direction == pre.direction
        &&& post.is_stoped == pre.is_stoped
    }
}

impl Circle {
    /// The same actor with the stopped flag set: how a wall halts it.
    pub open spec fn halted(self) -> Circle {
        Circle { is_stoped: true, ..self }
    }

    /// The same actor with the stopped flag cleared: how every passable
    /// cell releases it.
    pub open spec fn cleared(self) -> Circle {
        Circle { is_stoped: false, ..self }
    }

    /// The actor position lies on the canvas.
    pub open spec fn in_screen(self) -> bool {
        &&& 0 <= self.x <= SCREEN_WIDTH
        &&& 0 <= self.y <= SCREEN_HEIGHT
    }

    /// A fresh actor at the session's starting state.
    pub fn new() -> (c: Circle)
        ensures
            c == start_circle(),
    {
        Circle { x: 45, y: 45, direction: Direction::East, is_stoped: false }
    }

    /// One frame's movement: advance one step along the current heading,
    /// unless the stopped flag holds the actor in place.
    pub fn renew(&mut self)
        requires
            i32::MIN + MOVE_STEP <= old(self).x,
            old(self).x + MOVE_STEP <= i32::MAX,
            i32::MIN + MOVE_STEP <= old(self).y,
            old(self).y + MOVE_STEP <= i32::MAX,
        ensures
            advance_rel(*old(self), *final(self)),
    {
        if !self.is_stoped {
            match self.direction {
                Direction::East => {
                    self.x = self.x + MOVE_STEP;
                },
                Direction::South => {
                    self.y = self.y + MOVE_STEP;
                },
                Direction::West => {
                    self.x = self.x - MOVE_STEP;
                },
                Direction::North => {
                    self.y = self.y - MOVE_STEP;
                },
            }
        }
    }

    /// Point the actor at a new heading; the change shows up in the next
    /// probe, never retroactively.
    pub fn set_direction(&mut self, d: Direction)
        ensures
            *final(self) == (Circle { direction: d, ..*old(self) }),
    {
        self.direction = d;
    }
}

/// The stand-alone practice actor: a mouth that opens and closes as the
/// circle is drawn, plus the same position and heading data.
#[allow(non_snake_case)]
#[derive(Clone, Copy, PartialEq, Eq, Structural, Debug)]
pub struct CirclePosition {
    pub x: i16,
    pub y: i16,
    pub radius: i16,
    pub direction: i16,
    pub color: Rgb,
    pub isOpeningMouth: bool,
}

#[allow(non_snake_case)]
impl CirclePosition {
    /// The mouth has opened as far as it goes.
    pub fn isFullOpenMouth(&mut self) -> (r: bool)
        ensures
            *final(self) == *old(self),
            r == (old(self).radius >= 80),
    {
        return 80 <= self.radius;
    }

    /// The mouth has closed as far as it goes.
    pub fn isClosedMouth(&mut self) -> (r: bool)
        ensures
            *final(self) == *old(self),
            r == (old(self).radius <= 10),
    {
        return self.radius <= 10;
    }

    /// One animation step: widen or narrow the mouth by ten degrees, and
    /// turn the swing around once it is fully open or fully closed.
    pub fn moveMouth(&mut self)
        requires
            i16::MIN + 10 <= old(self).radius,
            old(self).radius + 10 <= i16::MAX,
        ensures
            final(self).radius == old(self).radius + (if old(self).isOpeningMouth {
                10int
            } else {
                -10int
            }),
            final(self).isOpeningMouth == (if final(self).radius >= 80 || final(self).radius
                <= 10 {
                !old(self).isOpeningMouth
            } else {
                old(self).isOpeningMouth
            }),
            final(self).x == old(self).x,
            final(self).y == old(self).y,
            final(self).direction == old(self).direction,
            final(self).color == old(self).color,
    {
        if self.isOpeningMouth {
            self.radius = self.radius + 10;
        } else {
            self.radius = self.radius - 10;
        }
        if self.isFullOpenMouth() || self.isClosedMouth() {
            self.isOpeningMouth = !self.isOpeningMouth;
        }
    }
}

} // verus!
