//! Collision and hitbox-animation core for a 2D action game.
//!
//! The library models axis-aligned rectangular hit regions (`Hitbox`),
//! compound shapes made of several regions (`HitboxFrame`), keyframed
//! sequences of compound shapes (`HitboxFrameString`), and a stateful
//! animation driver (`HitboxAnimation`) that advances through a sequence
//! on a per-keyframe interval schedule while interpolating the shape
//! between keyframes.  All geometry lives on an integer grid bounded by
//! [`geometry::COORD_LIMIT`], which keeps every computation free of
//! overflow.

pub mod animation;
pub mod assets;
pub mod collision;
pub mod geometry;
pub mod npc;
pub mod protag;

use vstd::prelude::*;

verus! {

/// A cardinal facing, ordinally ordered `Right`, `Up`, `Left`, `Down`
/// for clockwise-rotation-count arithmetic.
#[derive(Clone, Copy, Debug, PartialEq, Eq, Structural)]
pub enum Direction {
    Right,
    Up,
    Left,
    Down,
}

impl Direction {
    /// The ordinal of this direction: `Right` is 0, `Up` 1, `Left` 2, `Down` 3.
    pub open spec fn ord(self) -> int {
        match self {
            Direction::Right => 0,
            Direction::Up => 1,
            Direction::Left => 2,
            Direction::Down => 3,
        }
    }

    /// The ordinal as a runtime index, usable for the four-entry
    /// per-direction tables kept by swords and animations.
    pub fn ordinal(self) -> (n: usize)
        ensures
            n as int == self.ord(),
            n < 4,
    {
        match self {
            Direction::Right => 0,
            Direction::Up => 1,
            Direction::Left => 2,
            Direction::Down => 3,
        }
    }

    /// How many clockwise quarter turns carry `self` onto `target`.
    pub open spec fn spec_rotations_to(self, target: Direction) -> int {
        (target.ord() - self.ord() + 4) % 4
    }

    /// The unit vector of this facing on the integer grid; the
    /// vertical axis points down, as on screens.
    pub fn to_vec(self) -> (v: geometry::Vec2)
        ensures
            v == (match self {
                Direction::Right => geometry::Vec2 { x: 1, y: 0 },
                Direction::Up => geometry::Vec2 { x: 0, y: -1i64 },
                Direction::Left => geometry::Vec2 { x: -1i64, y: 0 },
                Direction::Down => geometry::Vec2 { x: 0, y: 1 },
            }),
    {
        match self {
            Direction::Right => geometry::Vec2 { x: 1, y: 0 },
            Direction::Up => geometry::Vec2 { x: 0, y: -1 },
            Direction::Left => geometry::Vec2 { x: -1, y: 0 },
            Direction::Down => geometry::Vec2 { x: 0, y: 1 },
        }
    }

    /// Runtime counterpart of [`Direction::spec_rotations_to`].
    pub fn rotations_to(self, target: Direction) -> (n: u32)
        ensures
            n as int == self.spec_rotations_to(target),
            n < 4,
    {
        let s = self.ordinal();
        let t = target.ordinal();
        (((t + 4 - s) % 4) as u32)
    }
}

/// The facing closest to an arbitrary offset, by its dominant axis:
/// ties on the diagonals fall rightward, then upward, then leftward.
/// This is how an enemy re-aims an attack at a target's position.
pub fn dominant_axis_direction(v: geometry::Vec2) -> (d: Direction)
    requires
        v.wf(),
    ensures
        d == (if v.x >= vstd::math::abs(v.y as int) {
            Direction::Right
        } else if v.y <= -vstd::math::abs(v.x as int) {
            Direction::Up
        } else if v.x <= -vstd::math::abs(v.y as int) {
            Direction::Left
        } else {
            Direction::Down
        }),
{
    let abs_x = if v.x < 0 {
        -v.x
    } else {
        v.x
    };
    let abs_y = if v.y < 0 {
        -v.y
    } else {
        v.y
    };
    if v.x >= abs_y {
        Direction::Right
    } else if v.y <= -abs_x {
        Direction::Up
    } else if v.x <= -abs_y {
        Direction::Left
    } else {
        Direction::Down
    }
}

} // verus!
