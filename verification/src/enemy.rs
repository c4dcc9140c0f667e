//! Enemies: spawned at the top edge, descending until they leave the
//! playfield.

use vstd::prelude::*;
use crate::geometry::{Rect, PLAYFIELD_HEIGHT, PLAYFIELD_WIDTH};

verus! {

/// Width of a spawned enemy (50 pixels).
pub const ENEMY_WIDTH: u32 = 50_000;

/// Height of a spawned enemy (50 pixels).
pub const ENEMY_HEIGHT: u32 = 50_000;

/// Slowest descent of a spawned enemy per frame (2 pixels).
pub const ENEMY_MIN_SPEED: u32 = 2_000;

/// Width of the range of descent speeds (3 pixels): a spawned enemy is
/// slower than `ENEMY_MIN_SPEED + ENEMY_SPEED_SPAN`.
pub const ENEMY_SPEED_SPAN: u32 = 3_000;

/// Number of values of a roll. A roll `r` stands for the fraction
/// `r / ROLL_RANGE` of the half-open interval from 0 to 1.
pub const ROLL_RANGE: u64 = 0x1_0000_0000;

/// An enemy: the top-left corner of its box, the box's extent and the
/// distance it descends per frame, all in units.
#[derive(Clone, Copy, Debug, PartialEq, Eq, Structural)]
pub struct Enemy {
    pub x: i32,
    pub y: i32,
    pub width: u32,
    pub height: u32,
    pub speed: u32,
}

/// The fraction `roll / ROLL_RANGE` of `span`, rounded down.
pub open spec fn scaled(roll: u32, span: int) -> int {
    roll * span / (ROLL_RANGE as int)
}

impl Enemy {
    /// The enemy that the two rolls give: on the top edge, its left edge the
    /// rolled fraction of the room that its width leaves, its speed the
    /// slowest one plus the rolled fraction of the span.
    pub open spec fn spawned(x_roll: u32, speed_roll: u32) -> Enemy {
        Enemy {
            x: scaled(x_roll, PLAYFIELD_WIDTH - ENEMY_WIDTH) as i32,
            y: 0,
            width: ENEMY_WIDTH,
            height: ENEMY_HEIGHT,
            speed: (ENEMY_MIN_SPEED + scaled(speed_roll, ENEMY_SPEED_SPAN as int)) as u32,
        }
    }

    /// The box the enemy occupies.
    pub open spec fn bounds(self) -> Rect {
        Rect {
            left: self.x as i64,
            top: self.y as i64,
            right: (self.x + self.width) as i64,
            bottom: (self.y + self.height) as i64,
        }
    }

    /// One more frame takes the enemy's top edge below the bottom edge of
    /// the playfield.
    pub open spec fn exits(self) -> bool {
        self.y + self.speed > PLAYFIELD_HEIGHT
    }

    /// The enemy one frame later. Meant for enemies that do not exit, for
    /// which the new `y` is exactly `y + speed`.
    pub open spec fn descended(self) -> Enemy {
        Enemy {
            x: self.x,
            y: (self.y + self.speed) as i32,
            width: self.width,
            height: self.height,
            speed: self.speed,
        }
    }

    /// Creates an enemy on the top edge from two uniform rolls: one for its
    /// horizontal place, one for its speed.
    pub fn spawn(x_roll: u32, speed_roll: u32) -> (e: Enemy)
        ensures
            e == Enemy::spawned(x_roll, speed_roll),
            e.y == 0,
            e.width == ENEMY_WIDTH,
            e.height == ENEMY_HEIGHT,
            e.x == scaled(x_roll, PLAYFIELD_WIDTH - ENEMY_WIDTH),
            0 <= e.x < PLAYFIELD_WIDTH - ENEMY_WIDTH,
            e.speed == ENEMY_MIN_SPEED + scaled(speed_roll, ENEMY_SPEED_SPAN as int),
            ENEMY_MIN_SPEED <= e.speed < ENEMY_MIN_SPEED + ENEMY_SPEED_SPAN,
    {
        let room: u64 = (PLAYFIELD_WIDTH as u64) - (ENEMY_WIDTH as u64);
        let x: u64 = (x_roll as u64) * room / ROLL_RANGE;
        let extra: u64 = (speed_roll as u64) * (ENEMY_SPEED_SPAN as u64) / ROLL_RANGE;
        Enemy {
            x: x as i32,
            y: 0,
            width: ENEMY_WIDTH,
            height: ENEMY_HEIGHT,
            speed: ENEMY_MIN_SPEED + extra as u32,
        }
    }

    /// Computes the box the enemy occupies.
    pub fn bounding_box(&self) -> (r: Rect)
        ensures
            r == self.bounds(),
    {
        Rect {
            left: self.x as i64,
            top: self.y as i64,
            right: self.x as i64 + self.width as i64,
            bottom: self.y as i64 + self.height as i64,
        }
    }

    /// Moves the enemy down by its speed. Returns `None` exactly when that
    /// takes it below the bottom edge.
    pub fn descend(&self) -> (moved: Option<Enemy>)
        ensures
            moved == (if self.exits() {
                None
            } else {
                Some(self.descended())
            }),
            moved matches Some(e) ==> e.y == self.y + self.speed && e.y <= PLAYFIELD_HEIGHT,
    {
        let y: i64 = self.y as i64 + self.speed as i64;
        if y > PLAYFIELD_HEIGHT as i64 {
            None
        } else {
            Some(
                Enemy {
                    x: self.x,
                    y: y as i32,
                    width: self.width,
                    height: self.height,
                    speed: self.speed,
                },
            )
        }
    }
}

} // verus!
