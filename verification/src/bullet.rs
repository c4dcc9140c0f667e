//! Bullets: fired from the ship, rising until they leave the playfield.

use vstd::prelude::*;
use crate::geometry::Rect;
use crate::player::Player;

verus! {

/// Radius of a fired bullet (5 pixels).
pub const BULLET_RADIUS: u32 = 5_000;

/// Distance a fired bullet rises per frame (7 pixels).
pub const BULLET_SPEED: u32 = 7_000;

/// A bullet: its position, its radius and the distance it rises per frame,
/// all in units. For collisions it counts as the square of side `2 * radius`
/// centred on its position.
#[derive(Clone, Copy, Debug, PartialEq, Eq, Structural)]
pub struct Bullet {
    pub x: i32,
    pub y: i32,
    pub radius: u32,
    pub speed: u32,
}

impl Bullet {
    /// The bullet that a ship at `player` fires: at the ship's top edge, one
    /// radius left of the ship's middle.
    pub open spec fn fired_from(player: Player) -> Bullet {
        Bullet {
            x: (player.x + player.width / 2 - BULLET_RADIUS) as i32,
            y: player.y,
            radius: BULLET_RADIUS,
            speed: BULLET_SPEED,
        }
    }

    /// The box the bullet occupies.
    pub open spec fn bounds(self) -> Rect {
        Rect {
            left: (self.x - self.radius) as i64,
            top: (self.y - self.radius) as i64,
            right: (self.x + self.radius) as i64,
            bottom: (self.y + self.radius) as i64,
        }
    }

    /// One more frame takes the bullet above the top edge of the playfield.
    pub open spec fn exits(self) -> bool {
        self.y - self.speed < 0
    }

    /// The bullet one frame later. Meant for bullets that do not exit, for
    /// which the new `y` is exactly `y - speed`.
    pub open spec fn risen(self) -> Bullet {
        Bullet { x: self.x, y: (self.y - self.speed) as i32, radius: self.radius, speed: self.speed }
    }

    /// Creates the bullet that the ship fires from where it stands.
    pub fn fire(player: &Player) -> (b: Bullet)
        requires
            player.in_playfield(),
        ensures
            b == Bullet::fired_from(*player),
            b.x == player.x + player.width / 2 - BULLET_RADIUS,
    {
        let x: i64 = player.x as i64 + (player.width / 2) as i64 - BULLET_RADIUS as i64;
        Bullet { x: x as i32, y: player.y, radius: BULLET_RADIUS, speed: BULLET_SPEED }
    }

    /// Computes the box the bullet occupies.
    pub fn bounding_box(&self) -> (r: Rect)
        ensures
            r == self.bounds(),
    {
        Rect {
            left: self.x as i64 - self.radius as i64,
            top: self.y as i64 - self.radius as i64,
            right: self.x as i64 + self.radius as i64,
            bottom: self.y as i64 + self.radius as i64,
        }
    }

    /// Moves the bullet up by its speed. Returns `None` exactly when that
    /// takes it above the top edge.
    pub fn rise(&self) -> (moved: Option<Bullet>)
        ensures
            moved == (if self.exits() {
                None
            } else {
                Some(self.risen())
            }),
            moved matches Some(b) ==> b.y == self.y - self.speed && 0 <= b.y,
    {
        let y: i64 = self.y as i64 - self.speed as i64;
        if y < 0 {
            None
        } else {
            Some(Bullet { x: self.x, y: y as i32, radius: self.radius, speed: self.speed })
        }
    }
}

} // verus!
