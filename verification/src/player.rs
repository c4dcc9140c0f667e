//! The player's ship and how held direction keys move it.

use vstd::prelude::*;
use crate::geometry::{Rect, PLAYFIELD_HEIGHT, PLAYFIELD_WIDTH};

verus! {

/// Left edge of the ship at the start of a session (300 pixels).
pub const PLAYER_START_X: i32 = 300_000;

/// Top edge of the ship at the start of a session (550 pixels).
pub const PLAYER_START_Y: i32 = 550_000;

/// Width of the ship (50 pixels).
pub const PLAYER_WIDTH: u32 = 50_000;

/// Height of the ship (50 pixels).
pub const PLAYER_HEIGHT: u32 = 50_000;

/// Distance the ship covers per frame along each held direction (5 pixels).
pub const PLAYER_SPEED: u32 = 5_000;

/// The player's ship: the top-left corner of its box, the box's extent and
/// the distance covered per frame, all in units.
#[derive(Clone, Copy, Debug, PartialEq, Eq, Structural)]
pub struct Player {
    pub x: i32,
    pub y: i32,
    pub width: u32,
    pub height: u32,
    pub speed: u32,
}

/// Where a coordinate at `pos` ends up after one frame on an axis that runs
/// from 0 to `limit`: a step back that stops at 0 if `back` is held, then a
/// step forth that stops at `limit` if `forth` is held. Opposing keys held
/// together both apply, in that order.
pub open spec fn slide(pos: int, step: int, back: bool, forth: bool, limit: int) -> int {
    let p = if back {
        if pos - step < 0 {
            0
        } else {
            pos - step
        }
    } else {
        pos
    };
    if forth {
        if p + step > limit {
            limit
        } else {
            p + step
        }
    } else {
        p
    }
}

/// Moves one coordinate by the held keys of its axis.
pub fn slide_axis(pos: i32, step: u32, back: bool, forth: bool, limit: i32) -> (r: i32)
    requires
        0 <= pos <= limit,
    ensures
        r == slide(pos as int, step as int, back, forth, limit as int),
        0 <= r <= limit,
{
    let mut p: i64 = pos as i64;
    if back {
        p = p - step as i64;
        if p < 0 {
            p = 0;
        }
    }
    if forth {
        p = p + step as i64;
        if p > limit as i64 {
            p = limit as i64;
        }
    }
    p as i32
}

impl Player {
    /// The ship as a session starts.
    pub open spec fn initial() -> Player {
        Player {
            x: PLAYER_START_X,
            y: PLAYER_START_Y,
            width: PLAYER_WIDTH,
            height: PLAYER_HEIGHT,
            speed: PLAYER_SPEED,
        }
    }

    /// The ship's whole box lies on the playfield.
    pub open spec fn in_playfield(self) -> bool {
        &&& self.width <= PLAYFIELD_WIDTH
        &&& self.height <= PLAYFIELD_HEIGHT
        &&& 0 <= self.x <= PLAYFIELD_WIDTH - self.width
        &&& 0 <= self.y <= PLAYFIELD_HEIGHT - self.height
    }

    /// The box the ship occupies.
    pub open spec fn bounds(self) -> Rect {
        Rect {
            left: self.x as i64,
            top: self.y as i64,
            right: (self.x + self.width) as i64,
            bottom: (self.y + self.height) as i64,
        }
    }

    /// The ship after one frame with the given directions held. Each axis is
    /// moved on its own and kept inside the playfield.
    pub open spec fn steered(self, left: bool, right: bool, up: bool, down: bool) -> Player {
        Player {
            x: slide(
                self.x as int,
                self.speed as int,
                left,
                right,
                PLAYFIELD_WIDTH - self.width,
            ) as i32,
            y: slide(
                self.y as int,
                self.speed as int,
                up,
                down,
                PLAYFIELD_HEIGHT - self.height,
            ) as i32,
            width: self.width,
            height: self.height,
            speed: self.speed,
        }
    }

    /// Creates the ship at its starting place.
    pub fn new() -> (p: Player)
        ensures
            p == Player::initial(),
            p.in_playfield(),
    {
        Player {
            x: PLAYER_START_X,
            y: PLAYER_START_Y,
            width: PLAYER_WIDTH,
            height: PLAYER_HEIGHT,
            speed: PLAYER_SPEED,
        }
    }

    /// Tests whether the ship's whole box lies on the playfield.
    pub fn is_in_playfield(&self) -> (ok: bool)
        ensures
            ok == self.in_playfield(),
    {
        self.width <= PLAYFIELD_WIDTH as u32 && self.height <= PLAYFIELD_HEIGHT as u32 && 0
            <= self.x && self.x as i64 <= PLAYFIELD_WIDTH as i64 - self.width as i64 && 0 <= self.y
            && self.y as i64 <= PLAYFIELD_HEIGHT as i64 - self.height as i64
    }

    /// Computes the box the ship occupies.
    pub fn bounding_box(&self) -> (r: Rect)
        ensures
            r == self.bounds(),
    {
        Rect {
            left: self.x as i64,
            top: self.y as i64,
            right: self.x as i64 + self.width as i64,
            bottom: self.y as i64 + self.height as i64,
        }
    }

    /// Moves the ship by its speed along every held direction and keeps its
    /// box inside the playfield, whatever combination of keys is held.
    pub fn steer(&mut self, left: bool, right: bool, up: bool, down: bool)
        requires
            old(self).in_playfield(),
        ensures
            *final(self) == old(self).steered(left, right, up, down),
            final(self).x == slide(
                old(self).x as int,
                old(self).speed as int,
                left,
                right,
                PLAYFIELD_WIDTH - old(self).width,
            ),
            final(self).y == slide(
                old(self).y as int,
                old(self).speed as int,
                up,
                down,
                PLAYFIELD_HEIGHT - old(self).height,
            ),
            final(self).in_playfield(),
    {
        let max_x: i32 = PLAYFIELD_WIDTH - self.width as i32;
        let max_y: i32 = PLAYFIELD_HEIGHT - self.height as i32;
        self.x = slide_axis(self.x, self.speed, left, right, max_x);
        self.y = slide_axis(self.y, self.speed, up, down, max_y);
    }
}

} // verus!
