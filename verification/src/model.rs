//! The mathematical model of a session: its state as plain values and
//! sequences, and each step of a frame as a function on that state.

use vstd::prelude::*;
use crate::bullet::Bullet;
use crate::collision::{bullet_misses, enemy_escapes, enemy_rams, enemy_shot};
use crate::enemy::Enemy;
use crate::game_state::GameState;
use crate::input::{fires, pressed, released, steers_down, steers_left, steers_right, steers_up};
use crate::player::Player;

verus! {

/// Time between two spawns, in milliseconds.
pub const SPAWN_INTERVAL_MS: u64 = 2000;

/// Lives at the start of a session.
pub const INITIAL_LIVES: u32 = 3;

/// The state of a session.
pub struct GameView {
    /// The ship.
    pub player: Player,
    /// The live bullets, oldest first.
    pub bullets: Seq<Bullet>,
    /// The live enemies, oldest first.
    pub enemies: Seq<Enemy>,
    /// The timestamp from which the next spawn is counted; `None` until the
    /// first frame has been processed.
    pub last_enemy_spawn: Option<u64>,
    /// Time that must have passed since `last_enemy_spawn` for a spawn.
    pub enemy_spawn_interval: u64,
    /// Enemies destroyed by bullets.
    pub score: nat,
    /// Lives that are left.
    pub lives: nat,
    /// Whether the session is running.
    pub state: GameState,
    /// The names of the keys that are held.
    pub keys_pressed: Seq<Seq<char>>,
    /// The timestamp of the last frame that was processed.
    pub last_frame_time: u64,
}

/// What one frame is given: its timestamp in milliseconds and the two rolls
/// for an enemy that it may spawn.
pub struct Frame {
    pub now: u64,
    pub x_roll: u32,
    pub speed_roll: u32,
}

/// The bullets one frame later: those that exit are gone, the others have
/// risen by their speed, in the same order.
pub open spec fn bullets_risen(bullets: Seq<Bullet>) -> Seq<Bullet> {
    bullets.filter(|b: Bullet| !b.exits()).map_values(|b: Bullet| b.risen())
}

/// The enemies one frame later: those that exit are gone, the others have
/// descended by their speed, in the same order.
pub open spec fn enemies_descended(enemies: Seq<Enemy>) -> Seq<Enemy> {
    enemies.filter(|e: Enemy| !e.exits()).map_values(|e: Enemy| e.descended())
}

impl GameView {
    /// The state in which every session starts.
    pub open spec fn initial() -> GameView {
        GameView {
            player: Player::initial(),
            bullets: Seq::empty(),
            enemies: Seq::empty(),
            last_enemy_spawn: None,
            enemy_spawn_interval: SPAWN_INTERVAL_MS,
            score: 0,
            lives: INITIAL_LIVES as nat,
            state: GameState::Playing,
            keys_pressed: Seq::empty(),
            last_frame_time: 0,
        }
    }

    /// The ship lies on the playfield and no key is held twice.
    pub open spec fn valid(self) -> bool {
        &&& self.player.in_playfield()
        &&& self.keys_pressed.no_duplicates()
    }

    /// The state after the ship has fired: one more bullet, the youngest.
    pub open spec fn fired(self) -> GameView {
        GameView { bullets: self.bullets.push(Bullet::fired_from(self.player)), ..self }
    }

    /// The state after `key` went down: the key is held, and the ship has
    /// fired if it is the fire key, once for each press.
    pub open spec fn key_down(self, key: Seq<char>) -> GameView {
        let held = GameView { keys_pressed: pressed(self.keys_pressed, key), ..self };
        if fires(key) {
            held.fired()
        } else {
            held
        }
    }

    /// The state after `key` came up: the key is no longer held.
    pub open spec fn key_up(self, key: Seq<char>) -> GameView {
        GameView { keys_pressed: released(self.keys_pressed, key), ..self }
    }

    /// The state with one more enemy, the youngest, made from two rolls.
    pub open spec fn spawned(self, x_roll: u32, speed_roll: u32) -> GameView {
        GameView { enemies: self.enemies.push(Enemy::spawned(x_roll, speed_roll)), ..self }
    }

    /// At `now` more than the spawn interval has passed since the timestamp
    /// from which spawns are counted.
    pub open spec fn spawn_due(self, now: u64) -> bool {
        self.last_enemy_spawn matches Some(since) && now - since > self.enemy_spawn_interval
    }

    /// The state after the spawn timer has seen `now`. The first frame only
    /// sets the timestamp from which spawns are counted. Later a spawn that
    /// is due adds one enemy and restarts the count at `now`.
    pub open spec fn clocked(self, now: u64, x_roll: u32, speed_roll: u32) -> GameView {
        if self.last_enemy_spawn is None {
            GameView { last_enemy_spawn: Some(now), ..self }
        } else if self.spawn_due(now) {
            GameView { last_enemy_spawn: Some(now), ..self.spawned(x_roll, speed_roll) }
        } else {
            self
        }
    }

    /// The state after the held keys have moved the ship.
    pub open spec fn steered(self) -> GameView {
        GameView {
            player: self.player.steered(
                steers_left(self.keys_pressed),
                steers_right(self.keys_pressed),
                steers_up(self.keys_pressed),
                steers_down(self.keys_pressed),
            ),
            ..self
        }
    }

    /// The state after the bullets have risen and those that exit are gone.
    pub open spec fn bullets_moved(self) -> GameView {
        GameView { bullets: bullets_risen(self.bullets), ..self }
    }

    /// The state after the enemies have descended and those that exit are
    /// gone.
    pub open spec fn enemies_moved(self) -> GameView {
        GameView { enemies: enemies_descended(self.enemies), ..self }
    }

    /// The number of enemies that at least one bullet hits.
    pub open spec fn shot_count(self) -> nat {
        self.enemies.filter(enemy_shot(self.bullets)).len()
    }

    /// The number of enemies that touch the ship.
    pub open spec fn rammed_count(self) -> nat {
        self.enemies.filter(enemy_rams(self.player)).len()
    }

    /// The lives that are left once every enemy that touches the ship has
    /// cost one, never fewer than none.
    pub open spec fn lives_after_ramming(self) -> nat {
        if self.rammed_count() >= self.lives {
            0
        } else {
            (self.lives - self.rammed_count()) as nat
        }
    }

    /// The state after collisions are resolved. Every bullet that hits an
    /// enemy is gone, and so is every enemy that a bullet hits or that
    /// touches the ship. Each enemy that was shot scores one point, however
    /// many bullets hit it; each enemy that touches the ship costs one life,
    /// also when it was shot as well. Without lives the session is over.
    pub open spec fn resolved(self) -> GameView {
        GameView {
            bullets: self.bullets.filter(bullet_misses(self.enemies)),
            enemies: self.enemies.filter(enemy_escapes(self.player, self.bullets)),
            score: self.score + self.shot_count(),
            lives: self.lives_after_ramming(),
            state: if self.lives_after_ramming() == 0 {
                GameState::GameOver
            } else {
                self.state
            },
            ..self
        }
    }

    /// The state after the first half of a frame at `now`: the spawn timer
    /// has run, and the ship, the bullets and the enemies have moved, in
    /// that order. Collisions are not yet resolved.
    pub open spec fn advanced(self, now: u64, x_roll: u32, speed_roll: u32) -> GameView {
        GameView { last_frame_time: now, ..self }.clocked(
            now,
            x_roll,
            speed_roll,
        ).steered().bullets_moved().enemies_moved()
    }

    /// The state after one frame at `now`. A session that is over stays as
    /// it is. Otherwise the frame runs the spawn timer, moves the ship, the
    /// bullets and the enemies, and then resolves collisions.
    pub open spec fn ticked(self, now: u64, x_roll: u32, speed_roll: u32) -> GameView {
        if self.state == GameState::GameOver {
            self
        } else {
            self.advanced(now, x_roll, speed_roll).resolved()
        }
    }

    /// The frame at `now` spawns an enemy: the session is running and a
    /// spawn is due.
    pub open spec fn spawns(self, now: u64) -> bool {
        self.state == GameState::Playing && self.spawn_due(now)
    }

    /// The state after the ship has fired `n` times in a row.
    pub open spec fn fired_times(self, n: nat) -> GameView
        decreases n,
    {
        if n == 0 {
            self
        } else {
            self.fired_times((n - 1) as nat).fired()
        }
    }

    /// The state after the frames of `frames`, one after the other.
    pub open spec fn run(self, frames: Seq<Frame>) -> GameView
        decreases frames.len(),
    {
        if frames.len() == 0 {
            self
        } else {
            let frame = frames.last();
            self.run(frames.drop_last()).ticked(frame.now, frame.x_roll, frame.speed_roll)
        }
    }

    /// None of the frames of `frames`, run one after the other, spawns an
    /// enemy.
    pub open spec fn spawns_nothing(self, frames: Seq<Frame>) -> bool {
        forall|k: int|
            0 <= k < frames.len() ==> !(#[trigger] self.run(frames.take(k))).spawns(frames[k].now)
    }
}

/// Filtering one element more either appends that element or changes
/// nothing.
pub proof fn lemma_filter_step<A>(s: Seq<A>, keep: spec_fn(A) -> bool, i: int)
    requires
        0 <= i < s.len(),
    ensures
        s.take(i + 1).filter(keep) == if keep(s[i]) {
            s.take(i).filter(keep).push(s[i])
        } else {
            s.take(i).filter(keep)
        },
{
    assert(s.take(i + 1) =~= s.take(i).push(s[i]));
    s.take(i).lemma_filter_push(s[i], keep);
}

/// Moving one bullet more either appends the risen bullet or, if it exits,
/// changes nothing.
pub proof fn lemma_bullets_risen_step(bullets: Seq<Bullet>, i: int)
    requires
        0 <= i < bullets.len(),
    ensures
        bullets_risen(bullets.take(i + 1)) == if bullets[i].exits() {
            bullets_risen(bullets.take(i))
        } else {
            bullets_risen(bullets.take(i)).push(bullets[i].risen())
        },
{
    let stays = |b: Bullet| !b.exits();
    let rise = |b: Bullet| b.risen();
    lemma_filter_step(bullets, stays, i);
    if !bullets[i].exits() {
        assert(bullets.take(i).filter(stays).push(bullets[i]).map_values(rise)
            =~= bullets.take(i).filter(stays).map_values(rise).push(bullets[i].risen()));
    }
}

/// Moving one enemy more either appends the descended enemy or, if it
/// exits, changes nothing.
pub proof fn lemma_enemies_descended_step(enemies: Seq<Enemy>, i: int)
    requires
        0 <= i < enemies.len(),
    ensures
        enemies_descended(enemies.take(i + 1)) == if enemies[i].exits() {
            enemies_descended(enemies.take(i))
        } else {
            enemies_descended(enemies.take(i)).push(enemies[i].descended())
        },
{
    let stays = |e: Enemy| !e.exits();
    let descend = |e: Enemy| e.descended();
    lemma_filter_step(enemies, stays, i);
    if !enemies[i].exits() {
        assert(enemies.take(i).filter(stays).push(enemies[i]).map_values(descend)
            =~= enemies.take(i).filter(stays).map_values(descend).push(enemies[i].descended()));
    }
}

} // verus!
