//! The simulation: the state of a session and the operations that advance
//! it.

use vstd::prelude::*;
use crate::bullet::Bullet;
use crate::collision::{
    bullet_hits_any, bullet_misses, enemy_escapes, enemy_hit_by_any, enemy_rams, enemy_shot,
    player_overlaps_enemy,
};
use crate::enemy::Enemy;
use crate::game_state::GameState;
use crate::input::{fires, has_no_repeats, is_fire_key, is_held, names, press, release};
use crate::input::{lemma_pressed_no_duplicates, lemma_released_no_duplicates};
use crate::model::{
    bullets_risen, enemies_descended, lemma_bullets_risen_step, lemma_enemies_descended_step,
    lemma_filter_step, GameView, INITIAL_LIVES, SPAWN_INTERVAL_MS,
};
use crate::player::Player;

verus! {

/// A session of the game. It owns the ship, the bullets, the enemies, the
/// counters, the spawn timer and the held keys.
#[derive(Debug)]
pub struct Game {
    pub player: Player,
    pub bullets: Vec<Bullet>,
    pub enemies: Vec<Enemy>,
    /// The timestamp from which the next spawn is counted; `None` until the
    /// first frame has been processed.
    pub last_enemy_spawn: Option<u64>,
    /// Milliseconds that must have passed since `last_enemy_spawn` for a
    /// spawn.
    pub enemy_spawn_interval: u64,
    pub score: u32,
    pub lives: u32,
    pub state: GameState,
    pub keys_pressed: Vec<String>,
    /// The timestamp of the last frame that was processed, in milliseconds.
    pub last_frame_time: u64,
}

/// What a frame leaves behind, for drawing and for the display of score and
/// lives.
#[derive(Debug)]
pub struct FrameResult {
    pub player: Player,
    pub bullets: Vec<Bullet>,
    pub enemies: Vec<Enemy>,
    pub score: u32,
    pub lives: u32,
    pub state: GameState,
    /// Enemies that bullets destroyed in this frame.
    pub enemies_destroyed: u32,
}

impl View for Game {
    type V = GameView;

    open spec fn view(&self) -> GameView {
        GameView {
            player: self.player,
            bullets: self.bullets@,
            enemies: self.enemies@,
            last_enemy_spawn: self.last_enemy_spawn,
            enemy_spawn_interval: self.enemy_spawn_interval,
            score: self.score as nat,
            lives: self.lives as nat,
            state: self.state,
            keys_pressed: names(self.keys_pressed@),
            last_frame_time: self.last_frame_time,
        }
    }
}

impl FrameResult {
    /// The result shows the entities, the counters and the lifecycle of
    /// `game`.
    pub open spec fn shows(self, game: GameView) -> bool {
        &&& self.player == game.player
        &&& self.bullets@ == game.bullets
        &&& self.enemies@ == game.enemies
        &&& self.score == game.score
        &&& self.lives == game.lives
        &&& self.state == game.state
    }
}

impl Game {
    /// The ship lies on the playfield and no key is held twice.
    pub open spec fn wf(&self) -> bool {
        self@.valid()
    }

    /// Tests whether the session is running. Frames are worth scheduling
    /// only while it is: once the session is over a frame changes nothing.
    pub fn is_playing(&self) -> (running: bool)
        ensures
            running == (self.state == GameState::Playing),
    {
        self.state == GameState::Playing
    }

    /// Tests whether the session is well formed.
    pub fn is_valid(&self) -> (ok: bool)
        ensures
            ok == self.wf(),
    {
        self.player.is_in_playfield() && has_no_repeats(&self.keys_pressed)
    }

    /// Tests whether the session can take a frame: it is well formed, and
    /// the score has room for one point for each enemy and one more.
    pub fn can_tick(&self) -> (ok: bool)
        ensures
            ok == (self.wf() && self.score + self.enemies.len() < u32::MAX),
    {
        let room: u64 = (u32::MAX - self.score) as u64;
        self.is_valid() && (self.enemies.len() as u64) < room
    }

    /// Starts a session: the ship at its starting place, no bullets, no
    /// enemies, no points, three lives, no key held, the spawn timer not yet
    /// started.
    pub fn new() -> (game: Game)
        ensures
            game@ == GameView::initial(),
            game.wf(),
    {
        let game = Game {
            player: Player::new(),
            bullets: Vec::new(),
            enemies: Vec::new(),
            last_enemy_spawn: None,
            enemy_spawn_interval: SPAWN_INTERVAL_MS,
            score: 0,
            lives: INITIAL_LIVES,
            state: GameState::Playing,
            keys_pressed: Vec::new(),
            last_frame_time: 0,
        };
        assert(names(game.keys_pressed@) == Seq::<Seq<char>>::empty());
        game
    }

    /// Registers that `key` went down. The key joins the held keys unless it
    /// is held already. If it is the fire key the ship fires one bullet, for
    /// every press, also while the key is held. Returns whether a bullet was
    /// fired.
    pub fn key_down(&mut self, key: String) -> (fired: bool)
        requires
            old(self).wf(),
        ensures
            final(self)@ == old(self)@.key_down(key@),
            fired == fires(key@),
            final(self).wf(),
    {
        proof {
            lemma_pressed_no_duplicates(self@.keys_pressed, key@);
        }
        let fire = is_fire_key(&key);
        press(&mut self.keys_pressed, key);
        if fire {
            self.fire_bullet();
        }
        fire
    }

    /// Registers that `key` came up. The key leaves the held keys; a key
    /// that is not held changes nothing.
    pub fn key_up(&mut self, key: String)
        ensures
            final(self)@ == old(self)@.key_up(key@),
            old(self).wf() ==> final(self).wf(),
    {
        proof {
            if self.wf() {
                lemma_released_no_duplicates(self@.keys_pressed, key@);
            }
        }
        release(&mut self.keys_pressed, &key);
    }

    /// Fires one bullet from where the ship stands.
    pub fn fire_bullet(&mut self)
        requires
            old(self).wf(),
        ensures
            final(self)@ == old(self)@.fired(),
            final(self).wf(),
    {
        let bullet = Bullet::fire(&self.player);
        self.bullets.push(bullet);
    }

    /// Adds one enemy on the top edge. `x_roll` and `speed_roll` are two
    /// uniform draws; they decide its horizontal place and its speed.
    pub fn spawn_enemy(&mut self, x_roll: u32, speed_roll: u32)
        ensures
            final(self)@ == old(self)@.spawned(x_roll, speed_roll),
            old(self).wf() ==> final(self).wf(),
    {
        let enemy = Enemy::spawn(x_roll, speed_roll);
        self.enemies.push(enemy);
    }

    /// Runs the spawn timer for a frame at `now_ms`. The first frame starts
    /// the timer. After that, once more than the spawn interval has passed,
    /// one enemy is spawned and the timer starts again.
    pub fn run_spawner(&mut self, now_ms: u64, x_roll: u32, speed_roll: u32)
        ensures
            final(self)@ == old(self)@.clocked(now_ms, x_roll, speed_roll),
            old(self).wf() ==> final(self).wf(),
    {
        match self.last_enemy_spawn {
            None => {
                self.last_enemy_spawn = Some(now_ms);
            },
            Some(since) => {
                if now_ms > since && now_ms - since > self.enemy_spawn_interval {
                    self.spawn_enemy(x_roll, speed_roll);
                    self.last_enemy_spawn = Some(now_ms);
                }
            },
        }
    }

    /// Moves the ship along the held direction keys, inside the playfield.
    pub fn move_player(&mut self)
        requires
            old(self).wf(),
        ensures
            final(self)@ == old(self)@.steered(),
            final(self).wf(),
    {
        let left = is_held(&self.keys_pressed, "ArrowLeft") || is_held(&self.keys_pressed, "a");
        let right = is_held(&self.keys_pressed, "ArrowRight") || is_held(&self.keys_pressed, "d");
        let up = is_held(&self.keys_pressed, "ArrowUp") || is_held(&self.keys_pressed, "w");
        let down = is_held(&self.keys_pressed, "ArrowDown") || is_held(&self.keys_pressed, "s");
        self.player.steer(left, right, up, down);
    }

    /// Moves every bullet up by its speed and drops those that leave the
    /// playfield at the top.
    pub fn update_bullets(&mut self)
        ensures
            final(self)@ == old(self)@.bullets_moved(),
            old(self).wf() ==> final(self).wf(),
    {
        let mut moved: Vec<Bullet> = Vec::new();
        let mut i: usize = 0;
        while i < self.bullets.len()
            invariant
                *self == *old(self),
                i <= self.bullets.len(),
                moved@ == bullets_risen(self.bullets@.take(i as int)),
            decreases self.bullets.len() - i,
        {
            proof {
                lemma_bullets_risen_step(self.bullets@, i as int);
            }
            match self.bullets[i].rise() {
                Some(bullet) => {
                    moved.push(bullet);
                },
                None => {},
            }
            i += 1;
        }
        assert(self.bullets@.take(self.bullets.len() as int) == self.bullets@);
        self.bullets = moved;
    }

    /// Moves every enemy down by its speed and drops those that leave the
    /// playfield at the bottom. Speeds are per frame: the time that has
    /// passed since the last frame does not change the distance.
    pub fn update_enemies(&mut self, _delta_time: u64)
        ensures
            final(self)@ == old(self)@.enemies_moved(),
            old(self).wf() ==> final(self).wf(),
    {
        let mut moved: Vec<Enemy> = Vec::new();
        let mut i: usize = 0;
        while i < self.enemies.len()
            invariant
                *self == *old(self),
                i <= self.enemies.len(),
                moved@ == enemies_descended(self.enemies@.take(i as int)),
            decreases self.enemies.len() - i,
        {
            proof {
                lemma_enemies_descended_step(self.enemies@, i as int);
            }
            match self.enemies[i].descend() {
                Some(enemy) => {
                    moved.push(enemy);
                },
                None => {},
            }
            i += 1;
        }
        assert(self.enemies@.take(self.enemies.len() as int) == self.enemies@);
        self.enemies = moved;
    }

    /// Resolves the collisions of a frame. Bullets that hit an enemy and
    /// enemies that a bullet hits are removed, and each such enemy scores
    /// one point, however many bullets hit it. Enemies that touch the ship
    /// are removed as well and cost one life each, down to none; an enemy
    /// that is shot while it touches the ship both scores and costs a life.
    /// Without lives the session is over. Returns the number of enemies that
    /// bullets destroyed.
    pub fn check_collisions(&mut self) -> (destroyed: u32)
        requires
            old(self).score + old(self).enemies.len() <= u32::MAX,
        ensures
            final(self)@ == old(self)@.resolved(),
            destroyed == old(self)@.shot_count(),
            final(self).score == old(self).score + destroyed,
            final(self).lives <= old(self).lives,
            final(self).lives == 0 ==> final(self).state == GameState::GameOver,
            old(self).wf() ==> final(self).wf(),
    {
        let mut bullets: Vec<Bullet> = Vec::new();
        let mut i: usize = 0;
        while i < self.bullets.len()
            invariant
                *self == *old(self),
                i <= self.bullets.len(),
                bullets@ == self.bullets@.take(i as int).filter(bullet_misses(self.enemies@)),
            decreases self.bullets.len() - i,
        {
            proof {
                lemma_filter_step(self.bullets@, bullet_misses(self.enemies@), i as int);
            }
            if !bullet_hits_any(&self.bullets[i], &self.enemies) {
                bullets.push(self.bullets[i]);
            }
            i += 1;
        }
        assert(self.bullets@.take(self.bullets.len() as int) == self.bullets@);

        let mut enemies: Vec<Enemy> = Vec::new();
        let mut destroyed: u32 = 0;
        let mut lives: u32 = self.lives;
        let ghost mut rammed: nat = 0;
        let mut j: usize = 0;
        while j < self.enemies.len()
            invariant
                *self == *old(self),
                self.score + self.enemies.len() <= u32::MAX,
                j <= self.enemies.len(),
                enemies@ == self.enemies@.take(j as int).filter(
                    enemy_escapes(self.player, self.bullets@),
                ),
                destroyed == self.enemies@.take(j as int).filter(enemy_shot(self.bullets@)).len(),
                destroyed <= j,
                rammed == self.enemies@.take(j as int).filter(enemy_rams(self.player)).len(),
                lives == if rammed >= self.lives {
                    0
                } else {
                    self.lives - rammed
                },
            decreases self.enemies.len() - j,
        {
            proof {
                lemma_filter_step(
                    self.enemies@,
                    enemy_escapes(self.player, self.bullets@),
                    j as int,
                );
                lemma_filter_step(self.enemies@, enemy_shot(self.bullets@), j as int);
                lemma_filter_step(self.enemies@, enemy_rams(self.player), j as int);
            }
            let shot = enemy_hit_by_any(&self.bullets, &self.enemies[j]);
            let rams = player_overlaps_enemy(&self.player, &self.enemies[j]);
            if shot {
                destroyed += 1;
            }
            if rams {
                proof {
                    rammed = rammed + 1;
                }
                if lives > 0 {
                    lives -= 1;
                }
            }
            if !shot && !rams {
                enemies.push(self.enemies[j]);
            }
            j += 1;
        }
        assert(self.enemies@.take(self.enemies.len() as int) == self.enemies@);

        self.bullets = bullets;
        self.enemies = enemies;
        self.score += destroyed;
        self.lives = lives;
        if lives == 0 {
            self.state = GameState::GameOver;
        }
        destroyed
    }

    /// Takes a picture of the session for drawing.
    pub fn snapshot(&self, enemies_destroyed: u32) -> (frame: FrameResult)
        ensures
            frame.shows(self@),
            frame.enemies_destroyed == enemies_destroyed,
    {
        FrameResult {
            player: self.player,
            bullets: self.bullets.clone(),
            enemies: self.enemies.clone(),
            score: self.score,
            lives: self.lives,
            state: self.state,
            enemies_destroyed,
        }
    }

    /// Advances the session by one frame at `now_ms` and returns what there
    /// is to draw. While the session is running the frame runs the spawn
    /// timer, moves the ship by the held keys, moves bullets and enemies,
    /// drops those that left the playfield and resolves collisions, in that
    /// order. A session that is over is left as it is. `x_roll` and
    /// `speed_roll` are two uniform draws, used if an enemy is spawned.
    pub fn tick(&mut self, now_ms: u64, x_roll: u32, speed_roll: u32) -> (frame: FrameResult)
        requires
            old(self).wf(),
            old(self).score + old(self).enemies.len() < u32::MAX,
        ensures
            final(self)@ == old(self)@.ticked(now_ms, x_roll, speed_roll),
            old(self).state == GameState::GameOver ==> final(self)@ == old(self)@,
            final(self).lives <= old(self).lives,
            final(self).lives == 0 && old(self).state == GameState::Playing ==> final(self).state
                == GameState::GameOver,
            final(self).wf(),
            frame.shows(final(self)@),
            frame.enemies_destroyed == final(self).score - old(self).score,
    {
        let mut destroyed: u32 = 0;
        if self.state == GameState::Playing {
            let delta_time: u64 = if now_ms >= self.last_frame_time {
                now_ms - self.last_frame_time
            } else {
                0
            };
            self.last_frame_time = now_ms;
            self.run_spawner(now_ms, x_roll, speed_roll);
            self.move_player();
            self.update_bullets();
            self.update_enemies(delta_time);
            proof {
                self@.enemies.lemma_filter_len(|e: Enemy| !e.exits());
            }
            destroyed = self.check_collisions();
        }
        self.snapshot(destroyed)
    }

    /// Starts the session over: every part of the state is as in a new
    /// session, whatever it was before.
    pub fn reset(&mut self)
        ensures
            final(self)@ == GameView::initial(),
            final(self).wf(),
    {
        *self = Game::new();
    }
}

} // verus!
