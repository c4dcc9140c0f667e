//! Laws of the simulation, proved of the model that the operations of
//! [`crate::game::Game`] are specified by.

use vstd::prelude::*;
use crate::bullet::{Bullet, BULLET_SPEED};
use crate::collision::{
    bullet_hits, bullet_misses, enemy_escapes, enemy_rams, enemy_shot, hits_any, player_hits,
};
use crate::enemy::Enemy;
use crate::game_state::GameState;
use crate::geometry::PLAYFIELD_HEIGHT;
use crate::input::{lemma_pressed_no_duplicates, lemma_released_no_duplicates};
use crate::model::{bullets_risen, enemies_descended, Frame, GameView, INITIAL_LIVES};
use crate::player::{Player, PLAYER_START_X, PLAYER_START_Y};

verus! {

/// Nothing passes a filter of an empty sequence.
proof fn lemma_filter_empty<A>(s: Seq<A>, keep: spec_fn(A) -> bool)
    requires
        s.len() == 0,
    ensures
        s.filter(keep) == Seq::<A>::empty(),
{
    s.lemma_filter_len(keep);
}

/// A filter that every element passes changes nothing.
proof fn lemma_filter_all<A>(s: Seq<A>, keep: spec_fn(A) -> bool)
    requires
        forall|i: int| 0 <= i < s.len() ==> keep(#[trigger] s[i]),
    ensures
        s.filter(keep) == s,
    decreases s.len(),
{
    reveal(Seq::filter);
    if s.len() > 0 {
        lemma_filter_all(s.drop_last(), keep);
    }
}

/// Every element that passed a filter stood in the sequence and meets the
/// condition.
proof fn lemma_filter_member<A>(s: Seq<A>, keep: spec_fn(A) -> bool, k: int)
    requires
        0 <= k < s.filter(keep).len(),
    ensures
        keep(s.filter(keep)[k]),
        exists|i: int| 0 <= i < s.len() && #[trigger] s[i] == s.filter(keep)[k],
{
    s.lemma_filter_pred(keep, k);
    let x = s.filter(keep)[k];
    s.lemma_filter_contains_rev(keep, x);
}

/// No element that fails the condition passes a filter.
proof fn lemma_filter_excludes<A>(s: Seq<A>, keep: spec_fn(A) -> bool, x: A)
    requires
        !keep(x),
    ensures
        !s.filter(keep).contains(x),
{
    if s.filter(keep).contains(x) {
        let k = choose|k: int| 0 <= k < s.filter(keep).len() && s.filter(keep)[k] == x;
        s.lemma_filter_pred(keep, k);
    }
}

/// A new session is valid: the ship stands at its starting place, there
/// are no bullets and no enemies, no points and three lives, the session is
/// running, no key is held and the spawn timer has not started. This is the
/// state that a reset restores.
pub proof fn lemma_initial_state()
    ensures
        GameView::initial().valid(),
        GameView::initial().player.x == PLAYER_START_X,
        GameView::initial().player.y == PLAYER_START_Y,
        GameView::initial().bullets.len() == 0,
        GameView::initial().enemies.len() == 0,
        GameView::initial().score == 0,
        GameView::initial().lives == INITIAL_LIVES,
        GameView::initial().state == GameState::Playing,
        GameView::initial().keys_pressed.len() == 0,
        GameView::initial().last_enemy_spawn is None,
{
}

/// The ship stays inside the playfield whatever combination of direction
/// keys is held: its left edge between 0 and the playfield's width less its
/// own, its top edge between 0 and the playfield's height less its own.
pub proof fn lemma_steered_in_playfield(
    player: Player,
    left: bool,
    right: bool,
    up: bool,
    down: bool,
)
    requires
        player.in_playfield(),
    ensures
        player.steered(left, right, up, down).in_playfield(),
{
}

/// Key events keep a valid state valid.
pub proof fn lemma_keys_keep_valid(game: GameView, key: Seq<char>)
    requires
        game.valid(),
    ensures
        game.key_down(key).valid(),
        game.key_up(key).valid(),
{
    lemma_pressed_no_duplicates(game.keys_pressed, key);
    lemma_released_no_duplicates(game.keys_pressed, key);
}

/// A frame keeps a valid state valid: in particular the ship is inside the
/// playfield after every frame.
pub proof fn lemma_tick_keeps_valid(game: GameView, now: u64, x_roll: u32, speed_roll: u32)
    requires
        game.valid(),
    ensures
        game.ticked(now, x_roll, speed_roll).valid(),
{
}

/// Any number of frames keeps a valid state valid.
pub proof fn lemma_run_keeps_valid(game: GameView, frames: Seq<Frame>)
    requires
        game.valid(),
    ensures
        game.run(frames).valid(),
    decreases frames.len(),
{
    if frames.len() > 0 {
        lemma_run_keeps_valid(game, frames.drop_last());
        let frame = frames.last();
        lemma_tick_keeps_valid(
            game.run(frames.drop_last()),
            frame.now,
            frame.x_roll,
            frame.speed_roll,
        );
    }
}

/// A frame never adds a life, and a frame that leaves no life ends the
/// session in that same frame.
pub proof fn lemma_out_of_lives_is_game_over(
    game: GameView,
    now: u64,
    x_roll: u32,
    speed_roll: u32,
)
    ensures
        game.ticked(now, x_roll, speed_roll).lives <= game.lives,
        game.state == GameState::Playing && game.ticked(now, x_roll, speed_roll).lives == 0
            ==> game.ticked(now, x_roll, speed_roll).state == GameState::GameOver,
        game.state == GameState::GameOver ==> game.ticked(now, x_roll, speed_roll) == game,
        game.state == GameState::Playing && game.ticked(now, x_roll, speed_roll).lives > 0
            ==> game.ticked(now, x_roll, speed_roll).state == GameState::Playing,
{
}

/// Once the session is over, frames change nothing.
pub proof fn lemma_game_over_is_frozen(game: GameView, frames: Seq<Frame>)
    requires
        game.state == GameState::GameOver,
    ensures
        game.run(frames) == game,
    decreases frames.len(),
{
    if frames.len() > 0 {
        lemma_game_over_is_frozen(game, frames.drop_last());
    }
}

/// A bullet and an enemy that touch when collisions are resolved are both
/// gone afterwards, and the score has grown by the number of enemies that
/// at least one bullet hit: one point for each, however many bullets hit it.
pub proof fn lemma_hit_removes_both(game: GameView, i: int, j: int)
    requires
        0 <= i < game.bullets.len(),
        0 <= j < game.enemies.len(),
        bullet_hits(game.bullets[i], game.enemies[j]),
    ensures
        !game.resolved().bullets.contains(game.bullets[i]),
        !game.resolved().enemies.contains(game.enemies[j]),
        game.resolved().score == game.score + game.shot_count(),
        game.shot_count() <= game.enemies.len(),
{
    lemma_filter_excludes(game.bullets, bullet_misses(game.enemies), game.bullets[i]);
    lemma_filter_excludes(
        game.enemies,
        enemy_escapes(game.player, game.bullets),
        game.enemies[j],
    );
    game.enemies.lemma_filter_len(enemy_shot(game.bullets));
}

/// An enemy that touches the ship when collisions are resolved is gone
/// afterwards, and the lives have dropped by the number of such enemies,
/// but not below none.
pub proof fn lemma_ramming_removes_enemy(game: GameView, j: int)
    requires
        0 <= j < game.enemies.len(),
        player_hits(game.player, game.enemies[j]),
    ensures
        !game.resolved().enemies.contains(game.enemies[j]),
        game.resolved().lives == if game.rammed_count() >= game.lives {
            0
        } else {
            game.lives - game.rammed_count()
        },
        game.resolved().lives < game.lives || game.lives == 0,
{
    lemma_filter_excludes(
        game.enemies,
        enemy_escapes(game.player, game.bullets),
        game.enemies[j],
    );
    game.enemies.lemma_filter_contains(enemy_rams(game.player), j);
}

/// After collisions are resolved no bullet that is left touches an enemy
/// that is left, and no enemy that is left touches the ship.
pub proof fn lemma_resolved_leaves_no_contact(game: GameView)
    ensures
        forall|i: int, j: int|
            0 <= i < game.resolved().bullets.len() && 0 <= j < game.resolved().enemies.len()
                ==> !bullet_hits(
                #[trigger] game.resolved().bullets[i],
                #[trigger] game.resolved().enemies[j],
            ),
        forall|j: int|
            0 <= j < game.resolved().enemies.len() ==> !player_hits(
                game.player,
                #[trigger] game.resolved().enemies[j],
            ),
{
    let after = game.resolved();
    assert forall|i: int, j: int|
        0 <= i < after.bullets.len() && 0 <= j < after.enemies.len() implies !bullet_hits(
        #[trigger] after.bullets[i],
        #[trigger] after.enemies[j],
    ) by {
        lemma_filter_member(game.bullets, bullet_misses(game.enemies), i);
        lemma_filter_member(game.enemies, enemy_escapes(game.player, game.bullets), j);
    }
    assert forall|j: int| 0 <= j < after.enemies.len() implies !player_hits(
        game.player,
        #[trigger] after.enemies[j],
    ) by {
        lemma_filter_member(game.enemies, enemy_escapes(game.player, game.bullets), j);
    }
}

/// A bullet and an enemy that touch once a frame has moved everything are
/// both gone when the frame ends, and the frame adds one point for each
/// enemy that at least one bullet hit.
pub proof fn lemma_tick_removes_colliding_pair(
    game: GameView,
    now: u64,
    x_roll: u32,
    speed_roll: u32,
    i: int,
    j: int,
)
    requires
        game.state == GameState::Playing,
        0 <= i < game.advanced(now, x_roll, speed_roll).bullets.len(),
        0 <= j < game.advanced(now, x_roll, speed_roll).enemies.len(),
        bullet_hits(
            game.advanced(now, x_roll, speed_roll).bullets[i],
            game.advanced(now, x_roll, speed_roll).enemies[j],
        ),
    ensures
        !game.ticked(now, x_roll, speed_roll).bullets.contains(
            game.advanced(now, x_roll, speed_roll).bullets[i],
        ),
        !game.ticked(now, x_roll, speed_roll).enemies.contains(
            game.advanced(now, x_roll, speed_roll).enemies[j],
        ),
        game.ticked(now, x_roll, speed_roll).score == game.score + game.advanced(
            now,
            x_roll,
            speed_roll,
        ).shot_count(),
{
    lemma_hit_removes_both(game.advanced(now, x_roll, speed_roll), i, j);
}

/// When a frame of a running session ends, no bullet touches an enemy and
/// no enemy touches the ship.
pub proof fn lemma_tick_leaves_no_contact(game: GameView, now: u64, x_roll: u32, speed_roll: u32)
    requires
        game.state == GameState::Playing,
    ensures
        forall|i: int, j: int|
            0 <= i < game.ticked(now, x_roll, speed_roll).bullets.len() && 0 <= j < game.ticked(
                now,
                x_roll,
                speed_roll,
            ).enemies.len() ==> !bullet_hits(
                #[trigger] game.ticked(now, x_roll, speed_roll).bullets[i],
                #[trigger] game.ticked(now, x_roll, speed_roll).enemies[j],
            ),
        forall|j: int|
            0 <= j < game.ticked(now, x_roll, speed_roll).enemies.len() ==> !player_hits(
                game.ticked(now, x_roll, speed_roll).player,
                #[trigger] game.ticked(now, x_roll, speed_roll).enemies[j],
            ),
{
    lemma_resolved_leaves_no_contact(game.advanced(now, x_roll, speed_roll));
}

/// A frame of a session without enemies that spawns none leaves score and
/// lives as they were, and still no enemy is there.
pub proof fn lemma_tick_without_enemies(game: GameView, now: u64, x_roll: u32, speed_roll: u32)
    requires
        game.enemies.len() == 0,
        !game.spawns(now),
    ensures
        game.ticked(now, x_roll, speed_roll).score == game.score,
        game.ticked(now, x_roll, speed_roll).lives == game.lives,
        game.ticked(now, x_roll, speed_roll).enemies.len() == 0,
        game.ticked(now, x_roll, speed_roll).bullets == if game.state == GameState::Playing {
            bullets_risen(game.bullets)
        } else {
            game.bullets
        },
        game.lives > 0 ==> game.ticked(now, x_roll, speed_roll).state == game.state,
{
    if game.state == GameState::Playing {
        let moved = game.advanced(now, x_roll, speed_roll);
        lemma_filter_empty(game.enemies, |e: Enemy| !e.exits());
        lemma_filter_empty(moved.enemies, enemy_shot(moved.bullets));
        lemma_filter_empty(moved.enemies, enemy_rams(moved.player));
        lemma_filter_empty(moved.enemies, enemy_escapes(moved.player, moved.bullets));
        assert forall|i: int| 0 <= i < moved.bullets.len() implies bullet_misses(moved.enemies)(
            #[trigger] moved.bullets[i],
        ) by {}
        lemma_filter_all(moved.bullets, bullet_misses(moved.enemies));
    }
}

/// Over any sequence of frames that starts without enemies and spawns none,
/// score and lives stay as they were.
pub proof fn lemma_counters_unchanged_without_enemies(game: GameView, frames: Seq<Frame>)
    requires
        game.enemies.len() == 0,
        game.spawns_nothing(frames),
    ensures
        game.run(frames).score == game.score,
        game.run(frames).lives == game.lives,
        game.run(frames).enemies.len() == 0,
    decreases frames.len(),
{
    if frames.len() > 0 {
        let earlier = frames.drop_last();
        assert forall|k: int| 0 <= k < earlier.len() implies !(#[trigger] game.run(
            earlier.take(k),
        )).spawns(earlier[k].now) by {
            assert(earlier.take(k) == frames.take(k));
        }
        lemma_counters_unchanged_without_enemies(game, earlier);
        let frame = frames.last();
        lemma_tick_without_enemies(game.run(earlier), frame.now, frame.x_roll, frame.speed_roll);
    }
}

/// Firing `n` times adds exactly `n` bullets, each the one that the ship
/// fires from where it stands, and changes nothing else.
pub proof fn lemma_firing_adds_bullets(game: GameView, n: nat)
    ensures
        game.fired_times(n) == (GameView {
            bullets: game.bullets + Seq::new(n, |i: int| Bullet::fired_from(game.player)),
            ..game
        }),
        game.fired_times(n).bullets.len() == game.bullets.len() + n,
    decreases n,
{
    if n > 0 {
        lemma_firing_adds_bullets(game, (n - 1) as nat);
        let shot = Bullet::fired_from(game.player);
        let fewer = Seq::new((n - 1) as nat, |i: int| shot);
        assert((game.bullets + fewer).push(shot) =~= game.bullets + Seq::new(n, |i: int| shot));
    }
}

/// A bullet that does not exit is `speed` higher up one frame later and
/// still on the playfield; if it has any speed, that is strictly higher.
pub proof fn lemma_risen_is_higher(bullet: Bullet)
    requires
        !bullet.exits(),
    ensures
        bullet.risen().y == bullet.y - bullet.speed,
        0 <= bullet.risen().y <= bullet.y,
        bullet.speed > 0 ==> bullet.risen().y < bullet.y,
{
}

/// The bullet that a ship fires starts at the ship's top edge and rises by
/// `BULLET_SPEED` per frame, which is more than nothing.
pub proof fn lemma_fired_bullet_has_speed(player: Player)
    ensures
        Bullet::fired_from(player).y == player.y,
        Bullet::fired_from(player).speed == BULLET_SPEED,
        BULLET_SPEED > 0,
{
}

/// Every bullet that is there after the bullets have moved is one of the
/// earlier bullets, `speed` higher up and still on the playfield, and no
/// bullet is there that was not there before.
pub proof fn lemma_risen_bullet_origin(bullets: Seq<Bullet>, k: int)
    requires
        0 <= k < bullets_risen(bullets).len(),
    ensures
        exists|i: int|
            0 <= i < bullets.len() && !(#[trigger] bullets[i]).exits() && bullets_risen(bullets)[k]
                == bullets[i].risen() && bullets_risen(bullets)[k].y == bullets[i].y
                - bullets[i].speed,
        0 <= bullets_risen(bullets)[k].y,
        bullets_risen(bullets).len() <= bullets.len(),
{
    let stays = |b: Bullet| !b.exits();
    bullets.lemma_filter_len(stays);
    lemma_filter_member(bullets, stays, k);
}

/// Bullets that all exit leave none behind, and bullets of which none exits
/// all stay, each `speed` higher up.
pub proof fn lemma_bullets_risen_alike(bullet: Bullet, n: nat)
    ensures
        bullets_risen(Seq::new(n, |i: int| bullet)) == if bullet.exits() {
            Seq::<Bullet>::empty()
        } else {
            Seq::new(n, |i: int| bullet.risen())
        },
{
    let before = Seq::new(n, |i: int| bullet);
    let stays = |b: Bullet| !b.exits();
    if bullet.exits() {
        if before.filter(stays).len() > 0 {
            lemma_filter_member(before, stays, 0);
        }
    } else {
        lemma_filter_all(before, stays);
    }
}

/// Where a bullet fired from `player` stands after `frames` frames, as long
/// as that is on the playfield.
pub open spec fn shot_after(player: Player, frames: nat) -> Bullet {
    let shot = Bullet::fired_from(player);
    Bullet {
        x: shot.x,
        y: (shot.y - frames * BULLET_SPEED) as i32,
        radius: shot.radius,
        speed: shot.speed,
    }
}

/// The ship fires `n` times in a running session without bullets and
/// enemies, and frames follow that spawn no enemy, so that nothing collides.
/// Then there are exactly `n` bullets, all the same, with each frame
/// strictly higher up than the frame before, by `BULLET_SPEED`, for as long
/// as that is on the playfield; from the frame that would take them above
/// its top edge on there is none.
pub proof fn lemma_fired_bullets_rise(game: GameView, n: nat, frames: Seq<Frame>)
    requires
        game.valid(),
        game.state == GameState::Playing,
        game.lives > 0,
        game.bullets.len() == 0,
        game.enemies.len() == 0,
        game.fired_times(n).spawns_nothing(frames),
    ensures
        game.fired_times(n).run(frames).bullets == if Bullet::fired_from(game.player).y
            - frames.len() * BULLET_SPEED >= 0 {
            Seq::new(n, |i: int| shot_after(game.player, frames.len()))
        } else {
            Seq::<Bullet>::empty()
        },
        frames.len() > 0 && Bullet::fired_from(game.player).y - frames.len() * BULLET_SPEED >= 0
            ==> shot_after(game.player, frames.len()).y == shot_after(
            game.player,
            (frames.len() - 1) as nat,
        ).y - BULLET_SPEED && shot_after(game.player, frames.len()).y < shot_after(
            game.player,
            (frames.len() - 1) as nat,
        ).y,
        game.fired_times(n).run(frames).enemies.len() == 0,
        game.fired_times(n).run(frames).state == GameState::Playing,
        game.fired_times(n).run(frames).lives == game.lives,
    decreases frames.len(),
{
    let start = game.fired_times(n);
    lemma_firing_adds_bullets(game, n);
    if frames.len() > 0 {
        let earlier = frames.drop_last();
        assert forall|k: int| 0 <= k < earlier.len() implies !(#[trigger] start.run(
            earlier.take(k),
        )).spawns(earlier[k].now) by {
            assert(earlier.take(k) == frames.take(k));
        }
        lemma_fired_bullets_rise(game, n, earlier);
        let frame = frames.last();
        let before = start.run(earlier);
        lemma_tick_without_enemies(before, frame.now, frame.x_roll, frame.speed_roll);
        if Bullet::fired_from(game.player).y - earlier.len() * BULLET_SPEED >= 0 {
            lemma_bullets_risen_alike(shot_after(game.player, earlier.len()), n);
        } else {
            lemma_filter_empty(before.bullets, |b: Bullet| !b.exits());
        }
    }
}

/// A frame of a running session in which no bullet touches an enemy once
/// everything has moved leaves exactly the bullets that did not exit, each
/// moved up by its speed.
pub proof fn lemma_tick_without_hits_moves_bullets(
    game: GameView,
    now: u64,
    x_roll: u32,
    speed_roll: u32,
)
    requires
        game.state == GameState::Playing,
        forall|i: int|
            0 <= i < game.advanced(now, x_roll, speed_roll).bullets.len() ==> !hits_any(
                #[trigger] game.advanced(now, x_roll, speed_roll).bullets[i],
                game.advanced(now, x_roll, speed_roll).enemies,
            ),
    ensures
        game.ticked(now, x_roll, speed_roll).bullets == bullets_risen(game.bullets),
        game.ticked(now, x_roll, speed_roll).score == game.score,
{
    let moved = game.advanced(now, x_roll, speed_roll);
    assert forall|i: int| 0 <= i < moved.bullets.len() implies bullet_misses(moved.enemies)(
        #[trigger] moved.bullets[i],
    ) by {}
    lemma_filter_all(moved.bullets, bullet_misses(moved.enemies));
    let shot = enemy_shot(moved.bullets);
    if moved.enemies.filter(shot).len() > 0 {
        lemma_filter_member(moved.enemies, shot, 0);
    }
}

/// Every enemy that is there after the enemies have moved is one of the
/// earlier enemies, `speed` lower down and not below the bottom edge.
pub proof fn lemma_descended_enemy_origin(enemies: Seq<Enemy>, k: int)
    requires
        0 <= k < enemies_descended(enemies).len(),
    ensures
        exists|i: int|
            0 <= i < enemies.len() && !(#[trigger] enemies[i]).exits() && enemies_descended(
                enemies,
            )[k] == enemies[i].descended() && enemies_descended(enemies)[k].y == enemies[i].y
                + enemies[i].speed,
        enemies_descended(enemies)[k].y <= PLAYFIELD_HEIGHT,
        enemies_descended(enemies).len() <= enemies.len(),
{
    let stays = |e: Enemy| !e.exits();
    enemies.lemma_filter_len(stays);
    lemma_filter_member(enemies, stays, k);
}

/// When a frame of a running session ends, no bullet is above the top edge
/// of the playfield and no enemy has its top edge below the bottom edge.
pub proof fn lemma_tick_culls(game: GameView, now: u64, x_roll: u32, speed_roll: u32)
    requires
        game.state == GameState::Playing,
    ensures
        forall|i: int|
            0 <= i < game.ticked(now, x_roll, speed_roll).bullets.len() ==> 0 <= (
            #[trigger] game.ticked(now, x_roll, speed_roll).bullets[i]).y,
        forall|j: int|
            0 <= j < game.ticked(now, x_roll, speed_roll).enemies.len() ==> (
            #[trigger] game.ticked(now, x_roll, speed_roll).enemies[j]).y <= PLAYFIELD_HEIGHT,
{
    let moved = game.advanced(now, x_roll, speed_roll);
    let after = game.ticked(now, x_roll, speed_roll);
    assert forall|i: int| 0 <= i < after.bullets.len() implies 0 <= (#[trigger] after.bullets[i]).y by {
        lemma_filter_member(moved.bullets, bullet_misses(moved.enemies), i);
        let k = choose|k: int|
            0 <= k < moved.bullets.len() && #[trigger] moved.bullets[k] == after.bullets[i];
        lemma_risen_bullet_origin(game.bullets, k);
    }
    let before = GameView { last_frame_time: now, ..game }.clocked(now, x_roll, speed_roll);
    assert forall|j: int| 0 <= j < after.enemies.len() implies (#[trigger] after.enemies[j]).y
        <= PLAYFIELD_HEIGHT by {
        lemma_filter_member(moved.enemies, enemy_escapes(moved.player, moved.bullets), j);
        let k = choose|k: int|
            0 <= k < moved.enemies.len() && #[trigger] moved.enemies[k] == after.enemies[j];
        lemma_descended_enemy_origin(before.enemies, k);
    }
}

/// Frames never lower the score and never add a life.
pub proof fn lemma_counters_are_monotonic(game: GameView, frames: Seq<Frame>)
    ensures
        game.run(frames).score >= game.score,
        game.run(frames).lives <= game.lives,
    decreases frames.len(),
{
    if frames.len() > 0 {
        lemma_counters_are_monotonic(game, frames.drop_last());
    }
}

} // verus!
