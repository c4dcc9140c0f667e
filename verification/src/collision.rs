//! Which entities touch: bullets against enemies, and enemies against the
//! ship.

use vstd::prelude::*;
use crate::bullet::Bullet;
use crate::enemy::Enemy;
use crate::player::Player;

verus! {

/// The bullet's box and the enemy's box intersect.
pub open spec fn bullet_hits(bullet: Bullet, enemy: Enemy) -> bool {
    bullet.bounds().intersects(enemy.bounds())
}

/// The ship's box and the enemy's box intersect.
pub open spec fn player_hits(player: Player, enemy: Enemy) -> bool {
    player.bounds().intersects(enemy.bounds())
}

/// The bullet hits at least one of the enemies.
pub open spec fn hits_any(bullet: Bullet, enemies: Seq<Enemy>) -> bool {
    exists|j: int| 0 <= j < enemies.len() && bullet_hits(bullet, #[trigger] enemies[j])
}

/// At least one of the bullets hits the enemy.
pub open spec fn hit_by_any(bullets: Seq<Bullet>, enemy: Enemy) -> bool {
    exists|i: int| 0 <= i < bullets.len() && bullet_hits(#[trigger] bullets[i], enemy)
}

/// Selects the bullets that hit none of `enemies`.
pub open spec fn bullet_misses(enemies: Seq<Enemy>) -> spec_fn(Bullet) -> bool {
    |b: Bullet| !hits_any(b, enemies)
}

/// Selects the enemies that one of `bullets` hits.
pub open spec fn enemy_shot(bullets: Seq<Bullet>) -> spec_fn(Enemy) -> bool {
    |e: Enemy| hit_by_any(bullets, e)
}

/// Selects the enemies that touch the ship.
pub open spec fn enemy_rams(player: Player) -> spec_fn(Enemy) -> bool {
    |e: Enemy| player_hits(player, e)
}

/// Selects the enemies that no bullet hits and that do not touch the ship.
pub open spec fn enemy_escapes(player: Player, bullets: Seq<Bullet>) -> spec_fn(Enemy) -> bool {
    |e: Enemy| !hit_by_any(bullets, e) && !player_hits(player, e)
}

/// Tests whether a bullet and an enemy touch.
pub fn bullet_overlaps_enemy(bullet: &Bullet, enemy: &Enemy) -> (hit: bool)
    ensures
        hit == bullet_hits(*bullet, *enemy),
{
    bullet.bounding_box().overlaps(&enemy.bounding_box())
}

/// Tests whether the ship and an enemy touch.
pub fn player_overlaps_enemy(player: &Player, enemy: &Enemy) -> (hit: bool)
    ensures
        hit == player_hits(*player, *enemy),
{
    player.bounding_box().overlaps(&enemy.bounding_box())
}

/// Tests whether a bullet touches any of the enemies.
pub fn bullet_hits_any(bullet: &Bullet, enemies: &Vec<Enemy>) -> (hit: bool)
    ensures
        hit == hits_any(*bullet, enemies@),
{
    let mut j: usize = 0;
    while j < enemies.len()
        invariant
            j <= enemies.len(),
            forall|k: int| 0 <= k < j ==> !bullet_hits(*bullet, #[trigger] enemies@[k]),
        decreases enemies.len() - j,
    {
        if bullet_overlaps_enemy(bullet, &enemies[j]) {
            return true;
        }
        j += 1;
    }
    false
}

/// Tests whether any of the bullets touches an enemy.
pub fn enemy_hit_by_any(bullets: &Vec<Bullet>, enemy: &Enemy) -> (hit: bool)
    ensures
        hit == hit_by_any(bullets@, *enemy),
{
    let mut i: usize = 0;
    while i < bullets.len()
        invariant
            i <= bullets.len(),
            forall|k: int| 0 <= k < i ==> !bullet_hits(#[trigger] bullets@[k], *enemy),
        decreases bullets.len() - i,
    {
        if bullet_overlaps_enemy(&bullets[i], enemy) {
            return true;
        }
        i += 1;
    }
    false
}

} // verus!
