use arcade_shooter::bullet::Bullet;
use arcade_shooter::enemy::Enemy;
use arcade_shooter::game::Game;
use arcade_shooter::game_state::GameState;
use arcade_shooter::geometry::{PLAYFIELD_HEIGHT, PLAYFIELD_WIDTH};
use arcade_shooter::model::{INITIAL_LIVES, SPAWN_INTERVAL_MS};
use arcade_shooter::player::Player;

fn key(name: &str) -> String {
    name.to_string()
}

fn enemy(x: i32, y: i32, speed: u32) -> Enemy {
    Enemy { x, y, width: 50_000, height: 50_000, speed }
}

fn bullet(x: i32, y: i32) -> Bullet {
    Bullet { x, y, radius: 5_000, speed: 7_000 }
}

#[test]
fn new_game_is_in_its_initial_state() {
    let game = Game::new();
    assert_eq!(game.player, Player::new());
    assert!(game.bullets.is_empty());
    assert!(game.enemies.is_empty());
    assert_eq!(game.last_enemy_spawn, None);
    assert_eq!(game.enemy_spawn_interval, 2000);
    assert_eq!(game.score, 0);
    assert_eq!(game.lives, 3);
    assert_eq!(game.state, GameState::Playing);
    assert!(game.keys_pressed.is_empty());
    assert_eq!(game.last_frame_time, 0);
    assert_eq!(SPAWN_INTERVAL_MS, 2000);
    assert_eq!(INITIAL_LIVES, 3);
}

#[test]
fn first_tick_seeds_the_spawn_timer() {
    let mut game = Game::new();
    let frame = game.tick(0, 0x8000_0000, 0x8000_0000);
    assert_eq!(game.last_enemy_spawn, Some(0));
    assert!(game.enemies.is_empty());
    assert!(frame.enemies.is_empty());
}

#[test]
fn tick_after_the_interval_spawns_one_enemy() {
    let mut game = Game::new();
    game.tick(0, 0, 0);
    let frame = game.tick(2001, 0x8000_0000, 0x8000_0000);
    assert_eq!(game.enemies.len(), 1);
    assert_eq!(game.last_enemy_spawn, Some(2001));
    let spawned = game.enemies[0];
    // It appeared on the top edge and has moved once in this frame.
    assert_eq!(spawned, enemy(375_000, 3_500, 3_500));
    assert!(2_000 <= spawned.speed && spawned.speed < 5_000);
    assert_eq!(frame.enemies, vec![spawned]);
}

#[test]
fn spawn_enemy_puts_it_on_the_top_edge() {
    let mut game = Game::new();
    game.spawn_enemy(0x8000_0000, 0);
    game.spawn_enemy(u32::MAX, u32::MAX);
    assert_eq!(game.enemies, vec![enemy(375_000, 0, 2_000), enemy(749_999, 0, 4_999)]);
    assert_eq!(game.last_enemy_spawn, None);
}

#[test]
fn tick_at_the_interval_does_not_spawn() {
    let mut game = Game::new();
    game.tick(0, 0, 0);
    game.tick(2000, 0, 0);
    assert!(game.enemies.is_empty());
    assert_eq!(game.last_enemy_spawn, Some(0));
    game.tick(2001, 0, 0);
    assert_eq!(game.enemies.len(), 1);
}

#[test]
fn spawn_timer_starts_at_the_first_frame_not_at_zero() {
    let mut game = Game::new();
    game.tick(5000, 0, 0);
    assert!(game.enemies.is_empty());
    assert_eq!(game.last_enemy_spawn, Some(5000));
    game.tick(7000, 0, 0);
    assert!(game.enemies.is_empty());
    game.tick(7001, 0, 0);
    assert_eq!(game.enemies.len(), 1);
    assert_eq!(game.last_enemy_spawn, Some(7001));
}

#[test]
fn spawns_follow_the_clock_not_the_frame_count() {
    let mut game = Game::new();
    game.tick(0, 0, 0);
    for frame in 1..=200u64 {
        game.tick(frame * 10, 0, 0);
    }
    // 200 frames, but only 2000 ms: nothing yet.
    assert!(game.enemies.is_empty());
    game.tick(2010, 0, 0);
    assert_eq!(game.enemies.len(), 1);
    // One long frame spawns one enemy, not several.
    game.tick(20_000, 0, 0);
    assert_eq!(game.enemies.len(), 2);
    assert_eq!(game.last_enemy_spawn, Some(20_000));
}

#[test]
fn clock_that_runs_backwards_spawns_nothing() {
    let mut game = Game::new();
    game.tick(10_000, 0, 0);
    game.tick(3_000, 0, 0);
    assert!(game.enemies.is_empty());
    assert_eq!(game.last_enemy_spawn, Some(10_000));
    assert_eq!(game.last_frame_time, 3_000);
}

#[test]
fn run_spawner_alone_moves_nothing() {
    let mut game = Game::new();
    game.run_spawner(0, 0, 0);
    game.run_spawner(2001, 0, 0);
    assert_eq!(game.enemies, vec![enemy(0, 0, 2_000)]);
    assert_eq!(game.last_enemy_spawn, Some(2001));
    assert_eq!(game.last_frame_time, 0);
}

#[test]
fn ticks_without_enemies_keep_score_and_lives() {
    let mut game = Game::new();
    game.key_down(key("ArrowLeft"));
    game.key_down(key(" "));
    for frame in 0..100u64 {
        let shown = game.tick(frame * 20, 1, 2);
        assert_eq!((game.score, game.lives), (0, 3));
        assert_eq!((shown.score, shown.lives, shown.enemies_destroyed), (0, 3, 0));
        assert_eq!(game.state, GameState::Playing);
        assert!(game.enemies.is_empty());
    }
}

#[test]
fn fired_bullets_rise_until_they_leave() {
    let mut game = Game::new();
    let shots: usize = 4;
    for _ in 0..shots {
        game.fire_bullet();
    }
    assert_eq!(game.bullets.len(), shots);
    let mut height: i32 = 550_000;
    // 78 frames of 7000 units fit into 550000; the 79th takes the bullets
    // above the top edge.
    for frame in 1..=78u64 {
        game.tick(frame, 0, 0);
        assert_eq!(game.bullets.len(), shots);
        for b in &game.bullets {
            assert!(b.y < height);
            assert_eq!(b.y, height - 7_000);
            assert_eq!(b.x, 320_000);
        }
        height -= 7_000;
    }
    assert_eq!(height, 4_000);
    game.tick(79, 0, 0);
    assert!(game.bullets.is_empty());
    assert_eq!((game.score, game.lives), (0, 3));
}

#[test]
fn update_bullets_drops_those_that_leave() {
    let mut game = Game::new();
    game.bullets = vec![bullet(10_000, 7_000), bullet(20_000, 6_999), bullet(30_000, 100_000)];
    game.update_bullets();
    assert_eq!(game.bullets, vec![bullet(10_000, 0), bullet(30_000, 93_000)]);
}

#[test]
fn update_enemies_drops_those_that_leave() {
    let mut game = Game::new();
    game.enemies = vec![
        enemy(0, 597_000, 3_000),
        enemy(100_000, 597_001, 3_000),
        enemy(200_000, 0, 4_999),
    ];
    game.update_enemies(16);
    assert_eq!(game.enemies, vec![enemy(0, PLAYFIELD_HEIGHT, 3_000), enemy(200_000, 4_999, 4_999)]);
    // The time that has passed does not change the distance.
    game.update_enemies(1_000_000);
    assert_eq!(game.enemies, vec![enemy(200_000, 9_998, 4_999)]);
}

#[test]
fn entity_that_left_cannot_collide() {
    let mut game = Game::new();
    game.player.y = 0;
    game.player.x = 0;
    // The bullet would overlap the enemy where it stands, but this frame
    // takes it above the top edge first.
    game.bullets = vec![bullet(400_000, 5_000)];
    game.enemies = vec![enemy(380_000, 0, 2_000)];
    game.tick(0, 0, 0);
    assert!(game.bullets.is_empty());
    assert_eq!(game.enemies, vec![enemy(380_000, 2_000, 2_000)]);
    assert_eq!(game.score, 0);
}

#[test]
fn held_keys_move_the_ship_every_frame() {
    let mut game = Game::new();
    game.key_down(key("ArrowLeft"));
    game.key_down(key("w"));
    game.tick(0, 0, 0);
    assert_eq!((game.player.x, game.player.y), (295_000, 545_000));
    game.tick(16, 0, 0);
    assert_eq!((game.player.x, game.player.y), (290_000, 540_000));
    game.key_up(key("ArrowLeft"));
    game.key_down(key("d"));
    game.tick(32, 0, 0);
    assert_eq!((game.player.x, game.player.y), (295_000, 535_000));
}

#[test]
fn each_direction_has_two_keys() {
    let moves: [(&str, i32, i32); 8] = [
        ("ArrowLeft", -5_000, 0),
        ("a", -5_000, 0),
        ("ArrowRight", 5_000, 0),
        ("d", 5_000, 0),
        ("ArrowUp", 0, -5_000),
        ("w", 0, -5_000),
        ("ArrowDown", 0, 5_000),
        ("s", 0, 5_000),
    ];
    for (name, dx, dy) in moves {
        let mut game = Game::new();
        game.player.x = 400_000;
        game.player.y = 300_000;
        game.key_down(key(name));
        game.move_player();
        assert_eq!((game.player.x, game.player.y), (400_000 + dx, 300_000 + dy));
    }
}

#[test]
fn both_keys_of_a_direction_move_once() {
    let mut game = Game::new();
    game.key_down(key("ArrowLeft"));
    game.key_down(key("a"));
    game.move_player();
    assert_eq!(game.player.x, 295_000);
}

#[test]
fn opposing_keys_both_apply() {
    let mut game = Game::new();
    game.key_down(key("a"));
    game.key_down(key("d"));
    game.move_player();
    assert_eq!(game.player.x, 300_000);
    game.player.x = 2_000;
    game.move_player();
    assert_eq!(game.player.x, 5_000);
}

#[test]
fn ship_stays_on_the_playfield_with_every_key_held() {
    let mut game = Game::new();
    for name in ["ArrowLeft", "a", "ArrowRight", "d", "ArrowUp", "w", "ArrowDown", "s"] {
        game.key_down(key(name));
    }
    for frame in 0..300u64 {
        game.tick(frame, 0, 0);
        assert!(0 <= game.player.x && game.player.x <= PLAYFIELD_WIDTH - 50_000);
        assert!(0 <= game.player.y && game.player.y <= PLAYFIELD_HEIGHT - 50_000);
    }
}

#[test]
fn ship_stops_at_each_wall() {
    let walls: [(&str, i32, i32); 4] = [
        ("ArrowLeft", 0, 550_000),
        ("ArrowRight", 750_000, 550_000),
        ("ArrowUp", 300_000, 0),
        ("ArrowDown", 300_000, 550_000),
    ];
    for (name, x, y) in walls {
        let mut game = Game::new();
        game.key_down(key(name));
        for frame in 0..200u64 {
            game.tick(frame, 0, 0);
        }
        assert_eq!((game.player.x, game.player.y), (x, y));
    }
}

#[test]
fn snapshot_shows_the_session() {
    let mut game = Game::new();
    game.bullets = vec![bullet(1, 2)];
    game.enemies = vec![enemy(3, 4, 5)];
    game.score = 7;
    game.lives = 2;
    let shown = game.snapshot(9);
    assert_eq!(shown.player, game.player);
    assert_eq!(shown.bullets, game.bullets);
    assert_eq!(shown.enemies, game.enemies);
    assert_eq!((shown.score, shown.lives), (7, 2));
    assert_eq!(shown.state, GameState::Playing);
    assert_eq!(shown.enemies_destroyed, 9);
}

#[test]
fn reset_restores_the_initial_state() {
    let mut game = Game::new();
    game.key_down(key("a"));
    game.key_down(key(" "));
    game.tick(0, 0, 0);
    game.tick(2001, 0, 0);
    game.enemies.push(enemy(290_000, 540_000, 0));
    game.tick(2017, 0, 0);
    game.score = 12;
    assert_ne!(game.player, Player::new());
    assert_eq!(game.lives, 2);
    game.reset();
    assert_eq!((game.player.x, game.player.y), (300_000, 550_000));
    assert_eq!(game.player, Player::new());
    assert!(game.bullets.is_empty());
    assert!(game.enemies.is_empty());
    assert_eq!(game.score, 0);
    assert_eq!(game.lives, 3);
    assert_eq!(game.state, GameState::Playing);
    assert!(game.keys_pressed.is_empty());
    assert_eq!(game.last_enemy_spawn, None);
    assert_eq!(game.last_frame_time, 0);
    assert_eq!(game.enemy_spawn_interval, 2000);
    // The spawn timer starts over with the next frame.
    game.tick(50_000, 0, 0);
    assert!(game.enemies.is_empty());
    assert_eq!(game.last_enemy_spawn, Some(50_000));
}

#[test]
fn session_is_playing_until_it_is_over() {
    let mut game = Game::new();
    assert!(game.is_playing());
    game.lives = 1;
    game.enemies = vec![enemy(320_000, 520_000, 0)];
    game.tick(0, 0, 0);
    assert!(!game.is_playing());
    game.reset();
    assert!(game.is_playing());
}

#[test]
fn new_session_is_valid() {
    let game = Game::new();
    assert!(game.is_valid());
    assert!(game.can_tick());
}

#[test]
fn ship_off_the_playfield_is_not_valid() {
    let places: [(i32, i32, bool); 8] = [
        (0, 0, true),
        (750_000, 550_000, true),
        (-1, 0, false),
        (0, -1, false),
        (750_001, 0, false),
        (0, 550_001, false),
        (i32::MAX, 0, false),
        (0, i32::MIN, false),
    ];
    for (x, y, ok) in places {
        let mut game = Game::new();
        game.player.x = x;
        game.player.y = y;
        assert_eq!(game.is_valid(), ok);
        assert_eq!(game.player.is_in_playfield(), ok);
        assert_eq!(game.can_tick(), ok);
    }
}

#[test]
fn ship_larger_than_the_playfield_is_not_valid() {
    let mut game = Game::new();
    game.player.x = 0;
    game.player.y = 0;
    game.player.width = 800_000;
    game.player.height = 600_000;
    assert!(game.is_valid());
    game.player.width = 800_001;
    assert!(!game.is_valid());
    game.player.width = 800_000;
    game.player.height = u32::MAX;
    assert!(!game.is_valid());
}

#[test]
fn key_held_twice_is_not_valid() {
    let mut game = Game::new();
    game.keys_pressed = vec![key("a"), key("d"), key("w")];
    assert!(game.is_valid());
    game.keys_pressed = vec![key("a"), key("d"), key("a")];
    assert!(!game.is_valid());
    assert!(!game.can_tick());
}

#[test]
fn score_needs_room_for_a_frame() {
    let mut game = Game::new();
    game.score = u32::MAX - 1;
    assert!(game.can_tick());
    game.score = u32::MAX;
    assert!(!game.can_tick());
    game.score = u32::MAX - 3;
    game.enemies = vec![enemy(0, 0, 0), enemy(0, 0, 0)];
    assert!(game.can_tick());
    game.enemies.push(enemy(0, 0, 0));
    assert!(!game.can_tick());
    assert!(game.is_valid());
}

#[test]
fn score_can_reach_its_limit() {
    let mut game = Game::new();
    game.score = u32::MAX - 2;
    game.player.x = 0;
    game.bullets = vec![bullet(400_000, 132_000)];
    game.enemies = vec![enemy(380_000, 100_000, 2_000)];
    assert!(game.can_tick());
    game.tick(0, 0, 0);
    assert_eq!(game.score, u32::MAX - 1);
}
