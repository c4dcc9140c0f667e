use arcade_shooter::game::Game;
use arcade_shooter::input::{has_no_repeats, is_fire_key, is_held, position, press, release};

fn key(name: &str) -> String {
    name.to_string()
}

#[test]
fn press_adds_a_key_once() {
    let mut keys: Vec<String> = Vec::new();
    press(&mut keys, key("a"));
    press(&mut keys, key("d"));
    press(&mut keys, key("a"));
    assert_eq!(keys, vec![key("a"), key("d")]);
}

#[test]
fn release_removes_the_key() {
    let mut keys: Vec<String> = vec![key("a"), key("d"), key("w")];
    release(&mut keys, &key("d"));
    assert_eq!(keys, vec![key("a"), key("w")]);
    release(&mut keys, &key("a"));
    assert_eq!(keys, vec![key("w")]);
    release(&mut keys, &key("w"));
    assert!(keys.is_empty());
}

#[test]
fn release_of_a_key_that_is_not_held_changes_nothing() {
    let mut keys: Vec<String> = vec![key("a"), key("d")];
    release(&mut keys, &key("x"));
    assert_eq!(keys, vec![key("a"), key("d")]);
    let mut none: Vec<String> = Vec::new();
    release(&mut none, &key("a"));
    assert!(none.is_empty());
}

#[test]
fn release_removes_the_first_occurrence_only() {
    let mut keys: Vec<String> = vec![key("a"), key("d"), key("a")];
    release(&mut keys, &key("a"));
    assert_eq!(keys, vec![key("d"), key("a")]);
}

#[test]
fn position_finds_the_first_place() {
    let keys: Vec<String> = vec![key("a"), key("d"), key("a")];
    assert_eq!(position(&keys, &key("a")), Some(0));
    assert_eq!(position(&keys, &key("d")), Some(1));
    assert_eq!(position(&keys, &key("w")), None);
    assert_eq!(position(&Vec::new(), &key("a")), None);
}

#[test]
fn held_keys_are_told_apart_exactly() {
    let keys: Vec<String> = vec![key("ArrowLeft"), key("a")];
    assert!(is_held(&keys, "ArrowLeft"));
    assert!(is_held(&keys, "a"));
    assert!(!is_held(&keys, "A"));
    assert!(!is_held(&keys, "Arrow"));
    assert!(!is_held(&keys, "ArrowLeft "));
    assert!(!is_held(&keys, ""));
}

#[test]
fn fire_key_has_two_names() {
    assert!(is_fire_key(&key(" ")));
    assert!(is_fire_key(&key("Space")));
    assert!(!is_fire_key(&key("space")));
    assert!(!is_fire_key(&key("  ")));
    assert!(!is_fire_key(&key("")));
    assert!(!is_fire_key(&key("a")));
}

#[test]
fn key_down_holds_the_key() {
    let mut game = Game::new();
    assert!(!game.key_down(key("a")));
    assert!(!game.key_down(key("ArrowUp")));
    assert!(!game.key_down(key("a")));
    assert_eq!(game.keys_pressed, vec![key("a"), key("ArrowUp")]);
    assert!(game.bullets.is_empty());
}

#[test]
fn key_up_lets_the_key_go() {
    let mut game = Game::new();
    game.key_down(key("a"));
    game.key_down(key("d"));
    game.key_up(key("a"));
    assert_eq!(game.keys_pressed, vec![key("d")]);
    game.key_up(key("a"));
    game.key_up(key("q"));
    assert_eq!(game.keys_pressed, vec![key("d")]);
}

#[test]
fn every_press_of_the_fire_key_fires_once() {
    let mut game = Game::new();
    assert!(game.key_down(key(" ")));
    assert_eq!(game.bullets.len(), 1);
    // The key is still held: the next press event fires again, and the
    // key is held once.
    assert!(game.key_down(key(" ")));
    assert_eq!(game.bullets.len(), 2);
    assert_eq!(game.keys_pressed, vec![key(" ")]);
    assert!(game.key_down(key("Space")));
    assert_eq!(game.bullets.len(), 3);
    assert_eq!(game.keys_pressed, vec![key(" "), key("Space")]);
}

#[test]
fn holding_the_fire_key_does_not_fire_per_frame() {
    let mut game = Game::new();
    game.key_down(key(" "));
    for frame in 0..5u64 {
        game.tick(frame * 16, 0, 0);
    }
    assert_eq!(game.bullets.len(), 1);
}

#[test]
fn key_events_leave_the_rest_alone() {
    let mut game = Game::new();
    game.tick(100, 0, 0);
    game.key_down(key("a"));
    game.key_up(key("a"));
    assert_eq!(game.player, arcade_shooter::player::Player::new());
    assert!(game.enemies.is_empty());
    assert_eq!((game.score, game.lives), (0, 3));
    assert_eq!(game.last_enemy_spawn, Some(100));
    assert_eq!(game.last_frame_time, 100);
}

#[test]
fn repeats_are_found() {
    assert!(has_no_repeats(&Vec::new()));
    assert!(has_no_repeats(&vec![key("a")]));
    assert!(has_no_repeats(&vec![key("a"), key("A"), key(" ")]));
    assert!(!has_no_repeats(&vec![key("a"), key("a")]));
    assert!(!has_no_repeats(&vec![key("a"), key("d"), key("w"), key("d")]));
    assert!(!has_no_repeats(&vec![key("w"), key("a"), key("d"), key("w")]));
}
