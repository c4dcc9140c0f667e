use arcade_shooter::bullet::{Bullet, BULLET_RADIUS, BULLET_SPEED};
use arcade_shooter::enemy::{
    Enemy, ENEMY_HEIGHT, ENEMY_MIN_SPEED, ENEMY_SPEED_SPAN, ENEMY_WIDTH,
};
use arcade_shooter::geometry::{PLAYFIELD_HEIGHT, PLAYFIELD_WIDTH};
use arcade_shooter::player::Player;

#[test]
fn new_player_stands_at_its_start() {
    let player = Player::new();
    assert_eq!(player, Player { x: 300_000, y: 550_000, width: 50_000, height: 50_000, speed: 5_000 });
}

#[test]
fn fired_bullet_leaves_from_the_ship() {
    let player = Player::new();
    let bullet = Bullet::fire(&player);
    assert_eq!(bullet, Bullet { x: 320_000, y: 550_000, radius: 5_000, speed: 7_000 });
    assert_eq!(BULLET_RADIUS, 5_000);
    assert_eq!(BULLET_SPEED, 7_000);
}

#[test]
fn fired_bullet_follows_the_ship() {
    let mut player = Player::new();
    player.x = 0;
    player.y = 0;
    assert_eq!(Bullet::fire(&player), Bullet { x: 20_000, y: 0, radius: 5_000, speed: 7_000 });
    player.x = 750_000;
    player.y = 550_000;
    assert_eq!(Bullet::fire(&player).x, 770_000);
    player.width = 0;
    assert_eq!(Bullet::fire(&player).x, 745_000);
}

#[test]
fn bullet_rises_by_its_speed() {
    let bullet = Bullet { x: 320_000, y: 550_000, radius: 5_000, speed: 7_000 };
    assert_eq!(
        bullet.rise(),
        Some(Bullet { x: 320_000, y: 543_000, radius: 5_000, speed: 7_000 })
    );
}

#[test]
fn bullet_leaves_above_the_top_edge() {
    let on_edge = Bullet { x: 0, y: 7_000, radius: 5_000, speed: 7_000 };
    assert_eq!(on_edge.rise(), Some(Bullet { x: 0, y: 0, radius: 5_000, speed: 7_000 }));
    let over = Bullet { x: 0, y: 6_999, radius: 5_000, speed: 7_000 };
    assert_eq!(over.rise(), None);
    let at_top = Bullet { x: 0, y: 0, radius: 5_000, speed: 7_000 };
    assert_eq!(at_top.rise(), None);
    let still = Bullet { x: 0, y: 0, radius: 5_000, speed: 0 };
    assert_eq!(still.rise(), Some(still));
}

#[test]
fn bullet_far_out_does_not_wrap() {
    let low = Bullet { x: 0, y: i32::MIN, radius: 0, speed: u32::MAX };
    assert_eq!(low.rise(), None);
    let high = Bullet { x: 0, y: i32::MAX, radius: 0, speed: u32::MAX };
    assert_eq!(high.rise(), None);
    let slow = Bullet { x: 0, y: i32::MAX, radius: 0, speed: 1 };
    assert_eq!(slow.rise(), Some(Bullet { x: 0, y: i32::MAX - 1, radius: 0, speed: 1 }));
}

#[test]
fn enemy_descends_by_its_speed() {
    let enemy = Enemy { x: 10_000, y: 0, width: 50_000, height: 50_000, speed: 2_500 };
    assert_eq!(
        enemy.descend(),
        Some(Enemy { x: 10_000, y: 2_500, width: 50_000, height: 50_000, speed: 2_500 })
    );
}

#[test]
fn enemy_leaves_below_the_bottom_edge() {
    let on_edge = Enemy { x: 0, y: 598_000, width: 50_000, height: 50_000, speed: 2_000 };
    assert_eq!(on_edge.descend().map(|e| e.y), Some(PLAYFIELD_HEIGHT));
    let over = Enemy { x: 0, y: 598_001, width: 50_000, height: 50_000, speed: 2_000 };
    assert_eq!(over.descend(), None);
    let far = Enemy { x: 0, y: i32::MAX, width: 0, height: 0, speed: u32::MAX };
    assert_eq!(far.descend(), None);
    let above = Enemy { x: 0, y: i32::MIN, width: 0, height: 0, speed: 1 };
    assert_eq!(above.descend().map(|e| e.y), Some(i32::MIN + 1));
}

#[test]
fn spawn_with_lowest_rolls() {
    let enemy = Enemy::spawn(0, 0);
    assert_eq!(enemy, Enemy { x: 0, y: 0, width: 50_000, height: 50_000, speed: 2_000 });
    assert_eq!((ENEMY_WIDTH, ENEMY_HEIGHT), (50_000, 50_000));
}

#[test]
fn spawn_with_highest_rolls() {
    let enemy = Enemy::spawn(u32::MAX, u32::MAX);
    assert_eq!(enemy, Enemy { x: 749_999, y: 0, width: 50_000, height: 50_000, speed: 4_999 });
}

#[test]
fn spawn_with_middle_rolls() {
    let enemy = Enemy::spawn(0x8000_0000, 0x8000_0000);
    assert_eq!(enemy, Enemy { x: 375_000, y: 0, width: 50_000, height: 50_000, speed: 3_500 });
    let quarter = Enemy::spawn(0x4000_0000, 0xC000_0000);
    assert_eq!((quarter.x, quarter.speed), (187_500, 4_250));
}

#[test]
fn spawn_uses_each_roll_for_its_own_part() {
    let a = Enemy::spawn(0x8000_0000, 0);
    assert_eq!((a.x, a.speed), (375_000, 2_000));
    let b = Enemy::spawn(0, 0x8000_0000);
    assert_eq!((b.x, b.speed), (0, 3_500));
}

#[test]
fn spawn_stays_in_range() {
    let rolls: [u32; 7] = [0, 1, 5_726, 0x7FFF_FFFF, 0x8000_0001, 0xFFFF_FFFE, u32::MAX];
    for x_roll in rolls {
        for speed_roll in rolls {
            let enemy = Enemy::spawn(x_roll, speed_roll);
            assert_eq!(enemy.y, 0);
            assert!(0 <= enemy.x && enemy.x < PLAYFIELD_WIDTH - 50_000);
            assert!(ENEMY_MIN_SPEED <= enemy.speed);
            assert!(enemy.speed < ENEMY_MIN_SPEED + ENEMY_SPEED_SPAN);
        }
    }
}

#[test]
fn spawn_rounds_down() {
    // 5727 is the least roll whose share of the 750000 units of room
    // reaches one unit.
    assert_eq!(Enemy::spawn(5_726, 0).x, 0);
    assert_eq!(Enemy::spawn(5_727, 0).x, 1);
}
