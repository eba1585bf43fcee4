use platformer_core::hit_box::{ColliderKind, HitBox, Obstacle, Vec2};
use platformer_core::movement::{update_player_position, update_velocity, Acceleration, Velocity};

fn body() -> HitBox {
    HitBox { half_x: 16_000, half_y: 16_000 }
}

#[test]
fn grounded_walk_moves_exactly() {
    // Intent +1, speed 110 units/s, delta 0.1 s, grounded: exactly 11 units.
    let mut pos = Vec2 { x: 0, y: 0 };
    let none: Vec<Obstacle> = Vec::new();
    let moved = update_player_position(&mut pos, body(), 1, 110, 100, true, &none);
    assert!(moved);
    assert_eq!(pos, Vec2 { x: 11_000, y: 0 });
}

#[test]
fn airborne_walk_moves_half() {
    // Same inputs airborne: the 0.5 factor gives exactly 5.5 units.
    let mut pos = Vec2 { x: 0, y: 0 };
    let none: Vec<Obstacle> = Vec::new();
    let moved = update_player_position(&mut pos, body(), 1, 110, 100, false, &none);
    assert!(moved);
    assert_eq!(pos, Vec2 { x: 5_500, y: 0 });
}

#[test]
fn blocked_walk_is_fully_rejected() {
    // A solid obstacle overlapping the candidate rejects the whole move.
    let mut pos = Vec2 { x: 0, y: 0 };
    let obstacles = vec![
        Obstacle {
            hit_box: HitBox { half_x: 16_000, half_y: 16_000 },
            pos: Vec2 { x: 32_000, y: 0 },
            kind: ColliderKind::Solid,
        },
    ];
    let moved = update_player_position(&mut pos, body(), 1, 110, 100, true, &obstacles);
    assert!(!moved);
    assert_eq!(pos, Vec2 { x: 0, y: 0 });
}

#[test]
fn walk_left_and_stand_still() {
    let none: Vec<Obstacle> = Vec::new();
    let mut pos = Vec2 { x: 0, y: 0 };
    assert!(update_player_position(&mut pos, body(), -1, 110, 100, true, &none));
    assert_eq!(pos, Vec2 { x: -11_000, y: 0 });
    let mut pos = Vec2 { x: 7, y: 9 };
    assert!(update_player_position(&mut pos, body(), 0, 110, 100, true, &none));
    assert_eq!(pos, Vec2 { x: 7, y: 9 });
}

#[test]
fn velocity_integrates_acceleration() {
    let mut v = Velocity::new(Vec2 { x: 100, y: -100 });
    let a = Acceleration::new(Vec2 { x: 1_500, y: -1_500 });
    // 1500 millis/s^2 over 100 ms gains 150 millis/s, truncated toward zero.
    update_velocity(&mut v, &a, 100);
    assert_eq!(v.value, Vec2 { x: 250, y: -250 });
    // 999 * 999 / 1000 truncates to 998 on both signs.
    let mut v = Velocity::new(Vec2 { x: 0, y: 0 });
    let a = Acceleration::new(Vec2 { x: 999, y: -999 });
    update_velocity(&mut v, &a, 999);
    assert_eq!(v.value, Vec2 { x: 998, y: -998 });
}
