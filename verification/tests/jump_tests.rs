use platformer_core::hit_box::{ColliderKind, HitBox, Obstacle, Vec2};
use platformer_core::player::{
    player_move, vertical_update, Jump, PhysicsConfig, PlayerState,
};
use platformer_core::user_input::TickInput;

fn body() -> HitBox {
    HitBox { half_x: 16_000, half_y: 16_000 }
}

fn press_jump() -> TickInput {
    TickInput { left: false, right: false, jump_held: true, jump_just_pressed: true }
}

fn hold_jump() -> TickInput {
    TickInput { left: false, right: false, jump_held: true, jump_just_pressed: false }
}

fn no_obstacles() -> Vec<Obstacle> {
    Vec::new()
}

#[test]
fn grounded_jump_starts_and_grants_token() {
    let cfg = PhysicsConfig::standard();
    let mut s = PlayerState::new(Vec2 { x: 0, y: 0 }, body());
    assert!(s.grounded);
    let intent = player_move(&mut s, &cfg, &press_jump());
    assert_eq!(intent, 0);
    assert_eq!(s.jump, Some(Jump { budget: 100_000, is_double_jump: false }));
    assert!(s.double_jump_available);
}

#[test]
fn double_jump_consumes_token() {
    let cfg = PhysicsConfig::standard();
    let mut s = PlayerState::new(Vec2 { x: 0, y: 0 }, body());
    s.grounded = false;
    s.double_jump_available = true;
    player_move(&mut s, &cfg, &press_jump());
    assert_eq!(s.jump, Some(Jump { budget: 100_000, is_double_jump: true }));
    assert!(!s.double_jump_available);
}

#[test]
fn third_jump_in_midair_is_rejected() {
    let cfg = PhysicsConfig::standard();
    let mut s = PlayerState::new(Vec2 { x: 0, y: 0 }, body());
    s.grounded = false;
    s.double_jump_available = false;
    let before = s;
    player_move(&mut s, &cfg, &press_jump());
    assert_eq!(s, before);
}

#[test]
fn press_during_active_jump_changes_nothing() {
    let cfg = PhysicsConfig::standard();
    let mut s = PlayerState::new(Vec2 { x: 0, y: 0 }, body());
    s.jump = Some(Jump { budget: 50_000, is_double_jump: false });
    s.double_jump_available = true;
    let before = s;
    player_move(&mut s, &cfg, &press_jump());
    assert_eq!(s, before);
}

#[test]
fn jump_budget_decreases_to_exactly_zero() {
    // Budget 100000, power 2 * 140 * 100 = 28000 per held tick:
    // 100000 -> 72000 -> 44000 -> 16000 -> 0, rising by the power each tick.
    let cfg = PhysicsConfig::standard();
    let obs = no_obstacles();
    let mut s = PlayerState::new(Vec2 { x: 0, y: 0 }, body());
    player_move(&mut s, &cfg, &press_jump());
    let mut budgets = Vec::new();
    let mut heights = Vec::new();
    for _ in 0..4 {
        vertical_update(&mut s, &cfg, 100, true, &obs);
        budgets.push(s.jump.map(|j| j.budget));
        heights.push(s.pos.y);
    }
    assert_eq!(budgets, vec![Some(72_000), Some(44_000), Some(16_000), None]);
    assert_eq!(heights, vec![28_000, 56_000, 84_000, 100_000]);
}

#[test]
fn releasing_the_button_decays_twice_as_fast() {
    let cfg = PhysicsConfig::standard();
    let obs = no_obstacles();
    let mut s = PlayerState::new(Vec2 { x: 0, y: 0 }, body());
    player_move(&mut s, &cfg, &press_jump());
    vertical_update(&mut s, &cfg, 100, false, &obs);
    // Moves by the power but pays double: budget 100000 - 56000.
    assert_eq!(s.pos.y, 28_000);
    assert_eq!(s.jump, Some(Jump { budget: 44_000, is_double_jump: false }));
}

#[test]
fn collision_cancels_jump_whatever_the_budget() {
    // A ceiling right above: the rising candidate overlaps, the jump dies on
    // the spot, and the body does not move.
    let cfg = PhysicsConfig::standard();
    let ceiling = vec![
        Obstacle {
            hit_box: HitBox { half_x: 100_000, half_y: 8_000 },
            pos: Vec2 { x: 0, y: 30_000 },
            kind: ColliderKind::Solid,
        },
    ];
    let mut s = PlayerState::new(Vec2 { x: 0, y: 0 }, body());
    s.jump = Some(Jump { budget: 100_000, is_double_jump: false });
    vertical_update(&mut s, &cfg, 100, true, &ceiling);
    assert_eq!(s.pos, Vec2 { x: 0, y: 0 });
    assert_eq!(s.jump, None);
}

#[test]
fn falling_commits_and_resting_holds() {
    let cfg = PhysicsConfig::standard();
    // Free fall: 140 units/s over 0.1 s sinks 14 units.
    let mut s = PlayerState::new(Vec2 { x: 0, y: 0 }, body());
    s.grounded = false;
    vertical_update(&mut s, &cfg, 100, false, &no_obstacles());
    assert_eq!(s.pos, Vec2 { x: 0, y: -14_000 });
    // Standing exactly on a surface: the fall candidate overlaps it, so the
    // body holds its position.
    let floor = vec![
        Obstacle {
            hit_box: HitBox { half_x: 100_000, half_y: 8_000 },
            pos: Vec2 { x: 0, y: -24_000 },
            kind: ColliderKind::Solid,
        },
    ];
    let mut s = PlayerState::new(Vec2 { x: 0, y: 0 }, body());
    vertical_update(&mut s, &cfg, 100, false, &floor);
    assert_eq!(s.pos, Vec2 { x: 0, y: 0 });
}

#[test]
fn fall_never_goes_below_the_floor_baseline() {
    let mut cfg = PhysicsConfig::standard();
    cfg.floor_y = -10_000;
    let mut s = PlayerState::new(Vec2 { x: 0, y: 0 }, body());
    s.grounded = false;
    vertical_update(&mut s, &cfg, 100, false, &no_obstacles());
    assert_eq!(s.pos, Vec2 { x: 0, y: -10_000 });
}

#[test]
fn forty_unit_drop_onto_platform_is_rejected() {
    // Box half-extent (16,16) at (0,0); obstacle half-extent (100,8) at
    // (0,-24). A single 40-unit drop lands overlapping, so it is rejected
    // and the position is unchanged.
    let cfg = PhysicsConfig {
        move_speed: 110,
        fall_speed: 400,
        jump_budget: 100_000,
        floor_y: -1_000_000_000_000,
    };
    let platform = vec![
        Obstacle {
            hit_box: HitBox { half_x: 100_000, half_y: 8_000 },
            pos: Vec2 { x: 0, y: -24_000 },
            kind: ColliderKind::Solid,
        },
    ];
    let mut s = PlayerState::new(Vec2 { x: 0, y: 0 }, body());
    s.grounded = false;
    vertical_update(&mut s, &cfg, 100, false, &platform);
    assert_eq!(s.pos, Vec2 { x: 0, y: 0 });
}
