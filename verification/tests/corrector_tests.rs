use platformer_core::collision_fix::{fix_collision, CorrectionReport};
use platformer_core::hit_box::{ColliderKind, HitBox, Obstacle, Vec2};

fn body() -> HitBox {
    HitBox { half_x: 16_000, half_y: 16_000 }
}

fn solid(half_x: i64, half_y: i64, x: i64, y: i64) -> Obstacle {
    Obstacle { hit_box: HitBox { half_x, half_y }, pos: Vec2 { x, y }, kind: ColliderKind::Solid }
}

#[test]
fn clear_position_is_a_fixed_point() {
    let obstacles = vec![solid(100_000, 8_000, 0, -24_000)];
    let mut pos = Vec2 { x: 0, y: 0 };
    let report = fix_collision(&mut pos, body(), &obstacles);
    assert_eq!(report, CorrectionReport::NotNeeded);
    assert_eq!(pos, Vec2 { x: 0, y: 0 });
}

#[test]
fn stuck_body_snaps_to_the_farthest_clear_candidate() {
    // Stuck dead center in an obstacle the body's own size. Clear candidates
    // start 32 units out on every axis; the walk keeps the last clear one it
    // finds, so ring 99 wins, and within a ring -x is tested last.
    let obstacles = vec![solid(16_000, 16_000, 0, 0)];
    let mut pos = Vec2 { x: 0, y: 0 };
    let report = fix_collision(&mut pos, body(), &obstacles);
    assert_eq!(report, CorrectionReport::Moved);
    assert_eq!(pos, Vec2 { x: -99_000, y: 0 });
}

#[test]
fn corrector_is_idempotent() {
    let obstacles = vec![solid(16_000, 16_000, 0, 0)];
    let mut pos = Vec2 { x: 0, y: 0 };
    fix_collision(&mut pos, body(), &obstacles);
    let once = pos;
    let report = fix_collision(&mut pos, body(), &obstacles);
    assert_eq!(report, CorrectionReport::NotNeeded);
    assert_eq!(pos, once);
}

#[test]
fn hopelessly_stuck_body_stays_put() {
    // An obstacle so large that every candidate within the 99-unit bound
    // still overlaps: the body stays where it is, twice over.
    let obstacles = vec![solid(200_000, 200_000, 0, 0)];
    let mut pos = Vec2 { x: 0, y: 0 };
    let report = fix_collision(&mut pos, body(), &obstacles);
    assert_eq!(report, CorrectionReport::Stuck);
    assert_eq!(pos, Vec2 { x: 0, y: 0 });
    let report = fix_collision(&mut pos, body(), &obstacles);
    assert_eq!(report, CorrectionReport::Stuck);
    assert_eq!(pos, Vec2 { x: 0, y: 0 });
}

#[test]
fn nearer_blocked_rings_are_walked_past() {
    // The body is stuck in a wall that extends far to the left and up and
    // down, with its only exit to the right: the corrector finds clear
    // candidates on +x only, and of those keeps the farthest.
    let obstacles = vec![
        solid(1_000_000, 1_000_000, -984_000, 0),
    ];
    // Body at x = 0 overlaps the wall (distance 984 < 1000 + 16). Candidates
    // +x at ring i are clear iff i >= 32 (distance 984 + i >= 1016).
    let mut pos = Vec2 { x: 0, y: 0 };
    let report = fix_collision(&mut pos, body(), &obstacles);
    assert_eq!(report, CorrectionReport::Moved);
    assert_eq!(pos, Vec2 { x: 99_000, y: 0 });
}
