use platformer_core::hit_box::{
    check_hit, no_collision, placement_is_free, ColliderKind, HitBox, Obstacle, Vec2,
    WORLD_LIMIT,
};

fn bx(half_x: i64, half_y: i64) -> HitBox {
    HitBox { half_x, half_y }
}

fn at(x: i64, y: i64) -> Vec2 {
    Vec2 { x, y }
}

#[test]
fn overlap_symmetry() {
    let cases = [
        (bx(16_000, 16_000), at(0, 0), bx(8_000, 8_000), at(10_000, 5_000)),
        (bx(16_000, 16_000), at(0, 0), bx(8_000, 8_000), at(100_000, 0)),
        (bx(1, 1), at(-5, 3), bx(2, 2), at(-4, 2)),
        (bx(100_000, 8_000), at(0, -24_000), bx(16_000, 16_000), at(0, 0)),
    ];
    for (a, pa, b, pb) in cases {
        assert_eq!(check_hit(a, pa, b, pb), check_hit(b, pb, a, pa));
    }
}

#[test]
fn touching_boxes_do_not_overlap() {
    // Exactly abutting on x: center distance equals the half-extent sum.
    let a = bx(16_000, 16_000);
    let b = bx(16_000, 16_000);
    assert!(!check_hit(a, at(0, 0), b, at(32_000, 0)));
    // Exactly abutting on y, as a body standing on a surface does.
    assert!(!check_hit(a, at(0, 0), bx(100_000, 8_000), at(0, -24_000)));
    // One milli closer and they overlap.
    assert!(check_hit(a, at(0, 0), b, at(31_999, 0)));
}

#[test]
fn overlapping_and_separated_boxes() {
    let a = bx(16_000, 16_000);
    let b = bx(8_000, 8_000);
    assert!(check_hit(a, at(0, 0), b, at(10_000, 5_000)));
    // Overlap must hold on both axes at once.
    assert!(!check_hit(a, at(0, 0), b, at(10_000, 50_000)));
    assert!(!check_hit(a, at(0, 0), b, at(50_000, 5_000)));
}

#[test]
fn sensors_never_block() {
    let body = bx(16_000, 16_000);
    let obstacles = vec![
        Obstacle { hit_box: bx(8_000, 8_000), pos: at(0, 0), kind: ColliderKind::Sensor },
    ];
    assert!(no_collision(body, at(0, 0), &obstacles));
    let solid = vec![
        Obstacle { hit_box: bx(8_000, 8_000), pos: at(0, 0), kind: ColliderKind::Solid },
    ];
    assert!(!no_collision(body, at(0, 0), &solid));
}

#[test]
fn placement_outside_world_is_rejected() {
    let body = bx(16_000, 16_000);
    let none: Vec<Obstacle> = Vec::new();
    assert!(placement_is_free(body, at(0, 0), &none));
    assert!(placement_is_free(body, at(WORLD_LIMIT, 0), &none));
    assert!(!placement_is_free(body, at(WORLD_LIMIT + 1, 0), &none));
    assert!(!placement_is_free(body, at(0, -WORLD_LIMIT - 1), &none));
}
