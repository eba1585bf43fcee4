use platformer_core::player_animation::{change_animation, change_direction, Animation};
use platformer_core::sprite_animation::{animate_sprite, animate_sprite_once, AnimationIndices};

#[test]
fn visual_follows_the_movement() {
    assert_eq!(change_animation(28_000, 0, false), Animation::Jump);
    assert_eq!(change_animation(28_000, 1, true), Animation::DoubleJump);
    assert_eq!(change_animation(-14_000, 0, false), Animation::Fall);
    assert_eq!(change_animation(0, 1, false), Animation::Running);
    assert_eq!(change_animation(0, -1, false), Animation::Running);
    assert_eq!(change_animation(0, 0, false), Animation::Idle);
}

#[test]
fn facing_follows_the_intent() {
    assert!(change_direction(false, -1));
    assert!(!change_direction(true, 1));
    // Standing still keeps the previous facing.
    assert!(change_direction(true, 0));
    assert!(!change_direction(false, 0));
}

#[test]
fn looping_animation_wraps() {
    let idle = AnimationIndices::new(0, 10);
    assert_eq!(animate_sprite(0, &idle), 1);
    assert_eq!(animate_sprite(9, &idle), 10);
    assert_eq!(animate_sprite(10, &idle), 0);
    // An index past the range also snaps back to the first frame.
    assert_eq!(animate_sprite(42, &idle), 0);
}

#[test]
fn one_shot_animation_ends() {
    let collected = AnimationIndices::new(0, 4);
    assert_eq!(animate_sprite_once(0, &collected), Some(1));
    assert_eq!(animate_sprite_once(3, &collected), Some(4));
    assert_eq!(animate_sprite_once(4, &collected), None);
}
