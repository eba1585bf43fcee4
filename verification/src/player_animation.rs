//! Which visual the rendering collaborator should show for the character.
//!
//! The core exposes its state as a small closed enumeration chosen from the
//! tick's movement: rising picks the jump (or double-jump) visual, sinking
//! picks the fall, horizontal intent picks the run, and rest picks idle.
//! Visuals are cosmetic and never block physics.

use vstd::prelude::*;

verus! {

/// The closed set of character visuals.
#[derive(Clone, Copy, Debug, PartialEq, Eq, Hash, Structural)]
pub enum Animation {
    Idle,
    Running,
    Jump,
    DoubleJump,
    Fall,
}

/// The visual for a tick that moved the character by `dy` millis vertically,
/// with horizontal intent `intent`, during a double jump or not.
pub open spec fn animation_for(dy: int, intent: int, is_double_jump: bool) -> Animation {
    if dy > 0 {
        if is_double_jump {
            Animation::DoubleJump
        } else {
            Animation::Jump
        }
    } else if dy < 0 {
        Animation::Fall
    } else if intent != 0 {
        Animation::Running
    } else {
        Animation::Idle
    }
}

/// `animation_for` as executable code.
pub fn change_animation(dy: i64, intent: i64, is_double_jump: bool) -> (a: Animation)
    ensures
        a == animation_for(dy as int, intent as int, is_double_jump),
{
    if dy > 0 {
        if is_double_jump {
            Animation::DoubleJump
        } else {
            Animation::Jump
        }
    } else if dy < 0 {
        Animation::Fall
    } else if intent != 0 {
        Animation::Running
    } else {
        Animation::Idle
    }
}

/// Which way the sprite faces after this tick: moving left flips it, moving
/// right unflips it, standing still keeps the previous facing.
pub fn change_direction(flip_x: bool, intent: i64) -> (r: bool)
    ensures
        r == if intent < 0 {
            true
        } else if intent > 0 {
            false
        } else {
            flip_x
        },
{
    if intent < 0 {
        true
    } else if intent > 0 {
        false
    } else {
        flip_x
    }
}

} // verus!
