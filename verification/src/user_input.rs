//! The input collaborator's view of a tick: plain per-tick booleans.
//!
//! The device mapping (keys, gamepads) lives outside the core; the core only
//! consumes which actions are held and whether jump was just pressed.

use vstd::prelude::*;

verus! {

/// The closed set of player actions the core reacts to.
#[derive(Clone, Copy, Debug, PartialEq, Eq, Hash, Structural)]
pub enum PlayerInput {
    Left,
    Right,
    Jump,
}

/// The intent of one tick, as the input collaborator hands it over.
#[derive(Clone, Copy, Debug, PartialEq, Eq, Structural)]
pub struct TickInput {
    pub left: bool,
    pub right: bool,
    /// Jump action held down this tick.
    pub jump_held: bool,
    /// Jump action pressed on this very tick (edge, not level).
    pub jump_just_pressed: bool,
}

/// Horizontal intent of a tick: -1, 0 or +1. Left wins over right when both
/// are held, matching the resolver's fixed priority.
pub open spec fn intent_of(input: TickInput) -> int {
    if input.left {
        -1
    } else if input.right {
        1
    } else {
        0
    }
}

/// `intent_of` as executable code.
pub fn horizontal_intent(input: &TickInput) -> (r: i64)
    ensures
        r == intent_of(*input),
        -1 <= r <= 1,
{
    if input.left {
        -1
    } else if input.right {
        1
    } else {
        0
    }
}

} // verus!
