//! Sprite frame bookkeeping: which atlas frame comes next.
//!
//! Cosmetic by design — nothing here ever feeds back into physics. A looping
//! animation wraps from its last frame to its first; a one-shot animation
//! instead reports that it is finished, so its entity can be despawned.

use vstd::prelude::*;

verus! {

/// The frame range of one animation inside a sprite atlas.
#[derive(Clone, Copy, Debug, PartialEq, Eq, Structural)]
pub struct AnimationIndices {
    pub first: usize,
    pub last: usize,
}

impl AnimationIndices {
    pub fn new(first: usize, last: usize) -> (a: Self)
        ensures
            a == (AnimationIndices { first, last }),
    {
        Self { first, last }
    }
}

/// The next frame of a looping animation: one step forward, wrapping to
/// `first` once `last` has been shown.
pub fn animate_sprite(index: usize, indices: &AnimationIndices) -> (next: usize)
    ensures
        next == if index >= indices.last {
            indices.first as int
        } else {
            index + 1
        },
{
    if index >= indices.last {
        indices.first
    } else {
        index + 1
    }
}

/// The next frame of a one-shot animation, or nothing once `last` has been
/// shown: the caller despawns the entity then.
pub fn animate_sprite_once(index: usize, indices: &AnimationIndices) -> (next: Option<usize>)
    ensures
        next == if index >= indices.last {
            Option::<usize>::None
        } else {
            Option::Some((index + 1) as usize)
        },
{
    if index >= indices.last {
        None
    } else {
        Some(index + 1)
    }
}

} // verus!
