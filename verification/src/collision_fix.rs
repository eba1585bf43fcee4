//! Stuck-state corrector: a periodic safety net.
//!
//! If the controlled body is found overlapping a solid obstacle, the
//! corrector walks outward along both axes, one unit at a time up to a fixed
//! bound, testing four axis-aligned candidates per ring, and snaps the body
//! to the last clear candidate the walk finds — later rings overwrite
//! earlier ones, so of several clear candidates the farthest wins, and at
//! one ring the order `+y`, `-y`, `+x`, `-x` makes `-x` the strongest. This
//! farthest-wins policy is inherited deliberately and pinned down by the
//! contract. A body that is not stuck is left exactly where it is, and if
//! the whole walk finds nothing clear the body stays put (reported, not
//! fatal).

use vstd::prelude::*;

use crate::hit_box::{in_world, placement_free, placement_is_free, HitBox, Obstacle, Vec2};

verus! {

/// The walk tests rings `1 ..= MAX_FIX - 1` units out.
pub const MAX_FIX: u64 = 100;

/// One ring step: a whole world unit, in millis.
pub const FIX_STEP: i64 = 1000;

/// What one run of the corrector found.
#[derive(Clone, Copy, Debug, PartialEq, Eq, Structural)]
pub enum CorrectionReport {
    /// The body was not overlapping anything: no-op.
    NotNeeded,
    /// The body was stuck and has been snapped to a clear position.
    Moved,
    /// The body was stuck and the whole bounded walk found no clear spot:
    /// it stays where it is.
    Stuck,
}

/// The strongest clear candidate of ring `i` (distance `i` units), or `prev`
/// if the ring has none. Written in the overwrite order of the walk:
/// `+y`, then `-y`, then `+x`, then `-x`, the last clear one winning.
pub open spec fn ring_choice(hb: HitBox, base: Vec2, obs: Seq<Obstacle>, i: int, prev: Vec2) -> Vec2 {
    let c_up = Vec2 { x: base.x, y: (base.y + i * FIX_STEP) as i64 };
    let c_down = Vec2 { x: base.x, y: (base.y - i * FIX_STEP) as i64 };
    let c_right = Vec2 { x: (base.x + i * FIX_STEP) as i64, y: base.y };
    let c_left = Vec2 { x: (base.x - i * FIX_STEP) as i64, y: base.y };
    if placement_free(hb, c_left, obs) {
        c_left
    } else if placement_free(hb, c_right, obs) {
        c_right
    } else if placement_free(hb, c_down, obs) {
        c_down
    } else if placement_free(hb, c_up, obs) {
        c_up
    } else {
        prev
    }
}

/// The position after walking rings `1 ..= n` in order, starting from `base`.
pub open spec fn ring_search(hb: HitBox, base: Vec2, obs: Seq<Obstacle>, n: nat) -> Vec2
    decreases n,
{
    if n == 0 {
        base
    } else {
        ring_choice(hb, base, obs, n as int, ring_search(hb, base, obs, (n - 1) as nat))
    }
}

/// Where the corrector leaves the body: untouched when its placement is
/// already free, else at the outcome of the full bounded walk (which is the
/// body's own position again when the walk finds nothing clear).
pub open spec fn corrected_position(hb: HitBox, p: Vec2, obs: Seq<Obstacle>) -> Vec2 {
    if placement_free(hb, p, obs) {
        p
    } else {
        ring_search(hb, p, obs, (MAX_FIX - 1) as nat)
    }
}

/// The walk only ever returns the base or a clear candidate.
pub proof fn lemma_ring_search_clear_or_base(hb: HitBox, base: Vec2, obs: Seq<Obstacle>, n: nat)
    ensures
        ring_search(hb, base, obs, n) == base || placement_free(
            hb,
            ring_search(hb, base, obs, n),
            obs,
        ),
    decreases n,
{
    if n > 0 {
        lemma_ring_search_clear_or_base(hb, base, obs, (n - 1) as nat);
    }
}

/// Corrector idempotence: running the corrector twice in a row with no
/// movement in between lands exactly where running it once does — a clear
/// position is a fixed point, and a stuck position with no clear candidate
/// within the bound stays a fixed point.
pub proof fn lemma_fix_collision_idempotent(hb: HitBox, p: Vec2, obs: Seq<Obstacle>)
    ensures
        corrected_position(hb, corrected_position(hb, p, obs), obs) == corrected_position(
            hb,
            p,
            obs,
        ),
{
    let r = corrected_position(hb, p, obs);
    if !placement_free(hb, p, obs) {
        lemma_ring_search_clear_or_base(hb, p, obs, (MAX_FIX - 1) as nat);
    }
    assert(r == p || placement_free(hb, r, obs));
}

/// Which report one corrector run on this position gives.
pub open spec fn correction_report(hb: HitBox, p: Vec2, obs: Seq<Obstacle>) -> CorrectionReport {
    if placement_free(hb, p, obs) {
        CorrectionReport::NotNeeded
    } else if corrected_position(hb, p, obs) != p {
        CorrectionReport::Moved
    } else {
        CorrectionReport::Stuck
    }
}

/// Run the corrector on the controlled body's position against the solid
/// obstacles. The position afterwards is exactly `corrected_position`, and
/// the report tells which of the three outcomes happened.
pub fn fix_collision(pos: &mut Vec2, hb: HitBox, obstacles: &Vec<Obstacle>) -> (report:
    CorrectionReport)
    requires
        in_world(*old(pos)),
    ensures
        *final(pos) == corrected_position(hb, *old(pos), obstacles@),
        in_world(*final(pos)),
        report == correction_report(hb, *old(pos), obstacles@),
{
    if placement_is_free(hb, *pos, obstacles) {
        return CorrectionReport::NotNeeded;
    }
    let base = *pos;
    let mut best = base;
    let mut i: u64 = 1;
    while i < MAX_FIX
        invariant
            1 <= i <= MAX_FIX,
            in_world(base),
            best == ring_search(hb, base, obstacles@, (i - 1) as nat),
            in_world(best),
        decreases MAX_FIX - i,
    {
        let d: i64 = (i as i64) * FIX_STEP;
        let c_up = Vec2 { x: base.x, y: base.y + d };
        let c_down = Vec2 { x: base.x, y: base.y - d };
        let c_right = Vec2 { x: base.x + d, y: base.y };
        let c_left = Vec2 { x: base.x - d, y: base.y };
        if placement_is_free(hb, c_up, obstacles) {
            best = c_up;
        }
        if placement_is_free(hb, c_down, obstacles) {
            best = c_down;
        }
        if placement_is_free(hb, c_right, obstacles) {
            best = c_right;
        }
        if placement_is_free(hb, c_left, obstacles) {
            best = c_left;
        }
        assert(best == ring_search(hb, base, obstacles@, i as nat));
        i += 1;
    }
    *pos = best;
    if best.x != base.x || best.y != base.y {
        CorrectionReport::Moved
    } else {
        CorrectionReport::Stuck
    }
}

} // verus!
