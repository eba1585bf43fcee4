//! Axis-aligned box overlap: the one collision primitive of the core.
//!
//! A collision shape is a center position plus a half-extent, never rotated.
//! Two boxes overlap iff their extents intersect strictly on both axes;
//! exactly abutting boxes (gap zero) do not count as overlapping, so a
//! character can rest exactly on a surface's edge.

use vstd::prelude::*;

verus! {

/// Bound of the playfield: coordinates of every tracked position stay within
/// `[-WORLD_LIMIT, WORLD_LIMIT]` millis (thousandths of a unit) on each axis.
pub const WORLD_LIMIT: i64 = 1_000_000_000_000;

/// Largest half-extent a collision box may have, in millis.
pub const EXTENT_LIMIT: i64 = 1_000_000_000;

/// A 2D point or displacement in millis (thousandths of a world unit).
#[derive(Clone, Copy, Debug, PartialEq, Eq, Structural)]
pub struct Vec2 {
    pub x: i64,
    pub y: i64,
}

/// A collision box: the half-extent of an axis-aligned rectangle whose center
/// is the owning entity's position. Both components are in millis.
#[derive(Clone, Copy, Debug, PartialEq, Eq, Structural)]
pub struct HitBox {
    pub half_x: i64,
    pub half_y: i64,
}

/// How a collision box takes part in the simulation: solid boxes block
/// movement, sensor boxes only detect overlap (pickups).
#[derive(Clone, Copy, Debug, PartialEq, Eq, Structural)]
pub enum ColliderKind {
    Solid,
    Sensor,
}

/// One non-controlled entity of the world: its box, its center, and whether
/// it blocks movement or only senses.
#[derive(Clone, Copy, Debug, PartialEq, Eq, Structural)]
pub struct Obstacle {
    pub hit_box: HitBox,
    pub pos: Vec2,
    pub kind: ColliderKind,
}

impl HitBox {
    /// A collision box is well formed when both half-extents are positive and
    /// within the representable bound.
    pub open spec fn wf(self) -> bool {
        &&& 0 < self.half_x <= EXTENT_LIMIT
        &&& 0 < self.half_y <= EXTENT_LIMIT
    }
}

/// The point lies on the bounded playfield.
pub open spec fn in_world(p: Vec2) -> bool {
    &&& -WORLD_LIMIT <= p.x <= WORLD_LIMIT
    &&& -WORLD_LIMIT <= p.y <= WORLD_LIMIT
}

/// Strict axis-aligned overlap of box `a` centered at `a_pos` with box `b`
/// centered at `b_pos`: the center distance is below the half-extent sum on
/// both axes. Touching exactly (distance equal to the sum) is no overlap.
pub open spec fn overlaps(a: HitBox, a_pos: Vec2, b: HitBox, b_pos: Vec2) -> bool {
    &&& a_pos.x - b_pos.x < a.half_x + b.half_x
    &&& b_pos.x - a_pos.x < a.half_x + b.half_x
    &&& a_pos.y - b_pos.y < a.half_y + b.half_y
    &&& b_pos.y - a_pos.y < a.half_y + b.half_y
}

/// The obstacle blocks a body with box `hb` centered at `p`: it is solid and
/// its box overlaps the body's.
pub open spec fn blocks(hb: HitBox, p: Vec2, o: Obstacle) -> bool {
    o.kind is Solid && overlaps(hb, p, o.hit_box, o.pos)
}

/// Some solid obstacle of the set overlaps a body with box `hb` centered at `p`.
pub open spec fn hits_solid(hb: HitBox, p: Vec2, obs: Seq<Obstacle>) -> bool {
    exists|i: int| 0 <= i < obs.len() && blocks(hb, p, obs[i])
}

/// The body may stand at `p`: the point is on the playfield and no solid
/// obstacle overlaps it there. The playfield edge rejects a candidate exactly
/// as a solid does.
pub open spec fn placement_free(hb: HitBox, p: Vec2, obs: Seq<Obstacle>) -> bool {
    in_world(p) && !hits_solid(hb, p, obs)
}

/// Every obstacle of the set has a well-formed box and sits on the playfield.
pub open spec fn obstacles_wf(obs: Seq<Obstacle>) -> bool {
    forall|i: int| 0 <= i < obs.len() ==> (#[trigger] obs[i]).hit_box.wf() && in_world(obs[i].pos)
}

/// Do the two boxes overlap. Pure; total over all representable inputs (the
/// comparison is carried out in 128-bit arithmetic).
pub fn check_hit(a: HitBox, a_pos: Vec2, b: HitBox, b_pos: Vec2) -> (r: bool)
    ensures
        r == overlaps(a, a_pos, b, b_pos),
{
    let dx: i128 = a_pos.x as i128 - b_pos.x as i128;
    let sx: i128 = a.half_x as i128 + b.half_x as i128;
    let dy: i128 = a_pos.y as i128 - b_pos.y as i128;
    let sy: i128 = a.half_y as i128 + b.half_y as i128;
    dx < sx && -dx < sx && dy < sy && -dy < sy
}

/// True iff no solid obstacle of the set overlaps a body with box `hb`
/// centered at `p`. Sensors never block.
pub fn no_collision(hb: HitBox, p: Vec2, obstacles: &Vec<Obstacle>) -> (r: bool)
    ensures
        r == !hits_solid(hb, p, obstacles@),
{
    let n = obstacles.len();
    let mut i: usize = 0;
    while i < n
        invariant
            i <= n,
            n == obstacles@.len(),
            forall|j: int| 0 <= j < i ==> !blocks(hb, p, obstacles@[j]),
        decreases n - i,
    {
        let o = obstacles[i];
        let solid = match o.kind {
            ColliderKind::Solid => true,
            ColliderKind::Sensor => false,
        };
        if solid && check_hit(hb, p, o.hit_box, o.pos) {
            assert(blocks(hb, p, obstacles@[i as int]));
            return false;
        }
        i += 1;
    }
    true
}

/// `placement_free` as an executable test.
pub fn placement_is_free(hb: HitBox, p: Vec2, obstacles: &Vec<Obstacle>) -> (r: bool)
    ensures
        r == placement_free(hb, p, obstacles@),
{
    let inside = -WORLD_LIMIT <= p.x && p.x <= WORLD_LIMIT && -WORLD_LIMIT <= p.y && p.y
        <= WORLD_LIMIT;
    inside && no_collision(hb, p, obstacles)
}

/// Overlap is symmetric: testing `a` against `b` and `b` against `a` agree,
/// for every pair of boxes and positions.
pub proof fn lemma_overlaps_symmetric(a: HitBox, a_pos: Vec2, b: HitBox, b_pos: Vec2)
    ensures
        overlaps(a, a_pos, b, b_pos) == overlaps(b, b_pos, a, a_pos),
{
}

/// Two boxes that exactly abut on some axis (gap zero: the center distance
/// equals the half-extent sum) do not overlap.
pub proof fn lemma_touching_not_overlapping(a: HitBox, a_pos: Vec2, b: HitBox, b_pos: Vec2)
    requires
        a_pos.x - b_pos.x == a.half_x + b.half_x || b_pos.x - a_pos.x == a.half_x + b.half_x
            || a_pos.y - b_pos.y == a.half_y + b.half_y || b_pos.y - a_pos.y == a.half_y
            + b.half_y,
    ensures
        !overlaps(a, a_pos, b, b_pos),
{
}

} // verus!
