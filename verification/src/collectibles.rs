//! Collectibles: the pickup proximity check and the spawner's decisions.
//!
//! Pickups are sensor boxes: the overlap primitive detects them but they
//! never block movement. On overlap a sensor is removed from the world and
//! its position is reported, so a one-shot animation can play there; removal
//! on first hit guarantees at most one collection per sensor per tick. The
//! spawner cycles deterministically through a fixed list of locations and
//! rolls the kind of fruit at random.

use vstd::prelude::*;

use crate::hit_box::{check_hit, overlaps, ColliderKind, HitBox, Obstacle, Vec2};
use vstd::arithmetic::div_mod::{
    lemma_add_mod_noop, lemma_mod_self_0, lemma_small_mod,
};

verus! {

/// How many collectibles the world keeps alive at once.
pub const MAX_COLLECTIBLES: usize = 1;

/// Bound on the number of spawn locations the planner accepts.
pub const LOCATION_LIMIT: usize = 1_000_000;

/// The closed set of collectible kinds.
#[derive(Clone, Copy, Debug, PartialEq, Eq, Hash, Structural)]
pub enum CollectiblesType {
    Apple,
    Bananas,
    Cherries,
    Kiwi,
    Melon,
    Orange,
    Pineapple,
    Strawberry,
}

/// The kind a drawn index stands for; every index above the named ones falls
/// back to the last kind.
pub open spec fn index_collectible(i: u64) -> CollectiblesType {
    if i == 0 {
        CollectiblesType::Apple
    } else if i == 1 {
        CollectiblesType::Bananas
    } else if i == 2 {
        CollectiblesType::Cherries
    } else if i == 3 {
        CollectiblesType::Kiwi
    } else if i == 4 {
        CollectiblesType::Melon
    } else if i == 5 {
        CollectiblesType::Orange
    } else if i == 6 {
        CollectiblesType::Pineapple
    } else {
        CollectiblesType::Strawberry
    }
}

/// `index_collectible` as executable code.
pub fn collectible_from_index(i: u64) -> (t: CollectiblesType)
    ensures
        t == index_collectible(i),
{
    if i == 0 {
        CollectiblesType::Apple
    } else if i == 1 {
        CollectiblesType::Bananas
    } else if i == 2 {
        CollectiblesType::Cherries
    } else if i == 3 {
        CollectiblesType::Kiwi
    } else if i == 4 {
        CollectiblesType::Melon
    } else if i == 5 {
        CollectiblesType::Orange
    } else if i == 6 {
        CollectiblesType::Pineapple
    } else {
        CollectiblesType::Strawberry
    }
}

/// Relies on rand::random_range over `0..n`: the drawn value lies in that
/// (non-empty) range; nothing further is assumed of it.
#[verifier::external_body]
fn draw_below(n: u64) -> (r: u64)
    requires
        1 <= n,
    ensures
        r < n,
{
    rand::random_range(0..n)
}

/// Roll the kind of the next collectible. Every kind can come up; the
/// mapping from the drawn index is `index_collectible`.
pub fn random_collectible() -> (t: CollectiblesType) {
    collectible_from_index(draw_below(8))
}

/// The spawner's memory: the location index it used last.
#[derive(Clone, Copy, Debug, PartialEq, Eq, Structural)]
pub struct CollectiblesState {
    pub last_index: usize,
}

impl CollectiblesState {
    pub fn new() -> (s: Self)
        ensures
            s.last_index == 0,
    {
        Self { last_index: 0 }
    }
}

/// The fixed spawn locations of the map, in millis.
pub struct PossibleLocations(pub Vec<Vec2>);

impl PossibleLocations {
    pub fn new() -> (l: Self)
        ensures
            l.0@.len() == 3,
            l.0@[0] == (Vec2 { x: 100_000, y: 75_000 }),
            l.0@[1] == (Vec2 { x: -100_000i64, y: 55_000 }),
            l.0@[2] == (Vec2 { x: 40_000, y: 95_000 }),
    {
        let mut v: Vec<Vec2> = Vec::new();
        v.push(Vec2 { x: 100_000, y: 75_000 });
        v.push(Vec2 { x: -100_000, y: 55_000 });
        v.push(Vec2 { x: 40_000, y: 95_000 });
        Self(v)
    }
}

/// Plan this tick's spawns: one location index for each missing collectible
/// (up to the cap), cycling round the location list from the index used
/// last; the memory advances with each planned spawn.
pub fn plan_spawns(
    state: &mut CollectiblesState,
    existing: usize,
    max_collectibles: usize,
    n_locations: usize,
) -> (idxs: Vec<usize>)
    requires
        1 <= n_locations <= LOCATION_LIMIT,
        max_collectibles <= LOCATION_LIMIT,
        old(state).last_index < n_locations,
    ensures
        idxs@.len() == if existing < max_collectibles {
            max_collectibles - existing
        } else {
            0
        },
        forall|t: int|
            0 <= t < idxs@.len() ==> idxs@[t] == (old(state).last_index + 1 + t) % (
            n_locations as int),
        final(state).last_index == (old(state).last_index + idxs@.len()) % (n_locations as int),
        final(state).last_index < n_locations,
{
    let count: usize = if existing < max_collectibles {
        max_collectibles - existing
    } else {
        0
    };
    let ghost start: int = state.last_index as int;
    let ghost n: int = n_locations as int;
    proof {
        lemma_small_mod(state.last_index as nat, n_locations as nat);
    }
    let mut idxs: Vec<usize> = Vec::new();
    let mut k: usize = 0;
    while k < count
        invariant
            k <= count,
            count <= LOCATION_LIMIT,
            1 <= n_locations <= LOCATION_LIMIT,
            n == n_locations as int,
            0 <= start < n,
            idxs@.len() == k,
            state.last_index < n_locations,
            state.last_index == (start + k) % n,
            forall|t: int| 0 <= t < k ==> idxs@[t] == (start + 1 + t) % n,
        decreases count - k,
    {
        let next: usize = if state.last_index + 1 == n_locations {
            0
        } else {
            state.last_index + 1
        };
        proof {
            let a = start + k;
            lemma_add_mod_noop(a, 1, n);
            if n == 1 {
                lemma_small_mod(0, 1);
            } else {
                lemma_small_mod(1, n as nat);
                if state.last_index + 1 == n_locations {
                    lemma_mod_self_0(n);
                } else {
                    lemma_small_mod((state.last_index + 1) as nat, n as nat);
                }
            }
            assert(next == (start + k + 1) % n);
        }
        state.last_index = next;
        idxs.push(next);
        k += 1;
    }
    idxs
}

/// The obstacle is a sensor the body at `p` overlaps: a pickup fires.
pub open spec fn sensed(hb: HitBox, p: Vec2, o: Obstacle) -> bool {
    o.kind is Sensor && overlaps(hb, p, o.hit_box, o.pos)
}

/// The obstacle list after collection: the overlapped sensors are removed,
/// everything else stays, in order.
pub open spec fn remaining(hb: HitBox, p: Vec2, s: Seq<Obstacle>) -> Seq<Obstacle>
    decreases s.len(),
{
    if s.len() == 0 {
        s
    } else {
        let rest = remaining(hb, p, s.drop_last());
        if sensed(hb, p, s.last()) {
            rest
        } else {
            rest.push(s.last())
        }
    }
}

/// The positions of the collected sensors, in list order: one event each.
pub open spec fn picked(hb: HitBox, p: Vec2, s: Seq<Obstacle>) -> Seq<Vec2>
    decreases s.len(),
{
    if s.len() == 0 {
        Seq::empty()
    } else {
        let rest = picked(hb, p, s.drop_last());
        if sensed(hb, p, s.last()) {
            rest.push(s.last().pos)
        } else {
            rest
        }
    }
}

/// Collect every sensor the body overlaps: remove it from the world and
/// report its position, one event per removed sensor, in list order. Solid
/// obstacles and unsensed sensors are untouched.
pub fn collect(hb: HitBox, p: Vec2, obstacles: &mut Vec<Obstacle>) -> (events: Vec<Vec2>)
    ensures
        final(obstacles)@ == remaining(hb, p, old(obstacles)@),
        events@ == picked(hb, p, old(obstacles)@),
{
    let ghost orig: Seq<Obstacle> = obstacles@;
    let n = obstacles.len();
    let mut kept: Vec<Obstacle> = Vec::new();
    let mut events: Vec<Vec2> = Vec::new();
    let mut i: usize = 0;
    while i < n
        invariant
            i <= n,
            obstacles@ == orig,
            n == orig.len(),
            kept@ == remaining(hb, p, orig.take(i as int)),
            events@ == picked(hb, p, orig.take(i as int)),
        decreases n - i,
    {
        let o = obstacles[i];
        let is_sensor = match o.kind {
            ColliderKind::Sensor => true,
            ColliderKind::Solid => false,
        };
        proof {
            assert(orig.take(i + 1).drop_last() =~= orig.take(i as int));
            assert(orig.take(i + 1).last() == orig[i as int]);
        }
        if is_sensor && check_hit(hb, p, o.hit_box, o.pos) {
            events.push(o.pos);
        } else {
            kept.push(o);
        }
        i += 1;
    }
    proof {
        assert(orig.take(n as int) =~= orig);
    }
    *obstacles = kept;
    events
}

/// At most one collection per sensor: collecting again right after a
/// collection, with nothing moved, picks up nothing — every sensor the body
/// overlapped is already gone from the remaining list.
pub proof fn lemma_collect_at_most_once(hb: HitBox, p: Vec2, s: Seq<Obstacle>)
    ensures
        picked(hb, p, remaining(hb, p, s)).len() == 0,
    decreases s.len(),
{
    if s.len() > 0 {
        lemma_collect_at_most_once(hb, p, s.drop_last());
        let rest = remaining(hb, p, s.drop_last());
        if !sensed(hb, p, s.last()) {
            assert(remaining(hb, p, s) == rest.push(s.last()));
            assert(rest.push(s.last()).drop_last() =~= rest);
        }
    }
}

} // verus!
