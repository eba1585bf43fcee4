//! Horizontal resolver, and the generic velocity integrator.
//!
//! One tick's horizontal move is all-or-nothing: the candidate position is
//! tested against every solid obstacle, and a blocked move is rejected whole,
//! with no sliding and no partial advance. High speed against a low update
//! rate can therefore tunnel past a thin obstacle; `lemma_no_horizontal_tunnel`
//! states the wide-obstacle condition under which that cannot happen.

use vstd::prelude::*;

use crate::hit_box::{
    blocks, in_world, overlaps, placement_free, placement_is_free, HitBox, Obstacle, Vec2,
};
use vstd::arithmetic::div_mod::{lemma_div_nonincreasing, lemma_div_pos_is_pos};
use vstd::arithmetic::mul::{lemma_mul_nonnegative, lemma_mul_upper_bound};

verus! {

/// Largest speed the resolvers accept, in world units per second.
pub const SPEED_LIMIT: u64 = 1_000_000;

/// Largest time delta the resolvers accept, in milliseconds.
pub const DELTA_LIMIT: u64 = 100_000;

/// Bound on the magnitude of a velocity or acceleration component, in millis
/// per second (respectively per second squared).
pub const VEL_LIMIT: i64 = 1_000_000_000_000_000;

/// Bound on an acceleration component, in millis per second squared.
pub const ACCEL_LIMIT: i64 = 1_000_000_000;

/// A generic 2D velocity, in millis per second.
#[derive(Clone, Copy, Debug, PartialEq, Eq, Structural)]
pub struct Velocity {
    pub value: Vec2,
}

impl Velocity {
    pub fn new(value: Vec2) -> (v: Self)
        ensures
            v.value == value,
    {
        Self { value }
    }
}

/// A generic 2D acceleration, in millis per second squared.
#[derive(Clone, Copy, Debug, PartialEq, Eq, Structural)]
pub struct Acceleration {
    pub value: Vec2,
}

impl Acceleration {
    pub fn new(value: Vec2) -> (a: Self)
        ensures
            a.value == value,
    {
        Self { value }
    }
}

/// The movement components a generic moving object carries.
#[derive(Clone, Copy, Debug, PartialEq, Eq, Structural)]
pub struct MovingObjectBundle {
    pub velocity: Velocity,
    pub acceleration: Acceleration,
}

/// Velocity gained from acceleration `a` (millis per second squared) over
/// `delta_ms` milliseconds, truncated toward zero.
pub open spec fn accel_gain(a: i64, delta_ms: u64) -> int {
    if a >= 0 {
        (a * delta_ms) / 1000
    } else {
        -(((-a) * delta_ms) / 1000)
    }
}

/// Integrate acceleration into velocity over one tick.
pub fn update_velocity(v: &mut Velocity, a: &Acceleration, delta_ms: u64)
    requires
        delta_ms <= DELTA_LIMIT,
        -VEL_LIMIT <= old(v).value.x <= VEL_LIMIT,
        -VEL_LIMIT <= old(v).value.y <= VEL_LIMIT,
        -ACCEL_LIMIT <= a.value.x <= ACCEL_LIMIT,
        -ACCEL_LIMIT <= a.value.y <= ACCEL_LIMIT,
    ensures
        final(v).value.x == old(v).value.x + accel_gain(a.value.x, delta_ms),
        final(v).value.y == old(v).value.y + accel_gain(a.value.y, delta_ms),
{
    let gx = accel_gain_exec(a.value.x, delta_ms);
    let gy = accel_gain_exec(a.value.y, delta_ms);
    v.value.x = v.value.x + gx;
    v.value.y = v.value.y + gy;
}

/// `accel_gain` as executable code.
fn accel_gain_exec(a: i64, delta_ms: u64) -> (g: i64)
    requires
        delta_ms <= DELTA_LIMIT,
        -ACCEL_LIMIT <= a <= ACCEL_LIMIT,
    ensures
        g == accel_gain(a, delta_ms),
        -ACCEL_LIMIT * DELTA_LIMIT <= g <= ACCEL_LIMIT * DELTA_LIMIT,
{
    if a >= 0 {
        proof {
            lemma_mul_nonnegative(a as int, delta_ms as int);
            lemma_mul_upper_bound(a as int, ACCEL_LIMIT as int, delta_ms as int, DELTA_LIMIT as int);
            lemma_div_nonincreasing(a as int * delta_ms as int, 1000);
            lemma_div_pos_is_pos(a as int * delta_ms as int, 1000);
        }
        let m = (a as u64) * delta_ms;
        (m / 1000) as i64
    } else {
        proof {
            lemma_mul_nonnegative(-a as int, delta_ms as int);
            lemma_mul_upper_bound(-a as int, ACCEL_LIMIT as int, delta_ms as int, DELTA_LIMIT as int);
            lemma_div_nonincreasing(-a as int * delta_ms as int, 1000);
            lemma_div_pos_is_pos(-a as int * delta_ms as int, 1000);
        }
        let m = ((-a) as u64) * delta_ms;
        -((m / 1000) as i64)
    }
}

/// One tick's horizontal displacement, in millis: the intent sign times
/// `speed * delta_ms`, halved (truncated) while airborne, so that aerial
/// control is heavier than grounded control.
pub open spec fn horizontal_step(intent: int, speed: u64, delta_ms: u64, grounded: bool) -> int {
    let mag = if grounded {
        speed * delta_ms
    } else {
        (speed * delta_ms) / 2
    };
    intent * mag
}

/// The position one tick's horizontal move aims at.
pub open spec fn horizontal_candidate(
    p: Vec2,
    intent: int,
    speed: u64,
    delta_ms: u64,
    grounded: bool,
) -> Vec2 {
    Vec2 { x: (p.x + horizontal_step(intent, speed, delta_ms, grounded)) as i64, y: p.y }
}

/// Where the horizontal resolver leaves the body: at the candidate when the
/// candidate placement is free, otherwise exactly where it was.
pub open spec fn horizontal_result(
    p: Vec2,
    hb: HitBox,
    intent: int,
    speed: u64,
    delta_ms: u64,
    grounded: bool,
    obs: Seq<Obstacle>,
) -> Vec2 {
    let cand = horizontal_candidate(p, intent, speed, delta_ms, grounded);
    if placement_free(hb, cand, obs) {
        cand
    } else {
        p
    }
}

/// Apply one tick of horizontal movement to the controlled body's position.
/// The candidate is current position plus `horizontal_step`; it is committed
/// iff it overlaps no solid obstacle and stays on the playfield, else the
/// position is left unchanged (full stop, no partial advance).
pub fn update_player_position(
    pos: &mut Vec2,
    hb: HitBox,
    intent: i64,
    speed: u64,
    delta_ms: u64,
    grounded: bool,
    obstacles: &Vec<Obstacle>,
) -> (moved: bool)
    requires
        -1 <= intent <= 1,
        speed <= SPEED_LIMIT,
        delta_ms <= DELTA_LIMIT,
        in_world(*old(pos)),
    ensures
        moved == placement_free(
            hb,
            horizontal_candidate(*old(pos), intent as int, speed, delta_ms, grounded),
            obstacles@,
        ),
        *final(pos) == horizontal_result(
            *old(pos),
            hb,
            intent as int,
            speed,
            delta_ms,
            grounded,
            obstacles@,
        ),
        in_world(*final(pos)),
{
    proof {
        lemma_mul_nonnegative(speed as int, delta_ms as int);
        lemma_mul_upper_bound(speed as int, SPEED_LIMIT as int, delta_ms as int, DELTA_LIMIT as int);
        lemma_div_nonincreasing(speed as int * delta_ms as int, 2);
        lemma_div_pos_is_pos(speed as int * delta_ms as int, 2);
    }
    let full: u64 = speed * delta_ms;
    let mag: u64 = if grounded {
        full
    } else {
        full / 2
    };
    let dx: i64 = if intent > 0 {
        mag as i64
    } else if intent < 0 {
        -(mag as i64)
    } else {
        0
    };
    proof {
        let magi = if grounded {
            speed as int * delta_ms as int
        } else {
            (speed as int * delta_ms as int) / 2
        };
        if intent == 1 {
            assert(intent as int * magi == magi) by (nonlinear_arith)
                requires
                    intent == 1,
            ;
        } else if intent == -1 {
            assert(intent as int * magi == -magi) by (nonlinear_arith)
                requires
                    intent == -1,
            ;
        } else {
            assert(intent as int * magi == 0) by (nonlinear_arith)
                requires
                    intent == 0,
            ;
        }
    }
    let cand = Vec2 { x: pos.x + dx, y: pos.y };
    assert(cand == horizontal_candidate(*old(pos), intent as int, speed, delta_ms, grounded));
    if placement_is_free(hb, cand, obstacles) {
        *pos = cand;
        true
    } else {
        false
    }
}

/// No tunneling past a wide obstacle: when a solid obstacle's horizontal
/// half-extent is at least one tick's full travel `speed * delta_ms`, a body
/// that starts on the left of it, separated or exactly touching, can neither
/// end up overlapping it nor come out on its right after a single horizontal
/// resolve. (Narrower obstacles can be skipped whole; that is the documented
/// limitation of all-or-nothing resolution.)
pub proof fn lemma_no_horizontal_tunnel(
    p: Vec2,
    hb: HitBox,
    intent: int,
    speed: u64,
    delta_ms: u64,
    grounded: bool,
    obs: Seq<Obstacle>,
    o: Obstacle,
)
    requires
        -1 <= intent <= 1,
        speed <= SPEED_LIMIT,
        delta_ms <= DELTA_LIMIT,
        in_world(p),
        hb.wf(),
        o.hit_box.wf(),
        obs.contains(o),
        o.kind is Solid,
        o.hit_box.half_x >= speed * delta_ms,
        p.x - o.pos.x <= -(hb.half_x + o.hit_box.half_x),
    ensures
        ({
            let r = horizontal_result(p, hb, intent, speed, delta_ms, grounded, obs);
            &&& !overlaps(hb, r, o.hit_box, o.pos)
            &&& r.x - o.pos.x < hb.half_x + o.hit_box.half_x
        }),
{
    lemma_mul_nonnegative(speed as int, delta_ms as int);
    lemma_mul_upper_bound(speed as int, SPEED_LIMIT as int, delta_ms as int, DELTA_LIMIT as int);
    lemma_div_nonincreasing(speed as int * delta_ms as int, 2);
    lemma_div_pos_is_pos(speed as int * delta_ms as int, 2);
    let magi = if grounded {
        speed as int * delta_ms as int
    } else {
        (speed as int * delta_ms as int) / 2
    };
    let step = horizontal_step(intent, speed, delta_ms, grounded);
    if intent == 1 {
        assert(step == magi) by (nonlinear_arith)
            requires
                intent == 1,
                step == intent * magi,
        ;
    } else if intent == -1 {
        assert(step == -magi) by (nonlinear_arith)
            requires
                intent == -1,
                step == intent * magi,
        ;
    } else {
        assert(step == 0) by (nonlinear_arith)
            requires
                intent == 0,
                step == intent * magi,
        ;
    }
    assert(-(speed * delta_ms) <= step <= speed * delta_ms);
    let cand = horizontal_candidate(p, intent, speed, delta_ms, grounded);
    assert(cand.x == p.x + step);
    if placement_free(hb, cand, obs) {
        let i = choose|i: int| 0 <= i < obs.len() && obs[i] == o;
        assert(!blocks(hb, cand, obs[i]));
    }
}

} // verus!
