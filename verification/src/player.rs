//! The controlled character: its state, the jump/fall state machine, and the
//! input-edge decisions that start a jump.
//!
//! A jump is a decaying impulse: a budget of upward travel, consumed tick by
//! tick at twice the fall rate while the jump button is held, and twice as
//! fast again once it is released (variable jump height). Collision always
//! wins over input: any tick whose vertical candidate overlaps a solid
//! obstacle cancels the active jump on the spot, whatever budget remains.
//! One double jump is available between two touches of the ground.

use vstd::prelude::*;

use crate::ground_detection::{ground_detection, quantize};
use crate::hit_box::{
    blocks, in_world, overlaps, placement_free, placement_is_free, HitBox, Obstacle, Vec2,
    WORLD_LIMIT,
};
use crate::movement::{DELTA_LIMIT, SPEED_LIMIT};
use crate::user_input::{intent_of, TickInput};
use vstd::arithmetic::mul::{
    lemma_mul_nonnegative, lemma_mul_strictly_positive, lemma_mul_upper_bound,
};

verus! {

/// Largest jump impulse budget accepted, in millis of upward travel.
pub const BUDGET_LIMIT: u64 = 1_000_000_000;

/// Grounded horizontal move speed of the character, in units per second.
pub const DEFAULT_MOVE_SPEED: u64 = 110;

/// Free-fall speed of the character, in units per second.
pub const DEFAULT_FALL_SPEED: u64 = 140;

/// Upward travel budget of a fresh jump, in millis (100 units).
pub const DEFAULT_JUMP_BUDGET: u64 = 100_000;

/// Stock floor baseline: the bottom edge of the playfield, in millis.
pub const DEFAULT_FLOOR_Y: i64 = -1_000_000_000_000;

/// The tunables of the movement core.
#[derive(Clone, Copy, Debug, PartialEq, Eq, Structural)]
pub struct PhysicsConfig {
    /// Horizontal speed while grounded, in units per second (halved airborne).
    pub move_speed: u64,
    /// Downward speed while falling, in units per second.
    pub fall_speed: u64,
    /// Upward travel budget of a fresh jump, in millis.
    pub jump_budget: u64,
    /// Baseline below which falling never carries the character, in millis.
    pub floor_y: i64,
}

impl PhysicsConfig {
    pub open spec fn wf(self) -> bool {
        &&& 1 <= self.move_speed <= SPEED_LIMIT
        &&& 1 <= self.fall_speed <= SPEED_LIMIT
        &&& 1 <= self.jump_budget <= BUDGET_LIMIT
        &&& -WORLD_LIMIT <= self.floor_y <= WORLD_LIMIT
    }

    /// The stock tuning of the game.
    pub fn standard() -> (c: Self)
        ensures
            c == (PhysicsConfig {
                move_speed: DEFAULT_MOVE_SPEED,
                fall_speed: DEFAULT_FALL_SPEED,
                jump_budget: DEFAULT_JUMP_BUDGET,
                floor_y: DEFAULT_FLOOR_Y,
            }),
            c.wf(),
    {
        PhysicsConfig {
            move_speed: DEFAULT_MOVE_SPEED,
            fall_speed: DEFAULT_FALL_SPEED,
            jump_budget: DEFAULT_JUMP_BUDGET,
            floor_y: DEFAULT_FLOOR_Y,
        }
    }
}

/// An active jump: the impulse budget still to be spent (always positive
/// while the jump lives) and whether this is the mid-air double jump.
#[derive(Clone, Copy, Debug, PartialEq, Eq, Structural)]
pub struct Jump {
    /// Remaining upward travel, in millis.
    pub budget: u64,
    pub is_double_jump: bool,
}

/// Everything the core tracks about the controlled character. Explicit state,
/// no hidden statics: a tick is a function of this plus the obstacle set.
#[derive(Clone, Copy, Debug, PartialEq, Eq)]
pub struct PlayerState {
    pub pos: Vec2,
    pub hit_box: HitBox,
    /// Last tick's verdict of the ground classifier.
    pub grounded: bool,
    /// The active jump, if one is in flight.
    pub jump: Option<Jump>,
    /// The double-jump token: granted when a grounded jump starts, consumed
    /// by the mid-air jump.
    pub double_jump_available: bool,
    /// Quantized vertical position retained by the ground classifier.
    pub last_ground_y: i64,
}

impl PlayerState {
    pub open spec fn wf(self) -> bool {
        &&& in_world(self.pos)
        &&& self.hit_box.wf()
        &&& match self.jump {
            Option::Some(j) => 1 <= j.budget <= BUDGET_LIMIT,
            Option::None => true,
        }
    }

    /// A freshly spawned character: resting, no jump in flight, no
    /// double-jump token, and the ground classifier primed with the spawn
    /// height so that standing still reads as grounded.
    pub fn new(pos: Vec2, hit_box: HitBox) -> (s: Self)
        requires
            in_world(pos),
            hit_box.wf(),
        ensures
            s == (PlayerState {
                pos,
                hit_box,
                grounded: true,
                jump: Option::<Jump>::None,
                double_jump_available: false,
                last_ground_y: quantize(pos.y as int) as i64,
            }),
            s.wf(),
    {
        let (_, q) = ground_detection(pos.y, 0);
        PlayerState {
            pos,
            hit_box,
            grounded: true,
            jump: None,
            double_jump_available: false,
            last_ground_y: q,
        }
    }
}

/// What a jump-button edge does to the state. A press while grounded with no
/// jump in flight starts a jump and grants the double-jump token; a press
/// while airborne with no jump in flight spends the token on a double jump;
/// any other press changes nothing.
pub open spec fn jump_decision(s: PlayerState, cfg: PhysicsConfig, just_pressed: bool) -> PlayerState {
    if just_pressed && s.jump is None && s.grounded {
        PlayerState {
            jump: Option::Some(Jump { budget: cfg.jump_budget, is_double_jump: false }),
            double_jump_available: true,
            ..s
        }
    } else if just_pressed && s.jump is None && !s.grounded && s.double_jump_available {
        PlayerState {
            jump: Option::Some(Jump { budget: cfg.jump_budget, is_double_jump: true }),
            double_jump_available: false,
            ..s
        }
    } else {
        s
    }
}

/// The upward travel one tick of an active jump attempts: time times twice
/// the fall speed, capped by the remaining budget (so the budget runs out
/// exactly, never past zero).
pub open spec fn jump_power(budget: u64, cfg: PhysicsConfig, delta_ms: u64) -> int {
    let two_step = 2 * (cfg.fall_speed * delta_ms);
    if two_step <= budget {
        two_step
    } else {
        budget as int
    }
}

/// The position one tick of an active jump aims at: straight up by `power`.
pub open spec fn jump_candidate(s: PlayerState, power: int) -> Vec2 {
    Vec2 { x: s.pos.x, y: (s.pos.y + power) as i64 }
}

/// The position one tick of free fall aims at: straight down by
/// `fall_speed * delta_ms` millis, but never below the floor baseline.
pub open spec fn fall_candidate(s: PlayerState, cfg: PhysicsConfig, delta_ms: u64) -> Vec2 {
    let dropped = s.pos.y - cfg.fall_speed * delta_ms;
    let cy = if dropped < cfg.floor_y {
        cfg.floor_y as int
    } else {
        dropped
    };
    Vec2 { x: s.pos.x, y: cy as i64 }
}

/// The vertical resolver's transition. With a jump in flight: a blocked
/// candidate cancels the jump without moving; a free candidate is committed
/// and the budget pays `power` (button held) or `2 * power` capped at the
/// budget (button released), the jump ending when the budget hits zero. With
/// no jump in flight, gravity applies: the fall candidate is committed iff
/// free, else the body holds its position (resting on a surface).
pub open spec fn vertical_step(
    s: PlayerState,
    cfg: PhysicsConfig,
    delta_ms: u64,
    jump_held: bool,
    obs: Seq<Obstacle>,
) -> PlayerState {
    match s.jump {
        Option::Some(j) => {
            let power = jump_power(j.budget, cfg, delta_ms);
            let cand = jump_candidate(s, power);
            if !placement_free(s.hit_box, cand, obs) {
                PlayerState { jump: Option::None, ..s }
            } else {
                let spent = if jump_held {
                    power
                } else if 2 * power <= j.budget {
                    2 * power
                } else {
                    j.budget as int
                };
                let rest = j.budget - spent;
                PlayerState {
                    pos: cand,
                    jump: if rest == 0 {
                        Option::None
                    } else {
                        Option::Some(Jump { budget: rest as u64, is_double_jump: j.is_double_jump })
                    },
                    ..s
                }
            }
        }
        Option::None => {
            let cand = fall_candidate(s, cfg, delta_ms);
            if !placement_free(s.hit_box, cand, obs) {
                s
            } else {
                PlayerState { pos: cand, ..s }
            }
        }
    }
}

/// Apply the jump-button decision and read off the horizontal intent.
pub fn player_move(state: &mut PlayerState, cfg: &PhysicsConfig, input: &TickInput) -> (intent:
    i64)
    requires
        old(state).wf(),
        cfg.wf(),
    ensures
        *final(state) == jump_decision(*old(state), *cfg, input.jump_just_pressed),
        final(state).wf(),
        intent == intent_of(*input),
        -1 <= intent <= 1,
{
    if input.jump_just_pressed {
        if state.jump.is_none() && state.grounded {
            state.jump = Some(Jump { budget: cfg.jump_budget, is_double_jump: false });
            state.double_jump_available = true;
        } else if state.jump.is_none() && !state.grounded && state.double_jump_available {
            state.jump = Some(Jump { budget: cfg.jump_budget, is_double_jump: true });
            state.double_jump_available = false;
        }
    }
    crate::user_input::horizontal_intent(input)
}

/// Apply one tick of the vertical resolver (`vertical_step`) to the state.
pub fn vertical_update(
    state: &mut PlayerState,
    cfg: &PhysicsConfig,
    delta_ms: u64,
    jump_held: bool,
    obstacles: &Vec<Obstacle>,
)
    requires
        old(state).wf(),
        cfg.wf(),
        delta_ms <= DELTA_LIMIT,
    ensures
        *final(state) == vertical_step(*old(state), *cfg, delta_ms, jump_held, obstacles@),
        final(state).wf(),
{
    proof {
        lemma_mul_nonnegative(cfg.fall_speed as int, delta_ms as int);
        lemma_mul_upper_bound(
            cfg.fall_speed as int,
            SPEED_LIMIT as int,
            delta_ms as int,
            DELTA_LIMIT as int,
        );
    }
    match state.jump {
        Some(j) => {
            let two_step: u64 = 2 * (cfg.fall_speed * delta_ms);
            let power: u64 = if two_step <= j.budget {
                two_step
            } else {
                j.budget
            };
            let cand = Vec2 { x: state.pos.x, y: state.pos.y + power as i64 };
            if !placement_is_free(state.hit_box, cand, obstacles) {
                state.jump = None;
            } else {
                let spent: u64 = if jump_held {
                    power
                } else if 2 * power <= j.budget {
                    2 * power
                } else {
                    j.budget
                };
                let rest: u64 = j.budget - spent;
                state.pos = cand;
                state.jump = if rest == 0 {
                    None
                } else {
                    Some(Jump { budget: rest, is_double_jump: j.is_double_jump })
                };
            }
        },
        None => {
            let drop_amt: u64 = cfg.fall_speed * delta_ms;
            let dropped: i64 = state.pos.y - drop_amt as i64;
            let cy: i64 = if dropped < cfg.floor_y {
                cfg.floor_y
            } else {
                dropped
            };
            let cand = Vec2 { x: state.pos.x, y: cy };
            if placement_is_free(state.hit_box, cand, obstacles) {
                state.pos = cand;
            }
        },
    }
}

/// Jump budget monotonicity: over a tick of an uninterrupted jump (candidate
/// clear, button held, time passing), the budget strictly decreases, reaches
/// exactly zero (never past it), and the jump state ends exactly when it does.
pub proof fn lemma_jump_budget_monotonic(
    s: PlayerState,
    j: Jump,
    cfg: PhysicsConfig,
    delta_ms: u64,
    obs: Seq<Obstacle>,
)
    requires
        s.wf(),
        cfg.wf(),
        1 <= delta_ms <= DELTA_LIMIT,
        s.jump == Option::Some(j),
        placement_free(s.hit_box, jump_candidate(s, jump_power(j.budget, cfg, delta_ms)), obs),
    ensures
        ({
            let s2 = vertical_step(s, cfg, delta_ms, true, obs);
            let rest = j.budget - jump_power(j.budget, cfg, delta_ms);
            &&& 0 <= rest < j.budget
            &&& (rest > 0 ==> s2.jump == Option::Some(
                Jump { budget: rest as u64, is_double_jump: j.is_double_jump },
            ))
            &&& (rest == 0 ==> s2.jump is None)
        }),
{
    lemma_mul_strictly_positive(cfg.fall_speed as int, delta_ms as int);
}

/// Collision always cancels a jump: when the vertical candidate of an active
/// jump is not free, the post-tick state has no jump and has not moved,
/// whatever budget remained and whether or not the button was held.
pub proof fn lemma_collision_cancels_jump(
    s: PlayerState,
    j: Jump,
    cfg: PhysicsConfig,
    delta_ms: u64,
    jump_held: bool,
    obs: Seq<Obstacle>,
)
    requires
        s.jump == Option::Some(j),
        !placement_free(s.hit_box, jump_candidate(s, jump_power(j.budget, cfg, delta_ms)), obs),
    ensures
        vertical_step(s, cfg, delta_ms, jump_held, obs).jump is None,
        vertical_step(s, cfg, delta_ms, jump_held, obs).pos == s.pos,
{
}

/// A jump press in mid-air without the double-jump token starts nothing: the
/// third jump is rejected.
pub proof fn lemma_midair_jump_needs_token(s: PlayerState, cfg: PhysicsConfig)
    requires
        !s.grounded,
        !s.double_jump_available,
    ensures
        jump_decision(s, cfg, true) == s,
{
}

/// The mid-air jump consumes the double-jump token as it starts.
pub proof fn lemma_double_jump_consumes_token(s: PlayerState, cfg: PhysicsConfig)
    requires
        s.jump is None,
        !s.grounded,
        s.double_jump_available,
    ensures
        jump_decision(s, cfg, true) == (PlayerState {
            jump: Option::Some(Jump { budget: cfg.jump_budget, is_double_jump: true }),
            double_jump_available: false,
            ..s
        }),
{
}

/// The double-jump token is only ever granted by a grounded jump start: if it
/// is present after the jump decision, it was already present before, or this
/// very press started a jump from the ground.
pub proof fn lemma_token_granted_only_on_ground(
    s: PlayerState,
    cfg: PhysicsConfig,
    just_pressed: bool,
)
    ensures
        jump_decision(s, cfg, just_pressed).double_jump_available ==> s.double_jump_available || (
        just_pressed && s.grounded && s.jump is None),
{
}

/// The vertical resolver never touches the double-jump token.
pub proof fn lemma_vertical_preserves_token(
    s: PlayerState,
    cfg: PhysicsConfig,
    delta_ms: u64,
    jump_held: bool,
    obs: Seq<Obstacle>,
)
    ensures
        vertical_step(s, cfg, delta_ms, jump_held, obs).double_jump_available
            == s.double_jump_available,
{
}

/// No tunneling through a thick floor: when a solid obstacle's vertical
/// half-extent is at least one tick's fall `fall_speed * delta_ms`, a falling
/// body that starts above it, separated or exactly touching, can neither end
/// up overlapping it nor come out below it after a single vertical resolve.
pub proof fn lemma_no_fall_tunnel(
    s: PlayerState,
    cfg: PhysicsConfig,
    delta_ms: u64,
    jump_held: bool,
    obs: Seq<Obstacle>,
    o: Obstacle,
)
    requires
        s.wf(),
        cfg.wf(),
        delta_ms <= DELTA_LIMIT,
        s.jump is None,
        o.hit_box.wf(),
        obs.contains(o),
        o.kind is Solid,
        o.hit_box.half_y >= cfg.fall_speed * delta_ms,
        o.pos.y - s.pos.y <= -(s.hit_box.half_y + o.hit_box.half_y),
    ensures
        ({
            let r = vertical_step(s, cfg, delta_ms, jump_held, obs).pos;
            &&& !overlaps(s.hit_box, r, o.hit_box, o.pos)
            &&& r.y - o.pos.y > -(s.hit_box.half_y + o.hit_box.half_y)
        }),
{
    lemma_mul_nonnegative(cfg.fall_speed as int, delta_ms as int);
    lemma_mul_upper_bound(
        cfg.fall_speed as int,
        SPEED_LIMIT as int,
        delta_ms as int,
        DELTA_LIMIT as int,
    );
    let cand = fall_candidate(s, cfg, delta_ms);
    assert(cand.y >= s.pos.y - cfg.fall_speed * delta_ms);
    if placement_free(s.hit_box, cand, obs) {
        let i = choose|i: int| 0 <= i < obs.len() && obs[i] == o;
        assert(!blocks(s.hit_box, cand, obs[i]));
    }
}

/// No tunneling through a thick ceiling: when a solid obstacle's vertical
/// half-extent is at least one tick's largest rise `2 * fall_speed *
/// delta_ms`, a jumping body that starts below it, separated or exactly
/// touching, can neither end up overlapping it nor come out above it after a
/// single vertical resolve (a blocked rise cancels the jump on the spot
/// instead).
pub proof fn lemma_no_rise_tunnel(
    s: PlayerState,
    j: Jump,
    cfg: PhysicsConfig,
    delta_ms: u64,
    jump_held: bool,
    obs: Seq<Obstacle>,
    o: Obstacle,
)
    requires
        s.wf(),
        cfg.wf(),
        delta_ms <= DELTA_LIMIT,
        s.jump == Option::Some(j),
        o.hit_box.wf(),
        obs.contains(o),
        o.kind is Solid,
        o.hit_box.half_y >= 2 * (cfg.fall_speed * delta_ms),
        o.pos.y - s.pos.y >= s.hit_box.half_y + o.hit_box.half_y,
    ensures
        ({
            let r = vertical_step(s, cfg, delta_ms, jump_held, obs).pos;
            &&& !overlaps(s.hit_box, r, o.hit_box, o.pos)
            &&& r.y - o.pos.y < s.hit_box.half_y + o.hit_box.half_y
        }),
{
    lemma_mul_nonnegative(cfg.fall_speed as int, delta_ms as int);
    lemma_mul_upper_bound(
        cfg.fall_speed as int,
        SPEED_LIMIT as int,
        delta_ms as int,
        DELTA_LIMIT as int,
    );
    let power = jump_power(j.budget, cfg, delta_ms);
    let cand = jump_candidate(s, power);
    assert(cand.y <= s.pos.y + 2 * (cfg.fall_speed * delta_ms));
    if placement_free(s.hit_box, cand, obs) {
        let i = choose|i: int| 0 <= i < obs.len() && obs[i] == o;
        assert(!blocks(s.hit_box, cand, obs[i]));
    }
}

} // verus!
