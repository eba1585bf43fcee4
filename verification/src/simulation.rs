//! The tick pipeline: one simulation step in the fixed resolver order.
//!
//! Within a tick the order is a correctness contract of its own: the jump
//! decision reads the input edge, the horizontal resolver moves first, the
//! vertical resolver second, the ground classifier observes the result of
//! both, and the stuck-state corrector — on its own slower cadence — runs
//! last and may override the resolvers' output. The pickup check
//! (`collectibles::collect`) is independent of the character's movement and
//! runs against the post-movement position. The obstacle set is read-only
//! for the whole tick; there is exactly one controlled character.

use vstd::prelude::*;

use crate::collision_fix::{
    corrected_position, correction_report, fix_collision, CorrectionReport,
};
use crate::ground_detection::{ground_detection, quantize};
use crate::hit_box::Obstacle;
use crate::movement::{horizontal_result, update_player_position, DELTA_LIMIT};
use crate::player::{
    jump_decision, lemma_token_granted_only_on_ground, lemma_vertical_preserves_token,
    vertical_step, vertical_update, player_move, PhysicsConfig, PlayerState,
};
use crate::player_animation::{animation_for, change_animation, Animation};
use crate::timer::IntervalTimer;
use crate::user_input::{intent_of, TickInput};

verus! {

/// What a tick reports back to the collaborators around the core: the visual
/// to show, and the corrector's report on the ticks where it ran.
#[derive(Clone, Copy, Debug, PartialEq, Eq)]
pub struct TickOutcome {
    pub animation: Animation,
    pub correction: Option<CorrectionReport>,
}

/// Whether the state's jump in flight is the double jump.
pub open spec fn double_flag(s: PlayerState) -> bool {
    match s.jump {
        Option::Some(j) => j.is_double_jump,
        Option::None => false,
    }
}

/// The ground classifier's pass over the post-movement state.
pub open spec fn ground_update(s: PlayerState) -> PlayerState {
    PlayerState {
        grounded: quantize(s.pos.y as int) == s.last_ground_y,
        last_ground_y: quantize(s.pos.y as int) as i64,
        ..s
    }
}

/// The state after the input decision and the horizontal resolver.
pub open spec fn tick_after_horizontal(
    s: PlayerState,
    cfg: PhysicsConfig,
    input: TickInput,
    delta_ms: u64,
    obs: Seq<Obstacle>,
) -> PlayerState {
    let s1 = jump_decision(s, cfg, input.jump_just_pressed);
    PlayerState {
        pos: horizontal_result(
            s1.pos,
            s1.hit_box,
            intent_of(input),
            cfg.move_speed,
            delta_ms,
            s1.grounded,
            obs,
        ),
        ..s1
    }
}

/// The state after input decision, horizontal and vertical resolvers.
pub open spec fn tick_after_vertical(
    s: PlayerState,
    cfg: PhysicsConfig,
    input: TickInput,
    delta_ms: u64,
    obs: Seq<Obstacle>,
) -> PlayerState {
    vertical_step(
        tick_after_horizontal(s, cfg, input, delta_ms, obs),
        cfg,
        delta_ms,
        input.jump_held,
        obs,
    )
}

/// The state a whole tick produces: resolvers, ground reclassification, and
/// — on the ticks where the corrector's cadence fires — the corrector.
pub open spec fn tick_result(
    s: PlayerState,
    cfg: PhysicsConfig,
    input: TickInput,
    delta_ms: u64,
    obs: Seq<Obstacle>,
    run_fix: bool,
) -> PlayerState {
    let s4 = ground_update(tick_after_vertical(s, cfg, input, delta_ms, obs));
    if run_fix {
        PlayerState { pos: corrected_position(s4.hit_box, s4.pos, obs), ..s4 }
    } else {
        s4
    }
}

/// Run one simulation tick on the controlled character. The new state is
/// exactly `tick_result`, with the corrector running iff the interval timer
/// fires this tick; the outcome carries the visual chosen from this tick's
/// vertical movement and intent, and the corrector's report when it ran.
pub fn player_tick(
    state: &mut PlayerState,
    cfg: &PhysicsConfig,
    input: &TickInput,
    delta_ms: u64,
    obstacles: &Vec<Obstacle>,
    fix_timer: &mut IntervalTimer,
) -> (out: TickOutcome)
    requires
        old(state).wf(),
        cfg.wf(),
        delta_ms <= DELTA_LIMIT,
        old(fix_timer).wf(),
    ensures
        ({
            let run_fix = old(fix_timer).elapsed_ms + delta_ms >= old(fix_timer).period_ms;
            let s2 = tick_after_horizontal(*old(state), *cfg, *input, delta_ms, obstacles@);
            let s3 = tick_after_vertical(*old(state), *cfg, *input, delta_ms, obstacles@);
            &&& *final(state) == tick_result(
                *old(state),
                *cfg,
                *input,
                delta_ms,
                obstacles@,
                run_fix,
            )
            &&& final(state).wf()
            &&& final(fix_timer).period_ms == old(fix_timer).period_ms
            &&& final(fix_timer).elapsed_ms == (old(fix_timer).elapsed_ms + delta_ms) % (
            old(fix_timer).period_ms as int)
            &&& final(fix_timer).wf()
            &&& out.animation == animation_for(
                s3.pos.y - s2.pos.y,
                intent_of(*input),
                double_flag(s3),
            )
            &&& out.correction == if run_fix {
                Option::Some(
                    correction_report(
                        ground_update(s3).hit_box,
                        ground_update(s3).pos,
                        obstacles@,
                    ),
                )
            } else {
                Option::<CorrectionReport>::None
            }
        }),
{
    let intent = player_move(state, cfg, input);
    let mut p = state.pos;
    update_player_position(
        &mut p,
        state.hit_box,
        intent,
        cfg.move_speed,
        delta_ms,
        state.grounded,
        obstacles,
    );
    state.pos = p;
    let y_before = state.pos.y;
    vertical_update(state, cfg, delta_ms, input.jump_held, obstacles);
    let dy = state.pos.y - y_before;
    let is_double = match state.jump {
        Some(j) => j.is_double_jump,
        None => false,
    };
    let animation = change_animation(dy, intent, is_double);
    let (on_ground, q) = ground_detection(state.pos.y, state.last_ground_y);
    state.grounded = on_ground;
    state.last_ground_y = q;
    let fired = fix_timer.tick(delta_ms);
    let correction: Option<CorrectionReport> = if fired {
        let mut pp = state.pos;
        let report = fix_collision(&mut pp, state.hit_box, obstacles);
        state.pos = pp;
        Some(report)
    } else {
        None
    };
    TickOutcome { animation, correction }
}

/// Double-jump accounting over a whole tick: if the token is present after
/// the tick, it was present before, or this very tick started a jump from
/// the ground. So between leaving the ground and touching it again, at most
/// the one token granted at takeoff can be spent: a third mid-air jump has
/// nothing left to draw on.
pub proof fn lemma_tick_token_only_from_ground(
    s: PlayerState,
    cfg: PhysicsConfig,
    input: TickInput,
    delta_ms: u64,
    obs: Seq<Obstacle>,
    run_fix: bool,
)
    ensures
        tick_result(s, cfg, input, delta_ms, obs, run_fix).double_jump_available
            ==> s.double_jump_available || (input.jump_just_pressed && s.grounded
            && s.jump is None),
{
    lemma_token_granted_only_on_ground(s, cfg, input.jump_just_pressed);
    let s2 = tick_after_horizontal(s, cfg, input, delta_ms, obs);
    lemma_vertical_preserves_token(s2, cfg, delta_ms, input.jump_held, obs);
}

} // verus!
