//! Jumping off the ground and off walls.

use vstd::prelude::*;
use crate::controller::{
    is_fresh, AccumulatedInput, Box3dCastHit, Box3dCharacterController,
    Box3dCharacterControllerState,
};
use crate::scalar::{Scalar, Vector, ONE, OVERHANG};
use crate::time::TimeSpan;

verus! {

/// The pattern of 0.1.
pub const TENTH: u32 = 0x3dcc_cccd;

/// How a character jumps.
#[derive(Clone, Copy, Debug, PartialEq, Eq, Structural)]
pub enum JumpPlan {
    /// Not at all.
    Stay,
    /// Up from the ground.
    Ground,
    /// Off a wall, if there is one.
    Wall,
}

/// The character is off the ground, and has been for longer than a jump from
/// the ground is still granted.
pub open spec fn airborne(
    cfg: Box3dCharacterController,
    state: Box3dCharacterControllerState,
) -> bool {
    state.grounded is None && cfg.coyote_time@ < state.last_ground.elapsed@
}

/// The character may push off a wall: it is asked to, wishes to go somewhere,
/// and did not just do so.
pub open spec fn tac_allowed(
    cfg: Box3dCharacterController,
    state: Box3dCharacterControllerState,
    input: AccumulatedInput,
    wish_squared: Scalar,
) -> bool {
    &&& crate::controller::fresh(input.tac, cfg.tac_input_buffer)
    &&& !wish_squared.below(Scalar { bits: TENTH })
    &&& cfg.tac_cooldown@ <= state.last_tac.elapsed@
}

/// How a character that is in the given state, and asked for the given things,
/// jumps.
pub open spec fn jump_plan(
    cfg: Box3dCharacterController,
    state: Box3dCharacterControllerState,
    input: AccumulatedInput,
    wish_squared: Scalar,
) -> JumpPlan {
    if airborne(cfg, state) {
        if tac_allowed(cfg, state, input, wish_squared) {
            JumpPlan::Wall
        } else {
            JumpPlan::Stay
        }
    } else if crate::controller::fresh(input.jumped, cfg.jump_input_buffer) {
        JumpPlan::Ground
    } else {
        JumpPlan::Stay
    }
}

pub fn plan_box3d_jump(
    cfg: &Box3dCharacterController,
    state: &Box3dCharacterControllerState,
    input: &AccumulatedInput,
    wish_squared: Scalar,
) -> (r: JumpPlan)
    ensures
        r == jump_plan(*cfg, *state, *input, wish_squared),
{
    if state.grounded.is_none() && cfg.coyote_time.shorter_than(&state.last_ground.elapsed) {
        if is_fresh(&input.tac, &cfg.tac_input_buffer) && !wish_squared.lt(Scalar::new(TENTH))
            && !state.last_tac.elapsed.shorter_than(&cfg.tac_cooldown) {
            JumpPlan::Wall
        } else {
            JumpPlan::Stay
        }
    } else if is_fresh(&input.jumped, &cfg.jump_input_buffer) {
        JumpPlan::Ground
    } else {
        JumpPlan::Stay
    }
}

pub open spec fn wall_ahead(
    along_velocity: Option<Box3dCastHit>,
    along_wish: Option<Box3dCastHit>,
) -> Option<Box3dCastHit> {
    if along_velocity is Some {
        along_velocity
    } else {
        along_wish
    }
}

/// The wall to push off: what a cast along the velocity meets, else what one
/// along the wish meets.
pub fn tac_wall(
    along_velocity: Option<Box3dCastHit>,
    along_wish: Option<Box3dCastHit>,
) -> (r: Option<Box3dCastHit>)
    ensures
        r == (if along_velocity is Some {
            along_velocity
        } else {
            along_wish
        }),
        r == wall_ahead(along_velocity, along_wish),
{
    if along_velocity.is_some() {
        along_velocity
    } else {
        along_wish
    }
}

/// A wall to push off.
#[derive(Clone, Copy, Debug, PartialEq, Eq, Structural)]
pub struct TacContact {
    pub normal: Vector,
    /// How squarely the wish heads into the wall.
    pub against: Scalar,
    /// The velocity along the normal: negative when it runs into the wall.
    pub closing: Scalar,
    /// The velocity without the part that runs into the wall.
    pub deflected: Vector,
}

/// The wall can be pushed off: it does not hang over, and the wish does not
/// head into it too squarely.
pub open spec fn tac_grips(cfg: Box3dCharacterController, contact: TacContact) -> bool {
    &&& !contact.normal.y.below(Scalar { bits: OVERHANG })
    &&& !cfg.max_tac_cos.below(contact.against)
}

/// How hard the character can push off: by the speed that it lost against
/// walls, at most fully. Were that below zero, it is raised to the impact, which
/// is never above zero.
pub open spec fn groundedness(tac_velocity: Scalar, closing: Scalar) -> Scalar {
    tac_velocity.larger(closing.smaller(Scalar { bits: 0 })).smaller(Scalar { bits: ONE })
}

pub open spec fn impact_of(closing: Scalar) -> Scalar {
    closing.smaller(Scalar { bits: 0 })
}

/// The part of a velocity along a normal that runs into the wall.
pub fn impact(closing: Scalar) -> (r: Scalar)
    ensures
        r == closing.smaller(Scalar { bits: 0 }),
        r == impact_of(closing),
{
    closing.min(Scalar::zero())
}

/// Braces a character against a wall. Returns how hard it can push off, unless
/// the wall gives no grip. What it lost against walls is used up.
pub fn calculate_box3d_tac_direction(
    cfg: &Box3dCharacterController,
    state: &mut Box3dCharacterControllerState,
    contact: &TacContact,
) -> (r: Option<Scalar>)
    ensures
        !tac_grips(*cfg, *contact) ==> r is None && *final(state) == *old(state),
        tac_grips(*cfg, *contact) ==> r == Some(
            groundedness(old(state).tac_velocity, contact.closing),
        ) && *final(state) == (Box3dCharacterControllerState {
            velocity: contact.deflected,
            tac_velocity: Scalar { bits: 0 },
            ..*old(state)
        }),
        (*final(state), r) == braced(*cfg, *old(state), Some(*contact)),
{
    if contact.normal.y.lt(Scalar::new(OVERHANG)) || cfg.max_tac_cos.lt(contact.against) {
        return None;
    }
    let push = state.tac_velocity.max(impact(contact.closing)).min(Scalar::new(ONE));
    state.velocity = contact.deflected;
    state.tac_velocity = Scalar::zero();
    Some(push)
}

/// State and push of a character that reaches for a wall: without a wall, or
/// where it gives no grip, nothing happens.
pub open spec fn braced(
    cfg: Box3dCharacterController,
    state: Box3dCharacterControllerState,
    contact: Option<TacContact>,
) -> (Box3dCharacterControllerState, Option<Scalar>) {
    match contact {
        Some(contact) => if tac_grips(cfg, contact) {
            (
                Box3dCharacterControllerState {
                    velocity: contact.deflected,
                    tac_velocity: Scalar { bits: 0 },
                    ..state
                },
                Some(groundedness(state.tac_velocity, contact.closing)),
            )
        } else {
            (state, None)
        },
        None => (state, None),
    }
}

/// Braces a character against the wall that it found, if any. Returns how hard
/// it can push off.
pub fn handle_box3d_tac(
    cfg: &Box3dCharacterController,
    state: &mut Box3dCharacterControllerState,
    contact: &Option<TacContact>,
) -> (r: Option<Scalar>)
    ensures
        (*final(state), r) == braced(*cfg, *old(state), *contact),
        r is Some <==> *contact is Some && tac_grips(*cfg, (*contact)->0),
        r is None ==> *final(state) == *old(state),
{
    match contact {
        Some(contact) => calculate_box3d_tac_direction(cfg, state, contact),
        None => None,
    }
}

/// A plan to push off a wall comes to nothing without a push.
pub open spec fn settled_plan(plan: JumpPlan, push: Option<Scalar>) -> JumpPlan {
    if plan == JumpPlan::Wall && push is None {
        JumpPlan::Stay
    } else {
        plan
    }
}

pub fn settle_box3d_jump(plan: JumpPlan, push: Option<Scalar>) -> (r: JumpPlan)
    ensures
        r == settled_plan(plan, push),
{
    match (plan, push) {
        (JumpPlan::Wall, None) => JumpPlan::Stay,
        _ => plan,
    }
}

/// State and input after a jump. It uses up the requests to jump and to push
/// off a wall, and lets a request to crane age so far that it is granted only
/// for the chain time.
pub open spec fn after_jump(
    cfg: Box3dCharacterController,
    state: Box3dCharacterControllerState,
    input: AccumulatedInput,
    plan: JumpPlan,
    launched: Vector,
) -> (Box3dCharacterControllerState, AccumulatedInput) {
    let left_ground = if plan == JumpPlan::Ground {
        Box3dCharacterControllerState {
            grounded: None,
            last_ground: crate::time::Stopwatch {
                elapsed: cfg.coyote_time,
                ..state.last_ground
            },
            ..state
        }
    } else {
        state
    };
    (
        Box3dCharacterControllerState {
            last_tac: state.last_tac.cleared(),
            velocity: launched,
            ..left_ground
        },
        AccumulatedInput {
            jumped: None,
            tac: None,
            craned: match input.craned {
                Some(request) => Some(
                    request.advanced(
                        (cfg.crane_input_buffer@ - cfg.jump_crane_chain_time@) as nat,
                    ),
                ),
                None => None,
            },
            ..input
        },
    )
}

/// State and input after a plan was carried out.
pub open spec fn carried_out(
    cfg: Box3dCharacterController,
    state: Box3dCharacterControllerState,
    input: AccumulatedInput,
    plan: JumpPlan,
    launched: Vector,
) -> (Box3dCharacterControllerState, AccumulatedInput) {
    if plan == JumpPlan::Stay {
        (state, input)
    } else {
        after_jump(cfg, state, input, plan, launched)
    }
}

/// State and input after the requests to jump and to push off a wall were
/// answered, by the wall that was found and the velocity after a jump.
pub open spec fn after_jump_requests(
    cfg: Box3dCharacterController,
    state: Box3dCharacterControllerState,
    input: AccumulatedInput,
    wish_squared: Scalar,
    contact: Option<TacContact>,
    launched: Vector,
) -> (Box3dCharacterControllerState, AccumulatedInput) {
    let plan = jump_plan(cfg, state, input, wish_squared);
    if plan == JumpPlan::Wall {
        let (ready, push) = braced(cfg, state, contact);
        carried_out(cfg, ready, input, settled_plan(plan, push), launched)
    } else {
        carried_out(cfg, state, input, settled_plan(plan, None), launched)
    }
}

/// No jump is made off a wall that is not there or gives no grip: nothing
/// changes then, as when no jump is planned. Any other plan is carried out.
pub proof fn law_no_jump_without_grip(
    cfg: Box3dCharacterController,
    state: Box3dCharacterControllerState,
    input: AccumulatedInput,
    wish_squared: Scalar,
    contact: Option<TacContact>,
    launched: Vector,
)
    ensures
        ({
            let plan = jump_plan(cfg, state, input, wish_squared);
            let (ready, push) = braced(cfg, state, contact);
            let end = after_jump_requests(cfg, state, input, wish_squared, contact, launched);
            &&& plan == JumpPlan::Stay || plan == JumpPlan::Wall && push is None ==> end == (
                state,
                input,
            )
            &&& plan == JumpPlan::Wall && push is Some ==> end == after_jump(
                cfg,
                ready,
                input,
                plan,
                launched,
            )
            &&& plan == JumpPlan::Ground ==> end == after_jump(cfg, state, input, plan, launched)
        }),
{
}

/// Jumps as planned. `launched` is the velocity after the jump.
pub fn handle_box3d_jump(
    cfg: &Box3dCharacterController,
    state: &mut Box3dCharacterControllerState,
    input: &mut AccumulatedInput,
    plan: JumpPlan,
    launched: Vector,
)
    requires
        plan != JumpPlan::Stay && old(input).craned is Some ==> cfg.chain_fits(),
    ensures
        (*final(state), *final(input)) == carried_out(
            *cfg,
            *old(state),
            *old(input),
            plan,
            launched,
        ),
{
    match plan {
        JumpPlan::Stay => {
            return ;
        },
        JumpPlan::Ground => {
            state.grounded = None;
            state.last_ground.set_elapsed(cfg.coyote_time);
        },
        JumpPlan::Wall => {},
    }
    input.jumped = None;
    input.tac = None;
    state.last_tac.reset();
    state.velocity = launched;
    if let Some(request) = input.craned {
        let mut aged = request;
        aged.tick(cfg.crane_input_buffer.minus(&cfg.jump_crane_chain_time));
        input.craned = Some(aged);
    }
}

/// A jump is made once for one request: right after it, with nothing newly
/// asked for, the character neither jumps nor pushes off, and it is off the
/// ground if it jumped from there.
pub proof fn law_jump_is_made_once(
    cfg: Box3dCharacterController,
    state: Box3dCharacterControllerState,
    input: AccumulatedInput,
    plan: JumpPlan,
    launched: Vector,
    wish_squared: Scalar,
)
    requires
        plan == jump_plan(cfg, state, input, wish_squared),
        plan != JumpPlan::Stay,
    ensures
        ({
            let (after, rest) = after_jump(cfg, state, input, plan, launched);
            &&& forall|again: Scalar| #[trigger]
                jump_plan(cfg, after, rest, again) == JumpPlan::Stay
            &&& after.grounded is None
            &&& after.velocity == launched
            &&& rest.mantled == input.mantled && rest.climbdown == input.climbdown
        }),
{
}

/// After a jump, a running request to crane is granted for as long as its age
/// at the jump and the time since then stay within the chain time together.
pub proof fn law_jump_leaves_the_chain_time(
    cfg: Box3dCharacterController,
    state: Box3dCharacterControllerState,
    input: AccumulatedInput,
    plan: JumpPlan,
    launched: Vector,
    since: nat,
)
    requires
        cfg.chain_fits(),
        cfg.crane_input_buffer@ < crate::time::longest(),
        input.craned is Some,
        !input.craned->0.paused,
        input.craned->0.elapsed@ <= crate::time::longest(),
    ensures
        ({
            let (_, rest) = after_jump(cfg, state, input, plan, launched);
            let later = Some(rest.craned->0.advanced(since));
            crate::controller::fresh(later, cfg.crane_input_buffer) <==> input.craned->0.elapsed@
                + since <= cfg.jump_crane_chain_time@
        }),
{
    broadcast use crate::time::lemma_view_of;

    let aged = (cfg.crane_input_buffer@ - cfg.jump_crane_chain_time@) as nat;
    crate::time::law_ticks_add_up(input.craned->0, aged, since);
}

/// A push off a wall is never more than full, and never pulls: whatever the
/// impact, speed lost against walls is not turned into less than nothing.
pub proof fn law_push_is_bounded(tac_velocity: Scalar, closing: Scalar)
    requires
        !tac_velocity.nan(),
    ensures
        groundedness(tac_velocity, closing).at_most(Scalar { bits: ONE }),
        (Scalar { bits: 0 }).at_most(tac_velocity) ==> (Scalar { bits: 0 }).at_most(
            groundedness(tac_velocity, closing),
        ),
{
    assert((Scalar { bits: 0 }).value() == 0);
    assert(crate::scalar::quanta(0) == 0);
    crate::scalar::lemma_quanta_increase(0, ONE as nat);
}

/// On the ground, and off it for no longer than the coyote time, a jump is made
/// exactly when one is asked for that is no older than its buffer. No request to
/// push off a wall makes it, and none stands in its way.
pub proof fn law_jump_from_the_ground(
    cfg: Box3dCharacterController,
    state: Box3dCharacterControllerState,
    input: AccumulatedInput,
    other: AccumulatedInput,
    wish_squared: Scalar,
)
    requires
        state.grounded is Some || state.last_ground.elapsed@ <= cfg.coyote_time@,
        other.jumped == input.jumped,
    ensures
        jump_plan(cfg, state, input, wish_squared) == JumpPlan::Ground <==> (input.jumped is Some
            && input.jumped->0.elapsed@ <= cfg.jump_input_buffer@),
        jump_plan(cfg, state, input, wish_squared) != JumpPlan::Wall,
        jump_plan(cfg, state, other, wish_squared) == jump_plan(cfg, state, input, wish_squared),
{
}

/// Off the ground for longer, no jump is made but off a wall: exactly when that
/// is asked for, no longer ago than its buffer, by a character that wishes to go
/// somewhere and did not push off within the cooldown. A request to jump makes no
/// difference.
pub proof fn law_jump_off_a_wall(
    cfg: Box3dCharacterController,
    state: Box3dCharacterControllerState,
    input: AccumulatedInput,
    other: AccumulatedInput,
    wish_squared: Scalar,
)
    requires
        state.grounded is None && state.last_ground.elapsed@ > cfg.coyote_time@,
        other.tac == input.tac,
        !wish_squared.nan(),
    ensures
        jump_plan(cfg, state, input, wish_squared) != JumpPlan::Ground,
        jump_plan(cfg, state, input, wish_squared) == JumpPlan::Wall <==> (input.tac is Some
            && input.tac->0.elapsed@ <= cfg.tac_input_buffer@ && wish_squared.value() >= (
        Scalar { bits: TENTH }).value() && state.last_tac.elapsed@ >= cfg.tac_cooldown@),
        jump_plan(cfg, state, other, wish_squared) == jump_plan(cfg, state, input, wish_squared),
{
    assert(!(Scalar { bits: TENTH }).nan());
}

/// A wall gives grip unless it hangs over or the wish heads into it too squarely.
/// Bracing then leaves the velocity along the wall, and all that was lost against
/// walls is spent on the push: that much, and at most a full one.
pub proof fn law_bracing_against_a_wall(
    cfg: Box3dCharacterController,
    state: Box3dCharacterControllerState,
    contact: TacContact,
)
    requires
        !contact.normal.y.nan() && !contact.against.nan() && !cfg.max_tac_cos.nan(),
        !state.tac_velocity.nan() && !contact.closing.nan(),
    ensures
        contact.normal.y.value() < (Scalar { bits: OVERHANG }).value() ==> !tac_grips(cfg, contact),
        contact.against.value() > cfg.max_tac_cos.value() ==> !tac_grips(cfg, contact),
        contact.normal.y.value() >= (Scalar { bits: OVERHANG }).value() && contact.against.value()
            <= cfg.max_tac_cos.value() ==> tac_grips(cfg, contact),
        ({
            let (after, push) = braced(cfg, state, Some(contact));
            let one = Scalar { bits: ONE };
            &&& push is Some <==> tac_grips(cfg, contact)
            &&& push is None ==> after == state
            &&& push is Some ==> {
                &&& after.velocity == contact.deflected
                &&& after.tac_velocity.value() == 0
                &&& after == (Box3dCharacterControllerState {
                    velocity: after.velocity,
                    tac_velocity: after.tac_velocity,
                    ..state
                })
                &&& 0 <= state.tac_velocity.value() <= one.value() ==> push->0.value()
                    == state.tac_velocity.value()
                &&& state.tac_velocity.value() > one.value() ==> push == Some(one)
                &&& push->0.value() <= one.value()
                &&& state.tac_velocity.value() < contact.closing.value() <= 0
                    ==> push->0 == contact.closing
            }
        }),
        braced(cfg, state, None) == (state, None::<Scalar>),
        contact.closing.value() < 0 ==> impact_of(contact.closing) == contact.closing,
        contact.closing.value() >= 0 ==> impact_of(contact.closing).value() == 0,
{
    assert((Scalar { bits: 0 }).value() == 0);
    assert(!(Scalar { bits: OVERHANG }).nan() && !(Scalar { bits: ONE }).nan());
    crate::scalar::lemma_unit();
    assert((Scalar { bits: ONE }).value() > 0);
}

/// The wall to push off is the one that the character runs into, and the one
/// that it wishes to run into only where it runs into none.
pub proof fn law_wall_that_is_run_into(hit: Box3dCastHit, other: Option<Box3dCastHit>)
    ensures
        wall_ahead(Some(hit), other) == Some(hit),
        wall_ahead(None, other) == other,
        settled_plan(JumpPlan::Wall, None) == JumpPlan::Stay,
        settled_plan(JumpPlan::Wall, Some(hit.distance)) == JumpPlan::Wall,
        settled_plan(JumpPlan::Ground, None) == JumpPlan::Ground,
        settled_plan(JumpPlan::Ground, Some(hit.distance)) == JumpPlan::Ground,
        settled_plan(JumpPlan::Stay, None) == JumpPlan::Stay,
        settled_plan(JumpPlan::Stay, Some(hit.distance)) == JumpPlan::Stay,
{
}

/// A jump gives the velocity that it launches with, uses up the requests to jump
/// and to push off, and starts the cooldown of wall jumps. From the ground it
/// leaves the ground and the coyote time behind; off a wall it changes neither.
/// A request to crane ages by what is left of its buffer beyond the chain time,
/// and nothing else changes. A plan to stay changes nothing at all.
pub proof fn law_what_a_jump_does(
    cfg: Box3dCharacterController,
    state: Box3dCharacterControllerState,
    input: AccumulatedInput,
    launched: Vector,
)
    requires
        cfg.chain_fits(),
        input.craned matches Some(request) ==> !request.paused && request.elapsed@
            + cfg.crane_input_buffer@ <= crate::time::longest(),
    ensures
        carried_out(cfg, state, input, JumpPlan::Stay, launched) == (state, input),
        forall|plan: JumpPlan|
            plan != JumpPlan::Stay ==> {
                let (after, rest) = #[trigger] carried_out(cfg, state, input, plan, launched);
                &&& after.velocity == launched
                &&& after.last_tac.elapsed@ == 0 && after.last_tac.paused == state.last_tac.paused
                &&& rest.jumped is None && rest.tac is None
                &&& rest.mantled == input.mantled && rest.climbdown == input.climbdown
                &&& rest.last_movement == input.last_movement && rest.swim_up == input.swim_up
                &&& rest.crouched == input.crouched
                &&& input.craned is None ==> rest.craned is None
                &&& input.craned is Some ==> rest.craned is Some && rest.craned->0.elapsed@
                    == input.craned->0.elapsed@ + cfg.crane_input_buffer@
                    - cfg.jump_crane_chain_time@
                &&& plan == JumpPlan::Ground ==> after.grounded is None && after.last_ground.elapsed
                    == cfg.coyote_time
                &&& plan == JumpPlan::Wall ==> after.grounded == state.grounded
                    && after.last_ground == state.last_ground
                &&& after == (Box3dCharacterControllerState {
                    velocity: after.velocity,
                    last_tac: after.last_tac,
                    grounded: after.grounded,
                    last_ground: after.last_ground,
                    ..state
                })
            },
{
    broadcast use crate::time::lemma_view_of;

}

/// The requests come to what their plan comes to: a wall that gives grip is
/// braced against before the jump, and no state is braced without one.
pub proof fn law_answer_to_the_jump_requests(
    cfg: Box3dCharacterController,
    state: Box3dCharacterControllerState,
    input: AccumulatedInput,
    wish_squared: Scalar,
    contact: TacContact,
    launched: Vector,
)
    ensures
        ({
            let plan = jump_plan(cfg, state, input, wish_squared);
            let with_wall = after_jump_requests(
                cfg,
                state,
                input,
                wish_squared,
                Some(contact),
                launched,
            );
            let without = after_jump_requests(cfg, state, input, wish_squared, None, launched);
            &&& plan == JumpPlan::Wall ==> without == (state, input)
            &&& plan == JumpPlan::Wall && tac_grips(cfg, contact) ==> with_wall.0.velocity
                == launched && with_wall.0.tac_velocity.bits == 0 && with_wall.1.tac is None
            &&& plan == JumpPlan::Wall && !tac_grips(cfg, contact) ==> with_wall == (state, input)
            &&& plan == JumpPlan::Ground ==> without == with_wall && without.0.velocity == launched
                && without.0.tac_velocity == state.tac_velocity && without.0.grounded is None
                && without.1.jumped is None
            &&& plan == JumpPlan::Stay ==> without == (state, input) && with_wall == (state, input)
        }),
        crate::scalar::is_nearest_to(Scalar { bits: TENTH }, 1, 10),
{
    vstd::arithmetic::power2::lemma2_to64();
    crate::scalar::lemma_nearest(Scalar { bits: TENTH }, 123, 0x00cc_cccd, 0x0800_0000, 1, 10);
}

}
