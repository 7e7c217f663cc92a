//! Standing: finding the ground, riding on it, snapping down to it, crouching.

use vstd::prelude::*;
use crate::controller::{
    AccumulatedInput, Box3dCastHit, Box3dCharacterController, Box3dCharacterControllerState,
};
use crate::entity::{BodyId, ShapeId};
use crate::runtime::{Box3dRuntime, Links};
use crate::scalar::{Scalar, Vector};

verus! {

/// How a character looks for ground.
#[derive(Clone, Copy, Debug, PartialEq, Eq, Structural)]
pub enum GroundProbe {
    /// It moves up too fast to stand on anything.
    LeavesGround,
    /// It casts its body down, farther by the platform's own descent if the
    /// platform sinks.
    Cast { sinking: bool },
}

/// The character moves up faster than ground can hold it. On ground, the
/// ground's own rise does not count.
pub open spec fn shoots_up(
    cfg: Box3dCharacterController,
    state: Box3dCharacterControllerState,
    relative_rise: Scalar,
) -> bool {
    &&& cfg.unground_speed.below(state.velocity.y)
    &&& state.grounded is Some ==> cfg.unground_speed.below(relative_rise)
}

/// State and probe of a character that begins to look for ground.
pub open spec fn probe_begun(
    cfg: Box3dCharacterController,
    state: Box3dCharacterControllerState,
    relative_rise: Scalar,
) -> (Box3dCharacterControllerState, GroundProbe) {
    if shoots_up(cfg, state, relative_rise) {
        (Box3dCharacterControllerState { grounded: None, ..state }, GroundProbe::LeavesGround)
    } else {
        (
            state,
            GroundProbe::Cast { sinking: state.platform_velocity.y.below(Scalar { bits: 0 }) },
        )
    }
}

/// Begins to look for ground. `relative_rise` is the character's rise less
/// that of its platform.
pub fn begin_box3d_ground_probe(
    cfg: &Box3dCharacterController,
    state: &mut Box3dCharacterControllerState,
    relative_rise: Scalar,
) -> (r: GroundProbe)
    ensures
        shoots_up(*cfg, *old(state), relative_rise) ==> {
            &&& r == GroundProbe::LeavesGround
            &&& *final(state) == (Box3dCharacterControllerState { grounded: None, ..*old(state) })
        },
        !shoots_up(*cfg, *old(state), relative_rise) ==> *final(state) == *old(state) && r
            == (GroundProbe::Cast {
            sinking: old(state).platform_velocity.y.below(Scalar { bits: 0 }),
        }),
        (*final(state), r) == probe_begun(*cfg, *old(state), relative_rise),
{
    if cfg.unground_speed.lt(state.velocity.y) && (state.grounded.is_none()
        || cfg.unground_speed.lt(relative_rise)) {
        state.grounded = None;
        return GroundProbe::LeavesGround;
    }
    GroundProbe::Cast { sinking: state.platform_velocity.y.lt(Scalar::zero()) }
}

/// The ground among what a probe found: the hit of the cast, else the overlap,
/// if it can be stood on.
pub open spec fn ground_among(
    cfg: Box3dCharacterController,
    cast: Option<Box3dCastHit>,
    overlap: Option<Box3dCastHit>,
) -> Option<Box3dCastHit> {
    let found = if cast is Some {
        cast
    } else {
        overlap
    };
    match found {
        Some(hit) => if crate::contact::walkable(hit.normal, cfg) {
            Some(hit)
        } else {
            None
        },
        None => None,
    }
}

/// State at the end of a search for ground, and the surface to ride on.
pub open spec fn ground_settled(
    cfg: Box3dCharacterController,
    state: Box3dCharacterControllerState,
    cast: Option<Box3dCastHit>,
    overlap: Option<Box3dCastHit>,
) -> (Box3dCharacterControllerState, Option<Box3dCastHit>) {
    let ground = ground_among(cfg, cast, overlap);
    (
        Box3dCharacterControllerState { grounded: ground, ..state },
        if ground is Some {
            ground
        } else {
            state.grounded
        },
    )
}

/// Ends the search for ground. Returns the surface whose motion the character
/// takes over: the new ground, else the one that it just left.
pub fn settle_box3d_ground(
    cfg: &Box3dCharacterController,
    state: &mut Box3dCharacterControllerState,
    cast: Option<Box3dCastHit>,
    overlap: Option<Box3dCastHit>,
) -> (r: Option<Box3dCastHit>)
    ensures
        *final(state) == (Box3dCharacterControllerState {
            grounded: ground_among(*cfg, cast, overlap),
            ..*old(state)
        }),
        final(state).grounded matches Some(ground) ==> crate::contact::walkable(ground.normal, *cfg),
        r == (if ground_among(*cfg, cast, overlap) is Some {
            ground_among(*cfg, cast, overlap)
        } else {
            old(state).grounded
        }),
        (*final(state), r) == ground_settled(*cfg, *old(state), cast, overlap),
{
    let found = if cast.is_some() {
        cast
    } else {
        overlap
    };
    let new_ground = match found {
        Some(hit) => if cfg.min_walk_cos.le(hit.normal.y) {
            Some(hit)
        } else {
            None
        },
        None => None,
    };
    let platform = if new_ground.is_some() {
        new_ground
    } else {
        state.grounded
    };
    state.grounded = new_ground;
    platform
}

pub open spec fn carrier_of(links: Links, ground: Box3dCastHit) -> Option<BodyId> {
    match ground.entity {
        Some(entity) => links.carrier(entity),
        None => None,
    }
}

/// The body that carries what a character stands on.
pub fn platform_body(runtime: &Box3dRuntime, ground: &Box3dCastHit) -> (r: Option<BodyId>)
    ensures
        r == (match ground.entity {
            Some(entity) => runtime@.carrier(entity),
            None => None,
        }),
        r == carrier_of(runtime@, *ground),
{
    match ground.entity {
        Some(entity) => runtime.carrier(entity),
        None => None,
    }
}

/// Motion of a platform under a character's feet.
#[derive(Clone, Copy, Debug, PartialEq, Eq, Structural)]
pub struct PlatformMotion {
    pub velocity: Vector,
    pub angular_velocity: Vector,
}

/// The state with the motion of a platform; one without a live body stands
/// still.
pub open spec fn carried_along(
    state: Box3dCharacterControllerState,
    motion: Option<PlatformMotion>,
) -> Box3dCharacterControllerState {
    Box3dCharacterControllerState {
        platform_velocity: match motion {
            Some(motion) => motion.velocity,
            None => crate::scalar::origin(),
        },
        platform_angular_velocity: match motion {
            Some(motion) => motion.angular_velocity,
            None => crate::scalar::origin(),
        },
        ..state
    }
}

/// What a search for ground is answered.
pub struct GroundAnswers {
    /// The character's rise less that of its platform.
    pub relative_rise: Scalar,
    /// What the cast down met.
    pub cast: Option<Box3dCastHit>,
    /// The walkable surface among the overlaps.
    pub overlap: Option<Box3dCastHit>,
    /// The motion of the platform.
    pub motion: Option<PlatformMotion>,
}

/// The state after a search for ground.
pub open spec fn after_ground_search(
    cfg: Box3dCharacterController,
    state: Box3dCharacterControllerState,
    answers: GroundAnswers,
) -> Box3dCharacterControllerState {
    if shoots_up(cfg, state, answers.relative_rise) {
        Box3dCharacterControllerState { grounded: None, ..state }
    } else {
        let ground = ground_among(cfg, answers.cast, answers.overlap);
        let settled = Box3dCharacterControllerState { grounded: ground, ..state };
        if ground is Some || state.grounded is Some {
            carried_along(settled, answers.motion)
        } else {
            settled
        }
    }
}

/// Takes over the motion of the platform; without a live body it stands still.
pub fn update_box3d_platform_velocity(
    state: &mut Box3dCharacterControllerState,
    motion: Option<PlatformMotion>,
)
    ensures
        *final(state) == carried_along(*old(state), motion),
{
    match motion {
        Some(motion) => {
            state.platform_velocity = motion.velocity;
            state.platform_angular_velocity = motion.angular_velocity;
        },
        None => {
            state.platform_velocity = Vector::zero();
            state.platform_angular_velocity = Vector::zero();
        },
    }
}

pub open spec fn is_spun(state: Box3dCharacterControllerState) -> bool {
    state.grounded is Some
}

/// Whether a platform's spin turns the look of the character on it.
pub fn spin_box3d_character_look(state: &Box3dCharacterControllerState) -> (r: bool)
    ensures
        r == (state.grounded is Some),
        r == is_spun(*state),
{
    state.grounded.is_some()
}

pub open spec fn way_to(hit: Option<Box3dCastHit>, reach: Scalar) -> Scalar {
    match hit {
        Some(hit) => hit.distance,
        None => reach,
    }
}

/// How far a cast that wanted to go `reach` got.
pub fn clear_distance(hit: &Option<Box3dCastHit>, reach: Scalar) -> (r: Scalar)
    ensures
        r == (match *hit {
            Some(hit) => hit.distance,
            None => reach,
        }),
        r == way_to(*hit, reach),
{
    match hit {
        Some(hit) => hit.distance,
        None => reach,
    }
}

/// The cast up that a snap to the ground starts with.
pub fn snap_up_cast(cfg: &Box3dCharacterController) -> (r: Vector)
    ensures
        r == crate::scalar::upward(cfg.ground_distance),
{
    Vector::up(cfg.ground_distance)
}

/// The cast down of a snap, over that distance.
pub fn snap_down_cast(distance: Scalar) -> (r: Vector)
    ensures
        r == crate::scalar::upward(distance.opposite()),
{
    Vector::down(distance)
}

/// The cast down from a character met ground to snap to: something that is not
/// too steep, and not so close that the character stands on it already.
pub open spec fn snaps(cfg: Box3dCharacterController, hit: Option<Box3dCastHit>) -> bool {
    match hit {
        Some(hit) => {
            &&& !crate::contact::too_steep(hit.normal, cfg)
            &&& !hit.distance.at_most(cfg.ground_distance)
        },
        None => false,
    }
}

/// Position and state after a snap to the ground.
pub open spec fn snapped(
    cfg: Box3dCharacterController,
    position: Vector,
    state: Box3dCharacterControllerState,
    hit: Option<Box3dCastHit>,
    landing: Vector,
    drop: Scalar,
) -> (Vector, Box3dCharacterControllerState) {
    if !snaps(cfg, hit) {
        (position, state)
    } else if cfg.step_down_detection_distance.below(drop) {
        (
            landing,
            Box3dCharacterControllerState {
                last_step_down: state.last_step_down.cleared(),
                ..state
            },
        )
    } else {
        (landing, state)
    }
}

/// Snaps a character down to the ground. `hit` is what the cast down met,
/// `landing` the position there, and `drop` how far that is down. Returns
/// whether the character moved.
pub fn snap_box3d_to_ground(
    cfg: &Box3dCharacterController,
    state: &mut Box3dCharacterControllerState,
    position: &mut Vector,
    hit: &Option<Box3dCastHit>,
    landing: Vector,
    drop: Scalar,
) -> (r: bool)
    ensures
        r == snaps(*cfg, *hit),
        !r ==> *final(position) == *old(position) && *final(state) == *old(state),
        r ==> *final(position) == landing && *final(state) == (Box3dCharacterControllerState {
            last_step_down: if cfg.step_down_detection_distance.below(drop) {
                old(state).last_step_down.cleared()
            } else {
                old(state).last_step_down
            },
            ..*old(state)
        }),
        (*final(position), *final(state)) == snapped(
            *cfg,
            *old(position),
            *old(state),
            *hit,
            landing,
            drop,
        ),
{
    let snap = match hit {
        Some(hit) => !hit.normal.y.lt(cfg.min_walk_cos) && !hit.distance.le(cfg.ground_distance),
        None => false,
    };
    if snap {
        *position = landing;
        if cfg.step_down_detection_distance.lt(drop) {
            state.last_step_down.reset();
        }
    }
    snap
}

/// The state after a request to crouch, or to crouch no more, was answered.
pub open spec fn crouched(
    state: Box3dCharacterControllerState,
    input: AccumulatedInput,
    standing_is_blocked: bool,
) -> Box3dCharacterControllerState {
    Box3dCharacterControllerState {
        crouching: input.crouched || state.crouching && standing_is_blocked,
        ..state
    }
}

/// Crouches while asked to, and stands up again once nothing blocks the
/// standing body.
pub fn handle_box3d_crouching(
    state: &mut Box3dCharacterControllerState,
    input: &AccumulatedInput,
    standing_is_blocked: bool,
)
    ensures
        *final(state) == (Box3dCharacterControllerState {
            crouching: input.crouched || old(state).crouching && standing_is_blocked,
            ..*old(state)
        }),
        *final(state) == crouched(*old(state), *input, standing_is_blocked),
{
    if input.crouched {
        state.crouching = true;
    } else if state.crouching && !standing_is_blocked {
        state.crouching = false;
    }
}

/// The height of a character's capsule: never less than its diameter.
pub open spec fn capsule_height_spec(
    cfg: Box3dCharacterController,
    crouching: bool,
    diameter: Scalar,
) -> Scalar {
    (if crouching {
        cfg.crouch_height
    } else {
        cfg.height
    }).larger(diameter)
}

/// The height of a character's capsule, standing or crouching.
pub fn capsule_height(cfg: &Box3dCharacterController, crouching: bool) -> (r: Scalar)
    ensures
        exists|diameter: Scalar| #[trigger]
            crate::scalar::twice_of(diameter, cfg.radius) && r == capsule_height_spec(
                *cfg,
                crouching,
                diameter,
            ),
{
    let diameter = cfg.radius.doubled();
    assert(crate::scalar::twice_of(diameter, cfg.radius));
    (if crouching {
        cfg.crouch_height
    } else {
        cfg.height
    }).max(diameter)
}

pub open spec fn half_of_segment(reduced: Scalar) -> Scalar {
    reduced.larger(Scalar { bits: 0 })
}

/// Half the length of a capsule's straight part, which is never negative:
/// `reduced` is half the height less the radius.
pub fn half_segment(reduced: Scalar) -> (r: Scalar)
    ensures
        r == reduced.larger(Scalar { bits: 0 }),
        r == half_of_segment(reduced),
{
    reduced.max(Scalar::zero())
}

/// The end points of a capsule's axis: straight below and above its character's
/// position, by what the arguments say.
pub fn box3d_character_points(lower: Scalar, upper: Scalar) -> (r: (Vector, Vector))
    ensures
        r.0 == (Vector { x: Scalar { bits: 0 }, y: lower, z: Scalar { bits: 0 } }),
        r.1 == (Vector { x: Scalar { bits: 0 }, y: upper, z: Scalar { bits: 0 } }),
        r == (crate::scalar::upward(lower), crate::scalar::upward(upper)),
{
    (
        Vector::new(Scalar::zero(), lower, Scalar::zero()),
        Vector::new(Scalar::zero(), upper, Scalar::zero()),
    )
}

/// The sums that place a capsule: how far its middle is above the character's
/// position, half its height less its radius, and its two ends.
pub struct CapsuleSums {
    pub center_offset: Scalar,
    pub reduced: Scalar,
    pub lower: Scalar,
    pub upper: Scalar,
}

impl CapsuleSums {
    /// Half the length of the straight part.
    pub open spec fn half(self) -> Scalar {
        self.reduced.larger(Scalar { bits: 0 })
    }

    /// The sums are those of a capsule of that height, without rounding.
    pub open spec fn exact(self, cfg: Box3dCharacterController, height: Scalar) -> bool {
        &&& !self.reduced.nan()
        &&& 2 * self.center_offset.value() == height.value() - cfg.height.value()
        &&& 2 * self.reduced.value() == height.value() - 2 * cfg.radius.value()
        &&& self.lower.value() == self.center_offset.value() - self.half().value()
        &&& self.upper.value() == self.center_offset.value() + self.half().value()
    }
}

/// Crouching keeps the feet where they are: in exact arithmetic, standing or
/// crouching, the capsule reaches down to half the full height below the
/// position, and up from there by its own height. Its ends are in order.
pub proof fn law_crouching_keeps_the_feet(
    cfg: Box3dCharacterController,
    crouching: bool,
    diameter: Scalar,
    sums: CapsuleSums,
)
    requires
        cfg.height.finite(),
        cfg.crouch_height.finite(),
        diameter.finite(),
        crate::scalar::twice_of(diameter, cfg.radius),
        sums.exact(cfg, capsule_height_spec(cfg, crouching, diameter)),
    ensures
        2 * (sums.lower.value() - cfg.radius.value()) == -cfg.height.value(),
        2 * (sums.upper.value() + cfg.radius.value()) == 2 * capsule_height_spec(
            cfg,
            crouching,
            diameter,
        ).value() - cfg.height.value(),
        sums.lower.value() <= sums.upper.value(),
{
    assert((Scalar { bits: 0 }).value() == 0);
}

/// Crouching lowers the head of a character that stands taller than it crouches
/// and than its diameter, in exact arithmetic.
pub proof fn law_crouching_lowers_the_head(
    cfg: Box3dCharacterController,
    diameter: Scalar,
    standing: CapsuleSums,
    crouched: CapsuleSums,
)
    requires
        cfg.height.finite(),
        cfg.crouch_height.finite(),
        diameter.finite(),
        cfg.crouch_height.below(cfg.height),
        diameter.below(cfg.height),
        crate::scalar::twice_of(diameter, cfg.radius),
        standing.exact(cfg, capsule_height_spec(cfg, false, diameter)),
        crouched.exact(cfg, capsule_height_spec(cfg, true, diameter)),
    ensures
        crouched.upper.value() < standing.upper.value(),
{
    law_crouching_keeps_the_feet(cfg, false, diameter, standing);
    law_crouching_keeps_the_feet(cfg, true, diameter, crouched);
}

pub open spec fn body_height(
    cfg: Box3dCharacterController,
    state: Box3dCharacterControllerState,
    diameter: Scalar,
) -> Scalar {
    if state.crouching {
        cfg.crouch_height.larger(diameter)
    } else {
        cfg.height
    }
}

/// The height of what is under water at most: that of the capsule while
/// crouching, the full height while standing.
pub fn active_height(
    cfg: &Box3dCharacterController,
    state: &Box3dCharacterControllerState,
) -> (r: Scalar)
    ensures
        exists|diameter: Scalar| #[trigger]
            crate::scalar::twice_of(diameter, cfg.radius) && r == body_height(
                *cfg,
                *state,
                diameter,
            ),
        !state.crouching ==> r == cfg.height,
        state.crouching ==> exists|diameter: Scalar| #[trigger]
            crate::scalar::twice_of(diameter, cfg.radius) && r == cfg.crouch_height.larger(diameter),
{
    if state.crouching {
        capsule_height(cfg, true)
    } else {
        proof {
            let diameter = crate::scalar::lemma_has_a_double(cfg.radius);
            assert(crate::scalar::twice_of(diameter, cfg.radius));
        }
        cfg.height
    }
}

pub open spec fn eye_height_of(
    cfg: Box3dCharacterController,
    state: Box3dCharacterControllerState,
) -> Scalar {
    if state.crouching {
        cfg.crouch_view_height
    } else {
        cfg.view_height
    }
}

/// The height of the eyes above the feet.
pub fn eye_height(
    cfg: &Box3dCharacterController,
    state: &Box3dCharacterControllerState,
) -> (r: Scalar)
    ensures
        r == (if state.crouching {
            cfg.crouch_view_height
        } else {
            cfg.view_height
        }),
        r == eye_height_of(*cfg, *state),
{
    if state.crouching {
        cfg.crouch_view_height
    } else {
        cfg.view_height
    }
}

pub open spec fn shape_underfoot(
    links: Links,
    state: Box3dCharacterControllerState,
) -> Option<ShapeId> {
    match state.grounded {
        Some(ground) => match ground.entity {
            Some(entity) => links.shape(entity),
            None => None,
        },
        None => None,
    }
}

/// The shape whose friction slows a character down: that of its ground.
pub fn surface_shape(
    runtime: &Box3dRuntime,
    state: &Box3dCharacterControllerState,
) -> (r: Option<ShapeId>)
    ensures
        r == (match state.grounded {
            Some(ground) => match ground.entity {
                Some(entity) => runtime@.shape(entity),
                None => None,
            },
            None => None,
        }),
        r == shape_underfoot(runtime@, *state),
{
    match state.grounded {
        Some(ground) => match ground.entity {
            Some(entity) => runtime.shape(entity),
            None => None,
        },
        None => None,
    }
}

/// Crouching only ever lowers a capsule whose crouch height is at most its
/// full height, and neither is shorter than its diameter.
pub proof fn law_crouching_lowers_the_capsule(cfg: Box3dCharacterController, diameter: Scalar)
    requires
        cfg.crouch_height.at_most(cfg.height),
        !diameter.nan(),
    ensures
        capsule_height_spec(cfg, true, diameter).at_most(capsule_height_spec(cfg, false, diameter)),
        diameter.at_most(capsule_height_spec(cfg, true, diameter)),
        diameter.at_most(capsule_height_spec(cfg, false, diameter)),
{
}

/// A character leaves the ground exactly when it rises faster than ground can
/// hold it: in the air by its own speed, and on ground by its speed over that of
/// the ground as well. A faster rise leaves the ground whenever a slower one does.
/// Nothing but the ground changes, and the probe follows a platform that sinks.
pub proof fn law_leaving_the_ground(
    cfg: Box3dCharacterController,
    state: Box3dCharacterControllerState,
    relative_rise: Scalar,
    steeper: Scalar,
)
    requires
        !cfg.unground_speed.nan() && !state.velocity.y.nan() && !relative_rise.nan(),
        !steeper.nan() && relative_rise.value() <= steeper.value(),
        !state.platform_velocity.y.nan(),
    ensures
        state.velocity.y.value() <= cfg.unground_speed.value() ==> !shoots_up(
            cfg,
            state,
            relative_rise,
        ),
        state.grounded is None && state.velocity.y.value() > cfg.unground_speed.value()
            ==> shoots_up(cfg, state, relative_rise),
        state.grounded is Some && relative_rise.value() <= cfg.unground_speed.value()
            ==> !shoots_up(cfg, state, relative_rise),
        state.velocity.y.value() > cfg.unground_speed.value() && relative_rise.value()
            > cfg.unground_speed.value() ==> shoots_up(cfg, state, relative_rise),
        shoots_up(cfg, state, relative_rise) ==> shoots_up(cfg, state, steeper),
        ({
            let (after, probe) = probe_begun(cfg, state, relative_rise);
            &&& probe == GroundProbe::LeavesGround <==> shoots_up(cfg, state, relative_rise)
            &&& probe == GroundProbe::LeavesGround ==> after.grounded is None
            &&& probe != GroundProbe::LeavesGround ==> after.grounded == state.grounded
            &&& (probe matches GroundProbe::Cast { sinking } ==> (sinking
                <==> state.platform_velocity.y.value() < 0))
            &&& after == (Box3dCharacterControllerState { grounded: after.grounded, ..state })
        }),
{
    assert((Scalar { bits: 0 }).value() == 0);
}

/// Ground is what the cast met, and only without a hit what the body reaches
/// into; and it is ground only if it can be stood on. The character rides on
/// that, or on what it just left. Nothing else changes, and a platform without a
/// body stands still.
pub proof fn law_ground_that_is_found(
    cfg: Box3dCharacterController,
    state: Box3dCharacterControllerState,
    hit: Box3dCastHit,
    overlap: Option<Box3dCastHit>,
    motion: PlatformMotion,
    links: Links,
)
    requires
        !hit.normal.y.nan() && !cfg.min_walk_cos.nan(),
    ensures
        hit.normal.y.value() >= cfg.min_walk_cos.value() ==> ground_among(cfg, Some(hit), overlap)
            == Some(hit),
        hit.normal.y.value() < cfg.min_walk_cos.value() ==> ground_among(
            cfg,
            Some(hit),
            overlap,
        ) is None,
        hit.normal.y.value() >= cfg.min_walk_cos.value() ==> ground_among(cfg, None, Some(hit))
            == Some(hit),
        hit.normal.y.value() < cfg.min_walk_cos.value() ==> ground_among(
            cfg,
            None,
            Some(hit),
        ) is None,
        ground_among(cfg, None, None) is None,
        ({
            let (after, platform) = ground_settled(cfg, state, Some(hit), overlap);
            &&& after.grounded is Some ==> after.grounded == Some(hit) && platform == Some(hit)
            &&& after.grounded is None ==> platform == state.grounded
            &&& after.grounded == ground_among(cfg, Some(hit), overlap)
            &&& after == (Box3dCharacterControllerState { grounded: after.grounded, ..state })
        }),
        ({
            let (after, platform) = ground_settled(cfg, state, None, overlap);
            &&& after.grounded == ground_among(cfg, None, overlap)
            &&& platform == after.grounded || after.grounded is None && platform == state.grounded
            &&& after.grounded is Some ==> platform == after.grounded
        }),
        carried_along(state, Some(motion)).platform_velocity == motion.velocity,
        carried_along(state, Some(motion)).platform_angular_velocity == motion.angular_velocity,
        carried_along(state, None).platform_velocity.null(),
        carried_along(state, None).platform_angular_velocity.null(),
        carried_along(state, Some(motion)).velocity == state.velocity,
        carried_along(state, Some(motion)).grounded == state.grounded,
        carried_along(state, None) == (Box3dCharacterControllerState {
            platform_velocity: carried_along(state, None).platform_velocity,
            platform_angular_velocity: carried_along(state, None).platform_angular_velocity,
            ..state
        }),
        carried_along(state, Some(motion)) == (Box3dCharacterControllerState {
            platform_velocity: motion.velocity,
            platform_angular_velocity: motion.angular_velocity,
            ..state
        }),
        hit.entity is None ==> carrier_of(links, hit) is None,
        hit.entity is Some ==> carrier_of(links, hit) == links.carrier(hit.entity->0),
        state.grounded is None ==> shape_underfoot(links, state) is None && !is_spun(state),
        state.grounded == Some(hit) && hit.entity is Some ==> shape_underfoot(links, state)
            == links.shape(hit.entity->0),
        state.grounded == Some(hit) && hit.entity is None ==> shape_underfoot(links, state) is None,
        state.grounded is Some ==> is_spun(state),
{
}

/// A character snaps down to ground that it can stand on and that is farther off
/// than where it stands already. It is then where it lands, and a drop that is
/// deep enough counts as a step down. Else nothing changes.
pub proof fn law_snapping_down(
    cfg: Box3dCharacterController,
    position: Vector,
    state: Box3dCharacterControllerState,
    hit: Box3dCastHit,
    landing: Vector,
    drop: Scalar,
    reach: Scalar,
)
    requires
        !hit.normal.y.nan() && !cfg.min_walk_cos.nan() && !hit.distance.nan(),
        !cfg.ground_distance.nan() && !drop.nan() && !cfg.step_down_detection_distance.nan(),
    ensures
        ({
            let (at, after) = snapped(cfg, position, state, Some(hit), landing, drop);
            let lands = hit.normal.y.value() >= cfg.min_walk_cos.value() && hit.distance.value()
                > cfg.ground_distance.value();
            &&& snaps(cfg, Some(hit)) <==> lands
            &&& lands ==> at == landing
            &&& !lands ==> at == position && after == state
            &&& lands && drop.value() > cfg.step_down_detection_distance.value()
                ==> after.last_step_down.elapsed@ == 0
            &&& drop.value() <= cfg.step_down_detection_distance.value() ==> after == state
            &&& after == (Box3dCharacterControllerState {
                last_step_down: after.last_step_down,
                ..state
            })
            &&& after.last_step_down.paused == state.last_step_down.paused
        }),
        !snaps(cfg, None),
        snapped(cfg, position, state, None, landing, drop) == (position, state),
        way_to(Some(hit), reach) == hit.distance,
        way_to(None, reach) == reach,
{
    broadcast use crate::time::lemma_view_of;

}

/// A character crouches as long as it is asked to, and goes on to while it could
/// not stand. It neither crouches unasked nor stays down with room above. The
/// eyes and the body are those of how it stands.
pub proof fn law_crouching(
    cfg: Box3dCharacterController,
    state: Box3dCharacterControllerState,
    input: AccumulatedInput,
    blocked: bool,
    diameter: Scalar,
    reduced: Scalar,
)
    requires
        !diameter.nan() && !cfg.crouch_height.nan() && !cfg.height.nan() && !reduced.nan(),
    ensures
        ({
            let after = crouched(state, input, blocked);
            &&& input.crouched ==> after.crouching
            &&& !input.crouched && !state.crouching ==> !after.crouching
            &&& !input.crouched && !blocked ==> !after.crouching
            &&& !input.crouched && state.crouching && blocked ==> after.crouching
            &&& after == (Box3dCharacterControllerState { crouching: after.crouching, ..state })
        }),
        state.crouching ==> eye_height_of(cfg, state) == cfg.crouch_view_height,
        !state.crouching ==> eye_height_of(cfg, state) == cfg.view_height,
        !state.crouching ==> body_height(cfg, state, diameter) == cfg.height,
        state.crouching ==> body_height(cfg, state, diameter).value() >= cfg.crouch_height.value()
            && body_height(cfg, state, diameter).value() >= diameter.value(),
        state.crouching ==> body_height(cfg, state, diameter) == cfg.crouch_height || body_height(
            cfg,
            state,
            diameter,
        ) == diameter,
        ({
            let (tall, low) = (
                capsule_height_spec(cfg, false, diameter),
                capsule_height_spec(cfg, true, diameter),
            );
            &&& tall == cfg.height || tall == diameter
            &&& low == cfg.crouch_height || low == diameter
            &&& tall.value() >= cfg.height.value() && tall.value() >= diameter.value()
            &&& low.value() >= cfg.crouch_height.value() && low.value() >= diameter.value()
        }),
        reduced.value() >= 0 ==> half_of_segment(reduced) == reduced,
        reduced.value() < 0 ==> half_of_segment(reduced).value() == 0,
{
    assert((Scalar { bits: 0 }).value() == 0);
}

/// A search for ground ends with the ground that was found, or with none where
/// the character shoots up, and changes nothing but that and the platform's
/// motion.
pub proof fn law_search_for_ground(
    cfg: Box3dCharacterController,
    state: Box3dCharacterControllerState,
    answers: GroundAnswers,
)
    ensures
        ({
            let after = after_ground_search(cfg, state, answers);
            &&& shoots_up(cfg, state, answers.relative_rise) ==> after.grounded is None
                && after.platform_velocity == state.platform_velocity
            &&& !shoots_up(cfg, state, answers.relative_rise) ==> after.grounded == ground_among(
                cfg,
                answers.cast,
                answers.overlap,
            )
            &&& after.grounded is Some && answers.motion is Some ==> after.platform_velocity
                == answers.motion->0.velocity
            &&& after.grounded is Some && answers.motion is None ==> after.platform_velocity.null()
            &&& after.velocity == state.velocity && after.crouching == state.crouching
            &&& after.mantle == state.mantle && after.crane_height_left == state.crane_height_left
            &&& after.tac_velocity == state.tac_velocity && after.held_body == state.held_body
            &&& after.last_ground == state.last_ground && after.last_tac == state.last_tac
        }),
{
}

}
