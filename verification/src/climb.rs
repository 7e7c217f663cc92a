//! Climbing: craning up low ledges, mantling high ones, climbing down from
//! them and jumping off.

use vstd::prelude::*;
use crate::controller::{
    is_fresh, AccumulatedInput, Box3dCastHit, Box3dCharacterController, Box3dCharacterControllerState,
    Box3dMantleState, CharacterControllerOutput, MantleOutput,
};
use crate::entity::Entity;
use crate::scalar::{Scalar, Vector, EPSILON, ONE};

verus! {

/// The pattern of 0.01.
pub const HUNDREDTH: u32 = 0x3c23_d70a;

/// The wall is there, and the movement heads into it squarely enough.
pub open spec fn faces(facing: Option<Scalar>, min_cos: Scalar) -> bool {
    match facing {
        Some(facing) => !facing.below(min_cos),
        None => false,
    }
}

fn is_facing(facing: &Option<Scalar>, min_cos: Scalar) -> (r: bool)
    ensures
        r == faces(*facing, min_cos),
{
    match facing {
        Some(facing) => !facing.lt(min_cos),
        None => false,
    }
}

pub open spec fn heading_of(wish: Option<Vector>, moving: Option<Vector>) -> Option<Vector> {
    if wish is Some {
        wish
    } else {
        moving
    }
}

/// The direction in which a character climbs: that of its wish, else that of
/// its movement.
pub fn crane_heading(wish: Option<Vector>, moving: Option<Vector>) -> (r: Option<Vector>)
    ensures
        r == (if wish is Some {
            wish
        } else {
            moving
        }),
        r == heading_of(wish, moving),
{
    if wish.is_some() {
        wish
    } else {
        moving
    }
}

/// The casts up and back down that a crane looks with, by what the first met.
pub open spec fn casts_for_a_crane(
    cfg: Box3dCharacterController,
    above: Option<Box3dCastHit>,
) -> (Vector, Vector) {
    let up = match above {
        Some(hit) => hit.distance,
        None => cfg.crane_height,
    };
    (crate::scalar::upward(cfg.crane_height), crate::scalar::upward(up.opposite()))
}

/// The cast up of a probe for a ledge to crane onto.
pub fn crane_up_cast(cfg: &Box3dCharacterController) -> (r: Vector)
    ensures
        r == crate::scalar::upward(cfg.crane_height),
        r == casts_for_a_crane(*cfg, None).0,
{
    Vector::up(cfg.crane_height)
}

/// The cast back down of such a probe: as far as the character got up.
pub fn crane_down_cast(cfg: &Box3dCharacterController, above: &Option<Box3dCastHit>) -> (r: Vector)
    ensures
        r == crate::scalar::upward(
            (match *above {
                Some(hit) => hit.distance,
                None => cfg.crane_height,
            }).opposite(),
        ),
        r == casts_for_a_crane(*cfg, *above).1,
{
    Vector::down(crate::ground::clear_distance(above, cfg.crane_height))
}

/// The cast down of a character that is to climb down: nothing may be there.
pub fn climbdown_cast(cfg: &Box3dCharacterController) -> (r: Vector)
    ensures
        r == crate::scalar::upward(cfg.crane_height.opposite()),
        r == casts_for_a_crane(*cfg, None).1,
{
    Vector::down(cfg.crane_height)
}

/// The cast down of a probe for a ledge to mantle onto: as far as the character
/// reaches.
pub fn mantle_cast(reach: Scalar) -> (r: Vector)
    ensures
        r == crate::scalar::upward(reach.opposite()),
{
    Vector::down(reach)
}

/// Where a character would come to stand if it craned.
#[derive(Clone, Copy, Debug, PartialEq, Eq, Structural)]
pub struct CraneLanding {
    pub normal: Vector,
    /// How far up that is.
    pub height: Scalar,
    /// Whether something is in the way there.
    pub blocked: bool,
}

/// What a character found in front of it and above.
#[derive(Clone, Copy, Debug, PartialEq, Eq, Structural)]
pub struct CraneProbe {
    /// How squarely the movement heads into the wall in front, if there is one.
    pub facing: Option<Scalar>,
    pub landing: Option<CraneLanding>,
}

/// The height to crane up: to a landing behind a wall, not too steep, higher
/// than a step and within reach, with room for the character.
pub open spec fn crane_height(cfg: Box3dCharacterController, probe: CraneProbe) -> Option<Scalar> {
    match probe.landing {
        Some(landing) => {
            if faces(probe.facing, cfg.min_crane_cos) && !crate::contact::too_steep(
                landing.normal,
                cfg,
            ) && !landing.height.at_most(cfg.step_size) && !cfg.crane_height.below(landing.height)
                && !landing.blocked {
                Some(landing.height)
            } else {
                None
            }
        },
        None => None,
    }
}

pub fn available_box3d_crane_height(
    cfg: &Box3dCharacterController,
    probe: &CraneProbe,
) -> (r: Option<Scalar>)
    ensures
        r == crane_height(*cfg, *probe),
{
    match probe.landing {
        Some(landing) => {
            if is_facing(&probe.facing, cfg.min_crane_cos) && !landing.normal.y.lt(cfg.min_walk_cos)
                && !landing.height.le(cfg.step_size) && !cfg.crane_height.lt(landing.height)
                && !landing.blocked {
                Some(landing.height)
            } else {
                None
            }
        },
        None => None,
    }
}

/// The character is asked to crane and is neither craning nor mantling.
pub open spec fn crane_wanted(
    cfg: Box3dCharacterController,
    state: Box3dCharacterControllerState,
    input: AccumulatedInput,
) -> bool {
    &&& state.mantle is None
    &&& state.crane_height_left is None
    &&& crate::controller::fresh(input.craned, cfg.crane_input_buffer)
}

pub fn wants_crane(
    cfg: &Box3dCharacterController,
    state: &Box3dCharacterControllerState,
    input: &AccumulatedInput,
) -> (r: bool)
    ensures
        r == crane_wanted(*cfg, *state, *input),
{
    state.mantle.is_none() && state.crane_height_left.is_none() && is_fresh(
        &input.craned,
        &cfg.crane_input_buffer,
    )
}

/// State and input once a request to crane has been answered. A crane that
/// starts uses up every request that it answers.
pub open spec fn after_crane_request(
    cfg: Box3dCharacterController,
    state: Box3dCharacterControllerState,
    input: AccumulatedInput,
    probe: CraneProbe,
) -> (Box3dCharacterControllerState, AccumulatedInput) {
    if crane_wanted(cfg, state, input) && crane_height(cfg, probe) is Some {
        (
            Box3dCharacterControllerState {
                mantle: None,
                grounded: None,
                crane_height_left: crane_height(cfg, probe),
                ..state
            },
            AccumulatedInput { craned: None, jumped: None, mantled: None, tac: None, ..input },
        )
    } else {
        (state, input)
    }
}

/// Starts to crane if the character is asked to and can.
pub fn update_box3d_crane_state(
    cfg: &Box3dCharacterController,
    state: &mut Box3dCharacterControllerState,
    input: &mut AccumulatedInput,
    probe: &CraneProbe,
)
    ensures
        (*final(state), *final(input)) == after_crane_request(
            *cfg,
            *old(state),
            *old(input),
            *probe,
        ),
{
    if !wants_crane(cfg, state, input) {
        return;
    }
    let height = available_box3d_crane_height(cfg, probe);
    if height.is_some() {
        input.craned = None;
        input.jumped = None;
        input.mantled = None;
        input.tac = None;
        state.mantle = None;
        state.grounded = None;
        state.crane_height_left = height;
    }
}

/// Nothing is in the way.
pub open spec fn way_is_free(hit: Option<Box3dCastHit>) -> bool {
    hit is None
}

/// The height left after a rise: none under a ceiling, and never less than none.
pub open spec fn left_after_rise(under_ceiling: bool, remainder: Scalar) -> Scalar {
    if under_ceiling {
        Scalar { bits: 0 }
    } else {
        remainder.larger(Scalar { bits: 0 })
    }
}

/// The height left at the end of a tick: a crane is over as soon as the way
/// ahead is clear, or when no height is left.
pub open spec fn left_after_move(left: Scalar, way_is_clear: bool) -> Option<Scalar> {
    if way_is_clear || left.same(Scalar { bits: 0 }) {
        None
    } else {
        Some(left)
    }
}

/// What a crane's tick needs next.
#[derive(Clone, Copy, Debug, PartialEq, Eq, Structural)]
pub enum CranePhase {
    /// The velocity sped up toward the wish.
    Accelerate,
    /// The velocity with and again without that of the platform, and whether it
    /// has a heading.
    Steer,
    /// How squarely the movement heads into the wall in front.
    Face,
    /// What a cast up meets.
    Rise,
    /// The character moved along with its platform.
    Drift,
    /// What a cast ahead meets.
    Ahead,
    /// Nothing: the tick is over for the crane.
    Over,
}

/// Where a crane's tick stands.
#[derive(Clone, Copy, Debug, PartialEq, Eq, Structural)]
pub struct CraneState {
    pub phase: CranePhase,
    /// The height left at the start.
    pub height: Scalar,
    /// The velocity that the character keeps.
    pub velocity: Vector,
    /// Whether the rise ended under a ceiling.
    pub under_ceiling: bool,
}

/// The state with a level velocity.
pub open spec fn levelled(state: Box3dCharacterControllerState) -> Box3dCharacterControllerState {
    Box3dCharacterControllerState {
        velocity: Vector { y: Scalar { bits: 0 }, ..state.velocity },
        ..state
    }
}

impl CraneState {
    /// A crane's tick at its start, with that height left.
    pub open spec fn start(state: Box3dCharacterControllerState, height: Scalar) -> CraneState {
        CraneState {
            phase: CranePhase::Accelerate,
            height,
            velocity: levelled(state).velocity,
            under_ceiling: false,
        }
    }

    /// The rise of a tick: no farther than the height that is left.
    pub open spec fn rise_within(self, step: Scalar) -> Scalar {
        step.smaller(self.height)
    }

    /// The velocity is levelled again after the speeding up.
    pub open spec fn after_accelerating(
        self,
        state: Box3dCharacterControllerState,
        velocity: Vector,
    ) -> (CraneState, Box3dCharacterControllerState) {
        let level = levelled(Box3dCharacterControllerState { velocity, ..state });
        (CraneState { phase: CranePhase::Steer, velocity: level.velocity, ..self }, level)
    }

    pub open spec fn after_steering(
        self,
        state: Box3dCharacterControllerState,
        velocity: Vector,
        has_heading: bool,
    ) -> (CraneState, Box3dCharacterControllerState) {
        if has_heading {
            (
                CraneState { phase: CranePhase::Face, velocity, ..self },
                Box3dCharacterControllerState { velocity, ..state },
            )
        } else {
            (
                CraneState { phase: CranePhase::Over, velocity, ..self },
                Box3dCharacterControllerState { velocity, crane_height_left: None, ..state },
            )
        }
    }

    pub open spec fn after_facing(
        self,
        cfg: Box3dCharacterController,
        state: Box3dCharacterControllerState,
        facing: Option<Scalar>,
    ) -> (CraneState, Box3dCharacterControllerState) {
        if faces(facing, cfg.min_crane_cos) {
            (CraneState { phase: CranePhase::Rise, ..self }, state)
        } else {
            (
                CraneState { phase: CranePhase::Over, ..self },
                Box3dCharacterControllerState { crane_height_left: None, ..state },
            )
        }
    }

    pub open spec fn after_rising(
        self,
        state: Box3dCharacterControllerState,
        hit: Option<Box3dCastHit>,
    ) -> (CraneState, Box3dCharacterControllerState) {
        (
            CraneState {
                phase: CranePhase::Drift,
                velocity: state.velocity,
                under_ceiling: hit is Some,
                ..self
            },
            Box3dCharacterControllerState { velocity: state.platform_velocity, ..state },
        )
    }

    pub open spec fn after_drifting(
        self,
        state: Box3dCharacterControllerState,
        remainder: Scalar,
    ) -> (CraneState, Box3dCharacterControllerState) {
        (
            CraneState { phase: CranePhase::Ahead, ..self },
            Box3dCharacterControllerState {
                velocity: self.velocity,
                crane_height_left: Some(left_after_rise(self.under_ceiling, remainder)),
                last_step_up: state.last_step_up.cleared(),
                ..state
            },
        )
    }

    pub open spec fn after_looking(
        self,
        state: Box3dCharacterControllerState,
        hit: Option<Box3dCastHit>,
    ) -> (CraneState, Box3dCharacterControllerState) {
        (
            CraneState { phase: CranePhase::Over, ..self },
            Box3dCharacterControllerState {
                crane_height_left: match state.crane_height_left {
                    Some(left) => left_after_move(left, hit is None),
                    None => None,
                },
                ..state
            },
        )
    }
}

/// A crane's tick under way.
#[derive(Clone, Copy, Debug, PartialEq, Eq, Structural)]
pub struct CraneMove {
    at: CraneState,
}

impl View for CraneMove {
    type V = CraneState;

    closed spec fn view(&self) -> CraneState {
        self.at
    }
}

impl CraneMove {
    /// Begins a tick of a crane, if one is under way: levels the velocity.
    pub fn begin(state: &mut Box3dCharacterControllerState) -> (r: Option<CraneMove>)
        ensures
            old(state).crane_height_left is None ==> r is None && *final(state) == *old(state),
            old(state).crane_height_left matches Some(height) ==> {
                &&& r is Some && r->0@ == CraneState::start(*old(state), height)
                &&& *final(state) == levelled(*old(state))
            },
    {
        match state.crane_height_left {
            None => None,
            Some(height) => {
                state.velocity = state.velocity.with_y(Scalar::zero());
                Some(
                    CraneMove {
                        at: CraneState {
                            phase: CranePhase::Accelerate,
                            height,
                            velocity: state.velocity,
                            under_ceiling: false,
                        },
                    },
                )
            },
        }
    }

    pub fn phase(&self) -> (r: CranePhase)
        ensures
            r == self@.phase,
    {
        self.at.phase
    }

    /// The height left at the start.
    pub fn height(&self) -> (r: Scalar)
        ensures
            r == self@.height,
    {
        self.at.height
    }

    /// Takes the velocity after the speeding up, and levels it again.
    pub fn accelerated(&mut self, state: &mut Box3dCharacterControllerState, velocity: Vector)
        requires
            old(self)@.phase == CranePhase::Accelerate,
        ensures
            (final(self)@, *final(state)) == old(self)@.after_accelerating(*old(state), velocity),
    {
        state.velocity = velocity.with_y(Scalar::zero());
        self.at.velocity = state.velocity;
        self.at.phase = CranePhase::Steer;
    }

    /// Takes the velocity after that of the platform was added and taken away
    /// again. Without a heading the crane is over.
    pub fn steered(
        &mut self,
        state: &mut Box3dCharacterControllerState,
        velocity: Vector,
        has_heading: bool,
    )
        requires
            old(self)@.phase == CranePhase::Steer,
        ensures
            (final(self)@, *final(state)) == old(self)@.after_steering(
                *old(state),
                velocity,
                has_heading,
            ),
    {
        self.at.velocity = velocity;
        state.velocity = velocity;
        if has_heading {
            self.at.phase = CranePhase::Face;
        } else {
            state.crane_height_left = None;
            self.at.phase = CranePhase::Over;
        }
    }

    /// Takes how squarely the movement heads into the wall in front, if there is
    /// one. Unless it does so squarely enough the crane is over.
    pub fn faced(
        &mut self,
        cfg: &Box3dCharacterController,
        state: &mut Box3dCharacterControllerState,
        facing: Option<Scalar>,
    )
        requires
            old(self)@.phase == CranePhase::Face,
        ensures
            (final(self)@, *final(state)) == old(self)@.after_facing(*cfg, *old(state), facing),
    {
        if is_facing(&facing, cfg.min_crane_cos) {
            self.at.phase = CranePhase::Rise;
        } else {
            state.crane_height_left = None;
            self.at.phase = CranePhase::Over;
        }
    }

    /// How far the character tries to rise: as far as its speed goes, no
    /// farther than the height that is left.
    pub fn rise(&self, step: Scalar) -> (r: Scalar)
        ensures
            r == step.smaller(self@.height),
            r == self@.rise_within(step),
    {
        step.min(self.at.height)
    }

    /// The cast up of a rise.
    pub fn rise_cast(rise: Scalar) -> (r: Vector)
        ensures
            r == crate::scalar::upward(rise),
    {
        Vector::up(rise)
    }

    /// Takes what the cast up by `rise` met. Returns how far the character
    /// rises. While it then drifts it has the platform's velocity alone.
    pub fn risen(
        &mut self,
        state: &mut Box3dCharacterControllerState,
        hit: &Option<Box3dCastHit>,
        rise: Scalar,
    ) -> (r: Scalar)
        requires
            old(self)@.phase == CranePhase::Rise,
        ensures
            r == (match *hit {
                Some(hit) => hit.distance,
                None => rise,
            }),
            r == crate::ground::way_to(*hit, rise),
            (final(self)@, *final(state)) == old(self)@.after_rising(*old(state), *hit),
    {
        self.at.velocity = state.velocity;
        self.at.under_ceiling = hit.is_some();
        self.at.phase = CranePhase::Drift;
        state.velocity = state.platform_velocity;
        match hit {
            Some(hit) => hit.distance,
            None => rise,
        }
    }

    /// Takes the height left at the start less the rise, once the character has
    /// drifted. It has its own velocity back.
    pub fn drifted(&mut self, state: &mut Box3dCharacterControllerState, remainder: Scalar)
        requires
            old(self)@.phase == CranePhase::Drift,
        ensures
            (final(self)@, *final(state)) == old(self)@.after_drifting(*old(state), remainder),
    {
        let left = if self.at.under_ceiling {
            Scalar::zero()
        } else {
            remainder.max(Scalar::zero())
        };
        state.velocity = self.at.velocity;
        state.crane_height_left = Some(left);
        state.last_step_up.reset();
        self.at.phase = CranePhase::Ahead;
    }

    /// Takes what the cast ahead met. Returns whether the character moves ahead
    /// now, onto the ledge.
    pub fn looked_ahead(
        &mut self,
        state: &mut Box3dCharacterControllerState,
        hit: &Option<Box3dCastHit>,
    ) -> (r: bool)
        requires
            old(self)@.phase == CranePhase::Ahead,
        ensures
            r == (*hit is None),
            r == way_is_free(*hit),
            (final(self)@, *final(state)) == old(self)@.after_looking(*old(state), *hit),
    {
        self.at.phase = CranePhase::Over;
        let way_is_clear = hit.is_none();
        if let Some(left) = state.crane_height_left {
            if way_is_clear || left.eq_value(Scalar::zero()) {
                state.crane_height_left = None;
            }
        }
        way_is_clear
    }
}

/// All that a crane's tick is answered.
pub struct CraneAnswers {
    /// The velocity after the speeding up.
    pub sped_up: Vector,
    /// The velocity, with and again without that of the platform.
    pub velocity: Vector,
    pub has_heading: bool,
    pub facing: Option<Scalar>,
    /// What the cast up met.
    pub above: Option<Box3dCastHit>,
    /// The velocity, and the speed lost against walls, after the drift with the
    /// platform.
    pub drift_velocity: Vector,
    pub drift_tac_velocity: Scalar,
    /// The height at the start less the rise.
    pub remainder: Scalar,
    /// What the cast ahead met.
    pub ahead: Option<Box3dCastHit>,
}

/// The state at the end of a crane's tick. Speeding up changes the velocity
/// alone; the drift changes the velocity, and what is lost against walls.
pub open spec fn crane_ticked(
    cfg: Box3dCharacterController,
    state: Box3dCharacterControllerState,
    answers: CraneAnswers,
) -> Box3dCharacterControllerState {
    match state.crane_height_left {
        None => state,
        Some(height) => {
            let (c1, s1) = CraneState::start(state, height).after_accelerating(
                levelled(state),
                answers.sped_up,
            );
            let (c2, s2) = c1.after_steering(s1, answers.velocity, answers.has_heading);
            let (c3, s3) = c2.after_facing(cfg, s2, answers.facing);
            let (c4, s4) = c3.after_rising(s3, answers.above);
            let drifted = Box3dCharacterControllerState {
                velocity: answers.drift_velocity,
                tac_velocity: answers.drift_tac_velocity,
                ..s4
            };
            let (c5, s5) = c4.after_drifting(drifted, answers.remainder);
            if c2.phase == CranePhase::Over {
                s2
            } else if c3.phase == CranePhase::Over {
                s3
            } else {
                c5.after_looking(s5, answers.ahead).1
            }
        },
    }
}

/// A crane leaves the character with the velocity that it was steered to,
/// whether it is over or not, and so a level one stays level. It goes on only
/// below no ceiling, in front of a wall that is faced, with the way ahead
/// blocked; the height left is then the remainder, above zero. What it lost against
/// walls is what the drift left, and it counts as a step up, if it rose at all.
/// Nothing else of the character changes.
pub proof fn law_crane_stays_level(
    cfg: Box3dCharacterController,
    state: Box3dCharacterControllerState,
    answers: CraneAnswers,
)
    requires
        state.crane_height_left is Some,
    ensures
        ({
            let end = crane_ticked(cfg, state, answers);
            &&& end.velocity == answers.velocity
            &&& answers.velocity.y.same(Scalar { bits: 0 }) ==> end.velocity.y.same(
                Scalar { bits: 0 },
            )
            &&& end.crane_height_left matches Some(left) ==> {
                &&& left == answers.remainder && crate::scalar::positive(left)
                &&& answers.has_heading && faces(answers.facing, cfg.min_crane_cos)
                &&& answers.above is None && answers.ahead is Some
            }
            &&& answers.has_heading && faces(answers.facing, cfg.min_crane_cos) ==> {
                &&& end.tac_velocity == answers.drift_tac_velocity
                &&& end.last_step_up == state.last_step_up.cleared()
            }
            &&& !answers.has_heading || !faces(answers.facing, cfg.min_crane_cos) ==> {
                &&& end.crane_height_left is None && end.tac_velocity == state.tac_velocity
                &&& end.last_step_up == state.last_step_up
            }
            &&& end == (Box3dCharacterControllerState {
                velocity: end.velocity,
                tac_velocity: end.tac_velocity,
                crane_height_left: end.crane_height_left,
                last_step_up: end.last_step_up,
                ..state
            })
        }),
{
    law_crane_ends_at_the_top(answers.above is Some, answers.remainder, answers.ahead is None);
}

/// `remainder` is `height` less `rise`, to within `error` quanta, and exactly
/// nothing if the two are equal.
pub open spec fn is_less(remainder: Scalar, height: Scalar, rise: Scalar, error: int) -> bool {
    &&& remainder.finite()
    &&& -error <= remainder.value() - (height.value() - rise.value()) <= error
    &&& height.value() == rise.value() ==> remainder.value() == 0
}

/// A crane with `height` to go has `left` to go after a step: the height was
/// more than the step, and what is left is above zero and lower by the step, to
/// within `error` quanta.
pub open spec fn lowered(height: Scalar, left: Scalar, step: Scalar, error: int) -> bool {
    &&& step.value() < height.value()
    &&& 0 < left.value()
    &&& -error <= left.value() - (height.value() - step.value()) <= error
}

/// A tick of a crane either ends it or leaves it lower by the step. `error`
/// bounds how far the difference was rounded; nothing is lost to it in exact
/// arithmetic.
pub proof fn law_crane_comes_down_by_the_step(
    cfg: Box3dCharacterController,
    state: Box3dCharacterControllerState,
    answers: CraneAnswers,
    step: Scalar,
    error: int,
)
    requires
        state.crane_height_left is Some,
        state.crane_height_left->0.finite(),
        step.finite(),
        crate::scalar::positive(step),
        is_less(
            answers.remainder,
            state.crane_height_left->0,
            step.smaller(state.crane_height_left->0),
            error,
        ),
    ensures
        crane_ticked(cfg, state, answers).crane_height_left matches Some(left) ==> lowered(
            state.crane_height_left->0,
            left,
            step,
            error,
        ),
{
    law_crane_stays_level(cfg, state, answers);
    assert((Scalar { bits: 0 }).value() == 0);
}

/// A crane ends: over ticks with the same step, each of which leaves it some
/// height, the steps, each less the rounding, add up to less than the height at
/// the start. In exact arithmetic, the number of such ticks is below the height
/// over the step.
pub proof fn law_crane_ends(heights: Seq<Scalar>, step: Scalar, error: int)
    requires
        heights.len() >= 1,
        heights[0].value() > 0,
        forall|i: int|
            0 <= i < heights.len() - 1 ==> lowered(
                #[trigger] heights[i],
                heights[i + 1],
                step,
                error,
            ),
    ensures
        (heights.len() - 1) * (step.value() - error) < heights[0].value(),
{
    lemma_crane_run(heights, step, error, heights.len() - 1);
}

proof fn lemma_crane_run(heights: Seq<Scalar>, step: Scalar, error: int, n: int)
    requires
        0 <= n < heights.len(),
        heights[0].value() > 0,
        forall|i: int|
            0 <= i < heights.len() - 1 ==> lowered(
                #[trigger] heights[i],
                heights[i + 1],
                step,
                error,
            ),
    ensures
        heights[n].value() > 0,
        heights[n].value() <= heights[0].value() - n * (step.value() - error),
    decreases n,
{
    let gain = step.value() - error;
    if n > 0 {
        lemma_crane_run(heights, step, error, n - 1);
        assert(lowered(heights[n - 1], heights[n - 1 + 1], step, error));
        assert(n * gain == (n - 1) * gain + gain) by (nonlinear_arith);
    }
}

/// A crane that bumps against a ceiling, or whose height is used up, is over at
/// the end of the tick, whatever lies ahead. What it keeps is above zero.
pub proof fn law_crane_ends_at_the_top(under_ceiling: bool, remainder: Scalar, clear: bool)
    ensures
        under_ceiling ==> left_after_move(left_after_rise(under_ceiling, remainder), clear) is None,
        remainder.at_most(Scalar { bits: 0 }) ==> left_after_move(
            left_after_rise(under_ceiling, remainder),
            clear,
        ) is None,
        left_after_move(left_after_rise(under_ceiling, remainder), clear) matches Some(left) ==> {
            &&& !clear && !under_ceiling
            &&& left == remainder && crate::scalar::positive(left)
        },
{
    let zero = Scalar { bits: 0 };
    assert(zero.value() == 0 && !zero.nan());
}

/// The wall that a character reaches for.
#[derive(Clone, Copy, Debug, PartialEq, Eq, Structural)]
pub struct WallContact {
    pub entity: Option<Entity>,
    /// The wall's normal at unit length, if it has a direction.
    pub normal: Option<Vector>,
    /// How squarely the movement heads into the wall.
    pub facing: Scalar,
}

/// The ledge that a character's hands find on top of a wall.
#[derive(Clone, Copy, Debug, PartialEq, Eq, Structural)]
pub struct LedgeContact {
    pub point: Vector,
    pub normal: Vector,
    /// How far the ledge is above the character's feet.
    pub height: Scalar,
    /// Where the character comes to stand.
    pub target: Vector,
    /// Whether something is in the way there.
    pub blocked: bool,
}

/// What a character that reaches for a ledge finds.
#[derive(Clone, Copy, Debug, PartialEq, Eq, Structural)]
pub struct MantleProbe {
    pub wall: Option<WallContact>,
    pub ledge: Option<LedgeContact>,
    /// How high above its feet the character reaches.
    pub reach: Scalar,
}

/// A probe with that radius is wide enough for the hands.
pub open spec fn probes_for_hands(cfg: Box3dCharacterController, radius: Scalar) -> bool {
    exists|half: Scalar| #[trigger]
        crate::scalar::half_of(
            half,
            cfg.min_ledge_grab_space.x.larger(cfg.min_ledge_grab_space.z),
        ) && radius == half.larger(Scalar { bits: HUNDREDTH })
}

/// The radius of the probe for a ledge: half the wider side of the space that
/// hands need, at least a hundredth.
pub fn hand_radius(cfg: &Box3dCharacterController) -> (r: Scalar)
    ensures
        exists|half: Scalar| #[trigger]
            crate::scalar::half_of(
                half,
                cfg.min_ledge_grab_space.x.larger(cfg.min_ledge_grab_space.z),
            ) && r == half.larger(Scalar { bits: HUNDREDTH }),
        probes_for_hands(*cfg, r),
{
    let wider = cfg.min_ledge_grab_space.x.max(cfg.min_ledge_grab_space.z);
    let half = wider.halved();
    assert(crate::scalar::half_of(half, wider));
    half.max(Scalar::new(HUNDREDTH))
}

/// The mantle onto the ledge that a probe found: on top of a wall with an
/// entity and a direction, which the movement heads into, not too steep, higher
/// than a step and within reach, with room for the character.
pub open spec fn mantle_onto(
    cfg: Box3dCharacterController,
    probe: MantleProbe,
) -> Option<Box3dMantleState> {
    match (probe.wall, probe.ledge) {
        (Some(wall), Some(ledge)) => match (wall.normal, wall.entity) {
            (Some(wall_normal), Some(wall_entity)) => {
                if !wall.facing.below(cfg.min_mantle_cos) && !crate::contact::too_steep(
                    ledge.normal,
                    cfg,
                ) && !ledge.height.at_most(cfg.step_size) && !probe.reach.below(ledge.height)
                    && !ledge.blocked {
                    Some(
                        Box3dMantleState {
                            wall_normal,
                            ledge_position: ledge.point,
                            wall_entity,
                            target_position: ledge.target,
                            speed: cfg.mantle_speed,
                            automatic: false,
                        },
                    )
                } else {
                    None
                }
            },
            _ => None,
        },
        _ => None,
    }
}

pub fn find_box3d_mantle(
    cfg: &Box3dCharacterController,
    probe: &MantleProbe,
) -> (r: Option<Box3dMantleState>)
    ensures
        r == mantle_onto(*cfg, *probe),
{
    match (probe.wall, probe.ledge) {
        (Some(wall), Some(ledge)) => match (wall.normal, wall.entity) {
            (Some(wall_normal), Some(wall_entity)) => {
                if !wall.facing.lt(cfg.min_mantle_cos) && !ledge.normal.y.lt(cfg.min_walk_cos)
                    && !ledge.height.le(cfg.step_size) && !probe.reach.lt(ledge.height)
                    && !ledge.blocked {
                    Some(
                        Box3dMantleState {
                            wall_normal,
                            ledge_position: ledge.point,
                            wall_entity,
                            target_position: ledge.target,
                            speed: cfg.mantle_speed,
                            automatic: false,
                        },
                    )
                } else {
                    None
                }
            },
            _ => None,
        },
        _ => None,
    }
}

/// The character is asked to mantle and does not do so already.
pub open spec fn mantle_wanted(
    cfg: Box3dCharacterController,
    state: Box3dCharacterControllerState,
    input: AccumulatedInput,
) -> bool {
    state.mantle is None && crate::controller::fresh(input.mantled, cfg.mantle_input_buffer)
}

pub fn wants_mantle(
    cfg: &Box3dCharacterController,
    state: &Box3dCharacterControllerState,
    input: &AccumulatedInput,
) -> (r: bool)
    ensures
        r == mantle_wanted(*cfg, *state, *input),
{
    state.mantle.is_none() && is_fresh(&input.mantled, &cfg.mantle_input_buffer)
}

/// The state of a character that takes hold of a ledge.
pub open spec fn hanging(
    state: Box3dCharacterControllerState,
    mantle: Option<Box3dMantleState>,
) -> Box3dCharacterControllerState {
    Box3dCharacterControllerState {
        grounded: None,
        velocity: crate::scalar::origin(),
        mantle,
        ..state
    }
}

/// State and input once a request to mantle has been answered. A mantle that
/// starts uses up the requests that it answers.
pub open spec fn after_mantle_request(
    cfg: Box3dCharacterController,
    state: Box3dCharacterControllerState,
    input: AccumulatedInput,
    probe: MantleProbe,
) -> (Box3dCharacterControllerState, AccumulatedInput) {
    if mantle_wanted(cfg, state, input) && mantle_onto(cfg, probe) is Some {
        (
            hanging(state, mantle_onto(cfg, probe)),
            AccumulatedInput { craned: None, mantled: None, jumped: None, ..input },
        )
    } else {
        (state, input)
    }
}

/// Takes hold of a ledge if the character is asked to and can.
pub fn update_box3d_mantle_state(
    cfg: &Box3dCharacterController,
    state: &mut Box3dCharacterControllerState,
    input: &mut AccumulatedInput,
    probe: &MantleProbe,
)
    ensures
        (*final(state), *final(input)) == after_mantle_request(
            *cfg,
            *old(state),
            *old(input),
            *probe,
        ),
{
    if !wants_mantle(cfg, state, input) {
        return;
    }
    let mantle = find_box3d_mantle(cfg, probe);
    if mantle.is_some() {
        state.grounded = None;
        state.velocity = Vector::zero();
        state.mantle = mantle;
        input.craned = None;
        input.mantled = None;
        input.jumped = None;
    }
}

/// The character is asked to climb down, moves backward, and hangs in the air.
pub open spec fn climbdown_wanted(
    cfg: Box3dCharacterController,
    state: Box3dCharacterControllerState,
    input: AccumulatedInput,
) -> bool {
    &&& state.grounded is None
    &&& state.mantle is None
    &&& !(Scalar { bits: 0 }).at_most(input.stick().y)
    &&& crate::controller::fresh(input.climbdown, cfg.climbdown_input_buffer)
}

pub fn wants_climbdown(
    cfg: &Box3dCharacterController,
    state: &Box3dCharacterControllerState,
    input: &AccumulatedInput,
) -> (r: bool)
    ensures
        r == climbdown_wanted(*cfg, *state, *input),
{
    state.grounded.is_none() && state.mantle.is_none() && !Scalar::zero().le(input.movement().y)
        && is_fresh(&input.climbdown, &cfg.climbdown_input_buffer)
}

/// State and input once a request to climb down has been answered. It counts as
/// a request to mantle. If a mantle comes of it, it uses up every request that
/// could act on the ledge; if none does, nothing changes.
pub open spec fn after_climbdown_request(
    cfg: Box3dCharacterController,
    state: Box3dCharacterControllerState,
    input: AccumulatedInput,
    something_below: bool,
    probe: MantleProbe,
) -> (Box3dCharacterControllerState, AccumulatedInput) {
    if climbdown_wanted(cfg, state, input) && !something_below && crate::controller::fresh(
        input.climbdown,
        cfg.mantle_input_buffer,
    ) && mantle_onto(cfg, probe) is Some {
        (
            hanging(state, mantle_onto(cfg, probe)),
            AccumulatedInput {
                craned: None,
                mantled: None,
                jumped: None,
                climbdown: None,
                tac: None,
                ..input
            },
        )
    } else {
        (state, input)
    }
}

/// Takes hold of the ledge that the character just walked off, if it is asked
/// to and nothing is below. `probe` reaches for the ledge from below, against
/// the movement.
pub fn update_box3d_climbdown_state(
    cfg: &Box3dCharacterController,
    state: &mut Box3dCharacterControllerState,
    input: &mut AccumulatedInput,
    something_below: bool,
    probe: &MantleProbe,
)
    ensures
        (*final(state), *final(input)) == after_climbdown_request(
            *cfg,
            *old(state),
            *old(input),
            something_below,
            *probe,
        ),
{
    if !wants_climbdown(cfg, state, input) || something_below {
        return;
    }
    let mantle_request = input.mantled;
    input.mantled = input.climbdown;
    update_box3d_mantle_state(cfg, state, input, probe);
    if state.mantle.is_some() {
        input.craned = None;
        input.mantled = None;
        input.jumped = None;
        input.climbdown = None;
        input.tac = None;
    } else {
        input.mantled = mantle_request;
    }
}

/// What a character on a ledge does in a tick.
#[derive(Clone, Copy, Debug, PartialEq, Eq, Structural)]
pub enum MantleCourse {
    /// It is on no ledge.
    Idle,
    /// It has come to stand on top.
    Arrived,
    /// It hangs where it is.
    Hanging,
    /// It climbs.
    Climbing,
}

/// The course of a mantle, by the square of what is left of the way, that of
/// the skin, and the climb factor.
pub open spec fn course_of(
    mantle: Box3dMantleState,
    gap_squared: Scalar,
    skin_squared: Scalar,
    climb_factor: Scalar,
) -> MantleCourse {
    if gap_squared.at_most(skin_squared) {
        MantleCourse::Arrived
    } else if !mantle.automatic && climb_factor.absolute().at_most(Scalar { bits: EPSILON }) {
        MantleCourse::Hanging
    } else {
        MantleCourse::Climbing
    }
}

/// What a tick on a ledge begins with.
pub struct MantleBegun {
    pub course: MantleCourse,
    pub state: Box3dCharacterControllerState,
    pub position: Vector,
    /// What is told of the ledge.
    pub told: Option<MantleOutput>,
}

pub open spec fn mantle_begun(
    state: Box3dCharacterControllerState,
    position: Vector,
    gap_squared: Scalar,
    skin_squared: Scalar,
    climb_factor: Scalar,
) -> MantleBegun {
    match state.mantle {
        None => MantleBegun { course: MantleCourse::Idle, state, position, told: None },
        Some(mantle) => {
            let course = course_of(mantle, gap_squared, skin_squared, climb_factor);
            let stopped = Box3dCharacterControllerState {
                velocity: crate::scalar::origin(),
                ..state
            };
            MantleBegun {
                course,
                state: if course == MantleCourse::Arrived {
                    Box3dCharacterControllerState {
                        mantle: None,
                        last_step_up: state.last_step_up.cleared(),
                        ..stopped
                    }
                } else {
                    stopped
                },
                position: if course == MantleCourse::Arrived {
                    mantle.target_position
                } else {
                    position
                },
                told: Some(
                    MantleOutput {
                        wall_normal: mantle.wall_normal,
                        ledge_position: mantle.ledge_position,
                        wall_entity: mantle.wall_entity,
                    },
                ),
            }
        },
    }
}

/// Begins a tick on a ledge: tells of the ledge, stops the character, and puts
/// it on top when it has arrived.
pub fn begin_box3d_mantle_move(
    state: &mut Box3dCharacterControllerState,
    output: &mut CharacterControllerOutput,
    position: &mut Vector,
    gap_squared: Scalar,
    skin_squared: Scalar,
    climb_factor: Scalar,
) -> (r: MantleCourse)
    ensures
        old(state).mantle is None ==> r == MantleCourse::Idle && *final(state) == *old(state)
            && *final(output) == *old(output) && *final(position) == *old(position),
        old(state).mantle matches Some(mantle) ==> {
            &&& r == course_of(mantle, gap_squared, skin_squared, climb_factor)
            &&& final(output).touching_entities == old(output).touching_entities
            &&& final(output).mantle == Some(
                MantleOutput {
                    wall_normal: mantle.wall_normal,
                    ledge_position: mantle.ledge_position,
                    wall_entity: mantle.wall_entity,
                },
            )
            &&& *final(position) == (if r == MantleCourse::Arrived {
                mantle.target_position
            } else {
                *old(position)
            })
            &&& *final(state) == (Box3dCharacterControllerState {
                velocity: crate::scalar::origin(),
                mantle: if r == MantleCourse::Arrived {
                    None
                } else {
                    old(state).mantle
                },
                last_step_up: if r == MantleCourse::Arrived {
                    old(state).last_step_up.cleared()
                } else {
                    old(state).last_step_up
                },
                ..*old(state)
            })
        },
        ({
            let begun = mantle_begun(
                *old(state),
                *old(position),
                gap_squared,
                skin_squared,
                climb_factor,
            );
            &&& r == begun.course && *final(state) == begun.state
            &&& *final(position) == begun.position
            &&& final(output).mantle == (match begun.told {
                Some(told) => Some(told),
                None => old(output).mantle,
            })
        }),
{
    match state.mantle {
        None => MantleCourse::Idle,
        Some(mantle) => {
            output.mantle = Some(
                MantleOutput {
                    wall_normal: mantle.wall_normal,
                    ledge_position: mantle.ledge_position,
                    wall_entity: mantle.wall_entity,
                },
            );
            state.velocity = Vector::zero();
            if gap_squared.le(skin_squared) {
                *position = mantle.target_position;
                state.mantle = None;
                state.last_step_up.reset();
                MantleCourse::Arrived
            } else if !mantle.automatic && climb_factor.abs().le(Scalar::new(EPSILON)) {
                MantleCourse::Hanging
            } else {
                MantleCourse::Climbing
            }
        },
    }
}

pub open spec fn factor_of(mantle: Box3dMantleState, climb_factor: Scalar) -> Scalar {
    if mantle.automatic {
        Scalar { bits: ONE }
    } else {
        climb_factor
    }
}

/// The factor that a mantle climbs by: all of its speed if it is automatic.
pub fn mantle_factor(mantle: &Box3dMantleState, climb_factor: Scalar) -> (r: Scalar)
    ensures
        r == (if mantle.automatic {
            Scalar { bits: ONE }
        } else {
            climb_factor
        }),
        r == factor_of(*mantle, climb_factor),
{
    if mantle.automatic {
        Scalar::new(ONE)
    } else {
        climb_factor
    }
}

pub open spec fn goes_straight_up(gap_up: Scalar, skin_width: Scalar) -> bool {
    skin_width.below(gap_up.larger(Scalar { bits: 0 }))
}

/// Whether a mantle goes straight up: while the way up is longer than the skin.
pub fn climbs_straight_up(gap_up: Scalar, skin_width: Scalar) -> (r: bool)
    ensures
        r == skin_width.below(gap_up.larger(Scalar { bits: 0 })),
        r == goes_straight_up(gap_up, skin_width),
{
    skin_width.lt(gap_up.max(Scalar::zero()))
}

pub open spec fn rise_of(step: Scalar, gap_up: Scalar) -> Scalar {
    let left = gap_up.larger(Scalar { bits: 0 });
    step.held_between(left.opposite(), left)
}

/// How far a mantle goes up or down in a tick: `step`, but no farther either
/// way than the way up that is left.
pub fn mantle_rise(step: Scalar, gap_up: Scalar) -> (r: Scalar)
    ensures
        ({
            let left = gap_up.larger(Scalar { bits: 0 });
            r == step.held_between(left.opposite(), left)
        }),
        r == rise_of(step, gap_up),
{
    let left = gap_up.max(Scalar::zero());
    let low = left.negated();
    proof {
        let zero = Scalar { bits: 0 };
        assert(zero.value() == 0 && !zero.nan());
        assert(!left.nan() && left.value() >= 0);
        assert(low.magnitude() == left.magnitude());
    }
    step.clamp(low, left)
}

/// The state at the end of a tick of climbing.
pub open spec fn mantle_finished(
    state: Box3dCharacterControllerState,
    velocity: Vector,
    travelled_squared: Scalar,
    wanted_squared: Scalar,
) -> Box3dCharacterControllerState {
    Box3dCharacterControllerState {
        velocity,
        last_step_up: state.last_step_up.cleared(),
        mantle: if travelled_squared.below(wanted_squared) {
            None
        } else {
            state.mantle
        },
        ..state
    }
}

/// Ends a tick of climbing. The character lets go when it got less far than it
/// wanted to.
pub fn finish_box3d_mantle_move(
    state: &mut Box3dCharacterControllerState,
    position: &mut Vector,
    reached: Vector,
    velocity: Vector,
    travelled_squared: Scalar,
    wanted_squared: Scalar,
)
    ensures
        *final(position) == reached,
        *final(state) == (Box3dCharacterControllerState {
            velocity,
            last_step_up: old(state).last_step_up.cleared(),
            mantle: if travelled_squared.below(wanted_squared) {
                None
            } else {
                old(state).mantle
            },
            ..*old(state)
        }),
        *final(state) == mantle_finished(*old(state), velocity, travelled_squared, wanted_squared),
{
    *position = reached;
    state.velocity = velocity;
    state.last_step_up.reset();
    if travelled_squared.lt(wanted_squared) {
        state.mantle = None;
    }
}

/// How hard a character climbs: not at all without a wish to move, else
/// `pull` between full speed down and up, the other way round when the input
/// goes backward.
pub fn calculate_box3d_climb_factor(
    wish_squared: Scalar,
    movement: Scalar,
    pull: Scalar,
) -> (r: Scalar)
    ensures
        r == climb_factor_of(wish_squared, movement, pull),
{
    if wish_squared.lt(Scalar::new(HUNDREDTH)) {
        return Scalar::zero();
    }
    let full = Scalar::new(ONE);
    let down = full.negated();
    proof {
        lemma_one();
    }
    let factor = pull.clamp(down, full);
    if movement.lt(Scalar::zero()) {
        factor.negated()
    } else {
        factor
    }
}

pub open spec fn climb_factor_of(wish_squared: Scalar, movement: Scalar, pull: Scalar) -> Scalar {
    let full = Scalar { bits: ONE };
    let factor = pull.held_between(full.opposite(), full);
    if wish_squared.below(Scalar { bits: HUNDREDTH }) {
        Scalar { bits: 0 }
    } else if movement.below(Scalar { bits: 0 }) {
        factor.opposite()
    } else {
        factor
    }
}

proof fn lemma_one()
    ensures
        (Scalar { bits: ONE }).opposite().at_most(Scalar { bits: ONE }),
        (Scalar { bits: ONE }).value() > 0,
{
    assert(crate::scalar::quanta(0) == 0);
    crate::scalar::lemma_quanta_increase(0, ONE as nat);
}

/// Climbing backward undoes climbing forward: with the input reversed the
/// factor is the opposite one, and it never exceeds full speed either way.
pub proof fn law_climb_factor_reverses(wish_squared: Scalar, ahead: Scalar, back: Scalar, pull: Scalar)
    requires
        !wish_squared.below(Scalar { bits: HUNDREDTH }),
        !ahead.below(Scalar { bits: 0 }),
        back.below(Scalar { bits: 0 }),
    ensures
        climb_factor_of(wish_squared, back, pull) == climb_factor_of(
            wish_squared,
            ahead,
            pull,
        ).opposite(),
        !pull.nan() ==> climb_factor_of(wish_squared, ahead, pull).at_most(Scalar { bits: ONE }),
        !pull.nan() ==> (Scalar { bits: ONE }).opposite().at_most(
            climb_factor_of(wish_squared, ahead, pull),
        ),
{
    lemma_one();
}

/// The character lets go of a ledge to jump: it is asked to jump, and the
/// request to mantle has aged past its buffer.
pub open spec fn jumps_off(
    cfg: Box3dCharacterController,
    state: Box3dCharacterControllerState,
    input: AccumulatedInput,
) -> bool {
    &&& state.mantle is Some
    &&& input.jumped is Some
    &&& input.mantled matches Some(request) && cfg.mantle_input_buffer@ <= request.elapsed@
}

pub open spec fn jumps_upward(input: AccumulatedInput) -> bool {
    (Scalar { bits: 0 }).at_most(input.stick().y)
}

/// Whether a jump off a ledge goes up and ahead, rather than straight down: not
/// when the input goes backward.
pub fn ledge_jump_goes_up(input: &AccumulatedInput) -> (r: bool)
    ensures
        r == (Scalar { bits: 0 }).at_most(input.stick().y),
        r == jumps_upward(*input),
{
    Scalar::zero().le(input.movement().y)
}

/// State and input after a request to jump off a ledge, and whether it was
/// granted.
pub open spec fn after_ledge_jump(
    cfg: Box3dCharacterController,
    state: Box3dCharacterControllerState,
    input: AccumulatedInput,
    launched: Vector,
) -> (Box3dCharacterControllerState, AccumulatedInput, bool) {
    if jumps_off(cfg, state, input) {
        (
            Box3dCharacterControllerState {
                mantle: None,
                last_tac: state.last_tac.cleared(),
                velocity: launched,
                ..state
            },
            AccumulatedInput { jumped: None, mantled: None, tac: None, ..input },
            true,
        )
    } else {
        (state, input, false)
    }
}

/// Jumps off a ledge if the character is asked to. `launched` is its velocity
/// after the jump. Returns whether it jumped.
pub fn handle_box3d_ledge_jump(
    cfg: &Box3dCharacterController,
    state: &mut Box3dCharacterControllerState,
    input: &mut AccumulatedInput,
    launched: Vector,
) -> (r: bool)
    ensures
        r == jumps_off(*cfg, *old(state), *old(input)),
        !r ==> *final(state) == *old(state) && *final(input) == *old(input),
        r ==> *final(state) == (Box3dCharacterControllerState {
            mantle: None,
            last_tac: old(state).last_tac.cleared(),
            velocity: launched,
            ..*old(state)
        }) && *final(input) == (AccumulatedInput {
            jumped: None,
            mantled: None,
            tac: None,
            ..*old(input)
        }),
        (*final(state), *final(input), r) == after_ledge_jump(
            *cfg,
            *old(state),
            *old(input),
            launched,
        ),
{
    let aged = match input.mantled {
        Some(request) => !request.elapsed.shorter_than(&cfg.mantle_input_buffer),
        None => false,
    };
    if !aged || state.mantle.is_none() || input.jumped.is_none() {
        return false;
    }
    state.mantle = None;
    state.last_tac.reset();
    input.jumped = None;
    input.mantled = None;
    input.tac = None;
    state.velocity = launched;
    true
}

/// The choice between a crane and a mantle: a crane under way ends a mantle,
/// and only without a crane is a request to mantle answered.
pub open spec fn after_climb_requests(
    cfg: Box3dCharacterController,
    state: Box3dCharacterControllerState,
    input: AccumulatedInput,
    crane: CraneProbe,
    mantle: MantleProbe,
) -> (Box3dCharacterControllerState, AccumulatedInput) {
    let (craned, rest) = after_crane_request(cfg, state, input, crane);
    if craned.crane_height_left is Some {
        (Box3dCharacterControllerState { mantle: None, ..craned }, rest)
    } else {
        after_mantle_request(cfg, craned, rest, mantle)
    }
}

/// Whatever went before, a character that moves never cranes and mantles at
/// once. One that starts either has left the ground and has used up its
/// request to crane, to mantle and to jump; one that starts neither keeps its
/// requests and its ground.
pub proof fn law_climbs_exclude_each_other(
    cfg: Box3dCharacterController,
    state: Box3dCharacterControllerState,
    input: AccumulatedInput,
    crane: CraneProbe,
    mantle: MantleProbe,
)
    ensures
        ({
            let (after, rest) = after_climb_requests(cfg, state, input, crane, mantle);
            &&& !(after.crane_height_left is Some && after.mantle is Some)
            &&& (after.crane_height_left is Some && state.crane_height_left is None
                || after.mantle is Some && state.mantle is None) ==> after.grounded is None
                && rest.craned is None && rest.mantled is None && rest.jumped is None
            &&& (after.crane_height_left is Some == state.crane_height_left is Some
                && after.mantle is Some == state.mantle is Some) ==> rest == input
                && after.grounded == state.grounded
        }),
{
}

/// A ledge that was just taken hold of is not jumped off in the same tick,
/// even while a jump is asked for: the mantle used up both requests.
pub proof fn law_fresh_mantle_holds(
    cfg: Box3dCharacterController,
    state: Box3dCharacterControllerState,
    input: AccumulatedInput,
    probe: MantleProbe,
)
    requires
        state.mantle is None,
    ensures
        ({
            let (after, rest) = after_mantle_request(cfg, state, input, probe);
            !jumps_off(cfg, after, rest)
        }),
{
}

/// A request to climb down is answered in the air alone. It either leaves the
/// character hanging with no request left that could act on the ledge, or
/// changes nothing.
pub proof fn law_climbdown_hangs_or_changes_nothing(
    cfg: Box3dCharacterController,
    state: Box3dCharacterControllerState,
    input: AccumulatedInput,
    something_below: bool,
    probe: MantleProbe,
)
    ensures
        ({
            let (after, rest) = after_climbdown_request(cfg, state, input, something_below, probe);
            ||| after == state && rest == input
            ||| {
                &&& state.grounded is None && state.mantle is None && !something_below
                &&& after.mantle is Some && after.grounded is None && after.velocity.null()
                &&& rest.climbdown is None && rest.craned is None && rest.mantled is None
                &&& rest.jumped is None && rest.tac is None
                &&& rest.swim_up == input.swim_up && rest.crouched == input.crouched
            }
        }),
{
}

/// No ledge is jumped off without a request to jump: nothing changes then. With
/// one, a character on a ledge jumps off as soon as its request to mantle is no
/// younger than the buffer, and not before. It is then off the ledge, launched,
/// and has used up what it asked for; its other requests stay.
pub proof fn law_ledge_is_jumped_off_on_request(
    cfg: Box3dCharacterController,
    state: Box3dCharacterControllerState,
    input: AccumulatedInput,
    launched: Vector,
)
    ensures
        ({
            let (after, rest, jumped) = after_ledge_jump(cfg, state, input, launched);
            &&& input.jumped is None || state.mantle is None || input.mantled is None ==> !jumped
            &&& input.mantled is Some && input.mantled->0.elapsed@ < cfg.mantle_input_buffer@
                ==> !jumped
            &&& input.jumped is Some && state.mantle is Some && input.mantled is Some
                && input.mantled->0.elapsed@ >= cfg.mantle_input_buffer@ ==> jumped
            &&& !jumped ==> after == state && rest == input
            &&& jumped ==> {
                &&& after.mantle is None && after.velocity == launched
                &&& after.last_tac.elapsed@ == 0
                &&& rest.jumped is None && rest.mantled is None && rest.tac is None
                &&& rest.craned == input.craned && rest.climbdown == input.climbdown
                &&& rest.last_movement == input.last_movement && rest.swim_up == input.swim_up
                &&& rest.crouched == input.crouched
                &&& after == (Box3dCharacterControllerState {
                    mantle: None,
                    velocity: launched,
                    last_tac: after.last_tac,
                    ..state
                })
            }
        }),
        !input.stick().y.nan() ==> (jumps_upward(input) <==> input.stick().y.value() >= 0),
{
    broadcast use crate::time::lemma_view_of;

    assert((Scalar { bits: 0 }).value() == 0);
}

/// A crane goes up exactly to a landing that can be stood on, behind a wall that
/// is faced squarely enough, higher than a step and no higher than a crane goes,
/// where nothing is in the way. It is asked for anew, and by a character that
/// neither cranes nor mantles.
pub proof fn law_when_a_crane_starts(
    cfg: Box3dCharacterController,
    state: Box3dCharacterControllerState,
    input: AccumulatedInput,
    facing: Scalar,
    landing: CraneLanding,
)
    requires
        !facing.nan() && !cfg.min_crane_cos.nan() && !landing.normal.y.nan(),
        !cfg.min_walk_cos.nan() && !landing.height.nan() && !cfg.step_size.nan(),
        !cfg.crane_height.nan(),
    ensures
        ({
            let probe = CraneProbe { facing: Some(facing), landing: Some(landing) };
            let fits = facing.value() >= cfg.min_crane_cos.value() && landing.normal.y.value()
                >= cfg.min_walk_cos.value() && landing.height.value() > cfg.step_size.value()
                && landing.height.value() <= cfg.crane_height.value() && !landing.blocked;
            let asked = state.mantle is None && state.crane_height_left is None && input.craned
                is Some && input.craned->0.elapsed@ <= cfg.crane_input_buffer@;
            let (after, rest) = after_crane_request(cfg, state, input, probe);
            &&& fits ==> crane_height(cfg, probe) == Some(landing.height)
            &&& !fits ==> crane_height(cfg, probe) is None
            &&& crane_wanted(cfg, state, input) <==> asked
            &&& fits && asked ==> {
                &&& after.crane_height_left == Some(landing.height) && after.grounded is None
                &&& after.velocity == state.velocity && after.mantle is None
                &&& rest.craned is None && rest.jumped is None && rest.mantled is None
                &&& rest.tac is None && rest.climbdown == input.climbdown
                &&& rest.last_movement == input.last_movement && rest.swim_up == input.swim_up
                &&& rest.crouched == input.crouched
                &&& after == (Box3dCharacterControllerState {
                    crane_height_left: Some(landing.height),
                    grounded: None,
                    ..state
                })
            }
            &&& !fits || !asked ==> after == state && rest == input
        }),
        crane_height(cfg, CraneProbe { facing: None, landing: Some(landing) }) is None,
        crane_height(cfg, CraneProbe { facing: Some(facing), landing: None }) is None,
        !faces(None, cfg.min_crane_cos),
        faces(Some(facing), cfg.min_crane_cos) <==> facing.value() >= cfg.min_crane_cos.value(),
{
}

/// A character heads where it wishes to, and where it moves only without a wish.
/// A crane looks as far up as it goes, and back down as far as it got.
pub proof fn law_where_a_crane_looks(
    cfg: Box3dCharacterController,
    wish: Vector,
    moving: Option<Vector>,
    hit: Box3dCastHit,
)
    ensures
        heading_of(Some(wish), moving) == Some(wish),
        heading_of(None, moving) == moving,
        casts_for_a_crane(cfg, Some(hit)).0.y == cfg.crane_height,
        casts_for_a_crane(cfg, None).0.y == cfg.crane_height,
        casts_for_a_crane(cfg, Some(hit)).1.y.value() == -hit.distance.value(),
        casts_for_a_crane(cfg, None).1.y.value() == -cfg.crane_height.value(),
        casts_for_a_crane(cfg, None).0.x.value() == 0,
        casts_for_a_crane(cfg, None).0.z.value() == 0,
        casts_for_a_crane(cfg, Some(hit)).1.x.value() == 0,
        casts_for_a_crane(cfg, Some(hit)).1.z.value() == 0,
        casts_for_a_crane(cfg, None).1.x.value() == 0,
        casts_for_a_crane(cfg, None).1.z.value() == 0,
{
    let up = casts_for_a_crane(cfg, None).0;
    let down = casts_for_a_crane(cfg, Some(hit)).1;
    let back = casts_for_a_crane(cfg, None).1;
    crate::scalar::law_straight_vectors(up.y, up);
    crate::scalar::law_straight_vectors(down.y, down);
    crate::scalar::law_straight_vectors(back.y, back);
    crate::scalar::law_signs(hit.distance);
    crate::scalar::law_signs(cfg.crane_height);
    let zero = Scalar { bits: 0 };
    assert(zero.value() == 0);
    assert(up.x == zero && up.z == zero && down.x == zero && down.z == zero);
    assert(back.x == zero && back.z == zero);
}

/// A tick of a crane, step by step: the velocity is levelled at the start and
/// after the speeding up; without a heading, or without a wall that is faced, the
/// crane is over; a rise goes no farther than the height left, and drifts with
/// the platform alone; the character then has its own velocity back, counts a
/// step up, and has that much less to go, none under a ceiling. No step touches
/// anything else.
pub proof fn law_steps_of_a_crane(
    cfg: Box3dCharacterController,
    crane: CraneState,
    state: Box3dCharacterControllerState,
    velocity: Vector,
    facing: Option<Scalar>,
    hit: Option<Box3dCastHit>,
    quantity: Scalar,
)
    requires
        !quantity.nan(),
        !crane.height.nan(),
    ensures
        ({
            let begun = CraneState::start(state, quantity);
            &&& begun.phase == CranePhase::Accelerate && begun.height == quantity
            &&& !begun.under_ceiling && begun.velocity.y.value() == 0
            &&& begun.velocity.x == state.velocity.x && begun.velocity.z == state.velocity.z
            &&& levelled(state).velocity.y.value() == 0
            &&& levelled(state).velocity.x == state.velocity.x
            &&& levelled(state).velocity.z == state.velocity.z
            &&& levelled(state) == (Box3dCharacterControllerState {
                velocity: levelled(state).velocity,
                ..state
            })
        }),
        ({
            let (c, s) = crane.after_accelerating(state, velocity);
            &&& c.phase == CranePhase::Steer && c.height == crane.height
            &&& s.velocity.y.value() == 0 && s.velocity.x == velocity.x
            &&& s.velocity.z == velocity.z
            &&& s == (Box3dCharacterControllerState { velocity: s.velocity, ..state })
        }),
        ({
            let (c, s) = crane.after_steering(state, velocity, true);
            &&& c.phase == CranePhase::Face && c.height == crane.height
            &&& s == (Box3dCharacterControllerState { velocity, ..state })
        }),
        ({
            let (c, s) = crane.after_steering(state, velocity, false);
            &&& c.phase == CranePhase::Over && s.crane_height_left is None
            &&& s == (Box3dCharacterControllerState {
                velocity,
                crane_height_left: None,
                ..state
            })
        }),
        ({
            let (c, s) = crane.after_facing(cfg, state, facing);
            &&& faces(facing, cfg.min_crane_cos) ==> c.phase == CranePhase::Rise && s == state
            &&& !faces(facing, cfg.min_crane_cos) ==> c.phase == CranePhase::Over && s == (
            Box3dCharacterControllerState { crane_height_left: None, ..state })
            &&& c.height == crane.height
        }),
        ({
            let (c, s) = crane.after_rising(state, hit);
            &&& c.phase == CranePhase::Drift && c.height == crane.height
            &&& c.under_ceiling <==> hit is Some
            &&& c.velocity == state.velocity && s.velocity == state.platform_velocity
            &&& s == (Box3dCharacterControllerState { velocity: s.velocity, ..state })
        }),
        ({
            let (c, s) = crane.after_drifting(state, quantity);
            &&& c.phase == CranePhase::Ahead && s.velocity == crane.velocity
            &&& s.last_step_up.elapsed@ == 0
            &&& s.crane_height_left is Some
            &&& crane.under_ceiling || quantity.value() <= 0 ==> s.crane_height_left->0.value()
                == 0
            &&& !crane.under_ceiling && quantity.value() >= 0 ==> s.crane_height_left->0.value()
                == quantity.value()
            &&& s == (Box3dCharacterControllerState {
                velocity: s.velocity,
                crane_height_left: s.crane_height_left,
                last_step_up: s.last_step_up,
                ..state
            })
        }),
        ({
            let (c, s) = crane.after_looking(state, hit);
            &&& c.phase == CranePhase::Over
            &&& hit is None ==> s.crane_height_left is None
            &&& state.crane_height_left is None ==> s.crane_height_left is None
            &&& hit is Some && state.crane_height_left is Some && !state.crane_height_left->0.nan()
                && state.crane_height_left->0.value() != 0 ==> s == state
            &&& s == (Box3dCharacterControllerState {
                crane_height_left: s.crane_height_left,
                ..state
            })
        }),
        quantity.value() <= crane.height.value() ==> crane.rise_within(quantity) == quantity,
        quantity.value() > crane.height.value() ==> crane.rise_within(quantity) == crane.height,
        way_is_free(hit) <==> hit is None,
{
    broadcast use crate::time::lemma_view_of;

    assert((Scalar { bits: 0 }).value() == 0);
}

/// A mantle goes onto a ledge exactly when it can be stood on, is higher than a
/// step and within reach, has room, and tops a wall with an entity that is faced
/// squarely enough. The mantle is onto that ledge, along that wall, at the speed
/// of a mantle, and by the character's own pull.
pub proof fn law_ledge_to_mantle_onto(
    cfg: Box3dCharacterController,
    wall: WallContact,
    ledge: LedgeContact,
    reach: Scalar,
)
    requires
        !wall.facing.nan() && !cfg.min_mantle_cos.nan() && !ledge.normal.y.nan(),
        !cfg.min_walk_cos.nan() && !ledge.height.nan() && !cfg.step_size.nan() && !reach.nan(),
    ensures
        ({
            let found = mantle_onto(
                cfg,
                MantleProbe { wall: Some(wall), ledge: Some(ledge), reach },
            );
            &&& found is Some <==> wall.normal is Some && wall.entity is Some
                && wall.facing.value() >= cfg.min_mantle_cos.value() && ledge.normal.y.value()
                >= cfg.min_walk_cos.value() && ledge.height.value() > cfg.step_size.value()
                && ledge.height.value() <= reach.value() && !ledge.blocked
            &&& found is Some ==> {
                &&& Some(found->0.wall_normal) == wall.normal
                &&& Some(found->0.wall_entity) == wall.entity
                &&& found->0.ledge_position == ledge.point
                &&& found->0.target_position == ledge.target
                &&& found->0.speed == cfg.mantle_speed && !found->0.automatic
            }
        }),
        mantle_onto(cfg, MantleProbe { wall: None, ledge: Some(ledge), reach }) is None,
        mantle_onto(cfg, MantleProbe { wall: Some(wall), ledge: None, reach }) is None,
{
}

/// A ledge is taken hold of exactly when that is asked for no longer ago than the
/// buffer, by a character that has hold of none, and there is one. It then hangs
/// still, off the ground, and has used up the requests to mantle, to crane and to
/// jump. Else nothing changes.
pub proof fn law_when_a_mantle_starts(
    cfg: Box3dCharacterController,
    state: Box3dCharacterControllerState,
    input: AccumulatedInput,
    probe: MantleProbe,
)
    ensures
        ({
            let (after, rest) = after_mantle_request(cfg, state, input, probe);
            let asked = state.mantle is None && input.mantled is Some && input.mantled->0.elapsed@
                <= cfg.mantle_input_buffer@;
            &&& mantle_wanted(cfg, state, input) <==> asked
            &&& asked && mantle_onto(cfg, probe) is Some ==> {
                &&& after.mantle == mantle_onto(cfg, probe) && after.grounded is None
                &&& after.velocity.null()
                &&& rest.craned is None && rest.mantled is None && rest.jumped is None
                &&& rest.tac == input.tac && rest.climbdown == input.climbdown
                &&& rest.last_movement == input.last_movement && rest.swim_up == input.swim_up
                &&& rest.crouched == input.crouched
                &&& after == (Box3dCharacterControllerState {
                    mantle: after.mantle,
                    velocity: after.velocity,
                    grounded: None,
                    ..state
                })
            }
            &&& !asked || mantle_onto(cfg, probe) is None ==> after == state && rest == input
        }),
{
}

/// A ledge is climbed down exactly when that is asked for, no longer ago than
/// either buffer, by a character in the air with hold of nothing that moves
/// backward, with nothing below it and a ledge to hold. It then hangs there still,
/// with none of its requests left.
pub proof fn law_when_a_ledge_is_climbed_down(
    cfg: Box3dCharacterController,
    state: Box3dCharacterControllerState,
    input: AccumulatedInput,
    something_below: bool,
    probe: MantleProbe,
)
    requires
        !input.stick().y.nan(),
    ensures
        ({
            let (after, rest) = after_climbdown_request(cfg, state, input, something_below, probe);
            let asked = state.grounded is None && state.mantle is None && input.stick().y.value()
                < 0 && input.climbdown is Some && input.climbdown->0.elapsed@
                <= cfg.climbdown_input_buffer@;
            let granted = asked && !something_below && input.climbdown->0.elapsed@
                <= cfg.mantle_input_buffer@ && mantle_onto(cfg, probe) is Some;
            &&& climbdown_wanted(cfg, state, input) <==> asked
            &&& granted ==> {
                &&& after.mantle == mantle_onto(cfg, probe) && after.velocity.null()
                &&& rest.craned is None && rest.mantled is None && rest.jumped is None
                &&& rest.climbdown is None && rest.tac is None
                &&& rest.last_movement == input.last_movement && rest.swim_up == input.swim_up
                &&& rest.crouched == input.crouched
                &&& after == (Box3dCharacterControllerState {
                    mantle: after.mantle,
                    velocity: after.velocity,
                    ..state
                })
            }
            &&& !granted ==> after == state && rest == input
        }),
{
    assert((Scalar { bits: 0 }).value() == 0);
}

/// A character on a ledge tells of it and stops. It has arrived when it is within
/// its skin of the top: then it is there, has let go, and counts a step up. Short
/// of that it hangs where it is without a pull, and climbs with one; an automatic
/// mantle needs no pull.
pub proof fn law_course_on_a_ledge(
    state: Box3dCharacterControllerState,
    mantle: Box3dMantleState,
    position: Vector,
    gap_squared: Scalar,
    skin_squared: Scalar,
    climb_factor: Scalar,
)
    requires
        state.mantle == Some(mantle),
        !gap_squared.nan() && !skin_squared.nan() && !climb_factor.nan(),
    ensures
        ({
            let begun = mantle_begun(state, position, gap_squared, skin_squared, climb_factor);
            let tiny = (Scalar { bits: EPSILON }).value();
            let near = gap_squared.value() <= skin_squared.value();
            let pulls = climb_factor.value() > tiny || climb_factor.value() < -tiny;
            &&& begun.course == MantleCourse::Arrived <==> near
            &&& begun.course == MantleCourse::Climbing <==> !near && (mantle.automatic || pulls)
            &&& begun.course == MantleCourse::Hanging <==> !near && !mantle.automatic && !pulls
            &&& begun.state.velocity.null()
            &&& begun.told is Some
            &&& begun.told->0.wall_normal == mantle.wall_normal
            &&& begun.told->0.ledge_position == mantle.ledge_position
            &&& begun.told->0.wall_entity == mantle.wall_entity
            &&& near ==> begun.position == mantle.target_position && begun.state.mantle is None
                && begun.state.last_step_up.elapsed@ == 0
            &&& !near ==> begun.position == position && begun.state.mantle == Some(mantle)
                && begun.state.last_step_up == state.last_step_up
            &&& begun.state == (Box3dCharacterControllerState {
                velocity: begun.state.velocity,
                mantle: begun.state.mantle,
                last_step_up: begun.state.last_step_up,
                ..state
            })
        }),
        ({
            let off = Box3dCharacterControllerState { mantle: None, ..state };
            let begun = mantle_begun(off, position, gap_squared, skin_squared, climb_factor);
            &&& begun.course == MantleCourse::Idle && begun.state == off
            &&& begun.position == position && begun.told is None
        }),
{
    broadcast use crate::time::lemma_view_of;

    crate::scalar::law_signs(climb_factor);
    assert(!(Scalar { bits: EPSILON }).nan());
}

/// A climb goes straight up while more than the skin is left to go up, by its
/// step but no farther either way than what is left. It ends with the velocity
/// that it went at and a step up, and lets go of the ledge exactly when it got
/// less far than it wanted to.
pub proof fn law_climbing_a_ledge(
    state: Box3dCharacterControllerState,
    mantle: Box3dMantleState,
    velocity: Vector,
    travelled_squared: Scalar,
    wanted_squared: Scalar,
    step: Scalar,
    gap_up: Scalar,
    skin_width: Scalar,
)
    requires
        !travelled_squared.nan() && !wanted_squared.nan(),
        !step.nan() && !gap_up.nan() && !skin_width.nan(),
        skin_width.value() >= 0,
    ensures
        ({
            let after = mantle_finished(state, velocity, travelled_squared, wanted_squared);
            &&& after.velocity == velocity && after.last_step_up.elapsed@ == 0
            &&& travelled_squared.value() < wanted_squared.value() ==> after.mantle is None
            &&& travelled_squared.value() >= wanted_squared.value() ==> after.mantle
                == state.mantle
            &&& after == (Box3dCharacterControllerState {
                velocity,
                mantle: after.mantle,
                last_step_up: after.last_step_up,
                ..state
            })
        }),
        goes_straight_up(gap_up, skin_width) <==> gap_up.value() > skin_width.value(),
        gap_up.value() >= 0 ==> -gap_up.value() <= rise_of(step, gap_up).value()
            <= gap_up.value(),
        gap_up.value() >= 0 && -gap_up.value() <= step.value() <= gap_up.value() ==> rise_of(
            step,
            gap_up,
        ) == step,
        gap_up.value() >= 0 && step.value() > gap_up.value() ==> rise_of(step, gap_up).value()
            == gap_up.value(),
        gap_up.value() >= 0 && step.value() < -gap_up.value() ==> rise_of(step, gap_up).value()
            == -gap_up.value(),
        gap_up.value() < 0 ==> rise_of(step, gap_up).value() == 0,
        mantle.automatic ==> crate::scalar::is_nearest_to(factor_of(mantle, step), 1, 1),
        !mantle.automatic ==> factor_of(mantle, step) == step,
{
    broadcast use crate::time::lemma_view_of;

    crate::scalar::law_constants();
    let zero = Scalar { bits: 0 };
    assert(zero.value() == 0 && !zero.nan());
    let left = gap_up.larger(zero);
    crate::scalar::law_signs(left);
    crate::scalar::law_held_between_bounds(step, left.opposite(), left);
}

/// A character pulls by its look as far as it wishes to move at all: fully at
/// most, either way, exactly by the pull in between, and the other way round when
/// the input goes backward. Without a wish it does not pull.
pub proof fn law_pull_of_a_climb(wish_squared: Scalar, movement: Scalar, pull: Scalar)
    requires
        !wish_squared.nan() && !movement.nan() && !pull.nan(),
    ensures
        ({
            let factor = climb_factor_of(wish_squared, movement, pull);
            let one = crate::scalar::unit();
            let wishes = wish_squared.value() >= (Scalar { bits: HUNDREDTH }).value();
            let ahead = if movement.value() < 0 {
                -factor.value()
            } else {
                factor.value()
            };
            &&& !wishes ==> factor.value() == 0
            &&& wishes && -one <= pull.value() <= one ==> ahead == pull.value()
            &&& wishes && pull.value() > one ==> ahead == one
            &&& wishes && pull.value() < -one ==> ahead == -one
        }),
        crate::scalar::is_nearest_to(Scalar { bits: HUNDREDTH }, 1, 100),
{
    lemma_one();
    let zero = Scalar { bits: 0 };
    let full = Scalar { bits: ONE };
    assert(zero.value() == 0 && !zero.nan());
    assert(!(Scalar { bits: HUNDREDTH }).nan() && !full.nan());
    crate::scalar::law_signs(full);
    crate::scalar::law_held_between_bounds(pull, full.opposite(), full);
    crate::scalar::law_signs(pull.held_between(full.opposite(), full));
    vstd::arithmetic::power2::lemma2_to64();
    crate::scalar::lemma_nearest(
        Scalar { bits: HUNDREDTH },
        120,
        0x00a3_d70a,
        0x4000_0000,
        1,
        100,
    );
}

/// Hands are probed for by half of the wider side that they need, to within half
/// a quantum, and by no less than a hundredth.
pub proof fn law_probe_is_wide_enough(cfg: Box3dCharacterController, radius: Scalar)
    requires
        probes_for_hands(cfg, radius),
        cfg.min_ledge_grab_space.x.finite() && cfg.min_ledge_grab_space.z.finite(),
    ensures
        2 * radius.value() + 1 >= cfg.min_ledge_grab_space.x.value(),
        2 * radius.value() + 1 >= cfg.min_ledge_grab_space.z.value(),
        radius.value() >= (Scalar { bits: HUNDREDTH }).value(),
        radius.value() > (Scalar { bits: HUNDREDTH }).value() ==> 2 * radius.value() - 1
            <= cfg.min_ledge_grab_space.x.value() || 2 * radius.value() - 1
            <= cfg.min_ledge_grab_space.z.value(),
{
    let wider = cfg.min_ledge_grab_space.x.larger(cfg.min_ledge_grab_space.z);
    let half = choose|half: Scalar| #[trigger]
        crate::scalar::half_of(half, wider) && radius == half.larger(Scalar { bits: HUNDREDTH });
    let twice = crate::scalar::lemma_has_a_double(half);
    crate::scalar::law_doubling_and_halving(half, twice, half, wider);
    assert(!(Scalar { bits: HUNDREDTH }).nan());
}

/// Of the requests to crane and to mantle the one to crane is answered first, and
/// a character that cranes has let go of any ledge.
pub proof fn law_crane_comes_before_mantle(
    cfg: Box3dCharacterController,
    state: Box3dCharacterControllerState,
    input: AccumulatedInput,
    crane: CraneProbe,
    mantle: MantleProbe,
)
    ensures
        ({
            let (after, rest) = after_climb_requests(cfg, state, input, crane, mantle);
            let (craned, left) = after_crane_request(cfg, state, input, crane);
            &&& craned.crane_height_left is Some ==> after.mantle is None
                && after.crane_height_left == craned.crane_height_left && rest == left
                && after.velocity == craned.velocity && after.grounded == craned.grounded
            &&& craned.crane_height_left is None ==> (after, rest) == after_mantle_request(
                cfg,
                state,
                input,
                mantle,
            )
        }),
{
}

}
