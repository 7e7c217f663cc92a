//! One tick of a character: what is done, and in which order.

use vstd::prelude::*;
use crate::climb::{CraneProbe, MantleProbe};
use crate::controller::{
    AccumulatedInput, Box3dCastHit, Box3dCharacterController, Box3dCharacterControllerState,
    CharacterControllerOutput, TouchingEntity,
};
use crate::ground::GroundAnswers;
use crate::jump::JumpPlan;
use crate::scalar::{Scalar, Vector};
use crate::time::TimeSpan;
use crate::water::{WaterLevel, WaterState};

verus! {

/// The state at the start of a tick: every stopwatch has moved on, and what was
/// lost against walls has faded to `tac_velocity`.
pub open spec fn prepared(
    state: Box3dCharacterControllerState,
    delta: TimeSpan,
    tac_velocity: Scalar,
) -> Box3dCharacterControllerState {
    Box3dCharacterControllerState {
        last_ground: state.last_ground.advanced(delta@),
        last_tac: state.last_tac.advanced(delta@),
        last_step_up: state.last_step_up.advanced(delta@),
        last_step_down: state.last_step_down.advanced(delta@),
        tac_velocity,
        ..state
    }
}

/// Nothing is put out: neither a ledge nor a touch.
pub open spec fn says_nothing(output: CharacterControllerOutput) -> bool {
    output.mantle is None && output.touching_entities@.len() == 0
}

/// Starts a tick: forgets what the last one put out, and lets time pass.
pub fn prepare_box3d_kcc_tick(
    delta: TimeSpan,
    state: &mut Box3dCharacterControllerState,
    output: &mut CharacterControllerOutput,
    tac_velocity: Scalar,
)
    ensures
        *final(state) == prepared(*old(state), delta, tac_velocity),
        final(output).mantle is None,
        final(output).touching_entities@.len() == 0,
        says_nothing(*final(output)),
{
    output.mantle = None;
    output.touching_entities.clear();
    state.last_ground.tick(delta);
    state.last_tac.tick(delta);
    state.last_step_up.tick(delta);
    state.last_step_down.tick(delta);
    state.tac_velocity = tac_velocity;
}

/// The state of a character that falls: `falling` is its vertical speed after
/// half a tick of gravity.
pub open spec fn fallen(
    state: Box3dCharacterControllerState,
    falling: Scalar,
) -> Box3dCharacterControllerState {
    Box3dCharacterControllerState {
        velocity: Vector { y: falling, ..state.velocity },
        ..state
    }
}

/// Lets a character fall for half a tick.
pub fn fall_box3d_character(state: &mut Box3dCharacterControllerState, falling: Scalar)
    ensures
        *final(state) == fallen(*old(state), falling),
{
    state.velocity = state.velocity.with_y(falling);
}

/// The state at the end of a tick. On the ground, the character moves up and
/// down with it. In the air, and in no more than shallow water, it falls:
/// `falling` is its vertical speed then.
pub open spec fn finished(
    state: Box3dCharacterControllerState,
    water: WaterState,
    falling: Scalar,
) -> Box3dCharacterControllerState {
    if state.grounded is Some {
        Box3dCharacterControllerState {
            velocity: Vector { y: state.platform_velocity.y, ..state.velocity },
            last_ground: state.last_ground.cleared(),
            ..state
        }
    } else if !water.level.swims() {
        fallen(state, falling)
    } else {
        state
    }
}

pub fn finish_box3d_kcc_tick(
    water: &WaterState,
    state: &mut Box3dCharacterControllerState,
    falling: Scalar,
)
    ensures
        *final(state) == finished(*old(state), *water, falling),
{
    if state.grounded.is_some() {
        state.velocity = state.velocity.with_y(state.platform_velocity.y);
        state.last_ground.reset();
    } else if !water.level.is_swimming() {
        fall_box3d_character(state, falling);
    }
}

/// What is done next in a tick.
#[derive(Clone, Copy, Debug, PartialEq, Eq, Structural)]
pub enum KccPhase {
    /// Start the tick.
    Prepare,
    /// Push the character out of what it reaches into.
    Depenetrate,
    /// Look for ground.
    Ground,
    /// Crouch or stand up.
    Crouch,
    /// See how deep the water is.
    Water,
    /// Fall for the first half of the tick.
    Fall,
    /// Work out where the character wishes to go.
    Wish,
    /// Answer a request to crane.
    Crane,
    /// Answer a request to mantle.
    Mantle,
    /// Answer a request to jump off a ledge.
    LedgeJump,
    /// Move as part of a crane.
    CraneMove,
    /// Answer a request to jump while on a ledge.
    ClimbJump,
    /// Move as part of a mantle.
    MantleMove,
    /// Answer a request to jump.
    Jump,
    /// Slow down.
    Friction,
    /// Bring the velocity within limits.
    Limit,
    /// Move through water, over ground or through the air.
    Move,
    /// Look for ground again.
    GroundAgain,
    /// Answer a request to climb down.
    Climbdown,
    /// End the tick: ride on the ground, or fall for the second half.
    Finish,
    /// Bring the velocity within limits again.
    LimitAgain,
    /// Nothing.
    Done,
}

/// Where a tick stands.
#[derive(Clone, Copy, Debug, PartialEq, Eq, Structural)]
pub struct TickState {
    pub phase: KccPhase,
    /// Whether the character was on the ground after it moved.
    pub was_grounded: bool,
}

/// The state that the work of a phase leaves behind, with what follows from
/// where the character is: deep water has no ground, and a crane ends a mantle.
pub open spec fn corrected(
    phase: KccPhase,
    state: Box3dCharacterControllerState,
    water: WaterState,
) -> Box3dCharacterControllerState {
    match phase {
        KccPhase::Water | KccPhase::GroundAgain => if water.level.swims() {
            Box3dCharacterControllerState { grounded: None, ..state }
        } else {
            state
        },
        KccPhase::Crane => if state.crane_height_left is Some {
            Box3dCharacterControllerState { mantle: None, ..state }
        } else {
            state
        },
        _ => state,
    }
}

/// What follows a phase, in the state that it left behind.
pub open spec fn next_phase(
    tick: TickState,
    state: Box3dCharacterControllerState,
    water: WaterState,
) -> KccPhase {
    match tick.phase {
        KccPhase::Prepare => KccPhase::Depenetrate,
        KccPhase::Depenetrate => KccPhase::Ground,
        KccPhase::Ground => KccPhase::Crouch,
        KccPhase::Crouch => KccPhase::Water,
        KccPhase::Water => if !water.level.swims() && state.grounded is None {
            KccPhase::Fall
        } else {
            KccPhase::Wish
        },
        KccPhase::Fall => KccPhase::Wish,
        KccPhase::Wish => KccPhase::Crane,
        KccPhase::Crane => if state.crane_height_left is Some {
            KccPhase::LedgeJump
        } else {
            KccPhase::Mantle
        },
        KccPhase::Mantle => KccPhase::LedgeJump,
        KccPhase::LedgeJump => if state.crane_height_left is Some {
            KccPhase::CraneMove
        } else if state.mantle is Some {
            KccPhase::ClimbJump
        } else {
            KccPhase::Jump
        },
        KccPhase::CraneMove => KccPhase::GroundAgain,
        KccPhase::ClimbJump => KccPhase::MantleMove,
        KccPhase::MantleMove => KccPhase::GroundAgain,
        KccPhase::Jump => KccPhase::Friction,
        KccPhase::Friction => KccPhase::Limit,
        KccPhase::Limit => KccPhase::Move,
        KccPhase::Move => KccPhase::GroundAgain,
        KccPhase::GroundAgain => if tick.was_grounded {
            KccPhase::Climbdown
        } else {
            KccPhase::Finish
        },
        KccPhase::Climbdown => KccPhase::Finish,
        KccPhase::Finish => KccPhase::LimitAgain,
        KccPhase::LimitAgain => KccPhase::Done,
        KccPhase::Done => KccPhase::Done,
    }
}

/// The phase is the one in which the character moves.
pub open spec fn moves(phase: KccPhase) -> bool {
    phase == KccPhase::CraneMove || phase == KccPhase::MantleMove || phase == KccPhase::Move
}

/// Phases that are left, at most.
pub open spec fn left(phase: KccPhase) -> nat {
    match phase {
        KccPhase::Prepare => 19,
        KccPhase::Depenetrate => 18,
        KccPhase::Ground => 17,
        KccPhase::Crouch => 16,
        KccPhase::Water => 15,
        KccPhase::Fall => 14,
        KccPhase::Wish => 13,
        KccPhase::Crane => 12,
        KccPhase::Mantle => 11,
        KccPhase::LedgeJump => 10,
        KccPhase::Jump => 9,
        KccPhase::Friction => 8,
        KccPhase::Limit => 7,
        KccPhase::ClimbJump => 7,
        KccPhase::CraneMove => 6,
        KccPhase::MantleMove => 6,
        KccPhase::Move => 6,
        KccPhase::GroundAgain => 5,
        KccPhase::Climbdown => 4,
        KccPhase::Finish => 3,
        KccPhase::LimitAgain => 2,
        KccPhase::Done => 0,
    }
}

/// The tick after the work of its phase was done.
pub open spec fn advanced(
    tick: TickState,
    state: Box3dCharacterControllerState,
    water: WaterState,
) -> TickState {
    TickState {
        phase: next_phase(tick, corrected(tick.phase, state, water), water),
        was_grounded: if moves(tick.phase) {
            state.grounded is Some
        } else {
            tick.was_grounded
        },
    }
}

impl TickState {
    pub open spec fn start() -> TickState {
        TickState { phase: KccPhase::Prepare, was_grounded: false }
    }
}

/// A tick under way.
#[derive(Clone, Copy, Debug, PartialEq, Eq, Structural)]
pub struct KccTick {
    at: TickState,
}

impl View for KccTick {
    type V = TickState;

    closed spec fn view(&self) -> TickState {
        self.at
    }
}

impl KccTick {
    pub fn start() -> (r: KccTick)
        ensures
            r@ == TickState::start(),
    {
        KccTick { at: TickState { phase: KccPhase::Prepare, was_grounded: false } }
    }

    pub fn phase(&self) -> (r: KccPhase)
        ensures
            r == self@.phase,
    {
        self.at.phase
    }

    /// Goes on once the work of the present phase is done.
    pub fn advance(&mut self, state: &mut Box3dCharacterControllerState, water: &WaterState)
        requires
            old(self)@.phase != KccPhase::Done,
        ensures
            *final(state) == corrected(old(self)@.phase, *old(state), *water),
            final(self)@ == advanced(old(self)@, *old(state), *water),
            left(final(self)@.phase) < left(old(self)@.phase),
    {
        match self.at.phase {
            KccPhase::Prepare => {
                self.at.phase = KccPhase::Depenetrate;
            },
            KccPhase::Depenetrate => {
                self.at.phase = KccPhase::Ground;
            },
            KccPhase::Ground => {
                self.at.phase = KccPhase::Crouch;
            },
            KccPhase::Crouch => {
                self.at.phase = KccPhase::Water;
            },
            KccPhase::Water => {
                if water.level.is_swimming() {
                    state.grounded = None;
                }
                self.at.phase = if !water.level.is_swimming() && state.grounded.is_none() {
                    KccPhase::Fall
                } else {
                    KccPhase::Wish
                };
            },
            KccPhase::Fall => {
                self.at.phase = KccPhase::Wish;
            },
            KccPhase::Wish => {
                self.at.phase = KccPhase::Crane;
            },
            KccPhase::Crane => {
                if state.crane_height_left.is_some() {
                    state.mantle = None;
                    self.at.phase = KccPhase::LedgeJump;
                } else {
                    self.at.phase = KccPhase::Mantle;
                }
            },
            KccPhase::Mantle => {
                self.at.phase = KccPhase::LedgeJump;
            },
            KccPhase::LedgeJump => {
                self.at.phase = if state.crane_height_left.is_some() {
                    KccPhase::CraneMove
                } else if state.mantle.is_some() {
                    KccPhase::ClimbJump
                } else {
                    KccPhase::Jump
                };
            },
            KccPhase::ClimbJump => {
                self.at.phase = KccPhase::MantleMove;
            },
            KccPhase::Jump => {
                self.at.phase = KccPhase::Friction;
            },
            KccPhase::Friction => {
                self.at.phase = KccPhase::Limit;
            },
            KccPhase::Limit => {
                self.at.phase = KccPhase::Move;
            },
            KccPhase::CraneMove | KccPhase::MantleMove | KccPhase::Move => {
                self.at.was_grounded = state.grounded.is_some();
                self.at.phase = KccPhase::GroundAgain;
            },
            KccPhase::GroundAgain => {
                if water.level.is_swimming() {
                    state.grounded = None;
                }
                self.at.phase = if self.at.was_grounded {
                    KccPhase::Climbdown
                } else {
                    KccPhase::Finish
                };
            },
            KccPhase::Climbdown => {
                self.at.phase = KccPhase::Finish;
            },
            KccPhase::Finish => {
                self.at.phase = KccPhase::LimitAgain;
            },
            KccPhase::LimitAgain => {
                self.at.phase = KccPhase::Done;
            },
            KccPhase::Done => {},
        }
    }
}

/// The tick at `i` is under way, and the next one is what it goes on to.
pub open spec fn goes_on(
    ticks: Seq<TickState>,
    states: Seq<Box3dCharacterControllerState>,
    waters: Seq<WaterState>,
    i: int,
) -> bool {
    ticks[i].phase != KccPhase::Done && ticks[i + 1] == advanced(ticks[i], states[i], waters[i])
}

/// A run of a tick: the phases that it goes through, each with the state and
/// the water that its work left behind.
pub open spec fn is_run(
    ticks: Seq<TickState>,
    states: Seq<Box3dCharacterControllerState>,
    waters: Seq<WaterState>,
) -> bool {
    &&& ticks.len() >= 1
    &&& states.len() == ticks.len()
    &&& waters.len() == ticks.len()
    &&& ticks[0].phase == KccPhase::Prepare
    &&& forall|i: int| 0 <= i < ticks.len() - 1 ==> #[trigger] goes_on(ticks, states, waters, i)
}

/// Times that the character moved before a phase.
pub open spec fn moves_before(ticks: Seq<TickState>, n: int) -> nat
    decreases n,
{
    if n <= 0 {
        0
    } else {
        moves_before(ticks, n - 1) + if moves(ticks[n - 1].phase) {
            1nat
        } else {
            0nat
        }
    }
}

/// The character has moved by the time of that phase.
pub open spec fn has_moved(phase: KccPhase) -> bool {
    ||| phase == KccPhase::GroundAgain
    ||| phase == KccPhase::Climbdown
    ||| phase == KccPhase::Finish
    ||| phase == KccPhase::LimitAgain
    ||| phase == KccPhase::Done
}

/// A tick ends, whatever happens in it, and the character moves exactly once:
/// at each phase of a run at least as many phases are behind as the bound has
/// shrunk, and the character has moved once if it is past its move, else never.
pub proof fn law_tick_moves_once(
    ticks: Seq<TickState>,
    states: Seq<Box3dCharacterControllerState>,
    waters: Seq<WaterState>,
    n: int,
)
    requires
        is_run(ticks, states, waters),
        0 <= n < ticks.len(),
    ensures
        n + left(ticks[n].phase) <= left(KccPhase::Prepare),
        moves_before(ticks, n) == if has_moved(ticks[n].phase) {
            1nat
        } else {
            0nat
        },
    decreases n,
{
    if n > 0 {
        law_tick_moves_once(ticks, states, waters, n - 1);
        assert(goes_on(ticks, states, waters, n - 1));
        lemma_progress(ticks[n - 1], states[n - 1], waters[n - 1]);
    }
}

proof fn lemma_progress(
    tick: TickState,
    state: Box3dCharacterControllerState,
    water: WaterState,
)
    requires
        tick.phase != KccPhase::Done,
    ensures
        left(advanced(tick, state, water).phase) < left(tick.phase),
        has_moved(advanced(tick, state, water).phase) <==> has_moved(tick.phase) || moves(tick.phase),
        !(has_moved(tick.phase) && moves(tick.phase)),
{
}

/// A character in deep water does not stand: once the depth of the water is
/// known, and again after the second search for ground, it has none, does not
/// fall, and is not set down at the end of the tick.
pub proof fn law_deep_water_has_no_ground(
    tick: TickState,
    state: Box3dCharacterControllerState,
    water: WaterState,
    falling: Scalar,
)
    requires
        water.level.swims(),
        tick.phase == KccPhase::Water || tick.phase == KccPhase::GroundAgain,
    ensures
        corrected(tick.phase, state, water).grounded is None,
        advanced(tick, state, water).phase != KccPhase::Fall,
        crate::motion::medium_of(water, state) == crate::motion::Medium::Water,
        finished(corrected(tick.phase, state, water), water, falling) == corrected(
            tick.phase,
            state,
            water,
        ),
{
}

/// A character moves by one means alone: by a crane whenever one is under way,
/// else by a mantle if it is on a ledge, else on foot or afloat. A crane that
/// is under way has ended any mantle by then.
pub proof fn law_one_means_of_moving(
    tick: TickState,
    state: Box3dCharacterControllerState,
    water: WaterState,
)
    ensures
        tick.phase == KccPhase::Crane && state.crane_height_left is Some ==> corrected(
            tick.phase,
            state,
            water,
        ).mantle is None,
        tick.phase == KccPhase::LedgeJump ==> (advanced(tick, state, water).phase
            == KccPhase::CraneMove <==> state.crane_height_left is Some),
        tick.phase == KccPhase::LedgeJump ==> (advanced(tick, state, water).phase
            == KccPhase::ClimbJump <==> state.crane_height_left is None && state.mantle is Some),
        tick.phase == KccPhase::LedgeJump ==> (advanced(tick, state, water).phase == KccPhase::Jump
            <==> state.crane_height_left is None && state.mantle is None),
{
}

/// Whatever the character stands on can be stood on.
pub open spec fn stands_firmly(
    cfg: Box3dCharacterController,
    state: Box3dCharacterControllerState,
) -> bool {
    state.grounded matches Some(ground) ==> crate::contact::walkable(ground.normal, cfg)
}

/// What the end of a tick is answered, from the second search for ground on.
pub struct EndAnswers {
    pub ground: GroundAnswers,
    /// Whether something is below the character, if it is to climb down.
    pub something_below: bool,
    /// What it finds there.
    pub ledge: MantleProbe,
    /// Its vertical speed after half a tick of gravity.
    pub falling: Scalar,
    /// The square of its speed, that of its highest, and the velocity at that.
    pub speed_squared: Scalar,
    pub max_squared: Scalar,
    pub scaled: Vector,
}

/// The state at the end of a tick, from the second search for ground on: deep
/// water has no ground, one that walked off a ledge may climb down, the tick is
/// finished and the velocity is brought within limits.
pub open spec fn tick_ended(
    cfg: Box3dCharacterController,
    tick: TickState,
    state: Box3dCharacterControllerState,
    input: AccumulatedInput,
    water: WaterState,
    answers: EndAnswers,
) -> Box3dCharacterControllerState {
    let searched = corrected(
        KccPhase::GroundAgain,
        crate::ground::after_ground_search(cfg, state, answers.ground),
        water,
    );
    let hung = if tick.was_grounded {
        crate::climb::after_climbdown_request(
            cfg,
            searched,
            input,
            answers.something_below,
            answers.ledge,
        ).0
    } else {
        searched
    };
    crate::motion::limited(
        crate::motion::validated(finished(hung, water, answers.falling)),
        answers.speed_squared,
        answers.max_squared,
        answers.scaled,
    )
}

/// Whatever a tick did before, it ends firmly: a character that stands has
/// walkable ground under its feet, was on the ground just now, and is in no
/// deep water. One without ground keeps its time since it had any. Only one
/// that was on the ground after it moved, and is not any more, hangs on a ledge
/// that it did not hang on before.
pub proof fn law_tick_ends_on_firm_ground(
    cfg: Box3dCharacterController,
    tick: TickState,
    state: Box3dCharacterControllerState,
    input: AccumulatedInput,
    water: WaterState,
    answers: EndAnswers,
)
    ensures
        ({
            let end = tick_ended(cfg, tick, state, input, water, answers);
            &&& stands_firmly(cfg, end)
            &&& end.grounded is Some ==> end.last_ground.elapsed@ == 0 && !water.level.swims()
            &&& end.grounded is Some ==> end.mantle == state.mantle
            &&& end.grounded is None ==> end.last_ground == state.last_ground
            &&& end.mantle != state.mantle ==> tick.was_grounded && end.grounded is None
                && state.mantle is None
            &&& end.crane_height_left == state.crane_height_left
        }),
{
    broadcast use crate::time::lemma_view_of;

}

/// Walkable ground is not lost to other ground in between: it is kept, or left,
/// by what starts and finishes a tick, corrects its phases, and answers the
/// requests to crane, to mantle, to climb down and to jump. A search for ground
/// leaves the character on walkable ground or on none.
pub proof fn law_ground_is_always_walkable(
    cfg: Box3dCharacterController,
    state: Box3dCharacterControllerState,
    input: AccumulatedInput,
    water: WaterState,
    phase: KccPhase,
    plan: JumpPlan,
    crane: CraneProbe,
    mantle: MantleProbe,
    cast: Option<Box3dCastHit>,
    overlap: Option<Box3dCastHit>,
    something_below: bool,
    launched: Vector,
    delta: TimeSpan,
    quantity: Scalar,
)
    requires
        stands_firmly(cfg, state),
    ensures
        stands_firmly(
            cfg,
            Box3dCharacterControllerState {
                grounded: crate::ground::ground_among(cfg, cast, overlap),
                ..state
            },
        ),
        stands_firmly(cfg, prepared(state, delta, quantity)),
        stands_firmly(cfg, corrected(phase, state, water)),
        stands_firmly(cfg, finished(state, water, quantity)),
        stands_firmly(cfg, crate::climb::after_climb_requests(cfg, state, input, crane, mantle).0),
        stands_firmly(
            cfg,
            crate::climb::after_climbdown_request(cfg, state, input, something_below, mantle).0,
        ),
        stands_firmly(cfg, crate::jump::after_jump(cfg, state, input, plan, launched).0),
{
}

/// A tick starts with every stopwatch that runs moved on by the time that passed,
/// up to the longest span, and with nothing else of the character changed but what
/// it lost against walls. Nothing is put out yet.
pub proof fn law_start_of_a_tick(
    state: Box3dCharacterControllerState,
    delta: TimeSpan,
    tac_velocity: Scalar,
    output: CharacterControllerOutput,
    other: CharacterControllerOutput,
)
    requires
        !state.last_ground.paused && !state.last_tac.paused,
        !state.last_step_up.paused && !state.last_step_down.paused,
        state.last_ground.elapsed@ + delta@ <= crate::time::longest(),
        state.last_tac.elapsed@ + delta@ <= crate::time::longest(),
        state.last_step_up.elapsed@ + delta@ <= crate::time::longest(),
        state.last_step_down.elapsed@ + delta@ <= crate::time::longest(),
    ensures
        ({
            let after = prepared(state, delta, tac_velocity);
            &&& after.last_ground.elapsed@ == state.last_ground.elapsed@ + delta@
            &&& after.last_tac.elapsed@ == state.last_tac.elapsed@ + delta@
            &&& after.last_step_up.elapsed@ == state.last_step_up.elapsed@ + delta@
            &&& after.last_step_down.elapsed@ == state.last_step_down.elapsed@ + delta@
            &&& after.tac_velocity == tac_velocity
            &&& after.velocity == state.velocity && after.grounded == state.grounded
            &&& after == (Box3dCharacterControllerState {
                last_ground: after.last_ground,
                last_tac: after.last_tac,
                last_step_up: after.last_step_up,
                last_step_down: after.last_step_down,
                tac_velocity,
                ..state
            })
        }),
        says_nothing(output) ==> output.mantle is None && !(exists|touch: TouchingEntity|
            output.touching_entities@.contains(touch)),
        says_nothing(output) && says_nothing(other) ==> output.mantle == other.mantle
            && output.touching_entities@ =~= other.touching_entities@,
{
    crate::time::law_stopwatch_counts_time(state.last_ground, delta@, delta);
    crate::time::law_stopwatch_counts_time(state.last_tac, delta@, delta);
    crate::time::law_stopwatch_counts_time(state.last_step_up, delta@, delta);
    crate::time::law_stopwatch_counts_time(state.last_step_down, delta@, delta);
}

/// The end of a tick changes no level velocity, whether the character stands,
/// falls or swims. On the ground it takes the vertical speed of its platform,
/// which leaves that of a fall no say, and was on the ground just now. In the air
/// it falls while the water is no more than shallow, and keeps its vertical speed
/// in deep water. Nothing else changes, and ending a tick twice is ending it once.
pub proof fn law_end_of_a_tick_keeps_level_velocity(
    state: Box3dCharacterControllerState,
    water: WaterState,
    falling: Scalar,
    other: Scalar,
)
    ensures
        ({
            let after = finished(state, water, falling);
            let deep = water.level == WaterLevel::Waist || water.level == WaterLevel::Head;
            &&& after.velocity.x == state.velocity.x
            &&& after.velocity.z == state.velocity.z
            &&& state.grounded is Some ==> after.velocity.y == state.platform_velocity.y
            &&& state.grounded is Some ==> after.last_ground.elapsed@ == 0
            &&& state.grounded is Some ==> after == finished(state, water, other)
            &&& state.grounded is None && !deep ==> after.velocity.y == falling
            &&& state.grounded is None && deep ==> after.velocity.y == state.velocity.y
            &&& state.grounded is None ==> after.last_ground == state.last_ground
            &&& after == (Box3dCharacterControllerState {
                velocity: after.velocity,
                last_ground: after.last_ground,
                ..state
            })
            &&& finished(after, water, falling) == after
        }),
        ({
            let after = fallen(state, falling);
            &&& after.velocity.x == state.velocity.x
            &&& after.velocity.z == state.velocity.z
            &&& after.velocity.y == falling
            &&& after == (Box3dCharacterControllerState { velocity: after.velocity, ..state })
        }),
{
    broadcast use crate::time::lemma_view_of;

}

/// What leads up to each phase of a tick: the tick is prepared first and never
/// again, ground is looked for once the character is out of what it reaches into,
/// it falls only off the ground and out of deep water, it moves by the one means
/// that its state calls for, looks for ground again after any move, climbs down
/// only if it was on the ground then, and is brought within limits last.
pub proof fn law_what_leads_to_a_phase(
    tick: TickState,
    state: Box3dCharacterControllerState,
    water: WaterState,
)
    ensures
        ({
            let from = tick.phase;
            let to = advanced(tick, state, water).phase;
            let deep = water.level == WaterLevel::Waist || water.level == WaterLevel::Head;
            let cranes = state.crane_height_left is Some;
            let hangs = state.mantle is Some;
            let moved = from == KccPhase::CraneMove || from == KccPhase::MantleMove || from
                == KccPhase::Move;
            let firm = tick.was_grounded;
            &&& to != KccPhase::Prepare && TickState::start().phase == KccPhase::Prepare
            &&& to == KccPhase::Depenetrate <==> from == KccPhase::Prepare
            &&& to == KccPhase::Ground <==> from == KccPhase::Depenetrate
            &&& to == KccPhase::Crouch <==> from == KccPhase::Ground
            &&& to == KccPhase::Water <==> from == KccPhase::Crouch
            &&& to == KccPhase::Fall <==> from == KccPhase::Water && !deep && state.grounded is None
            &&& to == KccPhase::Wish <==> from == KccPhase::Fall || from == KccPhase::Water && (deep
                || state.grounded is Some)
            &&& to == KccPhase::Crane <==> from == KccPhase::Wish
            &&& to == KccPhase::Mantle <==> from == KccPhase::Crane && !cranes
            &&& to == KccPhase::LedgeJump <==> from == KccPhase::Mantle || from == KccPhase::Crane
                && cranes
            &&& to == KccPhase::CraneMove <==> from == KccPhase::LedgeJump && cranes
            &&& to == KccPhase::ClimbJump <==> from == KccPhase::LedgeJump && !cranes && hangs
            &&& to == KccPhase::Jump <==> from == KccPhase::LedgeJump && !cranes && !hangs
            &&& to == KccPhase::MantleMove <==> from == KccPhase::ClimbJump
            &&& to == KccPhase::Friction <==> from == KccPhase::Jump
            &&& to == KccPhase::Limit <==> from == KccPhase::Friction
            &&& to == KccPhase::Move <==> from == KccPhase::Limit
            &&& to == KccPhase::GroundAgain <==> moved
            &&& to == KccPhase::Climbdown <==> from == KccPhase::GroundAgain && firm
            &&& to == KccPhase::Finish <==> from == KccPhase::Climbdown || from
                == KccPhase::GroundAgain && !firm
            &&& to == KccPhase::LimitAgain <==> from == KccPhase::Finish
            &&& to == KccPhase::Done <==> from == KccPhase::LimitAgain || from == KccPhase::Done
            &&& moved ==> (advanced(tick, state, water).was_grounded <==> state.grounded is Some)
            &&& !moved ==> advanced(tick, state, water).was_grounded == tick.was_grounded
            &&& !TickState::start().was_grounded
        }),
{
}

/// Between the phases a character loses its ground only to deep water, just after
/// the water was measured or ground was looked for again, and its ledge only to a
/// crane. Nothing else of it changes.
pub proof fn law_what_is_lost_between_phases(
    phase: KccPhase,
    state: Box3dCharacterControllerState,
    water: WaterState,
)
    ensures
        ({
            let after = corrected(phase, state, water);
            let deep = water.level == WaterLevel::Waist || water.level == WaterLevel::Head;
            let sinks = deep && (phase == KccPhase::Water || phase == KccPhase::GroundAgain);
            let cranes = phase == KccPhase::Crane && state.crane_height_left is Some;
            &&& sinks ==> after.grounded is None
            &&& !sinks ==> after.grounded == state.grounded
            &&& cranes ==> after.mantle is None
            &&& !cranes ==> after.mantle == state.mantle
            &&& after == (Box3dCharacterControllerState {
                grounded: after.grounded,
                mantle: after.mantle,
                ..state
            })
            &&& corrected(phase, after, water) == after
        }),
{
}

}
