//! Moving on: how a character goes through water, over ground or through the
//! air in a tick.
//!
//! It speeds up toward its wish, is carried along by its platform, makes the
//! movement, and leaves the platform's velocity behind again. Over ground it
//! stays where it is, glides, or slides and steps, and then snaps down to the
//! ground.

use vstd::prelude::*;
use crate::controller::{Box3dCastHit, Box3dCharacterControllerState};
use crate::motion::{medium, rests, GroundCourse, Medium};
use crate::scalar::{Scalar, Vector};
use crate::water::WaterState;

verus! {

/// What is done next on the way.
#[derive(Clone, Copy, Debug, PartialEq, Eq, Structural)]
pub enum TravelPhase {
    /// Speed up toward the wish.
    Accelerate,
    /// Add the platform's velocity.
    Carry,
    /// Work out the movement.
    Head,
    /// Make the movement as a slide.
    Slide,
    /// Measure the movement.
    Measure,
    /// Cast the body along the movement.
    Cast,
    /// Make the movement in full.
    Glide,
    /// Make the movement as a slide that may go up a step.
    Step,
    /// Take the platform's velocity away.
    Release,
    /// Push the character out of what it reaches into.
    PushOut,
    /// Snap it down to the ground.
    Snap,
    /// Nothing: the character has moved.
    Over,
}

/// Where a character is on its way.
#[derive(Clone, Copy, Debug, PartialEq, Eq, Structural)]
pub struct TravelState {
    pub phase: TravelPhase,
    pub medium: Medium,
    /// The movement, once it is known.
    pub movement: Vector,
    /// How it goes over ground, once that is known.
    pub course: Option<GroundCourse>,
}

impl TravelState {
    pub open spec fn start(medium: Medium) -> TravelState {
        TravelState {
            phase: TravelPhase::Accelerate,
            medium,
            movement: crate::scalar::origin(),
            course: None,
        }
    }

    /// In the air nothing carries the character.
    pub open spec fn after_accelerating(self) -> TravelState {
        TravelState {
            phase: if self.medium == Medium::Air {
                TravelPhase::Head
            } else {
                TravelPhase::Carry
            },
            ..self
        }
    }

    pub open spec fn after_carrying(self) -> TravelState {
        TravelState { phase: TravelPhase::Head, ..self }
    }

    /// The movement over ground is level.
    pub open spec fn after_heading(self, movement: Vector) -> TravelState {
        if self.medium == Medium::Ground {
            TravelState {
                phase: TravelPhase::Measure,
                movement: Vector { y: Scalar { bits: 0 }, ..movement },
                ..self
            }
        } else {
            TravelState { phase: TravelPhase::Slide, movement, ..self }
        }
    }

    pub open spec fn after_sliding(self) -> TravelState {
        TravelState {
            phase: if self.medium == Medium::Water {
                TravelPhase::Release
            } else {
                TravelPhase::Over
            },
            ..self
        }
    }

    /// A movement that is too short is not made.
    pub open spec fn after_measuring(self, movement_squared: Scalar) -> TravelState {
        if movement_squared.below(Scalar { bits: crate::motion::SHORT }) {
            TravelState {
                phase: TravelPhase::Release,
                course: Some(GroundCourse::Rest),
                ..self
            }
        } else {
            TravelState { phase: TravelPhase::Cast, ..self }
        }
    }

    /// The character glides if nothing is in the way, and else steps.
    pub open spec fn after_casting(self, hit: Option<Box3dCastHit>) -> TravelState {
        if hit is None {
            TravelState {
                phase: TravelPhase::Glide,
                course: Some(GroundCourse::Glide),
                ..self
            }
        } else {
            TravelState { phase: TravelPhase::Step, course: Some(GroundCourse::Step), ..self }
        }
    }

    pub open spec fn after_going(self) -> TravelState {
        TravelState { phase: TravelPhase::Release, ..self }
    }

    /// A character that glided is pushed out of what it got into. One on the
    /// ground snaps down to it.
    pub open spec fn after_releasing(self) -> TravelState {
        TravelState {
            phase: if self.medium == Medium::Water {
                TravelPhase::Over
            } else if self.course == Some(GroundCourse::Glide) {
                TravelPhase::PushOut
            } else {
                TravelPhase::Snap
            },
            ..self
        }
    }

    pub open spec fn after_pushing_out(self) -> TravelState {
        TravelState { phase: TravelPhase::Snap, ..self }
    }

    pub open spec fn after_snapping(self) -> TravelState {
        TravelState { phase: TravelPhase::Over, ..self }
    }
}

/// The state of a character that has sped up: on the ground its velocity is
/// level.
pub open spec fn sped_up(
    state: Box3dCharacterControllerState,
    medium: Medium,
    velocity: Vector,
) -> Box3dCharacterControllerState {
    Box3dCharacterControllerState {
        velocity: if medium == Medium::Ground {
            Vector { y: Scalar { bits: 0 }, ..velocity }
        } else {
            velocity
        },
        ..state
    }
}

/// The state of a character that goes at another velocity.
pub open spec fn going_at(
    state: Box3dCharacterControllerState,
    velocity: Vector,
) -> Box3dCharacterControllerState {
    Box3dCharacterControllerState { velocity, ..state }
}

/// A character on its way.
#[derive(Clone, Copy, Debug, PartialEq, Eq, Structural)]
pub struct Travel {
    at: TravelState,
}

impl View for Travel {
    type V = TravelState;

    closed spec fn view(&self) -> TravelState {
        self.at
    }
}

impl Travel {
    /// Sets out: deep water first, else ground underfoot, else air.
    pub fn begin(water: &WaterState, state: &Box3dCharacterControllerState) -> (r: Travel)
        ensures
            r@ == TravelState::start(crate::motion::medium_of(*water, *state)),
    {
        Travel {
            at: TravelState {
                phase: TravelPhase::Accelerate,
                medium: medium(water, state),
                movement: Vector::zero(),
                course: None,
            },
        }
    }

    pub fn phase(&self) -> (r: TravelPhase)
        ensures
            r == self@.phase,
    {
        self.at.phase
    }

    pub fn medium(&self) -> (r: Medium)
        ensures
            r == self@.medium,
    {
        self.at.medium
    }

    pub fn movement(&self) -> (r: Vector)
        ensures
            r == self@.movement,
    {
        self.at.movement
    }

    pub fn course(&self) -> (r: Option<GroundCourse>)
        ensures
            r == self@.course,
    {
        self.at.course
    }

    /// Takes the velocity after the speeding up.
    pub fn accelerated(&mut self, state: &mut Box3dCharacterControllerState, velocity: Vector)
        requires
            old(self)@.phase == TravelPhase::Accelerate,
        ensures
            final(self)@ == old(self)@.after_accelerating(),
            *final(state) == sped_up(*old(state), old(self)@.medium, velocity),
    {
        state.velocity = match self.at.medium {
            Medium::Ground => velocity.with_y(Scalar::zero()),
            _ => velocity,
        };
        self.at.phase = match self.at.medium {
            Medium::Air => TravelPhase::Head,
            _ => TravelPhase::Carry,
        };
    }

    /// Takes the velocity with that of the platform.
    pub fn carried(&mut self, state: &mut Box3dCharacterControllerState, velocity: Vector)
        requires
            old(self)@.phase == TravelPhase::Carry,
        ensures
            final(self)@ == old(self)@.after_carrying(),
            *final(state) == (Box3dCharacterControllerState { velocity, ..*old(state) }),
            *final(state) == going_at(*old(state), velocity),
    {
        state.velocity = velocity;
        self.at.phase = TravelPhase::Head;
    }

    /// Takes the movement of this tick.
    pub fn headed(&mut self, movement: Vector)
        requires
            old(self)@.phase == TravelPhase::Head,
        ensures
            final(self)@ == old(self)@.after_heading(movement),
    {
        match self.at.medium {
            Medium::Ground => {
                self.at.movement = movement.with_y(Scalar::zero());
                self.at.phase = TravelPhase::Measure;
            },
            _ => {
                self.at.movement = movement;
                self.at.phase = TravelPhase::Slide;
            },
        }
    }

    /// Goes on once the movement was made as a slide.
    pub fn slid(&mut self)
        requires
            old(self)@.phase == TravelPhase::Slide,
        ensures
            final(self)@ == old(self)@.after_sliding(),
    {
        self.at.phase = match self.at.medium {
            Medium::Water => TravelPhase::Release,
            _ => TravelPhase::Over,
        };
    }

    /// Takes the square of the movement.
    pub fn measured(&mut self, movement_squared: Scalar)
        requires
            old(self)@.phase == TravelPhase::Measure,
        ensures
            final(self)@ == old(self)@.after_measuring(movement_squared),
    {
        if rests(movement_squared) {
            self.at.course = Some(GroundCourse::Rest);
            self.at.phase = TravelPhase::Release;
        } else {
            self.at.phase = TravelPhase::Cast;
        }
    }

    /// Takes what the cast along the movement met.
    pub fn met(&mut self, hit: &Option<Box3dCastHit>)
        requires
            old(self)@.phase == TravelPhase::Cast,
        ensures
            final(self)@ == old(self)@.after_casting(*hit),
    {
        if hit.is_none() {
            self.at.course = Some(GroundCourse::Glide);
            self.at.phase = TravelPhase::Glide;
        } else {
            self.at.course = Some(GroundCourse::Step);
            self.at.phase = TravelPhase::Step;
        }
    }

    /// Takes the position with the movement added: the character is there now.
    pub fn glided(&mut self, position: &mut Vector, reached: Vector)
        requires
            old(self)@.phase == TravelPhase::Glide,
        ensures
            final(self)@ == old(self)@.after_going(),
            *final(position) == reached,
    {
        *position = reached;
        self.at.phase = TravelPhase::Release;
    }

    /// Goes on once the movement was made as a step.
    pub fn stepped(&mut self)
        requires
            old(self)@.phase == TravelPhase::Step,
        ensures
            final(self)@ == old(self)@.after_going(),
    {
        self.at.phase = TravelPhase::Release;
    }

    /// Takes the velocity without that of the platform.
    pub fn released(&mut self, state: &mut Box3dCharacterControllerState, velocity: Vector)
        requires
            old(self)@.phase == TravelPhase::Release,
        ensures
            final(self)@ == old(self)@.after_releasing(),
            *final(state) == (Box3dCharacterControllerState { velocity, ..*old(state) }),
            *final(state) == going_at(*old(state), velocity),
    {
        state.velocity = velocity;
        self.at.phase = match (self.at.medium, self.at.course) {
            (Medium::Water, _) => TravelPhase::Over,
            (_, Some(GroundCourse::Glide)) => TravelPhase::PushOut,
            _ => TravelPhase::Snap,
        };
    }

    /// Goes on once the character was pushed out of what it reached into.
    pub fn pushed_out(&mut self)
        requires
            old(self)@.phase == TravelPhase::PushOut,
        ensures
            final(self)@ == old(self)@.after_pushing_out(),
    {
        self.at.phase = TravelPhase::Snap;
    }

    /// Goes on once the character was snapped down to the ground.
    pub fn snapped(&mut self)
        requires
            old(self)@.phase == TravelPhase::Snap,
        ensures
            final(self)@ == old(self)@.after_snapping(),
    {
        self.at.phase = TravelPhase::Over;
    }
}

/// What decides on a character's way.
pub struct TravelAnswers {
    pub movement: Vector,
    pub movement_squared: Scalar,
    /// What a cast along the movement meets.
    pub hit: Option<Box3dCastHit>,
}

/// Where a character is on its way after the work of its phase.
pub open spec fn next_on_the_way(at: TravelState, answers: TravelAnswers) -> TravelState {
    match at.phase {
        TravelPhase::Accelerate => at.after_accelerating(),
        TravelPhase::Carry => at.after_carrying(),
        TravelPhase::Head => at.after_heading(answers.movement),
        TravelPhase::Slide => at.after_sliding(),
        TravelPhase::Measure => at.after_measuring(answers.movement_squared),
        TravelPhase::Cast => at.after_casting(answers.hit),
        TravelPhase::Glide | TravelPhase::Step => at.after_going(),
        TravelPhase::Release => at.after_releasing(),
        TravelPhase::PushOut => at.after_pushing_out(),
        TravelPhase::Snap => at.after_snapping(),
        TravelPhase::Over => at,
    }
}

/// Phases that are left, at most.
pub open spec fn phases_left(phase: TravelPhase) -> nat {
    match phase {
        TravelPhase::Accelerate => 9,
        TravelPhase::Carry => 8,
        TravelPhase::Head => 7,
        TravelPhase::Measure => 6,
        TravelPhase::Cast => 5,
        TravelPhase::Slide => 4,
        TravelPhase::Glide => 4,
        TravelPhase::Step => 4,
        TravelPhase::Release => 3,
        TravelPhase::PushOut => 2,
        TravelPhase::Snap => 1,
        TravelPhase::Over => 0,
    }
}

/// The phases from there on, each with work to do.
pub open spec fn way(at: TravelState, answers: TravelAnswers) -> Seq<TravelPhase>
    decreases phases_left(at.phase),
{
    if at.phase == TravelPhase::Over {
        Seq::empty()
    } else {
        seq![at.phase] + way(next_on_the_way(at, answers), answers)
    }
}

/// The phases of a way through a medium. In water the character is carried along
/// by its platform while it slides. In the air it just slides. Over ground it
/// snaps down to the ground in the end, whatever it did: stay, because the
/// movement is too short; glide, with nothing in the way, and then get out of
/// what it reaches into; or step.
pub open spec fn phases_through(medium: Medium, short: bool, clear: bool) -> Seq<TravelPhase> {
    match medium {
        Medium::Water => seq![
            TravelPhase::Accelerate,
            TravelPhase::Carry,
            TravelPhase::Head,
            TravelPhase::Slide,
            TravelPhase::Release,
        ],
        Medium::Air => seq![TravelPhase::Accelerate, TravelPhase::Head, TravelPhase::Slide],
        Medium::Ground => seq![
            TravelPhase::Accelerate,
            TravelPhase::Carry,
            TravelPhase::Head,
            TravelPhase::Measure,
        ] + if short {
            seq![TravelPhase::Release, TravelPhase::Snap]
        } else if clear {
            seq![
                TravelPhase::Cast,
                TravelPhase::Glide,
                TravelPhase::Release,
                TravelPhase::PushOut,
                TravelPhase::Snap,
            ]
        } else {
            seq![TravelPhase::Cast, TravelPhase::Step, TravelPhase::Release, TravelPhase::Snap]
        },
    }
}

/// A character goes its way in that order, and gets to the end of it.
pub proof fn law_way_through_a_medium(medium: Medium, answers: TravelAnswers)
    ensures
        way(TravelState::start(medium), answers) == phases_through(
            medium,
            answers.movement_squared.below(Scalar { bits: crate::motion::SHORT }),
            answers.hit is None,
        ),
{
    reveal_with_fuel(way, 11);
    assert(way(TravelState::start(medium), answers) =~= phases_through(
        medium,
        answers.movement_squared.below(Scalar { bits: crate::motion::SHORT }),
        answers.hit is None,
    ));
}

/// `sum` is the sum of the two vectors, without rounding.
pub open spec fn adds_up(sum: Vector, a: Vector, b: Vector) -> bool {
    &&& sum.x.value() == a.x.value() + b.x.value()
    &&& sum.y.value() == a.y.value() + b.y.value()
    &&& sum.z.value() == a.z.value() + b.z.value()
}

/// A character that nothing was in the way of over ground leaves its platform's
/// velocity behind: in exact arithmetic it ends with the level velocity that it
/// sped up to.
pub proof fn law_platform_is_left_behind(
    state: Box3dCharacterControllerState,
    velocity: Vector,
    carried: Vector,
    released: Vector,
)
    requires
        adds_up(
            carried,
            sped_up(state, Medium::Ground, velocity).velocity,
            state.platform_velocity,
        ),
        adds_up(carried, released, state.platform_velocity),
    ensures
        crate::scalar::alike(released, sped_up(state, Medium::Ground, velocity).velocity),
        released.y.value() == 0,
{
    assert((Scalar { bits: 0 }).value() == 0);
}

/// What leads up to each phase of a way: a platform carries the character through
/// water and over ground alone, and whatever it added is taken away again after
/// the movement; in water and in the air the movement is a slide; over ground it is
/// measured, and cast along unless it is too short; the character glides exactly
/// when nothing is in the way, and is pushed out exactly after it glided; over
/// ground, and nowhere else, it snaps down last.
pub proof fn law_what_leads_to_a_phase_of_the_way(at: TravelState, answers: TravelAnswers)
    requires
        !answers.movement_squared.nan(),
    ensures
        ({
            let from = at.phase;
            let to = next_on_the_way(at, answers).phase;
            let (water, air, ground) = (
                at.medium == Medium::Water,
                at.medium == Medium::Air,
                at.medium == Medium::Ground,
            );
            let short = answers.movement_squared.value() < (Scalar {
                bits: crate::motion::SHORT,
            }).value();
            let glided = at.course == Some(GroundCourse::Glide);
            &&& to != TravelPhase::Accelerate
            &&& to == TravelPhase::Carry <==> from == TravelPhase::Accelerate && !air
            &&& to == TravelPhase::Head <==> from == TravelPhase::Carry || from
                == TravelPhase::Accelerate && air
            &&& to == TravelPhase::Slide <==> from == TravelPhase::Head && !ground
            &&& to == TravelPhase::Measure <==> from == TravelPhase::Head && ground
            &&& to == TravelPhase::Cast <==> from == TravelPhase::Measure && !short
            &&& to == TravelPhase::Glide <==> from == TravelPhase::Cast && answers.hit is None
            &&& to == TravelPhase::Step <==> from == TravelPhase::Cast && answers.hit is Some
            &&& to == TravelPhase::Release <==> from == TravelPhase::Slide && water || from
                == TravelPhase::Glide || from == TravelPhase::Step || from == TravelPhase::Measure
                && short
            &&& to == TravelPhase::PushOut <==> from == TravelPhase::Release && !water && glided
            &&& to == TravelPhase::Snap <==> from == TravelPhase::PushOut || from
                == TravelPhase::Release && !water && !glided
            &&& to == TravelPhase::Over <==> from == TravelPhase::Snap || from
                == TravelPhase::Slide && !water || from == TravelPhase::Release && water || from
                == TravelPhase::Over
        }),
        crate::scalar::is_nearest_to(Scalar { bits: crate::motion::SHORT }, 1, 10_000),
{
    crate::motion::law_motion_constants();
    assert(!(Scalar { bits: crate::motion::SHORT }).nan());
}

/// A character stays in its medium all the way. Its movement is set once, level
/// over ground and as it is elsewhere, and its course over ground is what became
/// of the movement: to rest with one that is too short, to glide with nothing in
/// the way, to step else.
pub proof fn law_what_is_known_on_the_way(at: TravelState, answers: TravelAnswers, medium: Medium)
    requires
        !answers.movement_squared.nan(),
    ensures
        ({
            let next = next_on_the_way(at, answers);
            let short = answers.movement_squared.value() < (Scalar {
                bits: crate::motion::SHORT,
            }).value();
            &&& next.medium == at.medium
            &&& at.phase != TravelPhase::Head ==> next.movement == at.movement
            &&& at.phase == TravelPhase::Head ==> {
                &&& next.movement.x == answers.movement.x && next.movement.z == answers.movement.z
                &&& at.medium == Medium::Ground ==> next.movement.y.bits == 0
                &&& at.medium != Medium::Ground ==> next.movement.y == answers.movement.y
            }
            &&& at.phase == TravelPhase::Cast ==> next.course == Some(
                if answers.hit is None {
                    GroundCourse::Glide
                } else {
                    GroundCourse::Step
                },
            )
            &&& at.phase == TravelPhase::Measure && short ==> next.course == Some(
                GroundCourse::Rest,
            )
            &&& at.phase != TravelPhase::Cast && !(at.phase == TravelPhase::Measure && short)
                ==> next.course == at.course
        }),
        ({
            let start = TravelState::start(medium);
            &&& start.phase == TravelPhase::Accelerate && start.medium == medium
            &&& start.movement.null() && start.course is None
        }),
{
    assert(!(Scalar { bits: crate::motion::SHORT }).nan());
}

/// Speeding up leaves a character with the velocity that it sped up to, level over
/// ground and as it is elsewhere; being carried and released change its velocity
/// alone.
pub proof fn law_velocity_on_the_way(
    state: Box3dCharacterControllerState,
    medium: Medium,
    velocity: Vector,
)
    ensures
        ({
            let after = sped_up(state, medium, velocity);
            &&& after.velocity.x == velocity.x && after.velocity.z == velocity.z
            &&& medium == Medium::Ground ==> after.velocity.y.bits == 0
            &&& medium != Medium::Ground ==> after.velocity.y == velocity.y
            &&& after == (Box3dCharacterControllerState { velocity: after.velocity, ..state })
        }),
        ({
            let after = going_at(state, velocity);
            &&& after.velocity == velocity
            &&& after.platform_velocity == state.platform_velocity
            &&& after.grounded == state.grounded
            &&& going_at(after, state.velocity) == state
        }),
{
}

}
