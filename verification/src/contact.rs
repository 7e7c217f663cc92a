//! What a character makes of the contacts that the physics world reports one
//! by one during a cast or an overlap query.

use vstd::prelude::*;
use crate::controller::{
    Box3dCastHit, Box3dCharacterController, Box3dCharacterControllerState,
    CharacterControllerOutput, TouchingEntity,
};
use crate::entity::ShapeId;
use crate::runtime::{Box3dRuntime, Links};
use crate::scalar::{Scalar, Vector, EPSILON};

verus! {

/// Planes that one overlap query gathers at most.
pub const MAX_BOX3D_DEPENETRATION_PLANES: usize = 8;

/// The pattern of -0.0001: a movement at least this much along a surface's
/// normal does not run into it.
pub const GRAZING: u32 = 0xb8d1_b717;

/// The pattern of 0.999: normals with this much in common are one plane.
pub const ALIKE: u32 = 0x3f7f_be77;

pub open spec fn epsilon() -> Scalar {
    Scalar { bits: EPSILON }
}

pub open spec fn grazing() -> Scalar {
    Scalar { bits: GRAZING }
}

pub open spec fn alike() -> Scalar {
    Scalar { bits: ALIKE }
}

/// A surface with this normal can be stood on.
pub open spec fn walkable(normal: Vector, cfg: Box3dCharacterController) -> bool {
    cfg.min_walk_cos.at_most(normal.y)
}

/// A surface with this normal is too steep to stand on.
pub open spec fn too_steep(normal: Vector, cfg: Box3dCharacterController) -> bool {
    normal.y.below(cfg.min_walk_cos)
}

/// A movement over that distance is long enough to be cast.
pub open spec fn is_due(distance: Scalar) -> bool {
    !distance.at_most(epsilon())
}

/// A cast over that distance is worth making.
pub fn cast_is_due(distance: Scalar) -> (r: bool)
    ensures
        r == !distance.at_most(epsilon()),
        r == is_due(distance),
{
    !distance.le(Scalar::new(EPSILON))
}

/// A shape that a cast ran into.
#[derive(Clone, Copy, Debug, PartialEq, Eq, Structural)]
pub struct CastContact {
    pub shape: ShapeId,
    /// Distance at which the bodies touch.
    pub collision_distance: Scalar,
    /// That distance less the skin.
    pub clearance: Scalar,
    pub point: Vector,
    pub normal: Vector,
    /// The movement along the normal: negative when it runs into the surface.
    pub approach: Scalar,
}

/// How far a cast goes on after a contact.
#[derive(Clone, Copy, Debug, PartialEq, Eq, Structural)]
pub enum CastReply {
    /// As if the contact were not there.
    Ignore,
    /// No further than the closest hit so far, whose collision distance this
    /// is, or all the way if there is none.
    KeepClosest(Option<Scalar>),
    /// No further than this contact.
    Stop,
}

impl CastContact {
    /// The hit that this contact makes, no farther than `reach` if there is one.
    pub open spec fn hit(self, links: Links, reach: Option<Scalar>) -> Box3dCastHit {
        let safe = self.clearance.larger(Scalar { bits: 0 });
        Box3dCastHit {
            entity: links.shape_entity(self.shape),
            distance: match reach {
                Some(reach) => safe.smaller(reach),
                None => safe,
            },
            point: self.point,
            normal: self.normal,
            collision_distance: self.collision_distance,
        }
    }

    /// The contact stops a character that holds `held`: it is not with the held
    /// body, and the movement runs into it.
    pub open spec fn stops(self, links: Links, state: Box3dCharacterControllerState) -> bool {
        !links.holds_shape(state.held_body, self.shape) && !grazing().at_most(self.approach)
    }

    fn to_hit(&self, runtime: &Box3dRuntime, reach: Option<Scalar>) -> (r: Box3dCastHit)
        ensures
            r == self.hit(runtime@, reach),
    {
        let safe = self.clearance.max(Scalar::zero());
        Box3dCastHit {
            entity: runtime.shape_entity(self.shape),
            distance: match reach {
                Some(reach) => safe.min(reach),
                None => safe,
            },
            point: self.point,
            normal: self.normal,
            collision_distance: self.collision_distance,
        }
    }
}

/// The reply to a contact, by the closest hit so far: a held body is ignored, a
/// surface that the movement does not run into changes nothing, and any other
/// stops the cast.
pub open spec fn cast_reply(
    links: Links,
    state: Box3dCharacterControllerState,
    closest: Option<Box3dCastHit>,
    contact: CastContact,
) -> CastReply {
    if links.holds_shape(state.held_body, contact.shape) {
        CastReply::Ignore
    } else if grazing().at_most(contact.approach) {
        CastReply::KeepClosest(
            match closest {
                Some(hit) => Some(hit.collision_distance),
                None => None,
            },
        )
    } else {
        CastReply::Stop
    }
}

/// Takes one contact of a character's cast into account. The hit is that of the
/// last contact that stops the character, which is the closest where the physics
/// world narrows the cast to each one that stops it. `reach` bounds the
/// hit of a cast that started a little behind the character.
fn consider_cast_contact(
    runtime: &Box3dRuntime,
    state: &Box3dCharacterControllerState,
    closest: &mut Option<Box3dCastHit>,
    contact: &CastContact,
    reach: Option<Scalar>,
) -> (r: CastReply)
    ensures
        r == cast_reply(runtime@, *state, *old(closest), *contact),
        *final(closest) == (if contact.stops(runtime@, *state) {
            Some(contact.hit(runtime@, reach))
        } else {
            *old(closest)
        }),
        forall|before: Seq<CastContact>|
            *old(closest) == cast_result(runtime@, *state, before, reach) ==> *final(closest)
                == #[trigger] cast_result(runtime@, *state, before.push(*contact), reach),
{
    assert forall|before: Seq<CastContact>| (#[trigger] before.push(*contact)).drop_last()
        == before by {
        assert(before.push(*contact).drop_last() =~= before);
    }
    if runtime.box3d_state_holds_shape(state.held_body, contact.shape) {
        return CastReply::Ignore;
    }
    if Scalar::new(GRAZING).le(contact.approach) {
        return CastReply::KeepClosest(
            match *closest {
                Some(hit) => Some(hit.collision_distance),
                None => None,
            },
        );
    }
    *closest = Some(contact.to_hit(runtime, reach));
    CastReply::Stop
}

/// Takes one contact of a probe that is not part of a character: each one
/// counts, and the probe goes no further.
pub fn consider_probe_contact(
    runtime: &Box3dRuntime,
    closest: &mut Option<Box3dCastHit>,
    contact: &CastContact,
) -> (r: CastReply)
    ensures
        *final(closest) == Some(contact.hit(runtime@, None)),
        r == CastReply::Stop,
{
    *closest = Some(contact.to_hit(runtime, None));
    CastReply::Stop
}

/// What a cast over `contacts`, in the order in which they are reported, comes
/// to: the hit of the last one that stops the character.
pub open spec fn cast_result(
    links: Links,
    state: Box3dCharacterControllerState,
    contacts: Seq<CastContact>,
    reach: Option<Scalar>,
) -> Option<Box3dCastHit>
    decreases contacts.len(),
{
    if contacts.len() == 0 {
        None
    } else if contacts.last().stops(links, state) {
        Some(contacts.last().hit(links, reach))
    } else {
        cast_result(links, state, contacts.drop_last(), reach)
    }
}

/// What a cast of a character needs next.
#[derive(Clone, Copy, Debug, PartialEq, Eq, Structural)]
pub enum CastPhase {
    /// The contacts of a cast from where the character is.
    Forward,
    /// The contacts of a cast from a skin's width behind.
    Behind,
    /// Nothing: the cast is over.
    Over,
}

/// Where a cast stands.
#[derive(Clone, Copy, Debug, PartialEq, Eq, Structural)]
pub struct CastState {
    pub phase: CastPhase,
    pub distance: Scalar,
    /// The vertical part of the movement.
    pub rise: Scalar,
    pub closest: Option<Box3dCastHit>,
}

/// What a cast comes to, by the contacts that are reported from where the
/// character is and, if those give no hit and the movement goes up, from a
/// skin's width behind.
pub open spec fn cast_outcome(
    links: Links,
    state: Box3dCharacterControllerState,
    distance: Scalar,
    rise: Scalar,
    forward: Seq<CastContact>,
    behind: Seq<CastContact>,
) -> Option<Box3dCastHit> {
    if distance.at_most(epsilon()) {
        None
    } else if cast_result(links, state, forward, None) is Some {
        cast_result(links, state, forward, None)
    } else if crate::scalar::positive(rise) {
        cast_result(links, state, behind, Some(distance))
    } else {
        None
    }
}

impl CastState {
    /// The bound on the hits of the present phase.
    pub open spec fn bound(self) -> Option<Scalar> {
        if self.phase == CastPhase::Behind {
            Some(self.distance)
        } else {
            None
        }
    }

    /// The cast is at the point where those contacts have been reported.
    pub open spec fn has_seen(
        self,
        links: Links,
        state: Box3dCharacterControllerState,
        forward: Seq<CastContact>,
        behind: Seq<CastContact>,
    ) -> bool {
        match self.phase {
            CastPhase::Forward => {
                &&& !self.distance.at_most(epsilon())
                &&& behind.len() == 0
                &&& self.closest == cast_result(links, state, forward, None)
            },
            CastPhase::Behind => {
                &&& !self.distance.at_most(epsilon())
                &&& cast_result(links, state, forward, None) is None
                &&& crate::scalar::positive(self.rise)
                &&& self.closest == cast_result(links, state, behind, Some(self.distance))
            },
            CastPhase::Over => self.closest == cast_outcome(
                links,
                state,
                self.distance,
                self.rise,
                forward,
                behind,
            ),
        }
    }
}

/// A cast of a character's body along a movement.
#[derive(Clone, Copy, Debug, PartialEq, Eq, Structural)]
pub struct CharacterCast {
    at: CastState,
}

impl View for CharacterCast {
    type V = CastState;

    closed spec fn view(&self) -> CastState {
        self.at
    }
}

impl CharacterCast {
    /// Begins a cast over that distance, if it is worth making.
    pub fn begin(distance: Scalar, rise: Scalar) -> (r: CharacterCast)
        ensures
            r@.phase == (if distance.at_most(epsilon()) {
                CastPhase::Over
            } else {
                CastPhase::Forward
            }),
            r@.distance == distance,
            r@.rise == rise,
            r@.closest is None,
            forall|links: Links, state: Box3dCharacterControllerState| #[trigger]
                r@.has_seen(links, state, Seq::empty(), Seq::empty()),
    {
        CharacterCast {
            at: CastState {
                phase: if cast_is_due(distance) {
                    CastPhase::Forward
                } else {
                    CastPhase::Over
                },
                distance,
                rise,
                closest: None,
            },
        }
    }

    pub fn phase(&self) -> (r: CastPhase)
        ensures
            r == self@.phase,
    {
        self.at.phase
    }

    /// The closest hit so far.
    pub fn closest(&self) -> (r: Option<Box3dCastHit>)
        ensures
            r == self@.closest,
    {
        self.at.closest
    }

    /// Takes one contact of the present phase.
    pub fn contact(
        &mut self,
        runtime: &Box3dRuntime,
        state: &Box3dCharacterControllerState,
        contact: &CastContact,
    ) -> (r: CastReply)
        requires
            old(self)@.phase != CastPhase::Over,
        ensures
            r == cast_reply(runtime@, *state, old(self)@.closest, *contact),
            final(self)@ == (CastState {
                closest: if contact.stops(runtime@, *state) {
                    Some(contact.hit(runtime@, old(self)@.bound()))
                } else {
                    old(self)@.closest
                },
                ..old(self)@
            }),
            old(self)@.phase == CastPhase::Forward ==> forall|forward: Seq<CastContact>|
                old(self)@.has_seen(runtime@, *state, forward, Seq::empty())
                    ==> #[trigger] final(self)@.has_seen(
                    runtime@,
                    *state,
                    forward.push(*contact),
                    Seq::empty(),
                ),
            old(self)@.phase == CastPhase::Behind ==> forall|
                forward: Seq<CastContact>,
                behind: Seq<CastContact>,
            |
                old(self)@.has_seen(runtime@, *state, forward, behind)
                    ==> #[trigger] final(self)@.has_seen(
                    runtime@,
                    *state,
                    forward,
                    behind.push(*contact),
                ),
    {
        let bound = match self.at.phase {
            CastPhase::Behind => Some(self.at.distance),
            _ => None,
        };
        let mut closest = self.at.closest;
        let reply = consider_cast_contact(runtime, state, &mut closest, contact, bound);
        self.at.closest = closest;
        reply
    }

    /// Goes on once all contacts of the present phase were reported: a cast
    /// upward that met nothing is repeated from behind, so that a ceiling
    /// within the skin is not missed.
    pub fn pass_over(&mut self)
        requires
            old(self)@.phase != CastPhase::Over,
        ensures
            final(self)@ == (CastState {
                phase: if old(self)@.phase == CastPhase::Forward && old(self)@.closest is None
                    && crate::scalar::positive(old(self)@.rise) {
                    CastPhase::Behind
                } else {
                    CastPhase::Over
                },
                ..old(self)@
            }),
            forall|
                links: Links,
                state: Box3dCharacterControllerState,
                forward: Seq<CastContact>,
                behind: Seq<CastContact>,
            |
                old(self)@.has_seen(links, state, forward, behind)
                    ==> #[trigger] final(self)@.has_seen(links, state, forward, behind),
    {
        self.at.phase = match self.at.phase {
            CastPhase::Forward => if self.at.closest.is_none() && Scalar::zero().lt(self.at.rise) {
                CastPhase::Behind
            } else {
                CastPhase::Over
            },
            _ => CastPhase::Over,
        };
    }
}

/// A body that the character holds never stops it: what a cast comes to is the
/// hit of a reported contact with another body that the movement runs into, and
/// there is one as soon as such a contact is reported.
pub proof fn law_held_body_is_ignored(
    links: Links,
    state: Box3dCharacterControllerState,
    contacts: Seq<CastContact>,
    reach: Option<Scalar>,
)
    ensures
        cast_result(links, state, contacts, reach) matches Some(hit) ==> exists|i: int|
            0 <= i < contacts.len() && hit == (#[trigger] contacts[i]).hit(links, reach)
                && contacts[i].stops(links, state) && !links.holds_shape(
                state.held_body,
                contacts[i].shape,
            ),
        cast_result(links, state, contacts, reach) is None ==> forall|i: int|
            0 <= i < contacts.len() ==> !(#[trigger] contacts[i]).stops(links, state),
    decreases contacts.len(),
{
    if contacts.len() > 0 {
        if contacts.last().stops(links, state) {
            assert(contacts[contacts.len() - 1].stops(links, state));
        } else {
            let before = contacts.drop_last();
            law_held_body_is_ignored(links, state, before, reach);
            if let Some(hit) = cast_result(links, state, before, reach) {
                let i = choose|i: int|
                    0 <= i < before.len() && hit == (#[trigger] before[i]).hit(links, reach)
                        && before[i].stops(links, state);
                assert(contacts[i] == before[i]);
            } else {
                assert forall|i: int| 0 <= i < contacts.len() implies !(
                #[trigger] contacts[i]).stops(links, state) by {
                    if i < before.len() {
                        assert(!before[i].stops(links, state));
                    }
                }
            }
        }
    }
}

/// A character never collides with what it holds: a cast whose every contact
/// is with the held body comes to nothing, and a cast that comes to a hit had a
/// contact with some other body.
pub proof fn law_cast_passes_through_held_body(
    links: Links,
    state: Box3dCharacterControllerState,
    distance: Scalar,
    rise: Scalar,
    forward: Seq<CastContact>,
    behind: Seq<CastContact>,
)
    ensures
        ({
            let contacts = forward + behind;
            cast_outcome(links, state, distance, rise, forward, behind) is Some ==> exists|i: int|
                0 <= i < contacts.len() && !links.holds_shape(
                    state.held_body,
                    (#[trigger] contacts[i]).shape,
                )
        }),
{
    law_held_body_is_ignored(links, state, forward, None);
    law_held_body_is_ignored(links, state, behind, Some(distance));
    let contacts = forward + behind;
    if cast_result(links, state, forward, None) is Some {
        let i = choose|i: int|
            0 <= i < forward.len() && (#[trigger] forward[i]).stops(links, state);
        assert(contacts[i] == forward[i]);
    } else if cast_result(links, state, behind, Some(distance)) is Some {
        let i = choose|i: int|
            0 <= i < behind.len() && (#[trigger] behind[i]).stops(links, state);
        assert(contacts[forward.len() + i] == behind[i]);
    }
}

/// Each contact that stops the character is no farther than those reported
/// before it that stop it too, as where the physics world narrows the cast to
/// each of them.
pub open spec fn closing_in(
    links: Links,
    state: Box3dCharacterControllerState,
    contacts: Seq<CastContact>,
) -> bool {
    forall|i: int, j: int|
        0 <= i <= j < contacts.len() && (#[trigger] contacts[i]).stops(links, state) && (
        #[trigger] contacts[j]).stops(links, state)
            ==> contacts[j].collision_distance.at_most(contacts[i].collision_distance)
}

/// A cast whose contacts close in comes to the closest of them: none that stops
/// the character touches it earlier than the hit does.
pub proof fn law_cast_comes_to_the_closest(
    links: Links,
    state: Box3dCharacterControllerState,
    contacts: Seq<CastContact>,
    reach: Option<Scalar>,
)
    requires
        closing_in(links, state, contacts),
    ensures
        cast_result(links, state, contacts, reach) matches Some(hit) ==> forall|i: int|
            0 <= i < contacts.len() && (#[trigger] contacts[i]).stops(links, state)
                ==> hit.collision_distance.at_most(contacts[i].collision_distance),
    decreases contacts.len(),
{
    if contacts.len() > 0 {
        let before = contacts.drop_last();
        let last = contacts.len() - 1;
        if contacts.last().stops(links, state) {
            assert forall|i: int|
                0 <= i < contacts.len() && (#[trigger] contacts[i]).stops(
                    links,
                    state,
                ) implies contacts[last].collision_distance.at_most(
                contacts[i].collision_distance,
            ) by {}
        } else {
            assert forall|i: int, j: int|
                0 <= i <= j < before.len() && (#[trigger] before[i]).stops(links, state) && (
                #[trigger] before[j]).stops(
                    links,
                    state,
                ) implies before[j].collision_distance.at_most(before[i].collision_distance) by {
                assert(contacts[i] == before[i] && contacts[j] == before[j]);
            }
            law_cast_comes_to_the_closest(links, state, before, reach);
            if let Some(hit) = cast_result(links, state, contacts, reach) {
                assert forall|i: int|
                    0 <= i < contacts.len() && (#[trigger] contacts[i]).stops(
                        links,
                        state,
                    ) implies hit.collision_distance.at_most(contacts[i].collision_distance) by {
                    if i < before.len() {
                        assert(before[i] == contacts[i]);
                    }
                }
            }
        }
    }
}

/// A plane that a character's body reaches into.
#[derive(Clone, Copy, Debug, PartialEq, Eq, Structural)]
pub struct OverlapPlane {
    pub normal: Vector,
    pub offset: Scalar,
}

/// A shape that a character's body reaches into.
#[derive(Clone, Copy, Debug, PartialEq, Eq, Structural)]
pub struct OverlapContact {
    pub shape: ShapeId,
    pub point: Vector,
    pub plane: OverlapPlane,
    /// The plane's normal at unit length.
    pub normal: Vector,
}

/// The ground among the overlaps after one of them, and whether to go on looking.
pub open spec fn ground_after(
    links: Links,
    cfg: Box3dCharacterController,
    state: Box3dCharacterControllerState,
    ground: Option<Box3dCastHit>,
    contact: OverlapContact,
) -> (Option<Box3dCastHit>, bool) {
    if links.holds_shape(state.held_body, contact.shape) || !walkable(contact.normal, cfg) {
        (ground, true)
    } else {
        (
            Some(
                Box3dCastHit {
                    entity: links.shape_entity(contact.shape),
                    distance: Scalar { bits: 0 },
                    point: contact.point,
                    normal: contact.normal,
                    collision_distance: Scalar { bits: 0 },
                },
            ),
            false,
        )
    }
}

/// Looks for ground among the overlaps: the first walkable surface that is not
/// part of the held body. Returns whether to go on looking.
pub fn consider_ground_contact(
    runtime: &Box3dRuntime,
    cfg: &Box3dCharacterController,
    state: &Box3dCharacterControllerState,
    ground: &mut Option<Box3dCastHit>,
    contact: &OverlapContact,
) -> (r: bool)
    ensures
        r == (runtime@.holds_shape(state.held_body, contact.shape) || !walkable(
            contact.normal,
            *cfg,
        )),
        r ==> *final(ground) == *old(ground),
        !r ==> *final(ground) == Some(
            Box3dCastHit {
                entity: runtime@.shape_entity(contact.shape),
                distance: Scalar { bits: 0 },
                point: contact.point,
                normal: contact.normal,
                collision_distance: Scalar { bits: 0 },
            },
        ),
        (*final(ground), r) == ground_after(runtime@, *cfg, *state, *old(ground), *contact),
{
    if runtime.box3d_state_holds_shape(state.held_body, contact.shape) {
        return true;
    }
    if cfg.min_walk_cos.le(contact.normal.y) {
        *ground = Some(
            Box3dCastHit {
                entity: runtime.shape_entity(contact.shape),
                distance: Scalar::zero(),
                point: contact.point,
                normal: contact.normal,
                collision_distance: Scalar::zero(),
            },
        );
        return false;
    }
    true
}

/// Whether something is in the way after one overlap, and whether to go on
/// looking.
pub open spec fn blocked_after(
    cfg: Box3dCharacterController,
    blocked: bool,
    normal: Vector,
) -> (bool, bool) {
    (blocked || !walkable(normal, cfg), walkable(normal, cfg))
}

/// Looks for something in the way among the overlaps: any surface that cannot
/// be stood on. Returns whether to go on looking.
pub fn consider_blocking_contact(
    cfg: &Box3dCharacterController,
    blocked: &mut bool,
    normal: Vector,
) -> (r: bool)
    ensures
        r == walkable(normal, *cfg),
        *final(blocked) == (*old(blocked) || !walkable(normal, *cfg)),
        (*final(blocked), r) == blocked_after(*cfg, *old(blocked), normal),
{
    if cfg.min_walk_cos.le(normal.y) {
        return true;
    }
    *blocked = true;
    false
}

/// The planes to be pushed out of after one overlap, and whether to go on
/// gathering.
pub open spec fn planes_after(
    links: Links,
    state: Box3dCharacterControllerState,
    planes: Seq<OverlapPlane>,
    contact: OverlapContact,
) -> (Seq<OverlapPlane>, bool) {
    if links.holds_shape(state.held_body, contact.shape) {
        (planes, true)
    } else {
        (planes.push(contact.plane), planes.len() + 1 < MAX_BOX3D_DEPENETRATION_PLANES)
    }
}

/// Gathers a plane to be pushed out of, unless it is part of the held body.
/// Returns whether to go on gathering.
pub fn consider_depenetration_contact(
    runtime: &Box3dRuntime,
    state: &Box3dCharacterControllerState,
    planes: &mut Vec<OverlapPlane>,
    contact: &OverlapContact,
) -> (r: bool)
    ensures
        runtime@.holds_shape(state.held_body, contact.shape) ==> final(planes)@ == old(planes)@ && r,
        !runtime@.holds_shape(state.held_body, contact.shape) ==> {
            &&& final(planes)@ == old(planes)@.push(contact.plane)
            &&& r == (final(planes)@.len() < MAX_BOX3D_DEPENETRATION_PLANES)
        },
        (final(planes)@, r) == planes_after(runtime@, *state, old(planes)@, *contact),
        forall|before: Seq<OverlapContact>|
            old(planes)@ == gathered(runtime@, *state, before) && old(planes)@.len()
                < MAX_BOX3D_DEPENETRATION_PLANES ==> final(planes)@ == #[trigger] gathered(
                runtime@,
                *state,
                before.push(*contact),
            ),
{
    assert forall|before: Seq<OverlapContact>| (#[trigger] before.push(*contact)).drop_last()
        == before by {
        assert(before.push(*contact).drop_last() =~= before);
    }
    if runtime.box3d_state_holds_shape(state.held_body, contact.shape) {
        return true;
    }
    planes.push(contact.plane);
    planes.len() < MAX_BOX3D_DEPENETRATION_PLANES
}

/// The planes gathered from `contacts`, in the order in which they are
/// reported, by a query that ends as soon as it is told to.
pub open spec fn gathered(
    links: Links,
    state: Box3dCharacterControllerState,
    contacts: Seq<OverlapContact>,
) -> Seq<OverlapPlane>
    decreases contacts.len(),
{
    if contacts.len() == 0 {
        Seq::empty()
    } else {
        let before = gathered(links, state, contacts.drop_last());
        let contact = contacts.last();
        if before.len() >= MAX_BOX3D_DEPENETRATION_PLANES || links.holds_shape(
            state.held_body,
            contact.shape,
        ) {
            before
        } else {
            before.push(contact.plane)
        }
    }
}

/// No more planes are gathered than the limit, each belongs to a reported
/// contact with a body that the character does not hold, and nothing is gathered
/// exactly when there is no such contact.
pub proof fn law_gathered_planes_are_bounded(
    links: Links,
    state: Box3dCharacterControllerState,
    contacts: Seq<OverlapContact>,
)
    ensures
        gathered(links, state, contacts).len() <= MAX_BOX3D_DEPENETRATION_PLANES,
        forall|k: int|
            0 <= k < gathered(links, state, contacts).len() ==> exists|i: int|
                0 <= i < contacts.len() && (#[trigger] gathered(links, state, contacts)[k])
                    == (#[trigger] contacts[i]).plane && !links.holds_shape(
                    state.held_body,
                    contacts[i].shape,
                ),
        gathered(links, state, contacts).len() == 0 <==> forall|i: int|
            0 <= i < contacts.len() ==> links.holds_shape(
                state.held_body,
                (#[trigger] contacts[i]).shape,
            ),
    decreases contacts.len(),
{
    if contacts.len() > 0 {
        let before = contacts.drop_last();
        law_gathered_planes_are_bounded(links, state, before);
        let (old_planes, planes) = (
            gathered(links, state, before),
            gathered(links, state, contacts),
        );
        assert forall|k: int| 0 <= k < planes.len() implies exists|i: int|
            0 <= i < contacts.len() && (#[trigger] planes[k]) == (#[trigger] contacts[i]).plane
                && !links.holds_shape(state.held_body, contacts[i].shape) by {
            if k < old_planes.len() {
                let i = choose|i: int|
                    0 <= i < before.len() && old_planes[k] == (#[trigger] before[i]).plane
                        && !links.holds_shape(state.held_body, before[i].shape);
                assert(contacts[i] == before[i]);
                assert(planes[k] == contacts[i].plane);
            } else {
                assert(planes[k] == contacts[contacts.len() - 1].plane);
            }
        }
        if planes.len() == 0 {
            assert forall|i: int| 0 <= i < contacts.len() implies links.holds_shape(
                state.held_body,
                (#[trigger] contacts[i]).shape,
            ) by {
                if i < before.len() {
                    assert(links.holds_shape(state.held_body, before[i].shape));
                }
            }
        } else if old_planes.len() > 0 {
            let i = choose|i: int|
                0 <= i < before.len() && !links.holds_shape(
                    state.held_body,
                    (#[trigger] before[i]).shape,
                );
            assert(!links.holds_shape(state.held_body, contacts[i].shape));
        } else {
            assert(!links.holds_shape(state.held_body, contacts[contacts.len() - 1].shape));
        }
    }
}

/// Some of these measures say that two normals are one plane.
pub open spec fn repeats(likeness: Seq<Scalar>) -> bool {
    exists|i: int| 0 <= i < likeness.len() && alike().below(#[trigger] likeness[i])
}

/// Whether a plane is already known, by how much its normal has in common with
/// each of the known ones.
pub fn is_repeated(likeness: &Vec<Scalar>) -> (r: bool)
    ensures
        r == repeats(likeness@),
{
    let mut i: usize = 0;
    while i < likeness.len()
        invariant
            i <= likeness@.len(),
            forall|j: int| 0 <= j < i ==> !alike().below(#[trigger] likeness@[j]),
        decreases likeness@.len() - i,
    {
        if Scalar::new(ALIKE).lt(likeness[i]) {
            return true;
        }
        i = i + 1;
    }
    false
}

/// The normals that a slide met after one overlap, whether any was added, and
/// whether to go on gathering.
pub open spec fn normals_after(
    links: Links,
    state: Box3dCharacterControllerState,
    planes: Seq<Vector>,
    added: bool,
    contact: OverlapContact,
    approach: Scalar,
    likeness: Seq<Scalar>,
) -> (Seq<Vector>, bool, bool) {
    if links.holds_shape(state.held_body, contact.shape) {
        (planes, added, true)
    } else if approach.below(grazing()) && !repeats(likeness) {
        (
            planes.push(contact.normal),
            true,
            planes.len() + 1 < MAX_BOX3D_DEPENETRATION_PLANES,
        )
    } else {
        (planes, added, planes.len() < MAX_BOX3D_DEPENETRATION_PLANES)
    }
}

/// Gathers the normal of a plane that a movement runs into while the character
/// already reaches into it. `approach` is the movement along the normal, and
/// `likeness` what the normal has in common with each of `planes`. Returns
/// whether to go on gathering.
pub fn consider_slide_contact(
    runtime: &Box3dRuntime,
    state: &Box3dCharacterControllerState,
    planes: &mut Vec<Vector>,
    added: &mut bool,
    contact: &OverlapContact,
    approach: Scalar,
    likeness: &Vec<Scalar>,
) -> (r: bool)
    ensures
        runtime@.holds_shape(state.held_body, contact.shape) ==> final(planes)@ == old(planes)@
            && *final(added) == *old(added) && r,
        !runtime@.holds_shape(state.held_body, contact.shape) ==> {
            let runs_into = approach.below(grazing()) && !repeats(likeness@);
            &&& final(planes)@ == (if runs_into {
                old(planes)@.push(contact.normal)
            } else {
                old(planes)@
            })
            &&& *final(added) == (*old(added) || runs_into)
            &&& r == (final(planes)@.len() < MAX_BOX3D_DEPENETRATION_PLANES)
        },
        (final(planes)@, *final(added), r) == normals_after(
            runtime@,
            *state,
            old(planes)@,
            *old(added),
            *contact,
            approach,
            likeness@,
        ),
{
    if runtime.box3d_state_holds_shape(state.held_body, contact.shape) {
        return true;
    }
    if approach.lt(Scalar::new(GRAZING)) && !is_repeated(likeness) {
        planes.push(contact.normal);
        *added = true;
    }
    planes.len() < MAX_BOX3D_DEPENETRATION_PLANES
}

/// Notes that a character touched something on its way. A hit without an
/// entity, or whose normal has no direction, is not noted.
pub fn push_box3d_touch(
    output: &mut CharacterControllerOutput,
    hit: &Box3dCastHit,
    direction: Option<Vector>,
    character_position: Vector,
    character_velocity: Vector,
)
    ensures
        final(output).mantle == old(output).mantle,
        final(output).touching_entities@ == old(output).touching_entities@ + touch_of(
            *hit,
            direction,
            character_position,
            character_velocity,
        ),
{
    if let (Some(entity), Some(normal)) = (hit.entity, direction) {
        output.touching_entities.push(
            TouchingEntity {
                entity,
                distance: hit.distance,
                point: hit.point,
                normal,
                character_position,
                character_velocity,
                collision_distance: hit.collision_distance,
            },
        );
    }
}

/// The touch to note for a hit, if any.
pub open spec fn touch_of(
    hit: Box3dCastHit,
    direction: Option<Vector>,
    character_position: Vector,
    character_velocity: Vector,
) -> Seq<TouchingEntity> {
    match (hit.entity, direction) {
        (Some(entity), Some(normal)) => seq![
            TouchingEntity {
                entity,
                distance: hit.distance,
                point: hit.point,
                normal,
                character_position,
                character_velocity,
                collision_distance: hit.collision_distance,
            },
        ],
        _ => Seq::empty(),
    }
}

/// What is stood on is what points up at least as far as the walking limit, and
/// what points up less is too steep: of two surfaces the flatter can be stood on
/// if the steeper can.
pub proof fn law_walkable_or_too_steep(
    normal: Vector,
    flatter: Vector,
    cfg: Box3dCharacterController,
)
    requires
        !normal.y.nan() && !flatter.y.nan() && !cfg.min_walk_cos.nan(),
        normal.y.value() <= flatter.y.value(),
    ensures
        normal.y.value() >= cfg.min_walk_cos.value() ==> walkable(normal, cfg) && !too_steep(
            normal,
            cfg,
        ),
        normal.y.value() < cfg.min_walk_cos.value() ==> !walkable(normal, cfg) && too_steep(
            normal,
            cfg,
        ),
        walkable(normal, cfg) ==> walkable(flatter, cfg),
{
}

/// A contact stops a character if the movement runs into it by more than a
/// ten-thousandth and it is not part of what the character holds. The hit is at
/// the contact, with its normal and the entity of its shape, and never behind
/// the character nor beyond the reach.
pub proof fn law_hit_of_a_contact(
    links: Links,
    state: Box3dCharacterControllerState,
    contact: CastContact,
    reach: Scalar,
)
    requires
        !contact.clearance.nan() && !contact.approach.nan(),
    ensures
        links.holds_shape(state.held_body, contact.shape) ==> !contact.stops(links, state),
        !links.holds_shape(state.held_body, contact.shape) ==> (contact.stops(links, state)
            <==> contact.approach.value() < grazing().value()),
        contact.hit(links, None).entity == links.shape_entity(contact.shape),
        contact.hit(links, None).normal == contact.normal,
        contact.hit(links, None).point == contact.point,
        contact.hit(links, None).collision_distance == contact.collision_distance,
        contact.clearance.value() >= 0 ==> contact.hit(links, None).distance == contact.clearance,
        contact.clearance.value() < 0 ==> contact.hit(links, None).distance.value() == 0,
        ({
            let within = contact.hit(links, Some(reach));
            let free = contact.hit(links, None);
            &&& within.entity == free.entity && within.normal == free.normal
            &&& within.point == free.point
            &&& within.collision_distance == free.collision_distance
            &&& !reach.nan() ==> within.distance.value() <= reach.value()
                && within.distance.value() <= free.distance.value()
            &&& !reach.nan() && free.distance.value() <= reach.value() ==> within.distance
                == free.distance
            &&& !reach.nan() && reach.value() < free.distance.value() ==> within.distance == reach
        }),
{
    assert((Scalar { bits: 0 }).value() == 0);
}

/// A reply lets a cast go on exactly as far as it must: as if the held body were
/// not there, no farther than the closest hit where nothing is run into, and no
/// farther than a contact that stops it.
pub proof fn law_cast_goes_on_as_far_as_it_must(
    links: Links,
    state: Box3dCharacterControllerState,
    closest: Option<Box3dCastHit>,
    contact: CastContact,
)
    ensures
        cast_reply(links, state, closest, contact) == CastReply::Stop <==> contact.stops(
            links,
            state,
        ),
        cast_reply(links, state, closest, contact) == CastReply::Ignore <==> links.holds_shape(
            state.held_body,
            contact.shape,
        ),
        cast_reply(links, state, closest, contact) matches CastReply::KeepClosest(limit) ==> {
            &&& limit is Some <==> closest is Some
            &&& limit is Some ==> limit == Some(closest->0.collision_distance)
        },
{
}

/// A cast is made from where the character is. Only one that meets nothing there
/// and goes up is made again from behind, and what is met then is no farther
/// than the movement. A movement of next to no length is not cast.
pub proof fn law_cast_is_made_twice_only_upward(
    links: Links,
    state: Box3dCharacterControllerState,
    distance: Scalar,
    rise: Scalar,
    forward: Seq<CastContact>,
    behind: Seq<CastContact>,
)
    ensures
        !is_due(distance) ==> cast_outcome(links, state, distance, rise, forward, behind) is None,
        !distance.nan() ==> (is_due(distance) <==> distance.value() > epsilon().value()),
        is_due(distance) && cast_result(links, state, forward, None) is Some ==> cast_outcome(
            links,
            state,
            distance,
            rise,
            forward,
            behind,
        ) == cast_result(links, state, forward, None),
        is_due(distance) && cast_result(links, state, forward, None) is None && (rise.nan()
            || rise.value() <= 0) ==> cast_outcome(
            links,
            state,
            distance,
            rise,
            forward,
            behind,
        ) is None,
        is_due(distance) && cast_result(links, state, forward, None) is None && !rise.nan()
            && rise.value() > 0 ==> cast_outcome(links, state, distance, rise, forward, behind)
            == cast_result(links, state, behind, Some(distance)),
        forall|phase: CastPhase, closest: Option<Box3dCastHit>|
            #![trigger (CastState { phase, distance, rise, closest }).bound()]
            (CastState { phase, distance, rise, closest }).bound() == if phase
                == CastPhase::Behind {
                Some(distance)
            } else {
                None
            },
{
}

/// The ground among the overlaps is the first that can be stood on and is not
/// held: it is where the contact is, with its normal, and at no distance. The
/// search ends there, and nothing that comes before is taken for ground.
pub proof fn law_ground_among_overlaps(
    links: Links,
    cfg: Box3dCharacterController,
    state: Box3dCharacterControllerState,
    ground: Option<Box3dCastHit>,
    contact: OverlapContact,
)
    ensures
        ({
            let (found, go_on) = ground_after(links, cfg, state, ground, contact);
            &&& go_on ==> found == ground
            &&& !go_on ==> {
                &&& found is Some && walkable(found->0.normal, cfg)
                &&& found->0.normal == contact.normal && found->0.point == contact.point
                &&& found->0.entity == links.shape_entity(contact.shape)
                &&& found->0.distance.value() == 0 && found->0.collision_distance.value() == 0
            }
            &&& links.holds_shape(state.held_body, contact.shape) ==> go_on
            &&& !walkable(contact.normal, cfg) ==> go_on
            &&& !links.holds_shape(state.held_body, contact.shape) && walkable(contact.normal, cfg)
                ==> !go_on
        }),
{
    assert((Scalar { bits: 0 }).value() == 0);
}

/// Something is in the way as soon as one overlap cannot be stood on, and stays
/// so. Ground alone is never in the way.
pub proof fn law_only_steep_overlaps_block(
    cfg: Box3dCharacterController,
    blocked: bool,
    normal: Vector,
)
    ensures
        !walkable(normal, cfg) ==> blocked_after(cfg, blocked, normal) == (true, false),
        walkable(normal, cfg) ==> blocked_after(cfg, blocked, normal) == (blocked, true),
        blocked ==> blocked_after(cfg, blocked, normal).0,
{
}

/// Planes to be pushed out of, and normals to slide along, are those of what is
/// not held. They are kept, one joins at the end, and gathering goes on until
/// there are eight. A normal joins if the movement runs into it and it is none of
/// those already there.
pub proof fn law_planes_are_gathered(
    links: Links,
    state: Box3dCharacterControllerState,
    planes: Seq<OverlapPlane>,
    normals: Seq<Vector>,
    added: bool,
    contact: OverlapContact,
    approach: Scalar,
    likeness: Seq<Scalar>,
)
    requires
        !approach.nan(),
    ensures
        ({
            let held = links.holds_shape(state.held_body, contact.shape);
            let (after, go_on) = planes_after(links, state, planes, contact);
            let (met, joined, more) = normals_after(
                links,
                state,
                normals,
                added,
                contact,
                approach,
                likeness,
            );
            &&& held ==> after == planes && go_on && met == normals && joined == added && more
            &&& !held ==> after.len() == planes.len() + 1 && after.last() == contact.plane
            &&& planes =~= after.take(planes.len() as int)
            &&& !held ==> (go_on <==> after.len() < 8)
            &&& normals =~= met.take(normals.len() as int)
            &&& met.len() > normals.len() <==> !held && approach.value() < grazing().value()
                && forall|i: int|
                0 <= i < likeness.len() ==> (#[trigger] likeness[i]).nan() || likeness[i].value()
                    <= alike().value()
            &&& met.len() > normals.len() ==> met.len() == normals.len() + 1 && met.last()
                == contact.normal && joined
            &&& met.len() == normals.len() ==> joined == added
            &&& !held ==> (more <==> met.len() < 8)
        }),
{
    law_contact_constants();
    if repeats(likeness) {
        let i = choose|i: int| 0 <= i < likeness.len() && alike().below(#[trigger] likeness[i]);
        assert(likeness[i].value() > alike().value());
    } else {
        assert forall|i: int| 0 <= i < likeness.len() implies (#[trigger] likeness[i]).nan()
            || likeness[i].value() <= alike().value() by {
            assert(!alike().below(likeness[i]));
        }
    }
}

/// A touch is noted for a hit with an entity and a direction, and tells of the
/// hit, and of the character as it was.
pub proof fn law_touch_tells_of_the_hit(
    hit: Box3dCastHit,
    direction: Option<Vector>,
    position: Vector,
    velocity: Vector,
)
    ensures
        ({
            let touches = touch_of(hit, direction, position, velocity);
            &&& hit.entity is None || direction is None ==> touches.len() == 0
            &&& hit.entity is Some && direction is Some ==> touches.len() == 1
            &&& touches.len() == 1 ==> {
                &&& Some(touches[0].entity) == hit.entity && Some(touches[0].normal) == direction
                &&& touches[0].distance == hit.distance && touches[0].point == hit.point
                &&& touches[0].collision_distance == hit.collision_distance
                &&& touches[0].character_position == position
                &&& touches[0].character_velocity == velocity
            }
        }),
{
}

/// The constants stand for what they are called: a ten-thousandth against a
/// surface, 0.999 in common, 2^-23 and eight planes.
pub proof fn law_contact_constants()
    ensures
        crate::scalar::is_nearest_to(grazing(), -1, 10_000),
        crate::scalar::is_nearest_to(alike(), 999, 1000),
        crate::scalar::is_nearest_to(epsilon(), 1, 0x0080_0000),
        MAX_BOX3D_DEPENETRATION_PLANES == 8,
        !grazing().nan() && !alike().nan() && !epsilon().nan(),
{
    crate::scalar::law_constants();
    vstd::arithmetic::power2::lemma2_to64();
    vstd::arithmetic::power2::lemma_pow2_adds(32, 5);
    crate::scalar::lemma_nearest(grazing(), 113, 0x00d1_b717, 0x20_0000_0000, -1, 10_000);
    crate::scalar::lemma_nearest(alike(), 126, 0x00ff_be77, 0x0100_0000, 999, 1000);
}

}
