//! Picking up, holding, dropping and throwing bodies.

use vstd::prelude::*;
use crate::controller::Box3dCharacterControllerState;
use crate::entity::{BodyId, Entity, ShapeId};
use crate::runtime::{Box3dRuntime, Links};
use crate::scalar::Scalar;

verus! {

/// The pattern of 3.
pub const DEFAULT_MAX_DISTANCE: u32 = 0x4040_0000;

/// The pattern of 1.
pub const DEFAULT_PREFERRED_DISTANCE: u32 = 0x3f80_0000;

/// The pattern of 14.
pub const DEFAULT_HOLD_HZ: u32 = 0x4160_0000;

/// The pattern of 12.
pub const DEFAULT_THROW_SPEED: u32 = 0x4140_0000;

/// The pattern of 1000.
pub const DEFAULT_MAX_PROP_MASS: u32 = 0x447a_0000;

/// The pattern of 1: the whole length of a ray.
pub const WHOLE: u32 = 0x3f80_0000;

/// Which shapes a query sees.
#[derive(Clone, Copy, Debug, PartialEq, Eq, Structural)]
pub struct QueryFilter {
    pub category_bits: u64,
    pub mask_bits: u64,
    pub id: u64,
}

/// Someone who picks up dynamic bodies.
#[derive(Clone, Copy, Debug, PartialEq, Eq, Structural)]
pub struct Box3dPickupActor {
    pub prop_filter: QueryFilter,
    pub max_distance: Scalar,
    pub preferred_distance: Scalar,
    pub hold_hz: Scalar,
    pub throw_speed: Scalar,
    pub max_prop_mass: Scalar,
}

impl Box3dPickupActor {
    pub open spec fn usual(prop_filter: QueryFilter) -> Box3dPickupActor {
        Box3dPickupActor {
            prop_filter,
            max_distance: Scalar { bits: DEFAULT_MAX_DISTANCE },
            preferred_distance: Scalar { bits: DEFAULT_PREFERRED_DISTANCE },
            hold_hz: Scalar { bits: DEFAULT_HOLD_HZ },
            throw_speed: Scalar { bits: DEFAULT_THROW_SPEED },
            max_prop_mass: Scalar { bits: DEFAULT_MAX_PROP_MASS },
        }
    }

    /// How far the actor reaches, how far ahead it holds a body, and how eagerly
    /// a held body follows.
    pub open spec fn grip(self) -> (Scalar, Scalar, Scalar) {
        let zero = Scalar { bits: 0 };
        (
            self.max_distance.larger(zero),
            self.preferred_distance.larger(zero),
            self.hold_hz.larger(zero),
        )
    }

    /// An actor with the usual reach and strength.
    pub fn new(prop_filter: QueryFilter) -> (r: Box3dPickupActor)
        ensures
            r.prop_filter == prop_filter,
            r.max_distance.bits == DEFAULT_MAX_DISTANCE,
            r.preferred_distance.bits == DEFAULT_PREFERRED_DISTANCE,
            r.hold_hz.bits == DEFAULT_HOLD_HZ,
            r.throw_speed.bits == DEFAULT_THROW_SPEED,
            r.max_prop_mass.bits == DEFAULT_MAX_PROP_MASS,
            r == Box3dPickupActor::usual(prop_filter),
    {
        Box3dPickupActor {
            prop_filter,
            max_distance: Scalar::new(DEFAULT_MAX_DISTANCE),
            preferred_distance: Scalar::new(DEFAULT_PREFERRED_DISTANCE),
            hold_hz: Scalar::new(DEFAULT_HOLD_HZ),
            throw_speed: Scalar::new(DEFAULT_THROW_SPEED),
            max_prop_mass: Scalar::new(DEFAULT_MAX_PROP_MASS),
        }
    }

    /// How far the actor reaches: never backward.
    pub fn reach(&self) -> (r: Scalar)
        ensures
            r == self.max_distance.larger(Scalar { bits: 0 }),
            r == self.grip().0,
    {
        self.max_distance.max(Scalar::zero())
    }

    /// How far ahead the actor holds a body: never behind.
    pub fn hold_distance(&self) -> (r: Scalar)
        ensures
            r == self.preferred_distance.larger(Scalar { bits: 0 }),
            r == self.grip().1,
    {
        self.preferred_distance.max(Scalar::zero())
    }

    /// How eagerly a held body follows: it is never driven away.
    pub fn hold_rate(&self) -> (r: Scalar)
        ensures
            r == self.hold_hz.larger(Scalar { bits: 0 }),
            r == self.grip().2,
    {
        self.hold_hz.max(Scalar::zero())
    }
}

/// The body that an actor holds.
#[derive(Clone, Copy, Debug, PartialEq, Eq, Structural)]
pub struct Box3dHolding {
    pub body: Entity,
}

#[derive(Clone, Copy, Debug, PartialEq, Eq, Structural)]
pub enum Box3dPickupAction {
    Pull,
    Drop,
    Throw,
}

/// A request to an actor.
#[derive(Clone, Copy, Debug, PartialEq, Eq, Structural)]
pub struct Box3dPickupInput {
    pub action: Box3dPickupAction,
    pub actor: Entity,
}

/// What the physics world says of a body.
#[derive(Clone, Copy, Debug, PartialEq, Eq, Structural)]
pub struct BodyFacts {
    pub valid: bool,
    pub dynamic: bool,
    pub inverse_mass: Scalar,
    pub mass: Scalar,
}

impl BodyFacts {
    /// The body is there and moves under forces.
    pub open spec fn moves(self) -> bool {
        self.valid && self.dynamic
    }

    /// The actor can lift the body: it moves, has a mass, and is not too heavy.
    pub open spec fn liftable(self, actor: Box3dPickupActor) -> bool {
        &&& self.moves()
        &&& !self.inverse_mass.at_most(Scalar { bits: 0 })
        &&& !actor.max_prop_mass.below(self.mass)
    }

    /// Whether a held body still follows the one who holds it.
    pub fn follows(&self) -> (r: bool)
        ensures
            r == self.moves(),
    {
        self.valid && self.dynamic
    }

    fn can_be_lifted(&self, actor: &Box3dPickupActor) -> (r: bool)
        ensures
            r == self.liftable(*actor),
    {
        self.valid && self.dynamic && !self.inverse_mass.le(Scalar::zero())
            && !actor.max_prop_mass.lt(self.mass)
    }
}

/// The body of a shape that a ray met, and its entity.
pub open spec fn candidate(links: Links, shape: ShapeId) -> Option<(Entity, BodyId)> {
    match links.shape_entity(shape) {
        Some(entity) => match links.owner(entity) {
            Some(owner) => match links.body(owner) {
                Some(body) => Some((owner, body)),
                None => None,
            },
            None => None,
        },
        None => None,
    }
}

pub fn pickup_candidate(runtime: &Box3dRuntime, shape: ShapeId) -> (r: Option<(Entity, BodyId)>)
    ensures
        r == candidate(runtime@, shape),
{
    match runtime.shape_entity(shape) {
        Some(entity) => match runtime.owner(entity) {
            Some(owner) => match runtime.body(owner) {
                Some(body) => Some((owner, body)),
                None => None,
            },
            None => None,
        },
        None => None,
    }
}

/// A shape that a ray met, with what the world says of its body.
#[derive(Clone, Copy, Debug, PartialEq, Eq, Structural)]
pub struct RayContact {
    pub shape: ShapeId,
    /// How far along the ray the shape is.
    pub fraction: Scalar,
    pub facts: BodyFacts,
}

impl RayContact {
    /// The runtime knows the body of the shape.
    pub open spec fn known(self, links: Links) -> bool {
        candidate(links, self.shape) is Some
    }

    /// The entity of the body, if the actor can lift it.
    pub open spec fn prop(self, links: Links, actor: Box3dPickupActor) -> Option<Entity> {
        match candidate(links, self.shape) {
            Some(found) => if self.facts.liftable(actor) {
                Some(found.0)
            } else {
                None
            },
            None => None,
        }
    }
}

/// The ray of an actor that looks for something to pick up: how far it goes, and
/// the body that it stops at, if the actor can lift it.
#[derive(Clone, Copy, Debug, PartialEq, Eq, Structural)]
pub struct PickupRay {
    /// How far the nearest known body is along the ray, if there is one.
    pub nearest: Option<Scalar>,
    pub found: Option<Entity>,
}

impl PickupRay {
    /// The ray before any contact.
    pub open spec fn clear() -> PickupRay {
        PickupRay { nearest: None, found: None }
    }

    /// The ray goes far enough to reach the contact.
    pub open spec fn reaches(self, contact: RayContact) -> bool {
        self.nearest matches Some(nearest) ==> !nearest.below(contact.fraction)
    }

    /// The ray after a contact. Only a known body that the ray reaches changes
    /// it: the ray now stops there, and what it found before is out of reach.
    pub open spec fn after(
        self,
        links: Links,
        actor: Box3dPickupActor,
        contact: RayContact,
    ) -> PickupRay {
        if contact.known(links) && self.reaches(contact) {
            PickupRay { nearest: Some(contact.fraction), found: contact.prop(links, actor) }
        } else {
            self
        }
    }

    /// How far the ray still goes: up to the nearest known body, or all the way.
    pub open spec fn limit(self) -> Scalar {
        match self.nearest {
            Some(nearest) => nearest,
            None => Scalar { bits: WHOLE },
        }
    }

    pub fn new() -> (r: PickupRay)
        ensures
            r == PickupRay::clear(),
    {
        PickupRay { nearest: None, found: None }
    }
}

/// Takes one contact of an actor's ray into account, in whatever order they are
/// reported. Returns how far the ray still goes: a shape that the runtime does
/// not know is passed through, any other stops the ray, even if it cannot be
/// lifted.
pub fn consider_pickup_contact(
    runtime: &Box3dRuntime,
    actor: &Box3dPickupActor,
    ray: &mut PickupRay,
    contact: &RayContact,
) -> (r: Scalar)
    ensures
        *final(ray) == old(ray).after(runtime@, *actor, *contact),
        r == final(ray).limit(),
        forall|before: Seq<RayContact>|
            *old(ray) == ray_result(runtime@, *actor, before) ==> *final(ray)
                == #[trigger] ray_result(runtime@, *actor, before.push(*contact)),
{
    assert forall|before: Seq<RayContact>| (#[trigger] before.push(*contact)).drop_last()
        == before by {
        assert(before.push(*contact).drop_last() =~= before);
    }
    if let Some((entity, _)) = pickup_candidate(runtime, contact.shape) {
        let reached = match ray.nearest {
            Some(nearest) => !nearest.lt(contact.fraction),
            None => true,
        };
        if reached {
            ray.nearest = Some(contact.fraction);
            ray.found = if contact.facts.can_be_lifted(actor) {
                Some(entity)
            } else {
                None
            };
        }
    }
    match ray.nearest {
        Some(nearest) => nearest,
        None => Scalar::new(WHOLE),
    }
}

/// What a ray over `contacts`, in the order in which they are reported, comes
/// to.
pub open spec fn ray_result(
    links: Links,
    actor: Box3dPickupActor,
    contacts: Seq<RayContact>,
) -> PickupRay
    decreases contacts.len(),
{
    if contacts.len() == 0 {
        PickupRay::clear()
    } else {
        ray_result(links, actor, contacts.drop_last()).after(links, actor, contacts.last())
    }
}

/// The contact at `i` is with a known body, and none with a known body is nearer.
pub open spec fn is_nearest(links: Links, contacts: Seq<RayContact>, i: int) -> bool {
    &&& 0 <= i < contacts.len()
    &&& contacts[i].known(links)
    &&& forall|j: int|
        0 <= j < contacts.len() && (#[trigger] contacts[j]).known(links)
            ==> contacts[i].fraction.at_most(contacts[j].fraction)
}

/// A ray stops at the nearest body, in whatever order the contacts are reported:
/// what it finds is a body that no other known body is nearer than, if the actor
/// can lift that one, and nothing otherwise. A body in front that is fixed, or
/// too heavy, so hides what is behind it.
pub proof fn law_ray_stops_at_the_nearest_body(
    links: Links,
    actor: Box3dPickupActor,
    contacts: Seq<RayContact>,
)
    requires
        forall|i: int| 0 <= i < contacts.len() ==> !(#[trigger] contacts[i]).fraction.nan(),
    ensures
        ({
            let ray = ray_result(links, actor, contacts);
            &&& ray.nearest is None ==> ray.found is None && forall|i: int|
                0 <= i < contacts.len() ==> !(#[trigger] contacts[i]).known(links)
            &&& ray.nearest is Some ==> exists|i: int|
                #![trigger contacts[i]]
                is_nearest(links, contacts, i) && ray.nearest == Some(contacts[i].fraction)
                    && ray.found == contacts[i].prop(links, actor)
            &&& ray.found is Some ==> exists|i: int|
                #![trigger contacts[i]]
                is_nearest(links, contacts, i) && ray.found == contacts[i].prop(links, actor)
                    && contacts[i].facts.liftable(actor)
            &&& forall|i: int|
                #![trigger contacts[i]]
                is_nearest(links, contacts, i) && (forall|j: int|
                    0 <= j < contacts.len() && j != i && (#[trigger] contacts[j]).known(links)
                        ==> contacts[i].fraction.below(contacts[j].fraction)) ==> ray.found
                    == contacts[i].prop(links, actor)
        }),
    decreases contacts.len(),
{
    let ray = ray_result(links, actor, contacts);
    if contacts.len() > 0 {
        let before = contacts.drop_last();
        let last = contacts.len() - 1;
        let so_far = ray_result(links, actor, before);
        assert forall|i: int| 0 <= i < before.len() implies !(
        #[trigger] before[i]).fraction.nan() by {
            assert(before[i] == contacts[i]);
        }
        law_ray_stops_at_the_nearest_body(links, actor, before);
        if contacts[last].known(links) && so_far.reaches(contacts[last]) {
            assert forall|j: int|
                0 <= j < contacts.len() && (#[trigger] contacts[j]).known(links) implies contacts[
                last].fraction.at_most(contacts[j].fraction) by {
                if j < last {
                    assert(before[j] == contacts[j]);
                    assert(before[j].known(links));
                }
            }
            assert(is_nearest(links, contacts, last));
        } else if so_far.nearest is Some {
            let i = choose|i: int|
                #![trigger before[i]]
                is_nearest(links, before, i) && so_far.nearest == Some(before[i].fraction)
                    && so_far.found == before[i].prop(links, actor);
            assert(contacts[i] == before[i]);
            assert forall|j: int|
                0 <= j < contacts.len() && (#[trigger] contacts[j]).known(links) implies contacts[
                i].fraction.at_most(contacts[j].fraction) by {
                if j < last {
                    assert(before[j] == contacts[j]);
                }
            }
            assert(is_nearest(links, contacts, i));
        } else {
            assert forall|j: int| 0 <= j < contacts.len() implies !(#[trigger] contacts[j]).known(
                links,
            ) by {
                if j < last {
                    assert(before[j] == contacts[j]);
                }
            }
        }
    }
    if ray.nearest is Some {
        let k = choose|k: int|
            #![trigger contacts[k]]
            is_nearest(links, contacts, k) && ray.nearest == Some(contacts[k].fraction)
                && ray.found == contacts[k].prop(links, actor);
        assert forall|i: int|
            #![trigger contacts[i]]
            is_nearest(links, contacts, i) && (forall|j: int|
                0 <= j < contacts.len() && j != i && (#[trigger] contacts[j]).known(links)
                    ==> contacts[i].fraction.below(contacts[j].fraction)) implies ray.found
            == contacts[i].prop(links, actor) by {
            if k != i {
                assert(contacts[k].known(links));
                assert(contacts[i].fraction.below(contacts[k].fraction));
                assert(contacts[k].fraction.at_most(contacts[i].fraction));
            }
        }
    }
}

/// What comes of a request to an actor.
#[derive(Clone, Copy, Debug, PartialEq, Eq, Structural)]
pub enum PickupDecision {
    Nothing,
    /// The actor takes hold of that body.
    Hold(Entity),
    /// The actor lets go; the body, if there is one here, is thrown.
    Release(Option<BodyId>),
}

/// The actor casts its ray.
pub open spec fn looks(action: Box3dPickupAction, holding: Option<Box3dHolding>) -> bool {
    action == Box3dPickupAction::Pull && holding is None
}

/// Whether an actor looks for something to pick up: when it is asked to pull
/// and its hands are free.
pub fn looks_for_prop(action: Box3dPickupAction, holding: &Option<Box3dHolding>) -> (r: bool)
    ensures
        r == (action == Box3dPickupAction::Pull && *holding is None),
        r == looks(action, *holding),
{
    match action {
        Box3dPickupAction::Pull => holding.is_none(),
        _ => false,
    }
}

/// What comes of a request: pulling takes hold of what was found if the hands
/// are free, dropping and throwing let go of what is held.
pub open spec fn pickup_decision(
    links: Links,
    action: Box3dPickupAction,
    holding: Option<Box3dHolding>,
    found: Option<Entity>,
) -> PickupDecision {
    match (action, holding) {
        (Box3dPickupAction::Pull, None) => match found {
            Some(body) => PickupDecision::Hold(body),
            None => PickupDecision::Nothing,
        },
        (Box3dPickupAction::Drop, Some(_)) => PickupDecision::Release(None),
        (Box3dPickupAction::Throw, Some(held)) => PickupDecision::Release(links.body(held.body)),
        _ => PickupDecision::Nothing,
    }
}

/// Answers a request to an actor. `found` is what its ray came to.
pub fn handle_box3d_pickup_input(
    runtime: &Box3dRuntime,
    action: Box3dPickupAction,
    holding: &Option<Box3dHolding>,
    found: Option<Entity>,
) -> (r: PickupDecision)
    ensures
        r == pickup_decision(runtime@, action, *holding, found),
{
    match (action, *holding) {
        (Box3dPickupAction::Pull, None) => match found {
            Some(body) => PickupDecision::Hold(body),
            None => PickupDecision::Nothing,
        },
        (Box3dPickupAction::Drop, Some(_)) => PickupDecision::Release(None),
        (Box3dPickupAction::Throw, Some(held)) => PickupDecision::Release(runtime.body(held.body)),
        _ => PickupDecision::Nothing,
    }
}

/// What an actor holds after a decision.
pub open spec fn held_after(held: Option<Entity>, decision: PickupDecision) -> Option<Entity> {
    match decision {
        PickupDecision::Nothing => held,
        PickupDecision::Hold(body) => Some(body),
        PickupDecision::Release(_) => None,
    }
}

/// The holding of an actor after a decision.
pub open spec fn holding_after(
    holding: Option<Box3dHolding>,
    decision: PickupDecision,
) -> Option<Box3dHolding> {
    match decision {
        PickupDecision::Nothing => holding,
        PickupDecision::Hold(body) => Some(Box3dHolding { body }),
        PickupDecision::Release(_) => None,
    }
}

/// Carries a decision out on the holding of an actor.
pub fn update_holding(holding: Option<Box3dHolding>, decision: &PickupDecision) -> (r: Option<
    Box3dHolding,
>)
    ensures
        r == holding_after(holding, *decision),
        r == (match held_after(
            match holding {
                Some(held) => Some(held.body),
                None => None,
            },
            *decision,
        ) {
            Some(body) => Some(Box3dHolding { body }),
            None => None,
        }),
{
    match decision {
        PickupDecision::Nothing => holding,
        PickupDecision::Hold(body) => Some(Box3dHolding { body: *body }),
        PickupDecision::Release(_) => None,
    }
}

/// The character that the actor is, after a decision.
pub open spec fn holder_after(
    state: Box3dCharacterControllerState,
    decision: PickupDecision,
) -> Box3dCharacterControllerState {
    Box3dCharacterControllerState { held_body: held_after(state.held_body, decision), ..state }
}

/// Carries a decision out on the character that the actor is, so that it does
/// not collide with what it holds.
pub fn update_held_body(state: &mut Box3dCharacterControllerState, decision: &PickupDecision)
    ensures
        *final(state) == (Box3dCharacterControllerState {
            held_body: held_after(old(state).held_body, *decision),
            ..*old(state)
        }),
        *final(state) == holder_after(*old(state), *decision),
{
    match decision {
        PickupDecision::Nothing => {},
        PickupDecision::Hold(body) => {
            state.held_body = Some(*body);
        },
        PickupDecision::Release(_) => {
            state.held_body = None;
        },
    }
}

/// Held bodies are moved in a tick of that length.
pub open spec fn moves_held(delta: Scalar) -> bool {
    !delta.at_most(Scalar { bits: 0 })
}

/// Whether held bodies are moved in a tick: only if time passes.
pub fn holds_are_due(delta: Scalar) -> (r: bool)
    ensures
        r == !delta.at_most(Scalar { bits: 0 }),
        r == moves_held(delta),
{
    !delta.le(Scalar::zero())
}

/// Pulling never takes a held body out of the hands, and dropping or throwing
/// always empties them. A body is thrown only by a throw, and it is the held
/// one.
pub proof fn law_hands_hold_one_body(
    links: Links,
    action: Box3dPickupAction,
    holding: Option<Box3dHolding>,
    found: Option<Entity>,
)
    ensures
        ({
            let held = match holding {
                Some(held) => Some(held.body),
                None => None,
            };
            let decision = pickup_decision(links, action, holding, found);
            let after = held_after(held, decision);
            &&& action == Box3dPickupAction::Pull && held is Some ==> after == held
            &&& action == Box3dPickupAction::Pull && held is None ==> after == found
            &&& action != Box3dPickupAction::Pull ==> after is None
            &&& (decision matches PickupDecision::Release(Some(body)) ==> action
                == Box3dPickupAction::Throw && held is Some && links.body(held->0) == Some(body))
        }),
{
}

/// A body can be lifted exactly when it is there, moves under forces, has a mass,
/// and weighs no more than the actor can take. A stronger actor lifts whatever a
/// weaker one does.
pub proof fn law_what_can_be_lifted(
    facts: BodyFacts,
    actor: Box3dPickupActor,
    stronger: Box3dPickupActor,
)
    requires
        !facts.inverse_mass.nan() && !facts.mass.nan(),
        !actor.max_prop_mass.nan() && !stronger.max_prop_mass.nan(),
        actor.max_prop_mass.value() <= stronger.max_prop_mass.value(),
    ensures
        !facts.valid || !facts.dynamic ==> !facts.liftable(actor) && !facts.moves(),
        facts.valid && facts.dynamic ==> facts.moves(),
        facts.inverse_mass.value() <= 0 ==> !facts.liftable(actor),
        facts.mass.value() > actor.max_prop_mass.value() ==> !facts.liftable(actor),
        facts.valid && facts.dynamic && facts.inverse_mass.value() > 0 && facts.mass.value()
            <= actor.max_prop_mass.value() ==> facts.liftable(actor),
        facts.liftable(actor) ==> facts.liftable(stronger),
{
    assert((Scalar { bits: 0 }).value() == 0);
}

/// The body of a shape is that of the entity which carries it: the entity is
/// found from the shape, its owner from it, and the body from the owner.
pub proof fn law_candidate_carries_the_shape(links: Links, shape: ShapeId, contact: RayContact)
    ensures
        candidate(links, shape) matches Some(found) ==> {
            &&& links.shape_entity(shape) is Some
            &&& links.owner(links.shape_entity(shape)->0) == Some(found.0)
            &&& links.body(found.0) == Some(found.1)
            &&& links.carrier(links.shape_entity(shape)->0) == Some(found.1)
        },
        candidate(links, shape) is None ==> links.shape_entity(shape) is None || links.carrier(
            links.shape_entity(shape)->0,
        ) is None,
        contact.known(links) <==> links.shape_entity(contact.shape) is Some && links.carrier(
            links.shape_entity(contact.shape)->0,
        ) is Some,
{
}

/// A ray finds the entity of the body that it stops at, if the actor can lift
/// that body. It never goes beyond what it stopped at, and goes all the way
/// where it stopped at nothing.
pub proof fn law_ray_goes_no_farther_than_it_must(
    links: Links,
    actor: Box3dPickupActor,
    ray: PickupRay,
    contact: RayContact,
)
    ensures
        contact.prop(links, actor) is Some <==> contact.known(links) && contact.facts.liftable(
            actor,
        ),
        contact.prop(links, actor) is Some ==> links.owner(
            links.shape_entity(contact.shape)->0,
        ) == contact.prop(links, actor),
        PickupRay::clear().found is None && PickupRay::clear().nearest is None,
        crate::scalar::is_nearest_to(PickupRay::clear().limit(), 1, 1),
        ray.nearest is Some ==> Some(ray.limit()) == ray.nearest,
        !contact.known(links) ==> ray.after(links, actor, contact) == ray,
        ray.nearest is None && contact.known(links) ==> ray.after(links, actor, contact).limit()
            == contact.fraction,
        ray.nearest is Some && contact.known(links) && !contact.fraction.nan()
            && !ray.nearest->0.nan() ==> {
            let after = ray.after(links, actor, contact);
            &&& contact.fraction.value() > ray.nearest->0.value() ==> after == ray
            &&& contact.fraction.value() <= ray.nearest->0.value() ==> after.limit()
                == contact.fraction && after.found == contact.prop(links, actor)
        },
{
    crate::scalar::law_constants();
    assert(PickupRay::clear().limit() == (Scalar { bits: crate::scalar::ONE }));
}

/// Pulling takes hold of what was found and of nothing else, dropping lets go
/// without a throw, and a throw is of the body that is held, as far as it is
/// still there. With nothing in the hands only a pull comes to something, and
/// only then is anything looked for. The holding and the character agree.
pub proof fn law_requests_to_an_actor(
    links: Links,
    action: Box3dPickupAction,
    held: Entity,
    found: Option<Entity>,
    state: Box3dCharacterControllerState,
    decision: PickupDecision,
)
    ensures
        ({
            let free = pickup_decision(links, action, None, found);
            let full = pickup_decision(links, action, Some(Box3dHolding { body: held }), found);
            &&& free is Hold <==> action == Box3dPickupAction::Pull && found is Some
            &&& free is Hold ==> Some(free->Hold_0) == found
            &&& free is Release ==> false
            &&& full is Hold ==> false
            &&& full is Release <==> action != Box3dPickupAction::Pull
            &&& action == Box3dPickupAction::Drop ==> full->Release_0 is None
            &&& action == Box3dPickupAction::Throw ==> full->Release_0 == links.body(held)
            &&& looks(action, None) <==> action == Box3dPickupAction::Pull
            &&& !looks(action, Some(Box3dHolding { body: held }))
        }),
        decision == PickupDecision::Nothing ==> holding_after(
            Some(Box3dHolding { body: held }),
            decision,
        ) == Some(Box3dHolding { body: held }) && holding_after(None, decision) is None
            && holder_after(state, decision) == state,
        decision is Hold ==> holding_after(None, decision) == Some(
            Box3dHolding { body: decision->Hold_0 },
        ) && holder_after(state, decision).held_body == Some(decision->Hold_0),
        decision is Release ==> holding_after(Some(Box3dHolding { body: held }), decision) is None
            && holder_after(state, decision).held_body is None,
        holder_after(state, decision).velocity == state.velocity,
        holder_after(state, decision).grounded == state.grounded,
        holder_after(state, decision).mantle == state.mantle,
        holder_after(state, decision) == (Box3dCharacterControllerState {
            held_body: holder_after(state, decision).held_body,
            ..state
        }),
{
}

/// An actor reaches, holds and pulls as far and as hard as it is set to, and
/// never backward. The usual one reaches three ahead, holds one ahead, follows
/// at fourteen, throws at twelve and lifts a thousand. Held bodies move only
/// when time passes.
pub proof fn law_grip_of_an_actor(actor: Box3dPickupActor, filter: QueryFilter, delta: Scalar)
    ensures
        !actor.max_distance.nan() && actor.max_distance.value() >= 0 ==> actor.grip().0
            == actor.max_distance,
        !actor.preferred_distance.nan() && actor.preferred_distance.value() >= 0 ==> actor.grip().1
            == actor.preferred_distance,
        !actor.hold_hz.nan() && actor.hold_hz.value() >= 0 ==> actor.grip().2 == actor.hold_hz,
        actor.grip().0.value() >= 0 && actor.grip().1.value() >= 0 && actor.grip().2.value() >= 0,
        actor.max_distance.nan() || actor.max_distance.value() < 0 ==> actor.grip().0.value() == 0,
        actor.preferred_distance.nan() || actor.preferred_distance.value() < 0
            ==> actor.grip().1.value() == 0,
        actor.hold_hz.nan() || actor.hold_hz.value() < 0 ==> actor.grip().2.value() == 0,
        ({
            let usual = Box3dPickupActor::usual(filter);
            &&& usual.prop_filter == filter
            &&& crate::scalar::is_nearest_to(usual.max_distance, 3, 1)
            &&& crate::scalar::is_nearest_to(usual.preferred_distance, 1, 1)
            &&& crate::scalar::is_nearest_to(usual.hold_hz, 14, 1)
            &&& crate::scalar::is_nearest_to(usual.throw_speed, 12, 1)
            &&& crate::scalar::is_nearest_to(usual.max_prop_mass, 1000, 1)
        }),
        !delta.nan() ==> (moves_held(delta) <==> delta.value() > 0),
{
    assert((Scalar { bits: 0 }).value() == 0);
    vstd::arithmetic::power2::lemma2_to64();
    let usual = Box3dPickupActor::usual(filter);
    crate::scalar::lemma_nearest(usual.max_distance, 128, 0x00c0_0000, 0x0040_0000, 3, 1);
    crate::scalar::lemma_nearest(usual.preferred_distance, 127, 0x0080_0000, 0x0080_0000, 1, 1);
    crate::scalar::lemma_nearest(usual.hold_hz, 130, 0x00e0_0000, 0x0010_0000, 14, 1);
    crate::scalar::lemma_nearest(usual.throw_speed, 130, 0x00c0_0000, 0x0010_0000, 12, 1);
    crate::scalar::lemma_nearest(usual.max_prop_mass, 136, 0x00fa_0000, 0x4000, 1000, 1);
}

}
