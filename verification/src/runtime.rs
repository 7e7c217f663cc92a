//! Which bodies and shapes of the physics world belong to which entities.

use vstd::prelude::*;
use std::collections::HashMap;
use crate::entity::{sort_entities, BodyId, Entity, ShapeId};

verus! {

/// The five relations of the runtime, by the bits of their handles.
#[verifier::ext_equal]
pub struct Links {
    /// Entity to its body.
    pub bodies: Map<u64, u64>,
    /// Entity to its shape.
    pub shapes: Map<u64, u64>,
    /// Entity of a shape to the entity of the body that carries it.
    pub shape_bodies: Map<u64, u64>,
    /// Body back to its entity.
    pub body_entities: Map<u64, u64>,
    /// Shape back to its entity.
    pub shape_entities: Map<u64, u64>,
}

impl Links {
    pub open spec fn none() -> Links {
        Links {
            bodies: Map::empty(),
            shapes: Map::empty(),
            shape_bodies: Map::empty(),
            body_entities: Map::empty(),
            shape_entities: Map::empty(),
        }
    }

    pub open spec fn body(self, entity: Entity) -> Option<BodyId> {
        match self.bodies.get(entity.bits) {
            Some(bits) => Some(BodyId { bits }),
            None => None,
        }
    }

    pub open spec fn shape(self, entity: Entity) -> Option<ShapeId> {
        match self.shapes.get(entity.bits) {
            Some(bits) => Some(ShapeId { bits }),
            None => None,
        }
    }

    pub open spec fn owner(self, entity: Entity) -> Option<Entity> {
        match self.shape_bodies.get(entity.bits) {
            Some(bits) => Some(Entity { bits }),
            None => None,
        }
    }

    pub open spec fn body_entity(self, body: BodyId) -> Option<Entity> {
        match self.body_entities.get(body.bits) {
            Some(bits) => Some(Entity { bits }),
            None => None,
        }
    }

    pub open spec fn shape_entity(self, shape: ShapeId) -> Option<Entity> {
        match self.shape_entities.get(shape.bits) {
            Some(bits) => Some(Entity { bits }),
            None => None,
        }
    }

    /// The body that carries the shape of `entity`.
    pub open spec fn carrier(self, entity: Entity) -> Option<BodyId> {
        match self.owner(entity) {
            Some(owner) => self.body(owner),
            None => None,
        }
    }

    /// `shape` belongs to the body of the entity that a character holds.
    pub open spec fn holds_shape(self, held_body: Option<Entity>, shape: ShapeId) -> bool {
        match (held_body, self.shape_entity(shape)) {
            (Some(held), Some(entity)) => self.owner(entity) == Some(held),
            _ => false,
        }
    }

    pub open spec fn with_body(self, entity: Entity, body: BodyId) -> Links {
        Links {
            bodies: self.bodies.insert(entity.bits, body.bits),
            body_entities: self.body_entities.insert(body.bits, entity.bits),
            ..self
        }
    }

    pub open spec fn with_shape(self, entity: Entity, shape: ShapeId) -> Links {
        Links {
            shapes: self.shapes.insert(entity.bits, shape.bits),
            shape_bodies: self.shape_bodies.insert(entity.bits, entity.bits),
            shape_entities: self.shape_entities.insert(shape.bits, entity.bits),
            ..self
        }
    }

    /// What `relation` leads to from the entities in `gone`.
    pub open spec fn targets(relation: Map<u64, u64>, gone: Set<u64>) -> Set<u64> {
        Set::new(
            |id: u64|
                exists|e: u64|
                    gone.contains(e) && relation.contains_key(e) && #[trigger] relation[e] == id,
        )
    }

    /// Without the shapes of the entities in `gone`.
    pub open spec fn without_shapes(self, gone: Set<u64>) -> Links {
        Links {
            shapes: self.shapes.remove_keys(gone),
            shape_bodies: self.shape_bodies.remove_keys(gone),
            shape_entities: self.shape_entities.remove_keys(Links::targets(self.shapes, gone)),
            ..self
        }
    }

    /// The entities whose shapes a body of `owners` carries.
    pub open spec fn carried_by(self, owners: Set<u64>) -> Set<u64> {
        Set::new(
            |e: u64| self.shape_bodies.contains_key(e) && owners.contains(self.shape_bodies[e]),
        )
    }

    /// Without the bodies of the entities in `gone`, and without every shape
    /// that they carry.
    pub open spec fn without_bodies(self, gone: Set<u64>) -> Links {
        let left = self.without_shapes(self.carried_by(gone));
        Links {
            bodies: left.bodies.remove_keys(gone),
            body_entities: left.body_entities.remove_keys(Links::targets(self.bodies, gone)),
            ..left
        }
    }

    /// The shape that is to be destroyed when that of an entity is forgotten.
    pub open spec fn doomed_shape(self, entity: Entity, destroy: bool) -> Option<ShapeId> {
        if destroy {
            self.shape(entity)
        } else {
            None
        }
    }

    /// The body that is to be destroyed when that of an entity is forgotten.
    pub open spec fn doomed_body(self, entity: Entity) -> Option<BodyId> {
        self.body(entity)
    }

    /// Without any body.
    pub open spec fn drained(self) -> Links {
        Links { bodies: Map::empty(), ..self }
    }

    /// Each body leads back to its entity and each shape to its own; shapes
    /// with an entity have a carrier, and no handle is left over.
    pub open spec fn coherent(self) -> bool {
        &&& forall|e: u64| #[trigger]
            self.bodies.contains_key(e) ==> self.body_entities.contains_key(self.bodies[e])
                && self.body_entities[self.bodies[e]] == e
        &&& forall|b: u64| #[trigger]
            self.body_entities.contains_key(b) ==> self.bodies.contains_key(self.body_entities[b])
                && self.bodies[self.body_entities[b]] == b
        &&& forall|e: u64| #[trigger]
            self.shapes.contains_key(e) ==> self.shape_entities.contains_key(self.shapes[e])
                && self.shape_entities[self.shapes[e]] == e
        &&& forall|s: u64| #[trigger]
            self.shape_entities.contains_key(s) ==> self.shapes.contains_key(self.shape_entities[s])
                && self.shapes[self.shape_entities[s]] == s
        &&& self.shape_bodies.dom() == self.shapes.dom()
    }
}

/// The handles met while the entities of `order` are taken out of `relation`
/// one after the other.
pub open spec fn taken(relation: Map<u64, u64>, order: Seq<Entity>) -> Seq<u64>
    decreases order.len(),
{
    if order.len() == 0 {
        Seq::empty()
    } else {
        let rest = taken(relation, order.drop_last());
        let e = order.last().bits;
        if relation.contains_key(e) && !order.drop_last().contains(order.last()) {
            rest.push(relation[e])
        } else {
            rest
        }
    }
}

/// `keys` names each entity of `bodies` once, and `r` its body at the same place.
pub open spec fn lists_values(bodies: Map<u64, u64>, keys: Seq<u64>, r: Seq<BodyId>) -> bool {
    &&& keys.no_duplicates()
    &&& keys.to_set() == bodies.dom()
    &&& r.len() == keys.len()
    &&& forall|j: int| 0 <= j < r.len() ==> (#[trigger] r[j]).bits == bodies[keys[j]]
}

/// The bits of the entities in `s`.
pub open spec fn bits_of(s: Seq<Entity>) -> Set<u64> {
    Set::new(|e: u64| s.contains(Entity { bits: e }))
}

/// Keeps the links between entities, bodies and shapes.
pub struct Box3dRuntime {
    bodies: HashMap<u64, u64>,
    shapes: HashMap<u64, u64>,
    shape_bodies: HashMap<u64, u64>,
    body_entities: HashMap<u64, u64>,
    shape_entities: HashMap<u64, u64>,
}

impl View for Box3dRuntime {
    type V = Links;

    closed spec fn view(&self) -> Links {
        Links {
            bodies: self.bodies@,
            shapes: self.shapes@,
            shape_bodies: self.shape_bodies@,
            body_entities: self.body_entities@,
            shape_entities: self.shape_entities@,
        }
    }
}

fn find(relation: &HashMap<u64, u64>, key: u64) -> (r: Option<u64>)
    ensures
        r == relation@.get(key),
{
    broadcast use vstd::std_specs::hash::group_hash_axioms;

    match relation.get(&key) {
        Some(bits) => Some(*bits),
        None => None,
    }
}

/// The keys of a relation, in no particular order.
fn keys_of(relation: &HashMap<u64, u64>) -> (r: Vec<u64>)
    ensures
        r@.no_duplicates(),
        r@.to_set() == relation@.dom(),
{
    broadcast use vstd::std_specs::hash::group_hash_axioms;

    let mut keys: Vec<u64> = Vec::new();
    for key in it: relation.keys()
        invariant
            keys@ == it.seq().unref().take(it.index()),
            it.seq().unref().to_set() == relation@.dom(),
            it.index() == it.seq().len() ==> keys@ == it.seq().unref(),
    {
        keys.push(*key);
    }
    keys
}

proof fn lemma_contains_push<A>(s: Seq<A>, a: A, b: A)
    ensures
        s.push(a).contains(b) <==> s.contains(b) || a == b,
{
    if s.contains(b) {
        let i = s.index_of(b);
        assert(s.push(a)[i] == b);
    }
    assert(s.push(a)[s.len() as int] == a);
}

/// Arranging entities neither adds nor drops nor repeats one.
proof fn lemma_arranged_keeps(s: Seq<Entity>, sorted: Seq<Entity>)
    requires
        crate::entity::arranged(s, sorted),
    ensures
        forall|e: Entity| sorted.contains(e) <==> s.contains(e),
        s.no_duplicates() ==> sorted.no_duplicates(),
{
    broadcast use vstd::seq_lib::group_to_multiset_ensures;

    assert forall|e: Entity| sorted.contains(e) <==> s.contains(e) by {
        assert(sorted.to_multiset().count(e) == s.to_multiset().count(e));
    }
    if s.no_duplicates() {
        s.lemma_multiset_has_no_duplicates();
        sorted.lemma_multiset_has_no_duplicates_conv();
    }
}

impl Box3dRuntime {
    pub fn new() -> (r: Box3dRuntime)
        ensures
            r@ == Links::none(),
            r@.coherent(),
    {
        broadcast use vstd::std_specs::hash::group_hash_axioms;

        Box3dRuntime {
            bodies: HashMap::new(),
            shapes: HashMap::new(),
            shape_bodies: HashMap::new(),
            body_entities: HashMap::new(),
            shape_entities: HashMap::new(),
        }
    }

    /// The body of `entity`.
    pub fn body(&self, entity: Entity) -> (r: Option<BodyId>)
        ensures
            r == self@.body(entity),
    {
        match find(&self.bodies, entity.bits) {
            Some(bits) => Some(BodyId { bits }),
            None => None,
        }
    }

    /// The shape of `entity`.
    pub fn shape(&self, entity: Entity) -> (r: Option<ShapeId>)
        ensures
            r == self@.shape(entity),
    {
        match find(&self.shapes, entity.bits) {
            Some(bits) => Some(ShapeId { bits }),
            None => None,
        }
    }

    /// The entity of the body that carries the shape of `entity`.
    pub fn owner(&self, entity: Entity) -> (r: Option<Entity>)
        ensures
            r == self@.owner(entity),
    {
        match find(&self.shape_bodies, entity.bits) {
            Some(bits) => Some(Entity { bits }),
            None => None,
        }
    }

    /// The body that carries the shape of `entity`.
    pub fn carrier(&self, entity: Entity) -> (r: Option<BodyId>)
        ensures
            r == self@.carrier(entity),
    {
        match self.owner(entity) {
            Some(owner) => self.body(owner),
            None => None,
        }
    }

    /// The entity of a body.
    pub fn body_entity(&self, body: BodyId) -> (r: Option<Entity>)
        ensures
            r == self@.body_entity(body),
    {
        match find(&self.body_entities, body.bits) {
            Some(bits) => Some(Entity { bits }),
            None => None,
        }
    }

    /// The entity of a shape.
    pub fn shape_entity(&self, shape: ShapeId) -> (r: Option<Entity>)
        ensures
            r == self@.shape_entity(shape),
    {
        match find(&self.shape_entities, shape.bits) {
            Some(bits) => Some(Entity { bits }),
            None => None,
        }
    }

    /// Remembers the body made for `entity`.
    pub fn record_body(&mut self, entity: Entity, body: BodyId)
        ensures
            final(self)@ == old(self)@.with_body(entity, body),
    {
        broadcast use vstd::std_specs::hash::group_hash_axioms;

        self.bodies.insert(entity.bits, body.bits);
        self.body_entities.insert(body.bits, entity.bits);
    }

    /// Remembers the shape made for `entity`, on its own body.
    pub fn record_shape(&mut self, entity: Entity, shape: ShapeId)
        ensures
            final(self)@ == old(self)@.with_shape(entity, shape),
    {
        broadcast use vstd::std_specs::hash::group_hash_axioms;

        self.shapes.insert(entity.bits, shape.bits);
        self.shape_bodies.insert(entity.bits, entity.bits);
        self.shape_entities.insert(shape.bits, entity.bits);
    }

    /// Forgets the shape of `entity`. Returns the shape that is to be destroyed:
    /// the one that was known, if `destroy` asks for it.
    pub fn remove_shape(&mut self, entity: Entity, destroy: bool) -> (r: Option<ShapeId>)
        ensures
            final(self)@ == old(self)@.without_shapes(set![entity.bits]),
            r == (if destroy {
                old(self)@.shape(entity)
            } else {
                None
            }),
            r == old(self)@.doomed_shape(entity, destroy),
    {
        broadcast use vstd::std_specs::hash::group_hash_axioms;

        let ghost before = self@;
        let known = self.shapes.remove(&entity.bits);
        let mut doomed = None;
        if let Some(shape) = known {
            self.shape_entities.remove(&shape);
            if destroy {
                doomed = Some(ShapeId { bits: shape });
            }
        }
        self.shape_bodies.remove(&entity.bits);
        proof {
            let gone = set![entity.bits];
            assert(self@.shapes =~= before.shapes.remove_keys(gone));
            assert(self@.shape_bodies =~= before.shape_bodies.remove_keys(gone));
            let ids = Links::targets(before.shapes, gone);
            if before.shapes.contains_key(entity.bits) {
                let id = before.shapes[entity.bits];
                assert(ids =~= set![id]);
                assert(self@.shape_entities =~= before.shape_entities.remove_keys(ids));
            } else {
                assert(ids =~= Set::empty());
                assert(self@.shape_entities =~= before.shape_entities.remove_keys(ids));
            }
        }
        doomed
    }

    /// The entities whose shapes the body of `body_entity` carries, in
    /// ascending order of their bits.
    pub fn shapes_for_body(&self, body_entity: Entity) -> (r: Vec<Entity>)
        ensures
            crate::entity::ascending(r@),
            r@.no_duplicates(),
            bits_of(r@) == self@.carried_by(set![body_entity.bits]),
    {
        let keys = keys_of(&self.shape_bodies);
        let mut shapes: Vec<Entity> = Vec::new();
        let mut i: usize = 0;
        while i < keys.len()
            invariant
                i <= keys@.len(),
                keys@.no_duplicates(),
                keys@.to_set() == self@.shape_bodies.dom(),
                forall|e: u64| #[trigger]
                    shapes@.contains(Entity { bits: e }) <==> keys@.take(i as int).contains(e)
                        && self@.shape_bodies[e] == body_entity.bits,
                shapes@.no_duplicates(),
            decreases keys@.len() - i,
        {
            let key: u64 = keys[i];
            assert(keys@.take(i + 1) =~= keys@.take(i as int).push(key));
            assert(!keys@.take(i as int).contains(key));
            assert(keys@.to_set().contains(key));
            let ghost found = shapes@;
            assert(!found.contains(Entity { bits: key }));
            if find(&self.shape_bodies, key) == Some(body_entity.bits) {
                shapes.push(Entity { bits: key });
            }
            assert forall|e: u64| #[trigger]
                shapes@.contains(Entity { bits: e }) <==> keys@.take(i + 1).contains(e)
                    && self@.shape_bodies[e] == body_entity.bits by {
                lemma_contains_push(keys@.take(i as int), key, e);
                if self@.shape_bodies[key] == body_entity.bits {
                    lemma_contains_push(found, Entity { bits: key }, Entity { bits: e });
                }
            }
            i = i + 1;
        }
        assert(keys@.take(i as int) =~= keys@);
        let ghost found = shapes@;
        sort_entities(&mut shapes);
        proof {
            lemma_arranged_keeps(found, shapes@);
            assert forall|e: u64| bits_of(shapes@).contains(e) <==> self@.carried_by(
                set![body_entity.bits],
            ).contains(e) by {
                assert(shapes@.contains(Entity { bits: e }) <==> found.contains(Entity { bits: e }));
                assert(keys@.contains(e) <==> keys@.to_set().contains(e));
            }
            assert(bits_of(shapes@) =~= self@.carried_by(set![body_entity.bits]));
        }
        shapes
    }

    /// Forgets the body of `entity` and every shape that it carries. Returns
    /// the body that is to be destroyed, which takes its shapes with it.
    pub fn remove_body(&mut self, entity: Entity) -> (r: Option<BodyId>)
        ensures
            final(self)@ == old(self)@.without_bodies(set![entity.bits]),
            r == old(self)@.body(entity),
            r == old(self)@.doomed_body(entity),
    {
        broadcast use vstd::std_specs::hash::group_hash_axioms;

        let ghost before = self@;
        let carried = self.shapes_for_body(entity);
        let mut i: usize = 0;
        assert(self@ =~= before.without_shapes(bits_of(carried@.take(0)))) by {
            lemma_without_no_shapes(before, bits_of(carried@.take(0)));
        }
        while i < carried.len()
            invariant
                i <= carried@.len(),
                self@ == before.without_shapes(bits_of(carried@.take(i as int))),
            decreases carried@.len() - i,
        {
            self.remove_shape(carried[i], false);
            proof {
                let gone = bits_of(carried@.take(i as int));
                lemma_without_shapes_step(before, gone, carried@[i as int].bits);
                lemma_bits_step(carried@, i as int);
            }
            i = i + 1;
        }
        assert(carried@.take(i as int) =~= carried@);
        let known = self.bodies.remove(&entity.bits);
        let mut doomed = None;
        if let Some(body) = known {
            self.body_entities.remove(&body);
            doomed = Some(BodyId { bits: body });
        }
        proof {
            let gone = set![entity.bits];
            let ids = Links::targets(before.bodies, gone);
            assert(self@.bodies =~= before.bodies.remove_keys(gone));
            if before.bodies.contains_key(entity.bits) {
                assert(ids =~= set![before.bodies[entity.bits]]);
            } else {
                assert(ids =~= Set::empty());
            }
            assert(self@.body_entities =~= before.body_entities.remove_keys(ids));
        }
        doomed
    }

    /// Forgets the shapes of entities that lost theirs. Returns the shapes that
    /// are to be destroyed, those of lower entities first.
    pub fn cleanup_box3d_shapes(&mut self, removed: Vec<Entity>) -> (r: Vec<ShapeId>)
        ensures
            final(self)@ == old(self)@.without_shapes(bits_of(removed@)),
            exists|order: Seq<Entity>| #[trigger]
                crate::entity::arranged(removed@, order) && r@.map_values(|s: ShapeId| s.bits)
                    == taken(old(self)@.shapes, order),
    {
        let ghost before = self@;
        let mut order = removed;
        sort_entities(&mut order);
        let mut doomed: Vec<ShapeId> = Vec::new();
        let mut i: usize = 0;
        proof {
            lemma_without_no_shapes(before, bits_of(order@.take(0)));
        }
        while i < order.len()
            invariant
                i <= order@.len(),
                self@ == before.without_shapes(bits_of(order@.take(i as int))),
                doomed@.map_values(|s: ShapeId| s.bits) == taken(
                    before.shapes,
                    order@.take(i as int),
                ),
            decreases order@.len() - i,
        {
            let entity = order[i];
            let shape = self.remove_shape(entity, true);
            proof {
                let gone = bits_of(order@.take(i as int));
                lemma_without_shapes_step(before, gone, entity.bits);
                lemma_bits_step(order@, i as int);
                assert(order@.take(i + 1).drop_last() =~= order@.take(i as int));
            }
            let ghost so_far = doomed@;
            if let Some(shape) = shape {
                doomed.push(shape);
                assert(doomed@.map_values(|s: ShapeId| s.bits) =~= so_far.map_values(
                    |s: ShapeId| s.bits,
                ).push(shape.bits));
            }
            i = i + 1;
        }
        proof {
            assert(order@.take(i as int) =~= order@);
            lemma_arranged_keeps(removed@, order@);
            assert(bits_of(order@) =~= bits_of(removed@));
        }
        doomed
    }

    /// Forgets the bodies of entities that lost theirs, with all that they
    /// carry. Returns the bodies that are to be destroyed, those of lower
    /// entities first.
    pub fn cleanup_box3d_bodies(&mut self, removed: Vec<Entity>) -> (r: Vec<BodyId>)
        ensures
            final(self)@ == old(self)@.without_bodies(bits_of(removed@)),
            exists|order: Seq<Entity>| #[trigger]
                crate::entity::arranged(removed@, order) && r@.map_values(|b: BodyId| b.bits)
                    == taken(old(self)@.bodies, order),
    {
        let ghost before = self@;
        let mut order = removed;
        sort_entities(&mut order);
        let mut doomed: Vec<BodyId> = Vec::new();
        let mut i: usize = 0;
        proof {
            lemma_without_no_bodies(before, bits_of(order@.take(0)));
        }
        while i < order.len()
            invariant
                i <= order@.len(),
                self@ == before.without_bodies(bits_of(order@.take(i as int))),
                doomed@.map_values(|b: BodyId| b.bits) == taken(
                    before.bodies,
                    order@.take(i as int),
                ),
            decreases order@.len() - i,
        {
            let entity = order[i];
            let body = self.remove_body(entity);
            proof {
                let gone = bits_of(order@.take(i as int));
                lemma_without_bodies_step(before, gone, entity.bits);
                lemma_bits_step(order@, i as int);
                assert(order@.take(i + 1).drop_last() =~= order@.take(i as int));
            }
            let ghost so_far = doomed@;
            if let Some(body) = body {
                doomed.push(body);
                assert(doomed@.map_values(|b: BodyId| b.bits) =~= so_far.map_values(
                    |b: BodyId| b.bits,
                ).push(body.bits));
            }
            i = i + 1;
        }
        proof {
            assert(order@.take(i as int) =~= order@);
            lemma_arranged_keeps(removed@, order@);
            assert(bits_of(order@) =~= bits_of(removed@));
        }
        doomed
    }

    /// Gives up every body, in no particular order, for the runtime is going
    /// away.
    pub fn drain_bodies(&mut self) -> (r: Vec<BodyId>)
        ensures
            final(self)@ == (Links { bodies: Map::empty(), ..old(self)@ }),
            final(self)@ == old(self)@.drained(),
            exists|keys: Seq<u64>| #[trigger] lists_values(old(self)@.bodies, keys, r@),
    {
        broadcast use vstd::std_specs::hash::group_hash_axioms;

        let keys = keys_of(&self.bodies);
        let mut drained: Vec<BodyId> = Vec::new();
        let mut i: usize = 0;
        while i < keys.len()
            invariant
                i <= keys@.len(),
                keys@.no_duplicates(),
                keys@.to_set() == self@.bodies.dom(),
                drained@.len() == i,
                forall|j: int| 0 <= j < i ==> (#[trigger] drained@[j]).bits == self@.bodies[keys@[j]],
            decreases keys@.len() - i,
        {
            let key: u64 = keys[i];
            assert(keys@.to_set().contains(key));
            if let Some(bits) = find(&self.bodies, key) {
                drained.push(BodyId { bits });
            }
            i = i + 1;
        }
        assert(lists_values(self@.bodies, keys@, drained@));
        self.bodies.clear();
        drained
    }

    /// Whether `shape` belongs to the body that a character holds.
    pub fn box3d_state_holds_shape(&self, held_body: Option<Entity>, shape: ShapeId) -> (r: bool)
        ensures
            r == self@.holds_shape(held_body, shape),
    {
        match (held_body, self.shape_entity(shape)) {
            (Some(held), Some(entity)) => match self.owner(entity) {
                Some(owner) => owner == held,
                None => false,
            },
            _ => false,
        }
    }
}

proof fn lemma_bits_step(s: Seq<Entity>, i: int)
    requires
        0 <= i < s.len(),
    ensures
        bits_of(s.take(i + 1)) == bits_of(s.take(i)).insert(s[i].bits),
{
    assert(s.take(i + 1) =~= s.take(i).push(s[i]));
    assert forall|e: u64| bits_of(s.take(i + 1)).contains(e) <==> bits_of(s.take(i)).insert(
        s[i].bits,
    ).contains(e) by {
        lemma_contains_push(s.take(i), s[i], Entity { bits: e });
    }
    assert(bits_of(s.take(i + 1)) =~= bits_of(s.take(i)).insert(s[i].bits));
}

proof fn lemma_without_no_shapes(m: Links, gone: Set<u64>)
    requires
        forall|e: u64| !gone.contains(e),
    ensures
        m.without_shapes(gone) == m,
{
    assert(m.without_shapes(gone) =~= m);
}

proof fn lemma_without_no_bodies(m: Links, gone: Set<u64>)
    requires
        forall|e: u64| !gone.contains(e),
    ensures
        m.without_bodies(gone) == m,
{
    assert(m.without_bodies(gone) =~= m);
}

/// What two sets of keys lead to, one after the other, is what both lead to at
/// once. `rest` is the map without the first.
proof fn lemma_targets_split(
    map: Map<u64, u64>,
    rest: Map<u64, u64>,
    first: Set<u64>,
    second: Set<u64>,
    all: Set<u64>,
)
    requires
        forall|k: u64| #[trigger]
            rest.contains_key(k) <==> map.contains_key(k) && !first.contains(k),
        forall|k: u64| #[trigger] rest.contains_key(k) ==> rest[k] == map[k],
        forall|k: u64| #[trigger]
            map.contains_key(k) ==> (all.contains(k) <==> first.contains(k) || (second.contains(k)
                && rest.contains_key(k))),
    ensures
        forall|id: u64| #[trigger]
            Links::targets(map, all).contains(id) <==> Links::targets(map, first).contains(id)
                || Links::targets(rest, second).contains(id),
{
    assert forall|id: u64| #[trigger]
        Links::targets(map, all).contains(id) <==> Links::targets(map, first).contains(id)
            || Links::targets(rest, second).contains(id) by {
        if Links::targets(map, all).contains(id) {
            let k = choose|k: u64| all.contains(k) && map.contains_key(k) && map[k] == id;
            if first.contains(k) {
                assert(first.contains(k) && map.contains_key(k) && map[k] == id);
            } else {
                assert(second.contains(k) && rest.contains_key(k) && rest[k] == id);
            }
        }
        if Links::targets(map, first).contains(id) {
            let k = choose|k: u64| first.contains(k) && map.contains_key(k) && map[k] == id;
            assert(all.contains(k) && map[k] == id);
        }
        if Links::targets(rest, second).contains(id) {
            let k = choose|k: u64| second.contains(k) && rest.contains_key(k) && rest[k] == id;
            assert(all.contains(k) && map.contains_key(k) && map[k] == id);
        }
    }
}

proof fn lemma_without_shapes_step(m: Links, gone: Set<u64>, e: u64)
    ensures
        m.without_shapes(gone).without_shapes(set![e]) == m.without_shapes(gone.insert(e)),
{
    let all = gone.insert(e);
    let once = m.without_shapes(gone);
    lemma_targets_split(m.shapes, once.shapes, gone, set![e], all);
    assert(once.without_shapes(set![e]) =~= m.without_shapes(all));
}

proof fn lemma_without_bodies_step(m: Links, gone: Set<u64>, e: u64)
    ensures
        m.without_bodies(gone).without_bodies(set![e]) == m.without_bodies(gone.insert(e)),
{
    let all = gone.insert(e);
    let once = m.without_bodies(gone);
    let twice = once.without_bodies(set![e]);
    let (first, second) = (m.carried_by(gone), once.carried_by(set![e]));
    lemma_targets_split(m.bodies, once.bodies, gone, set![e], all);
    lemma_targets_split(m.shapes, once.shapes, first, second, m.carried_by(all));
    assert(twice.shapes =~= m.without_bodies(all).shapes);
    assert(twice.shape_bodies =~= m.without_bodies(all).shape_bodies);
    assert(twice.shape_entities =~= m.without_bodies(all).shape_entities);
    assert(twice =~= m.without_bodies(all));
}

/// A recorded body is found again from either end, and recording it changes
/// the answer for no other entity and no other body.
pub proof fn law_recorded_body_is_found(m: Links, entity: Entity, body: BodyId)
    ensures
        m.with_body(entity, body).body(entity) == Some(body),
        m.with_body(entity, body).body_entity(body) == Some(entity),
        forall|e: Entity| e != entity ==> m.with_body(entity, body).body(e) == m.body(e),
        forall|b: BodyId| b != body ==> m.with_body(entity, body).body_entity(b) == m.body_entity(b),
        forall|e: Entity| m.with_body(entity, body).shape(e) == m.shape(e),
        forall|e: Entity| m.with_body(entity, body).owner(e) == m.owner(e),
{
}

/// A recorded shape is found again from either end, on the body of its own
/// entity, and recording it changes the answer for no other entity or shape.
pub proof fn law_recorded_shape_is_found(m: Links, entity: Entity, shape: ShapeId)
    ensures
        m.with_shape(entity, shape).shape(entity) == Some(shape),
        m.with_shape(entity, shape).shape_entity(shape) == Some(entity),
        m.with_shape(entity, shape).owner(entity) == Some(entity),
        m.with_shape(entity, shape).carrier(entity) == m.body(entity),
        forall|e: Entity| e != entity ==> m.with_shape(entity, shape).shape(e) == m.shape(e),
        forall|e: Entity| e != entity ==> m.with_shape(entity, shape).owner(e) == m.owner(e),
        forall|s: ShapeId|
            s != shape ==> m.with_shape(entity, shape).shape_entity(s) == m.shape_entity(s),
{
}

/// Recording a new body for an entity without one keeps the links coherent.
pub proof fn law_record_body_keeps_coherence(m: Links, entity: Entity, body: BodyId)
    requires
        m.coherent(),
        m.body(entity) is None,
        m.body_entity(body) is None,
    ensures
        m.with_body(entity, body).coherent(),
{
}

/// Recording a new shape for an entity without one keeps the links coherent.
pub proof fn law_record_shape_keeps_coherence(m: Links, entity: Entity, shape: ShapeId)
    requires
        m.coherent(),
        m.shape(entity) is None,
        m.shape_entity(shape) is None,
    ensures
        m.with_shape(entity, shape).coherent(),
{
    let n = m.with_shape(entity, shape);
    assert(n.shape_bodies.dom() =~= n.shapes.dom());
}

/// Forgetting shapes keeps the links coherent.
pub proof fn law_forget_shapes_keeps_coherence(m: Links, gone: Set<u64>)
    requires
        m.coherent(),
    ensures
        m.without_shapes(gone).coherent(),
{
    let n = m.without_shapes(gone);
    let ids = Links::targets(m.shapes, gone);
    assert forall|e: u64| #[trigger] n.shapes.contains_key(e) implies n.shape_entities.contains_key(
        n.shapes[e],
    ) && n.shape_entities[n.shapes[e]] == e by {
        if ids.contains(m.shapes[e]) {
            let k = choose|k: u64|
                gone.contains(k) && m.shapes.contains_key(k) && m.shapes[k] == m.shapes[e];
            assert(m.shape_entities[m.shapes[k]] == k);
        }
    }
    assert forall|s: u64| #[trigger] n.shape_entities.contains_key(s) implies n.shapes.contains_key(
        n.shape_entities[s],
    ) && n.shapes[n.shape_entities[s]] == s by {
        let e = m.shape_entities[s];
        if gone.contains(e) {
            assert(m.shapes.contains_key(e) && m.shapes[e] == s);
            assert(ids.contains(s));
        }
    }
    assert(n.shape_bodies.dom() =~= n.shapes.dom());
}

/// Forgetting bodies keeps the links coherent.
pub proof fn law_forget_bodies_keeps_coherence(m: Links, gone: Set<u64>)
    requires
        m.coherent(),
    ensures
        m.without_bodies(gone).coherent(),
{
    law_forget_shapes_keeps_coherence(m, m.carried_by(gone));
    let n = m.without_bodies(gone);
    let ids = Links::targets(m.bodies, gone);
    assert forall|e: u64| #[trigger] n.bodies.contains_key(e) implies n.body_entities.contains_key(
        n.bodies[e],
    ) && n.body_entities[n.bodies[e]] == e by {
        if ids.contains(m.bodies[e]) {
            let k = choose|k: u64|
                gone.contains(k) && m.bodies.contains_key(k) && m.bodies[k] == m.bodies[e];
            assert(m.body_entities[m.bodies[k]] == k);
        }
    }
    assert forall|b: u64| #[trigger] n.body_entities.contains_key(b) implies n.bodies.contains_key(
        n.body_entities[b],
    ) && n.bodies[n.body_entities[b]] == b by {
        let e = m.body_entities[b];
        if gone.contains(e) {
            assert(m.bodies.contains_key(e) && m.bodies[e] == b);
            assert(ids.contains(b));
        }
    }
}

/// After bodies are forgotten no shape is left on one of them, and neither
/// they nor such a shape can be reached from an entity.
pub proof fn law_forgotten_bodies_carry_nothing(m: Links, gone: Set<u64>, e: Entity)
    ensures
        gone.contains(e.bits) ==> m.without_bodies(gone).body(e) is None,
        m.without_bodies(gone).owner(e) matches Some(owner) ==> !gone.contains(owner.bits),
        m.owner(e) matches Some(owner) ==> (gone.contains(owner.bits) ==> m.without_bodies(gone).shape(
            e,
        ) is None),
        !gone.contains(e.bits) ==> m.without_bodies(gone).body(e) == m.body(e),
{
}

/// Forgetting a body that was just recorded, before any shape is put on it,
/// restores the links.
pub proof fn law_forgetting_undoes_recording_a_body(m: Links, entity: Entity, body: BodyId)
    requires
        m.body(entity) is None,
        m.body_entity(body) is None,
        forall|e: u64| m.shape_bodies.contains_key(e) ==> m.shape_bodies[e] != entity.bits,
    ensures
        m.with_body(entity, body).without_bodies(set![entity.bits]) == m,
{
    let n = m.with_body(entity, body);
    let gone = set![entity.bits];
    assert(n.carried_by(gone) =~= Set::empty());
    assert(Links::targets(n.bodies, gone) =~= set![body.bits]) by {
        assert(n.bodies[entity.bits] == body.bits);
    }
    lemma_without_no_shapes(n, n.carried_by(gone));
    assert(n.without_bodies(gone) =~= m);
}

/// Forgetting a shape that was just recorded restores the links.
pub proof fn law_forgetting_undoes_recording_a_shape(m: Links, entity: Entity, shape: ShapeId)
    requires
        m.shape(entity) is None,
        m.owner(entity) is None,
        m.shape_entity(shape) is None,
    ensures
        m.with_shape(entity, shape).without_shapes(set![entity.bits]) == m,
{
    let n = m.with_shape(entity, shape);
    let gone = set![entity.bits];
    assert(Links::targets(n.shapes, gone) =~= set![shape.bits]) by {
        assert(n.shapes[entity.bits] == shape.bits);
    }
    assert(n.without_shapes(gone) =~= m);
}

/// What is looked up is what the links hold under the handle's bits, and nothing
/// where they hold nothing: no lookup reads another relation.
pub proof fn law_lookups_read_their_relation(
    m: Links,
    e: Entity,
    body: BodyId,
    shape: ShapeId,
)
    ensures
        m.body(e) == Some(body) <==> m.bodies.contains_key(e.bits) && m.bodies[e.bits]
            == body.bits,
        m.body(e) is None <==> !m.bodies.contains_key(e.bits),
        m.shape(e) == Some(shape) <==> m.shapes.contains_key(e.bits) && m.shapes[e.bits]
            == shape.bits,
        m.shape(e) is None <==> !m.shapes.contains_key(e.bits),
        m.owner(e) matches Some(owner) ==> m.shape_bodies.contains_key(e.bits)
            && m.shape_bodies[e.bits] == owner.bits,
        m.owner(e) is None <==> !m.shape_bodies.contains_key(e.bits),
        m.body_entity(body) == Some(e) <==> m.body_entities.contains_key(body.bits)
            && m.body_entities[body.bits] == e.bits,
        m.body_entity(body) is None <==> !m.body_entities.contains_key(body.bits),
        m.shape_entity(shape) == Some(e) <==> m.shape_entities.contains_key(shape.bits)
            && m.shape_entities[shape.bits] == e.bits,
        m.shape_entity(shape) is None <==> !m.shape_entities.contains_key(shape.bits),
        m.carrier(e) == Some(body) <==> exists|owner: Entity|
            m.owner(e) == Some(owner) && #[trigger] m.body(owner) == Some(body),
        m.carrier(e) is Some ==> m.owner(e) is Some,
        Links::none().body(e) is None && Links::none().shape(e) is None,
        Links::none().owner(e) is None && Links::none().body_entity(body) is None,
        Links::none().shape_entity(shape) is None,
{
    if m.carrier(e) == Some(body) {
        let owner = m.owner(e)->0;
        assert(m.body(owner) == Some(body));
    }
}

/// A character holds exactly the shapes that are on the body that it holds: one
/// with empty hands holds none, and neither does one hold a shape that belongs
/// to no entity, or to one whose shape is on another body.
pub proof fn law_held_shapes(m: Links, held: Entity, entity: Entity, shape: ShapeId)
    ensures
        !m.holds_shape(None, shape),
        m.shape_entity(shape) is None ==> !m.holds_shape(Some(held), shape),
        m.shape_entity(shape) == Some(entity) && m.owner(entity) == Some(held) ==> m.holds_shape(
            Some(held),
            shape,
        ),
        m.shape_entity(shape) == Some(entity) && m.owner(entity) != Some(held) ==> !m.holds_shape(
            Some(held),
            shape,
        ),
        m.with_shape(entity, shape).holds_shape(Some(entity), shape),
        held != entity ==> !m.with_shape(entity, shape).holds_shape(Some(held), shape),
{
}

/// Forgetting shapes takes the shapes of those entities, their owners and the
/// way back from these shapes. It takes nothing of another entity, and no body.
pub proof fn law_forgotten_shapes_are_gone(m: Links, gone: Set<u64>, e: Entity, shape: ShapeId)
    ensures
        gone.contains(e.bits) ==> m.without_shapes(gone).shape(e) is None
            && m.without_shapes(gone).owner(e) is None,
        gone.contains(e.bits) && m.shape(e) == Some(shape) ==> m.without_shapes(gone).shape_entity(
            shape,
        ) is None,
        !gone.contains(e.bits) ==> m.without_shapes(gone).shape(e) == m.shape(e)
            && m.without_shapes(gone).owner(e) == m.owner(e),
        (forall|k: u64| gone.contains(k) ==> #[trigger] m.shape(Entity { bits: k }) != Some(shape))
            ==> m.without_shapes(gone).shape_entity(shape) == m.shape_entity(shape),
        m.without_shapes(gone).body(e) == m.body(e),
        m.without_shapes(gone).bodies == m.bodies,
        m.without_shapes(gone).body_entities == m.body_entities,
        m.doomed_shape(e, true) == m.shape(e),
        m.doomed_shape(e, false) is None,
        m.doomed_body(e) == m.body(e),
{
    let ids = Links::targets(m.shapes, gone);
    if gone.contains(e.bits) && m.shape(e) == Some(shape) {
        assert(m.shapes[e.bits] == shape.bits);
        assert(ids.contains(shape.bits));
    }
    if forall|k: u64| gone.contains(k) ==> #[trigger] m.shape(Entity { bits: k }) != Some(shape) {
        if ids.contains(shape.bits) {
            let k = choose|k: u64|
                gone.contains(k) && m.shapes.contains_key(k) && m.shapes[k] == shape.bits;
            assert(m.shape(Entity { bits: k }) == Some(shape));
        }
    }
}

/// Forgetting bodies takes their way back, and every shape on them with its own
/// way back. What is on other bodies stays.
pub proof fn law_forgotten_bodies_take_their_shapes(
    m: Links,
    gone: Set<u64>,
    e: Entity,
    body: BodyId,
    shape: ShapeId,
)
    ensures
        gone.contains(e.bits) && m.body(e) == Some(body) ==> m.without_bodies(gone).body_entity(
            body,
        ) is None,
        m.owner(e) matches Some(owner) ==> gone.contains(owner.bits) && m.shape(e) == Some(shape)
            ==> m.without_bodies(gone).shape_entity(shape) is None && m.without_bodies(gone).owner(
            e,
        ) is None,
        m.owner(e) matches Some(owner) ==> !gone.contains(owner.bits) ==> m.without_bodies(
            gone,
        ).shape(e) == m.shape(e) && m.without_bodies(gone).owner(e) == m.owner(e),
        m.owner(e) is None ==> m.without_bodies(gone).shape(e) == m.shape(e),
        m.coherent() && m.body(e) == Some(body) && !gone.contains(e.bits) ==> m.without_bodies(
            gone,
        ).body_entity(body) == Some(e),
        m.drained().body(e) is None,
        m.drained().shape(e) == m.shape(e) && m.drained().owner(e) == m.owner(e),
        m.drained().body_entity(body) == m.body_entity(body),
        m.drained().shape_entity(shape) == m.shape_entity(shape),
{
    law_forgotten_shapes_are_gone(m, m.carried_by(gone), e, shape);
    let ids = Links::targets(m.bodies, gone);
    if gone.contains(e.bits) && m.body(e) == Some(body) {
        assert(m.bodies[e.bits] == body.bits);
        assert(ids.contains(body.bits));
    }
    if m.coherent() && m.body(e) == Some(body) && !gone.contains(e.bits) {
        assert(m.bodies.contains_key(e.bits));
        if ids.contains(body.bits) {
            let k = choose|k: u64|
                gone.contains(k) && m.bodies.contains_key(k) && m.bodies[k] == body.bits;
            assert(m.body_entities[m.bodies[k]] == k);
        }
    }
}

/// The handles that are taken are those of the entities in turn, each once: as
/// many as entities had one, and each from one of them.
pub proof fn law_taken_handles(relation: Map<u64, u64>, order: Seq<Entity>)
    ensures
        forall|i: int|
            0 <= i < taken(relation, order).len() ==> exists|k: int|
                0 <= k < order.len() && relation.contains_key((#[trigger] order[k]).bits)
                    && #[trigger] taken(relation, order)[i] == relation[order[k].bits],
        forall|k: int|
            0 <= k < order.len() && relation.contains_key((#[trigger] order[k]).bits) ==> taken(
                relation,
                order,
            ).contains(relation[order[k].bits]),
        taken(relation, order).len() <= order.len(),
        order.no_duplicates() && (forall|k: int|
            0 <= k < order.len() ==> relation.contains_key((#[trigger] order[k]).bits))
            ==> taken(relation, order).len() == order.len() && forall|k: int|
            0 <= k < order.len() ==> #[trigger] taken(relation, order)[k]
                == relation[order[k].bits],
    decreases order.len(),
{
    if order.len() > 0 {
        let rest = order.drop_last();
        let last = order.last();
        law_taken_handles(relation, rest);
        let (before, after) = (taken(relation, rest), taken(relation, order));
        assert forall|i: int| 0 <= i < after.len() implies exists|k: int|
            0 <= k < order.len() && relation.contains_key((#[trigger] order[k]).bits)
                && #[trigger] after[i] == relation[order[k].bits] by {
            if i < before.len() {
                let k = choose|k: int|
                    0 <= k < rest.len() && relation.contains_key((#[trigger] rest[k]).bits)
                        && before[i] == relation[rest[k].bits];
                assert(order[k] == rest[k]);
            } else {
                assert(order[order.len() - 1] == last);
            }
        }
        assert forall|k: int|
            0 <= k < order.len() && relation.contains_key(
                (#[trigger] order[k]).bits,
            ) implies after.contains(relation[order[k].bits]) by {
            if k < rest.len() {
                assert(rest[k] == order[k]);
                let i = before.index_of(relation[rest[k].bits]);
                assert(after[i] == before[i]);
            } else if rest.contains(last) {
                let j = rest.index_of(last);
                assert(rest[j].bits == last.bits);
                let i = before.index_of(relation[rest[j].bits]);
                assert(after[i] == before[i]);
            } else {
                assert(after[after.len() - 1] == relation[last.bits]);
            }
        }
        if order.no_duplicates() && (forall|k: int|
            0 <= k < order.len() ==> relation.contains_key((#[trigger] order[k]).bits)) {
            assert(order[order.len() - 1] == last);
            assert forall|k: int| 0 <= k < rest.len() implies relation.contains_key(
                (#[trigger] rest[k]).bits,
            ) by {
                assert(rest[k] == order[k]);
            }
            assert(!rest.contains(last)) by {
                if rest.contains(last) {
                    let j = rest.index_of(last);
                    assert(order[j] == order[order.len() - 1]);
                }
            }
            assert(rest.no_duplicates());
            assert forall|k: int| 0 <= k < order.len() implies #[trigger] after[k]
                == relation[order[k].bits] by {
                if k < rest.len() {
                    assert(rest[k] == order[k]);
                    assert(before[k] == relation[rest[k].bits]);
                }
            }
        }
    }
}

/// The entities on a body are those whose shape it carries, and the bits of
/// entities are theirs alone.
pub proof fn law_carried_shapes(m: Links, owners: Set<u64>, e: Entity, s: Seq<Entity>)
    ensures
        m.carried_by(owners).contains(e.bits) <==> (m.owner(e) is Some && owners.contains(
            m.owner(e)->0.bits,
        )),
        bits_of(s).contains(e.bits) <==> s.contains(e),
        forall|relation: Map<u64, u64>, id: u64| #[trigger]
            Links::targets(relation, set![e.bits]).contains(id) <==> relation.contains_key(e.bits)
                && relation[e.bits] == id,
{
    assert forall|relation: Map<u64, u64>, id: u64| #[trigger]
        Links::targets(relation, set![e.bits]).contains(id) <==> relation.contains_key(e.bits)
            && relation[e.bits] == id by {
        if relation.contains_key(e.bits) && relation[e.bits] == id {
            assert(set![e.bits].contains(e.bits));
        }
    }
}

}
