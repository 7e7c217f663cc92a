//! Bodies, colliders and velocities as the game world describes them, and what
//! the physics world is asked to make of them.

use vstd::prelude::*;
use crate::entity::Entity;
use crate::scalar::{Rotation, Scalar, Vector, ONE};

verus! {

/// The pattern of 0.6, the friction of a collider that names none.
pub const DEFAULT_FRICTION: u32 = 0x3f19_999a;

/// The pattern of -9.8, the default pull along the height axis.
pub const DEFAULT_GRAVITY: u32 = 0xc11c_cccd;

/// The pattern of the largest finite quantity.
pub const LARGEST: u32 = 0x7f7f_ffff;

/// The sets that the runtime's systems run in.
#[derive(Clone, Copy, Debug, PartialEq, Eq, Hash, Structural)]
pub enum AhoyBox3dSystems {
    Tick,
}

/// Settings of the physics world.
#[derive(Clone, Copy, Debug, PartialEq, Eq, Structural)]
pub struct AhoyBox3dConfig {
    pub gravity: Vector,
    pub sub_steps: i32,
}

impl AhoyBox3dConfig {
    /// Settings that nobody asked to change.
    pub open spec fn usual() -> AhoyBox3dConfig {
        AhoyBox3dConfig {
            gravity: crate::scalar::upward(Scalar { bits: DEFAULT_GRAVITY }),
            sub_steps: 4,
        }
    }
}

impl Default for AhoyBox3dConfig {
    fn default() -> (r: AhoyBox3dConfig)
        ensures
            r.gravity.x.bits == 0,
            r.gravity.y.bits == DEFAULT_GRAVITY,
            r.gravity.z.bits == 0,
            r.sub_steps == 4,
            r == AhoyBox3dConfig::usual(),
    {
        AhoyBox3dConfig {
            gravity: Vector::new(Scalar::zero(), Scalar::new(DEFAULT_GRAVITY), Scalar::zero()),
            sub_steps: 4,
        }
    }
}

/// The sub-steps that a span of time is made in, if it is made at all.
pub open spec fn steps_in(config: AhoyBox3dConfig, delta: Scalar) -> Option<i32> {
    if crate::scalar::positive(delta) {
        Some(config.sub_steps)
    } else {
        None
    }
}

/// How many sub-steps to advance the physics world by when `delta` seconds
/// have passed: none at all unless time went forward.
pub fn step_box3d(config: &AhoyBox3dConfig, delta: Scalar) -> (r: Option<i32>)
    ensures
        r == (if crate::scalar::positive(delta) {
            Some(config.sub_steps)
        } else {
            None
        }),
        r == steps_in(*config, delta),
{
    if Scalar::zero().lt(delta) {
        Some(config.sub_steps)
    } else {
        None
    }
}

/// How a body takes part in the simulation.
#[derive(Clone, Copy, Debug, PartialEq, Eq, Structural)]
pub enum Box3dBodyType {
    Static,
    Kinematic,
    Dynamic,
}

/// Body of an entity.
#[derive(Clone, Copy, Debug, PartialEq, Eq, Structural)]
pub struct AhoyBox3dBody {
    pub body_type: Box3dBodyType,
    pub linear_damping: Scalar,
    pub angular_damping: Scalar,
}

impl AhoyBox3dBody {
    pub open spec fn undamped(body_type: Box3dBodyType) -> AhoyBox3dBody {
        AhoyBox3dBody {
            body_type,
            linear_damping: Scalar { bits: 0 },
            angular_damping: Scalar { bits: 0 },
        }
    }

    /// A body of that type, undamped.
    pub fn new(body_type: Box3dBodyType) -> (r: AhoyBox3dBody)
        ensures
            r.body_type == body_type,
            r.linear_damping.bits == 0,
            r.angular_damping.bits == 0,
            r == AhoyBox3dBody::undamped(body_type),
    {
        AhoyBox3dBody {
            body_type,
            linear_damping: Scalar::zero(),
            angular_damping: Scalar::zero(),
        }
    }
}

/// Form of a collider.
#[derive(Clone, Copy, Debug, PartialEq, Eq, Structural)]
pub enum Box3dColliderShape {
    Cuboid { half_extents: Vector },
    CuboidAt { half_extents: Vector, translation: Vector, rotation: Rotation },
    Sphere { radius: Scalar },
}

/// Collider of an entity.
#[derive(Clone, Copy, Debug, PartialEq, Eq, Structural)]
pub struct AhoyBox3dCollider {
    pub shape: Box3dColliderShape,
    pub density: Scalar,
    pub friction: Scalar,
    pub sensor: bool,
}

impl AhoyBox3dCollider {
    /// Solid, of unit density and default friction.
    pub open spec fn plain(self, shape: Box3dColliderShape) -> bool {
        &&& self.shape == shape
        &&& self.density.bits == ONE
        &&& self.friction.bits == DEFAULT_FRICTION
        &&& !self.sensor
    }

    /// The same collider with another surface.
    pub open spec fn changed(self, density: Scalar, friction: Scalar, sensor: bool) -> Self {
        AhoyBox3dCollider { shape: self.shape, density, friction, sensor }
    }

    fn of_shape(shape: Box3dColliderShape) -> (r: AhoyBox3dCollider)
        ensures
            r.plain(shape),
    {
        AhoyBox3dCollider {
            shape,
            density: Scalar::new(ONE),
            friction: Scalar::new(DEFAULT_FRICTION),
            sensor: false,
        }
    }

    pub fn cuboid(half_extents: Vector) -> (r: AhoyBox3dCollider)
        ensures
            r.plain(Box3dColliderShape::Cuboid { half_extents }),
    {
        AhoyBox3dCollider::of_shape(Box3dColliderShape::Cuboid { half_extents })
    }

    /// The cuboid of that size: its half extents are half of it.
    pub fn cuboid_from_size(size: Vector) -> (r: AhoyBox3dCollider)
        ensures
            exists|half: Vector| #[trigger]
                crate::scalar::halves(half, size) && r.plain(
                    Box3dColliderShape::Cuboid { half_extents: half },
                ),
    {
        let half = size.halved();
        assert(crate::scalar::halves(half, size));
        AhoyBox3dCollider::cuboid(half)
    }

    pub fn cuboid_at(half_extents: Vector, translation: Vector, rotation: Rotation) -> (r:
        AhoyBox3dCollider)
        ensures
            r.plain(Box3dColliderShape::CuboidAt { half_extents, translation, rotation }),
    {
        AhoyBox3dCollider::of_shape(
            Box3dColliderShape::CuboidAt { half_extents, translation, rotation },
        )
    }

    pub fn sphere(radius: Scalar) -> (r: AhoyBox3dCollider)
        ensures
            r.plain(Box3dColliderShape::Sphere { radius }),
    {
        AhoyBox3dCollider::of_shape(Box3dColliderShape::Sphere { radius })
    }

    pub fn with_density(self, density: Scalar) -> (r: AhoyBox3dCollider)
        ensures
            r == (AhoyBox3dCollider { density, ..self }),
            r == self.changed(density, self.friction, self.sensor),
    {
        AhoyBox3dCollider { density, ..self }
    }

    pub fn with_friction(self, friction: Scalar) -> (r: AhoyBox3dCollider)
        ensures
            r == (AhoyBox3dCollider { friction, ..self }),
            r == self.changed(self.density, friction, self.sensor),
    {
        AhoyBox3dCollider { friction, ..self }
    }

    /// The collider as a sensor: it reports contacts and stops nothing.
    pub fn sensor(self) -> (r: AhoyBox3dCollider)
        ensures
            r == (AhoyBox3dCollider { sensor: true, ..self }),
            r == self.changed(self.density, self.friction, true),
    {
        AhoyBox3dCollider { sensor: true, ..self }
    }
}

/// Linear and angular velocity of an entity.
#[derive(Clone, Copy, Debug, PartialEq, Eq, Structural)]
pub struct AhoyBox3dVelocity {
    pub linear: Vector,
    pub angular: Vector,
}

impl AhoyBox3dVelocity {
    pub open spec fn straight(linear: Vector) -> AhoyBox3dVelocity {
        AhoyBox3dVelocity { linear, angular: crate::scalar::origin() }
    }

    /// A velocity without spin.
    pub fn linear(linear: Vector) -> (r: AhoyBox3dVelocity)
        ensures
            r.linear == linear,
            r.angular.null(),
            r == AhoyBox3dVelocity::straight(linear),
    {
        AhoyBox3dVelocity { linear, angular: Vector::zero() }
    }
}

impl Default for AhoyBox3dVelocity {
    fn default() -> (r: AhoyBox3dVelocity)
        ensures
            r.linear.null(),
            r.angular.null(),
            r == AhoyBox3dVelocity::straight(crate::scalar::origin()),
    {
        AhoyBox3dVelocity { linear: Vector::zero(), angular: Vector::zero() }
    }
}

/// Where an entity is and how it is turned.
#[derive(Clone, Copy, Debug, PartialEq, Eq, Structural)]
pub struct Placement {
    pub translation: Vector,
    pub rotation: Rotation,
}

/// What the physics world needs to make a body.
#[derive(Clone, Copy, Debug, PartialEq, Eq, Structural)]
pub struct BodyDefinition {
    pub body_type: Box3dBodyType,
    pub position: Vector,
    pub rotation: Rotation,
    pub linear_velocity: Vector,
    pub angular_velocity: Vector,
    pub linear_damping: Scalar,
    pub angular_damping: Scalar,
    pub user_data: usize,
}

/// The body that an entity gets.
pub open spec fn body_definition(
    entity: Entity,
    body: AhoyBox3dBody,
    placement: Option<Placement>,
    velocity: Option<AhoyBox3dVelocity>,
) -> BodyDefinition {
    BodyDefinition {
        body_type: body.body_type,
        position: match placement {
            Some(placement) => placement.translation,
            None => crate::scalar::origin(),
        },
        rotation: match placement {
            Some(placement) => placement.rotation,
            None => Rotation { v: crate::scalar::origin(), s: Scalar { bits: ONE } },
        },
        linear_velocity: match velocity {
            Some(velocity) => velocity.linear,
            None => crate::scalar::origin(),
        },
        angular_velocity: match velocity {
            Some(velocity) => velocity.angular,
            None => crate::scalar::origin(),
        },
        linear_damping: body.linear_damping,
        angular_damping: body.angular_damping,
        user_data: entity.bits as usize,
    }
}

/// The body to make for `entity`. An entity without a placement is put at the
/// origin, unturned; one without a velocity starts at rest. The body carries
/// the entity's bits.
pub fn define_box3d_body(
    entity: Entity,
    body: &AhoyBox3dBody,
    placement: Option<Placement>,
    velocity: Option<AhoyBox3dVelocity>,
) -> (r: BodyDefinition)
    ensures
        r.body_type == body.body_type,
        r.linear_damping == body.linear_damping,
        r.angular_damping == body.angular_damping,
        placement matches Some(p) ==> r.position == p.translation && r.rotation == p.rotation,
        placement is None ==> r.position.null() && r.rotation.unturned(),
        velocity matches Some(v) ==> r.linear_velocity == v.linear && r.angular_velocity
            == v.angular,
        velocity is None ==> r.linear_velocity.null() && r.angular_velocity.null(),
        r.user_data == entity.bits as usize,
        r == body_definition(entity, *body, placement, velocity),
{
    let at = match placement {
        Some(placement) => placement,
        None => Placement { translation: Vector::zero(), rotation: Rotation::identity() },
    };
    let moving = match velocity {
        Some(velocity) => velocity,
        None => AhoyBox3dVelocity { linear: Vector::zero(), angular: Vector::zero() },
    };
    BodyDefinition {
        body_type: body.body_type,
        position: at.translation,
        rotation: at.rotation,
        linear_velocity: moving.linear,
        angular_velocity: moving.angular,
        linear_damping: body.linear_damping,
        angular_damping: body.angular_damping,
        user_data: entity.bits as usize,
    }
}

/// What the physics world reports of a body after a step.
#[derive(Clone, Copy, Debug, PartialEq, Eq, Structural)]
pub struct BodyReport {
    pub placement: Placement,
    pub velocity: AhoyBox3dVelocity,
}

/// Placement and velocity of an entity after a report.
pub open spec fn written_back(
    placement: Placement,
    velocity: Option<AhoyBox3dVelocity>,
    report: Option<BodyReport>,
) -> (Placement, Option<AhoyBox3dVelocity>) {
    match report {
        Some(report) => (
            report.placement,
            if velocity is Some {
                Some(report.velocity)
            } else {
                None
            },
        ),
        None => (placement, velocity),
    }
}

/// Brings an entity up to date with its body: its placement, and its velocity
/// if it has one. A body that reports nothing leaves it as it is.
pub fn writeback_box3d_transform(
    placement: &mut Placement,
    velocity: &mut Option<AhoyBox3dVelocity>,
    report: Option<BodyReport>,
)
    ensures
        report is None ==> *final(placement) == *old(placement) && *final(velocity) == *old(velocity),
        report matches Some(report) ==> {
            &&& *final(placement) == report.placement
            &&& *final(velocity) == (if (*old(velocity)) is Some {
                Some(report.velocity)
            } else {
                None
            })
        },
        (*final(placement), *final(velocity)) == written_back(
            *old(placement),
            *old(velocity),
            report,
        ),
{
    if let Some(report) = report {
        *placement = report.placement;
        if velocity.is_some() {
            *velocity = Some(report.velocity);
        }
    }
}

/// The physics world goes forward exactly when time does, by the sub-steps that
/// are set, and not by a number of them that depends on how much time passed.
pub proof fn law_world_steps_when_time_passes(
    config: AhoyBox3dConfig,
    delta: Scalar,
    later: Scalar,
)
    ensures
        !delta.nan() && delta.value() > 0 ==> steps_in(config, delta) == Some(config.sub_steps),
        delta.nan() || delta.value() <= 0 ==> steps_in(config, delta) is None,
        steps_in(config, delta) is Some && steps_in(config, later) is Some ==> steps_in(
            config,
            delta,
        ) == steps_in(config, later),
{
}

/// A body is made as its entity describes it, at rest and unturned at the origin
/// where it says nothing. The velocity has no say in where the body is, nor the
/// placement in how it moves, and the body tells the entity.
pub proof fn law_body_is_made_as_described(
    entity: Entity,
    body: AhoyBox3dBody,
    placement: Placement,
    velocity: AhoyBox3dVelocity,
    any_placement: Option<Placement>,
    any_velocity: Option<AhoyBox3dVelocity>,
)
    ensures
        ({
            let made = body_definition(entity, body, any_placement, any_velocity);
            &&& made.body_type == body.body_type
            &&& made.linear_damping == body.linear_damping
            &&& made.angular_damping == body.angular_damping
            &&& made.user_data == entity.bits as usize
        }),
        body_definition(entity, body, Some(placement), any_velocity).position
            == placement.translation,
        body_definition(entity, body, Some(placement), any_velocity).rotation
            == placement.rotation,
        body_definition(entity, body, None, any_velocity).position.null(),
        body_definition(entity, body, None, any_velocity).rotation.v.null(),
        crate::scalar::is_nearest_to(
            body_definition(entity, body, None, any_velocity).rotation.s,
            1,
            1,
        ),
        body_definition(entity, body, any_placement, Some(velocity)).linear_velocity
            == velocity.linear,
        body_definition(entity, body, any_placement, Some(velocity)).angular_velocity
            == velocity.angular,
        body_definition(entity, body, any_placement, None).linear_velocity.null(),
        body_definition(entity, body, any_placement, None).angular_velocity.null(),
{
    crate::scalar::law_constants();
}

/// An entity follows its body: where a report comes it has its placement, and
/// its velocity if it had one at all. Without a report nothing changes, and a
/// report that comes twice changes nothing more.
pub proof fn law_entity_follows_its_body(
    placement: Placement,
    velocity: AhoyBox3dVelocity,
    report: BodyReport,
)
    ensures
        written_back(placement, Some(velocity), Some(report)) == (
            report.placement,
            Some(report.velocity),
        ),
        written_back(placement, None, Some(report)) == (
            report.placement,
            None::<AhoyBox3dVelocity>,
        ),
        written_back(placement, Some(velocity), None) == (placement, Some(velocity)),
        written_back(placement, None, None) == (placement, None::<AhoyBox3dVelocity>),
{
}

/// Colliders are solid and of unit density and common friction until they are
/// changed, and a change of one property leaves the others and the form alone.
pub proof fn law_colliders_change_one_property(
    collider: AhoyBox3dCollider,
    shape: Box3dColliderShape,
    density: Scalar,
    friction: Scalar,
    sensor: bool,
)
    ensures
        collider.plain(shape) ==> collider.shape == shape && !collider.sensor,
        collider.plain(shape) ==> crate::scalar::is_nearest_to(collider.density, 1, 1),
        collider.plain(shape) ==> crate::scalar::is_nearest_to(collider.friction, 6, 10),
        ({
            let changed = collider.changed(density, friction, sensor);
            &&& changed.shape == collider.shape
            &&& changed.density == density && changed.friction == friction
            &&& changed.sensor == sensor
        }),
{
    crate::scalar::law_constants();
    vstd::arithmetic::power2::lemma2_to64();
    if collider.plain(shape) {
        assert(collider.density == (Scalar { bits: ONE }));
        crate::scalar::lemma_nearest(collider.friction, 126, 0x0099_999a, 0x0100_0000, 6, 10);
    }
}

/// The usual world pulls down by 9.8 and nowhere else, and is stepped four times.
/// A body is not damped, and a velocity does not spin, unless it is said to. No
/// finite quantity is above the largest.
pub proof fn law_usual_settings(body_type: Box3dBodyType, linear: Vector, any: Scalar)
    ensures
        crate::scalar::is_nearest_to(AhoyBox3dConfig::usual().gravity.y, -98, 10),
        AhoyBox3dConfig::usual().gravity.x.value() == 0,
        AhoyBox3dConfig::usual().gravity.z.value() == 0,
        AhoyBox3dConfig::usual().sub_steps == 4,
        AhoyBox3dBody::undamped(body_type).body_type == body_type,
        AhoyBox3dBody::undamped(body_type).linear_damping.value() == 0,
        AhoyBox3dBody::undamped(body_type).angular_damping.value() == 0,
        AhoyBox3dVelocity::straight(linear).linear == linear,
        AhoyBox3dVelocity::straight(linear).angular.null(),
        any.finite() ==> any.value() <= (Scalar { bits: LARGEST }).value(),
        (Scalar { bits: LARGEST }).finite(),
{
    vstd::arithmetic::power2::lemma2_to64();
    let gravity = AhoyBox3dConfig::usual().gravity;
    crate::scalar::law_straight_vectors(gravity.y, gravity);
    crate::scalar::lemma_nearest(gravity.y, 130, 0x009c_cccd, 0x0010_0000, -98, 10);
    assert((Scalar { bits: 0 }).value() == 0);
    assert(gravity.x == (Scalar { bits: 0 }) && gravity.z == (Scalar { bits: 0 }));
    if any.magnitude() < LARGEST {
        crate::scalar::lemma_quanta_increase(any.magnitude(), LARGEST as nat);
    }
}

}
