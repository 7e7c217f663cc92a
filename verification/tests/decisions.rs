//! The decisions of the library, one at a time.

use ahoy_box3d::body::{
    define_box3d_body, step_box3d, writeback_box3d_transform, AhoyBox3dBody, AhoyBox3dCollider,
    AhoyBox3dConfig, AhoyBox3dVelocity, BodyReport, Box3dBodyType, Box3dColliderShape, Placement,
};
use ahoy_box3d::climb::{
    available_box3d_crane_height, begin_box3d_mantle_move, calculate_box3d_climb_factor,
    climbdown_cast, climbs_straight_up, crane_down_cast, crane_heading, crane_up_cast,
    find_box3d_mantle, finish_box3d_mantle_move, hand_radius, handle_box3d_ledge_jump,
    ledge_jump_goes_up, mantle_cast, mantle_factor, mantle_rise,
    update_box3d_climbdown_state, update_box3d_crane_state, update_box3d_mantle_state,
    wants_climbdown, wants_crane, wants_mantle, CraneLanding, CraneMove, CranePhase, CraneProbe,
    LedgeContact, MantleCourse, MantleProbe, WallContact,
};
use ahoy_box3d::contact::{
    consider_depenetration_contact, is_repeated, push_box3d_touch, CastContact, CastReply,
    CharacterCast, OverlapContact, OverlapPlane, MAX_BOX3D_DEPENETRATION_PLANES,
};
use ahoy_box3d::controller::{
    AccumulatedInput, Box3dCastHit, Box3dCharacterController, Box3dCharacterControllerState,
    Box3dMantleState, CharacterController, CharacterControllerOutput, Stick, TouchingEntity,
};
use ahoy_box3d::entity::{sort_entities, BodyId, Entity, ShapeId};
use ahoy_box3d::ground::{
    active_height, begin_box3d_ground_probe, eye_height, platform_body, settle_box3d_ground,
    snap_down_cast, snap_up_cast, spin_box3d_character_look, surface_shape,
    update_box3d_platform_velocity, GroundProbe, PlatformMotion,
};
use ahoy_box3d::impulse::{
    angular_inverse_mass, calculate_box3d_push_impulse, closing_speed, find_push_targets,
    note_impulse, sort_impulses, Impulse, Push,
};
use ahoy_box3d::jump::{
    calculate_box3d_tac_direction, handle_box3d_jump, handle_box3d_tac, impact, plan_box3d_jump,
    settle_box3d_jump, tac_wall, JumpPlan, TacContact,
};
use ahoy_box3d::motion::{
    calculate_3d_wish_speed, calculate_wish_speed, damped_speed, friction_control, keep_within,
    limit_box3d_velocity, medium, sinks, slow_box3d_character, speed_gain, take_swim_up,
    target_speed, validate_box3d_velocity, GroundCourse, Medium,
};
use ahoy_box3d::pickup::{
    consider_pickup_contact, handle_box3d_pickup_input, holds_are_due, looks_for_prop,
    update_held_body, update_holding, BodyFacts, Box3dHolding, Box3dPickupAction, Box3dPickupActor,
    PickupDecision, PickupRay, QueryFilter, RayContact,
};
use ahoy_box3d::runtime::Box3dRuntime;
use ahoy_box3d::scalar::{Rotation, Scalar, Vector};
use ahoy_box3d::slide::{step_down_cast, step_up_cast, Slide, SlideMove, SlidePhase};
use ahoy_box3d::tick::{
    fall_box3d_character, finish_box3d_kcc_tick, prepare_box3d_kcc_tick, KccPhase, KccTick,
};
use ahoy_box3d::time::{Stopwatch, TimeSpan};
use ahoy_box3d::travel::{Travel, TravelPhase};
use ahoy_box3d::water::{
    box3d_water_contains, update_box3d_water, Box3dWater, Immersion, WaterLevel, WaterState,
};
use bevy_math::{Quat, Vec3};
use bevy_transform::prelude::Transform;

fn scalar(value: f32) -> Scalar {
    Scalar::new(value.to_bits())
}

fn number(value: Scalar) -> f32 {
    f32::from_bits(value.bits)
}

fn vector(value: Vec3) -> Vector {
    Vector::new(scalar(value.x), scalar(value.y), scalar(value.z))
}

fn vec3(value: Vector) -> Vec3 {
    Vec3::new(number(value.x), number(value.y), number(value.z))
}

fn millis(count: u32) -> TimeSpan {
    TimeSpan::new(0, count * 1_000_000)
}

fn aged(count: u32) -> Option<Stopwatch> {
    let mut watch = Stopwatch::new();
    watch.set_elapsed(millis(count));
    Some(watch)
}

fn entity(bits: u64) -> Entity {
    Entity { bits }
}

fn shared_settings() -> CharacterController {
    CharacterController {
        crouch_height: scalar(1.3),
        crouch_view_height: scalar(1.2),
        crouch_speed_scale: scalar(0.25),
        ground_distance: scalar(0.05),
        min_walk_cos: scalar(0.766),
        stop_speed: scalar(2.54),
        friction_hz: scalar(6.0),
        acceleration_hz: scalar(8.0),
        air_acceleration_hz: scalar(12.0),
        water_acceleration_hz: scalar(11.0),
        water_slowdown: scalar(0.6),
        water_gravity: scalar(2.4),
        gravity: scalar(29.0),
        speed: scalar(12.0),
        air_speed: scalar(1.5),
        max_speed: scalar(100.0),
        max_air_wish_speed: scalar(0.76),
        jump_height: scalar(1.8),
        tac_power: scalar(0.755),
        tac_jump_factor: scalar(1.0),
        tac_input_buffer: millis(150),
        max_tac_cos: scalar(0.766),
        tac_cooldown: millis(300),
        mantle_input_buffer: millis(150),
        climbdown_input_buffer: millis(250),
        mantle_height: scalar(1.0),
        mantle_speed: scalar(5.0),
        min_mantle_cos: scalar(0.64),
        min_mantle_ledge_space: scalar(0.35),
        max_ledge_grab_distance: scalar(0.5),
        climb_pull_up_height: scalar(0.3),
        climb_reverse_sin: scalar(0.64),
        climb_sensitivity: scalar(2.5),
        ledge_jump_power: scalar(1.5),
        ledge_jump_factor: scalar(1.0),
        crane_input_buffer: millis(200),
        crane_height: scalar(1.5),
        crane_speed: scalar(15.0),
        min_crane_cos: scalar(0.64),
        min_crane_ledge_space: scalar(0.35),
        jump_crane_chain_time: millis(140),
        unground_speed: scalar(10.0),
        coyote_time: millis(100),
        jump_input_buffer: millis(150),
        step_size: scalar(0.7),
        step_down_detection_distance: scalar(0.2),
        min_step_ledge_space: scalar(0.2),
        standing_view_height: scalar(1.7),
        min_ledge_grab_half_size: vector(Vec3::new(0.1, 0.05, 0.2)),
        skin_width: scalar(0.01),
        max_planes: 20,
    }
}

fn settings() -> Box3dCharacterController {
    Box3dCharacterController::from(shared_settings())
}

fn floor_hit(entity: Option<Entity>) -> Box3dCastHit {
    Box3dCastHit {
        entity,
        distance: Scalar::zero(),
        point: vector(Vec3::ZERO),
        normal: vector(Vec3::Y),
        collision_distance: Scalar::zero(),
    }
}

/// A value as it is shown, to compare all of it.
fn shown(value: &impl std::fmt::Debug) -> String {
    format!("{value:?}")
}

fn standing() -> Box3dCharacterControllerState {
    Box3dCharacterControllerState { grounded: Some(floor_hit(None)), ..Default::default() }
}

fn stick(x: f32, y: f32) -> Option<Stick> {
    Some(Stick { x: scalar(x), y: scalar(y) })
}

fn on_ledge(cfg: &Box3dCharacterController) -> Box3dMantleState {
    Box3dMantleState {
        wall_normal: vector(Vec3::Z),
        ledge_position: vector(Vec3::ZERO),
        wall_entity: entity(42),
        target_position: vector(Vec3::Y),
        speed: cfg.mantle_speed,
        automatic: false,
    }
}

fn forward(pitch: f32) -> Vec3 {
    Quat::from_rotation_x(pitch) * Vec3::NEG_Z
}

// Quantities and time.

#[test]
fn scalars_behave_like_numbers() {
    let samples = [
        0.0_f32,
        -0.0,
        1.0e-45,
        -1.0e-45,
        1.1754942e-38,
        1.1754944e-38,
        0.3,
        -0.3,
        1.0,
        -1.0,
        1.5,
        3.4028235e38,
        -3.4028235e38,
        f32::INFINITY,
        f32::NEG_INFINITY,
        f32::NAN,
    ];
    for a in samples {
        let left = scalar(a);
        assert_eq!(left.is_nan(), a.is_nan());
        assert_eq!(left.is_finite(), a.is_finite());
        assert_eq!(left.abs().bits, a.abs().to_bits());
        assert_eq!(left.negated().bits, (-a).to_bits());
        if !a.is_nan() {
            assert_eq!(left.doubled().bits, (a * 2.0).to_bits(), "{a} doubled");
            assert_eq!(left.halved().bits, (a * 0.5).to_bits(), "{a} halved");
        }
        for b in samples {
            let right = scalar(b);
            assert_eq!(left.lt(right), a < b, "{a} < {b}");
            assert_eq!(left.le(right), a <= b, "{a} <= {b}");
            assert_eq!(left.eq_value(right), a == b, "{a} == {b}");
            let (max, min) = (number(left.max(right)), number(left.min(right)));
            assert!(max == a.max(b) || max.is_nan() && a.max(b).is_nan(), "{a} max {b}");
            assert!(min == a.min(b) || min.is_nan() && a.min(b).is_nan(), "{a} min {b}");
        }
    }
    assert_eq!(number(scalar(5.0).clamp(scalar(-1.0), scalar(1.0))), 1.0);
    assert_eq!(number(scalar(-5.0).clamp(scalar(-1.0), scalar(1.0))), -1.0);
    assert_eq!(number(scalar(0.5).clamp(scalar(-1.0), scalar(1.0))), 0.5);
}

#[test]
fn vectors_scale_and_keep_their_parts() {
    let v = vector(Vec3::new(1.0, -2.0, 3.0));
    assert_eq!(vec3(v.halved()), Vec3::new(0.5, -1.0, 1.5));
    assert_eq!(vec3(v.doubled()), Vec3::new(2.0, -4.0, 6.0));
    assert_eq!(vec3(v.with_y(scalar(9.0))), Vec3::new(1.0, 9.0, 3.0));
    assert_eq!(vec3(Vector::zero()), Vec3::ZERO);
    assert_eq!(number(Rotation::identity().s), 1.0);
}

#[test]
fn stopwatch_ticks_stops_and_saturates() {
    let mut watch = Stopwatch::new();
    watch.tick(TimeSpan::new(1, 600_000_000));
    watch.tick(TimeSpan::new(0, 600_000_000));
    assert_eq!(watch.elapsed, TimeSpan::new(2, 200_000_000));
    watch.reset();
    assert_eq!(watch.elapsed, TimeSpan::zero());

    let mut paused = Stopwatch { elapsed: millis(5), paused: true };
    paused.tick(millis(7));
    assert_eq!(paused.elapsed, millis(5));

    let mut expired = Stopwatch::expired();
    expired.tick(millis(1));
    assert_eq!(expired.elapsed, TimeSpan::max());
    assert_eq!((TimeSpan::max().secs(), TimeSpan::max().subsec_nanos()), (u64::MAX, 999_999_999));
}

#[test]
fn spans_compare_and_subtract() {
    assert!(millis(5).shorter_than(&millis(6)));
    assert!(!millis(6).shorter_than(&millis(6)));
    assert!(millis(999).shorter_than(&TimeSpan::new(1, 0)));
    assert_eq!(TimeSpan::new(2, 100).minus(&TimeSpan::new(0, 200)), TimeSpan::new(1, 999_999_900));
}

// Entities and the runtime.

#[test]
fn entities_are_sorted_by_their_bits() {
    let mut entities = vec![entity(5), entity(1), entity(9), entity(1), entity(3)];
    sort_entities(&mut entities);
    assert_eq!(entities, vec![entity(1), entity(1), entity(3), entity(5), entity(9)]);
}

#[test]
fn runtime_finds_what_was_recorded() {
    let mut runtime = Box3dRuntime::new();
    assert_eq!(runtime.body(entity(1)), None);
    runtime.record_body(entity(1), BodyId { bits: 10 });
    runtime.record_shape(entity(1), ShapeId { bits: 20 });
    assert_eq!(runtime.body(entity(1)), Some(BodyId { bits: 10 }));
    assert_eq!(runtime.shape(entity(1)), Some(ShapeId { bits: 20 }));
    assert_eq!(runtime.body_entity(BodyId { bits: 10 }), Some(entity(1)));
    assert_eq!(runtime.shape_entity(ShapeId { bits: 20 }), Some(entity(1)));
    assert_eq!(runtime.owner(entity(1)), Some(entity(1)));
    assert_eq!(runtime.carrier(entity(1)), Some(BodyId { bits: 10 }));
    assert_eq!(runtime.shapes_for_body(entity(1)), vec![entity(1)]);
    assert_eq!(runtime.shapes_for_body(entity(2)), vec![]);
}

#[test]
fn runtime_forgets_shapes_and_bodies() {
    let mut runtime = Box3dRuntime::new();
    for bits in [3, 1, 2] {
        runtime.record_body(entity(bits), BodyId { bits: 100 + bits });
        runtime.record_shape(entity(bits), ShapeId { bits: 200 + bits });
    }
    assert_eq!(runtime.remove_shape(entity(9), true), None);
    assert_eq!(runtime.remove_shape(entity(3), false), None);
    assert_eq!(runtime.shape(entity(3)), None);
    assert_eq!(runtime.shape_entity(ShapeId { bits: 203 }), None);

    let shapes = runtime.cleanup_box3d_shapes(vec![entity(2), entity(3), entity(1), entity(2)]);
    assert_eq!(shapes, vec![ShapeId { bits: 201 }, ShapeId { bits: 202 }]);

    runtime.record_shape(entity(1), ShapeId { bits: 301 });
    let bodies = runtime.cleanup_box3d_bodies(vec![entity(2), entity(1)]);
    assert_eq!(bodies, vec![BodyId { bits: 101 }, BodyId { bits: 102 }]);
    assert_eq!(runtime.shape(entity(1)), None);
    assert_eq!(runtime.owner(entity(1)), None);
    assert_eq!(runtime.body_entity(BodyId { bits: 101 }), None);
    assert_eq!(runtime.remove_body(entity(1)), None);

    assert_eq!(runtime.drain_bodies(), vec![BodyId { bits: 103 }]);
    assert_eq!(runtime.body(entity(3)), None);
}

#[test]
fn runtime_knows_the_held_shape() {
    let mut runtime = Box3dRuntime::new();
    runtime.record_shape(entity(1), ShapeId { bits: 20 });
    let shape = ShapeId { bits: 20 };
    assert!(runtime.box3d_state_holds_shape(Some(entity(1)), shape));
    assert!(!runtime.box3d_state_holds_shape(Some(entity(2)), shape));
    assert!(!runtime.box3d_state_holds_shape(None, shape));
    assert!(!runtime.box3d_state_holds_shape(Some(entity(1)), ShapeId { bits: 21 }));
}

// Bodies and colliders.

#[test]
fn bodies_and_colliders_have_their_defaults() {
    let config = AhoyBox3dConfig::default();
    assert_eq!(vec3(config.gravity), Vec3::new(0.0, -9.8, 0.0));
    assert_eq!(config.sub_steps, 4);
    assert_eq!(step_box3d(&config, scalar(0.1)), Some(4));
    assert_eq!(step_box3d(&config, scalar(0.0)), None);
    assert_eq!(step_box3d(&config, scalar(f32::NAN)), None);

    let body = AhoyBox3dBody::new(Box3dBodyType::Dynamic);
    assert_eq!(body.body_type, Box3dBodyType::Dynamic);
    assert_eq!((number(body.linear_damping), number(body.angular_damping)), (0.0, 0.0));

    let collider = AhoyBox3dCollider::cuboid_from_size(vector(Vec3::new(1.0, 2.0, 4.0)));
    let half_extents = vector(Vec3::new(0.5, 1.0, 2.0));
    assert_eq!(collider.shape, Box3dColliderShape::Cuboid { half_extents });
    assert_eq!((number(collider.density), number(collider.friction)), (1.0, 0.6));
    assert!(!collider.sensor);
    let ball = AhoyBox3dCollider::sphere(scalar(2.0))
        .with_density(scalar(3.0))
        .with_friction(scalar(0.1))
        .sensor();
    assert_eq!(ball.shape, Box3dColliderShape::Sphere { radius: scalar(2.0) });
    assert_eq!((number(ball.density), number(ball.friction)), (3.0, 0.1));
    assert!(ball.sensor);
    let placed = AhoyBox3dCollider::cuboid_at(half_extents, Vector::zero(), Rotation::identity());
    assert_eq!(
        placed.shape,
        Box3dColliderShape::CuboidAt {
            half_extents,
            translation: Vector::zero(),
            rotation: Rotation::identity(),
        }
    );
    assert_eq!(AhoyBox3dCollider::cuboid(half_extents), collider);

    let velocity = AhoyBox3dVelocity::linear(vector(Vec3::X));
    assert_eq!(vec3(velocity.linear), Vec3::X);
    assert_eq!(vec3(velocity.angular), Vec3::ZERO);
    assert_eq!(AhoyBox3dVelocity::default().linear, Vector::zero());
}

#[test]
fn body_definitions_and_reports() {
    let body = AhoyBox3dBody::new(Box3dBodyType::Kinematic);
    let plain = define_box3d_body(entity(7), &body, None, None);
    assert_eq!(plain.position, Vector::zero());
    assert_eq!(plain.rotation, Rotation::identity());
    assert_eq!(plain.linear_velocity, Vector::zero());
    assert_eq!(plain.user_data, 7);

    let mut placement = Placement {
        translation: vector(Vec3::Y),
        rotation: Rotation { v: vector(Vec3::X), s: scalar(0.0) },
    };
    let moving = AhoyBox3dVelocity::linear(vector(Vec3::Z));
    let placed = define_box3d_body(entity(7), &body, Some(placement), Some(moving));
    assert_eq!(vec3(placed.position), Vec3::Y);
    assert_eq!(vec3(placed.linear_velocity), Vec3::Z);
    assert_eq!(placed.body_type, Box3dBodyType::Kinematic);

    let report = BodyReport {
        placement: Placement {
            translation: vector(Vec3::ONE),
            rotation: Rotation::identity(),
        },
        velocity: AhoyBox3dVelocity::linear(vector(Vec3::NEG_Y)),
    };
    let mut velocity = None;
    writeback_box3d_transform(&mut placement, &mut velocity, None);
    assert_eq!(vec3(placement.translation), Vec3::Y);
    writeback_box3d_transform(&mut placement, &mut velocity, Some(report));
    assert_eq!(placement, report.placement);
    assert_eq!(velocity, None);
    velocity = Some(moving);
    writeback_box3d_transform(&mut placement, &mut velocity, Some(report));
    assert_eq!(velocity, Some(report.velocity));
}

#[test]
fn box3d_defaults_track_avian_controller_defaults() {
    let avian = shared_settings();
    let box3d = settings();

    assert_eq!(box3d.crouch_height, avian.crouch_height);
    assert_eq!(box3d.view_height, avian.standing_view_height);
    assert_eq!(box3d.speed, avian.speed);
    assert_eq!(box3d.air_speed, avian.air_speed);
    assert_eq!(box3d.jump_height, avian.jump_height);
    assert_eq!(box3d.crane_height, avian.crane_height);
    assert_eq!(box3d.mantle_height, avian.mantle_height);
    assert_eq!(box3d.skin_width, avian.skin_width);
    assert_eq!(box3d.max_slides, avian.max_planes);
    assert_eq!(number(box3d.height), 1.8);
    assert_eq!(number(box3d.radius), 0.7);
    assert_eq!(number(box3d.push_mass), 80.0);
    assert_eq!(number(box3d.air_friction), 0.0);
    assert_eq!(vec3(box3d.min_ledge_grab_space), Vec3::new(0.2, 0.1, 0.4));
}

#[test]
fn state_starts_in_the_air_with_nothing_recent() {
    let state = Box3dCharacterControllerState::default();
    assert!(state.grounded.is_none() && state.mantle.is_none() && !state.crouching);
    assert_eq!(state.last_ground, Stopwatch::expired());
    assert_eq!(state.last_tac, Stopwatch::expired());
    assert_eq!(state.last_step_up, Stopwatch::expired());
    assert_eq!(state.last_step_down, Stopwatch::expired());
    assert_eq!(vec3(state.velocity), Vec3::ZERO);
}

// Picking up.

fn light_prop() -> BodyFacts {
    BodyFacts { valid: true, dynamic: true, inverse_mass: scalar(8.0), mass: scalar(0.125) }
}

fn any_filter() -> QueryFilter {
    QueryFilter { category_bits: 1, mask_bits: u64::MAX, id: 0 }
}

#[test]
fn cast_that_closes_in_comes_to_the_closest() {
    let mut runtime = Box3dRuntime::new();
    for bits in [1, 2, 3, 4] {
        runtime.record_body(entity(bits), BodyId { bits });
        runtime.record_shape(entity(bits), ShapeId { bits });
    }
    let state =
        Box3dCharacterControllerState { held_body: Some(entity(4)), ..Default::default() };
    let contact = |bits: u64, distance: f32, approach: f32| CastContact {
        shape: ShapeId { bits },
        collision_distance: scalar(distance),
        clearance: scalar(distance - 0.25),
        point: vector(Vec3::ZERO),
        normal: vector(Vec3::X),
        approach: scalar(approach),
    };
    let mut cast = CharacterCast::begin(scalar(4.0), scalar(0.0));
    let mut reply = |contact: CastContact| cast.contact(&runtime, &state, &contact);
    assert_eq!(reply(contact(4, 0.5, -1.0)), CastReply::Ignore);
    assert_eq!(reply(contact(3, 0.5, 0.0)), CastReply::KeepClosest(None));
    assert_eq!(reply(contact(1, 3.0, -1.0)), CastReply::Stop);
    assert_eq!(reply(contact(2, 2.0, -1.0)), CastReply::Stop);
    assert_eq!(reply(contact(3, 1.0, 0.0)), CastReply::KeepClosest(Some(scalar(2.0))));
    cast.pass_over();
    let hit = cast.closest().unwrap();
    assert_eq!((number(hit.collision_distance), number(hit.distance)), (2.0, 1.75));
    assert_eq!(hit.entity, Some(entity(2)));
}

/// A contact of an actor's ray at that distance.
fn ray_contact(
    actor: &Box3dPickupActor,
    distance: f32,
    shape: u64,
    facts: BodyFacts,
) -> RayContact {
    let fraction = scalar(distance / number(actor.reach()));
    RayContact { shape: ShapeId { bits: shape }, fraction, facts }
}

/// Reports contacts in order: every one, or only those within the limit that
/// the replies set.
fn cast_pickup_ray(
    runtime: &Box3dRuntime,
    actor: &Box3dPickupActor,
    contacts: &[RayContact],
    within_limit: bool,
) -> Option<Entity> {
    let mut ray = PickupRay::new();
    let mut limit = 1.0;
    for contact in contacts {
        if !within_limit || number(contact.fraction) <= limit {
            limit = number(consider_pickup_contact(runtime, actor, &mut ray, contact));
        }
    }
    ray.found
}

#[test]
fn pickup_ray_stops_at_static_body() {
    let mut runtime = Box3dRuntime::new();
    let wall_entity = entity(41);
    let prop_entity = entity(42);
    let wall_shape = ShapeId { bits: 1 };
    let prop_shape = ShapeId { bits: 2 };
    runtime.record_body(wall_entity, BodyId { bits: 1 });
    runtime.record_shape(wall_entity, wall_shape);
    runtime.record_body(prop_entity, BodyId { bits: 2 });
    runtime.record_shape(prop_entity, prop_shape);
    let actor = Box3dPickupActor::new(any_filter());
    let fixed = BodyFacts { dynamic: false, inverse_mass: scalar(0.0), ..light_prop() };
    let wall = ray_contact(&actor, 0.95, 1, fixed);
    let prop = ray_contact(&actor, 1.75, 2, light_prop());
    let unknown = ray_contact(&actor, 0.5, 9, fixed);

    for within_limit in [true, false] {
        let cast = |contacts: &[RayContact]| {
            cast_pickup_ray(&runtime, &actor, contacts, within_limit)
        };
        assert_eq!(cast(&[wall, prop]), None);
        assert_eq!(cast(&[prop, wall]), None);
        assert_eq!(cast(&[prop, unknown, wall]), None);
        assert_eq!(cast(&[wall, unknown, prop]), None);
        assert_eq!(cast(&[unknown, wall, prop]), None);

        assert_eq!(cast(&[prop]), Some(prop_entity));
        assert_eq!(cast(&[unknown, prop]), Some(prop_entity));
        assert_eq!(cast(&[prop, unknown]), Some(prop_entity));
        assert_eq!(cast(&[unknown]), None);
    }
}

#[test]
fn nearest_body_decides_in_any_order() {
    let mut runtime = Box3dRuntime::new();
    for bits in [1, 2, 3] {
        runtime.record_body(entity(bits), BodyId { bits });
        runtime.record_shape(entity(bits), ShapeId { bits });
    }
    let actor = Box3dPickupActor::new(any_filter());
    let heavy = BodyFacts { mass: scalar(2000.0), inverse_mass: scalar(0.0005), ..light_prop() };
    let near_heavy = ray_contact(&actor, 0.5, 1, heavy);
    let near_light = ray_contact(&actor, 1.0, 2, light_prop());
    let far_light = ray_contact(&actor, 2.0, 3, light_prop());
    for within_limit in [true, false] {
        let cast = |contacts: &[RayContact]| {
            cast_pickup_ray(&runtime, &actor, contacts, within_limit)
        };
        assert_eq!(cast(&[near_light, far_light]), Some(entity(2)));
        assert_eq!(cast(&[far_light, near_light]), Some(entity(2)));
        assert_eq!(cast(&[far_light, near_heavy, near_light]), None);
        assert_eq!(cast(&[near_light, far_light, near_heavy]), None);
        assert_eq!(cast(&[near_heavy, near_light, far_light]), None);
    }
    let mut ray = PickupRay::new();
    let unknown = ray_contact(&actor, 0.1, 9, heavy);
    let reply = consider_pickup_contact(&runtime, &actor, &mut ray, &unknown);
    assert_eq!((number(reply), ray), (1.0, PickupRay::new()));
    let reply = consider_pickup_contact(&runtime, &actor, &mut ray, &near_light);
    assert_eq!(reply, near_light.fraction);
    assert_eq!(consider_pickup_contact(&runtime, &actor, &mut ray, &unknown), reply);
    assert_eq!(consider_pickup_contact(&runtime, &actor, &mut ray, &far_light), reply);
}

#[test]
fn only_light_moving_bodies_are_picked_up() {
    let mut runtime = Box3dRuntime::new();
    runtime.record_body(entity(1), BodyId { bits: 1 });
    runtime.record_shape(entity(1), ShapeId { bits: 1 });
    let actor = Box3dPickupActor::new(any_filter());
    assert_eq!(number(actor.max_distance), 3.0);
    assert_eq!(number(actor.preferred_distance), 1.0);
    assert_eq!(number(actor.hold_hz), 14.0);
    assert_eq!(number(actor.throw_speed), 12.0);
    assert_eq!(number(actor.max_prop_mass), 1000.0);
    let heavy = BodyFacts { mass: scalar(1000.5), inverse_mass: scalar(0.0009995), ..light_prop() };
    let gone = BodyFacts { valid: false, ..light_prop() };
    let massless = BodyFacts { inverse_mass: scalar(0.0), ..light_prop() };
    let limit = BodyFacts { mass: scalar(1000.0), inverse_mass: scalar(0.001), ..light_prop() };
    for (facts, expected) in [
        (light_prop(), Some(entity(1))),
        (limit, Some(entity(1))),
        (heavy, None),
        (gone, None),
        (massless, None),
    ] {
        let mut ray = PickupRay::new();
        let contact = ray_contact(&actor, 1.5, 1, facts);
        assert_eq!(number(consider_pickup_contact(&runtime, &actor, &mut ray, &contact)), 0.5);
        assert_eq!(ray.found, expected);
    }
    let backward = Box3dPickupActor {
        max_distance: scalar(-1.0),
        preferred_distance: scalar(-1.0),
        hold_hz: scalar(-1.0),
        ..actor
    };
    assert_eq!(number(backward.reach()), 0.0);
    assert_eq!(number(backward.hold_distance()), 0.0);
    assert_eq!(number(backward.hold_rate()), 0.0);
    assert!(light_prop().follows() && !gone.follows());
}

#[test]
fn hands_hold_one_body_at_a_time() {
    let mut runtime = Box3dRuntime::new();
    runtime.record_body(entity(5), BodyId { bits: 50 });
    let holding = Some(Box3dHolding { body: entity(5) });
    let decide = |action, holding: Option<Box3dHolding>, found| {
        handle_box3d_pickup_input(&runtime, action, &holding, found)
    };
    assert!(looks_for_prop(Box3dPickupAction::Pull, &None));
    assert!(!looks_for_prop(Box3dPickupAction::Pull, &holding));
    assert!(!looks_for_prop(Box3dPickupAction::Drop, &None));
    assert_eq!(
        decide(Box3dPickupAction::Pull, None, Some(entity(5))),
        PickupDecision::Hold(entity(5))
    );
    assert_eq!(decide(Box3dPickupAction::Pull, None, None), PickupDecision::Nothing);
    assert_eq!(
        decide(Box3dPickupAction::Pull, holding, Some(entity(6))),
        PickupDecision::Nothing
    );
    assert_eq!(decide(Box3dPickupAction::Drop, holding, None), PickupDecision::Release(None));
    assert_eq!(
        decide(Box3dPickupAction::Throw, holding, None),
        PickupDecision::Release(Some(BodyId { bits: 50 }))
    );
    assert_eq!(decide(Box3dPickupAction::Throw, None, None), PickupDecision::Nothing);

    let mut state = Box3dCharacterControllerState::default();
    let hold = PickupDecision::Hold(entity(5));
    update_held_body(&mut state, &hold);
    assert_eq!(state.held_body, Some(entity(5)));
    assert_eq!(update_holding(None, &hold), holding);
    update_held_body(&mut state, &PickupDecision::Nothing);
    assert_eq!(state.held_body, Some(entity(5)));
    assert_eq!(update_holding(holding, &PickupDecision::Nothing), holding);
    update_held_body(&mut state, &PickupDecision::Release(None));
    assert_eq!(state.held_body, None);
    assert_eq!(update_holding(holding, &PickupDecision::Release(None)), None);
    assert!(holds_are_due(scalar(0.1)) && !holds_are_due(scalar(0.0)));
}

// Water.

#[test]
fn water_volume_respects_transform() {
    let water = Box3dWater::cuboid(vector(Vec3::new(2.0, 1.0, 0.5)));
    let transform = Transform::from_xyz(3.0, 2.0, -1.0)
        .with_rotation(Quat::from_rotation_y(std::f32::consts::FRAC_PI_2))
        .with_scale(Vec3::new(1.0, 2.0, 1.0));
    let local = |point: Vec3| vector(transform.compute_affine().inverse().transform_point3(point));

    assert!(box3d_water_contains(
        &water,
        local(transform.transform_point(Vec3::new(1.5, 0.75, 0.25)))
    ));
    assert!(!box3d_water_contains(
        &water,
        local(transform.transform_point(Vec3::new(2.1, 0.0, 0.0)))
    ));
}

#[test]
fn deepest_and_slowest_water_counts() {
    let calm = Box3dWater::cuboid(vector(Vec3::ONE));
    assert_eq!(number(calm.speed), f32::MAX);
    let thick = Box3dWater { speed: scalar(3.0), ..calm };
    let (inside, outside) = (vector(Vec3::ZERO), vector(Vec3::splat(2.0)));
    let mut state = WaterState { level: WaterLevel::Head, speed: scalar(1.0) };
    update_box3d_water(&mut state, &vec![]);
    assert_eq!(state, WaterState { level: WaterLevel::Dry, speed: scalar(f32::MAX) });

    let waist = Immersion { water: calm, eye: outside, waist: inside, feet: inside };
    let feet = Immersion { water: thick, eye: outside, waist: outside, feet: inside };
    let dry = Immersion {
        water: Box3dWater { speed: scalar(1.0), ..calm },
        eye: outside,
        waist: outside,
        feet: outside,
    };
    update_box3d_water(&mut state, &vec![feet, waist, dry]);
    assert_eq!(state, WaterState { level: WaterLevel::Waist, speed: scalar(3.0) });
    let unclear = Immersion {
        water: Box3dWater { speed: scalar(f32::NAN), ..calm },
        eye: inside,
        ..waist
    };
    let expected = WaterState { level: WaterLevel::Head, speed: scalar(3.0) };
    for waters in [vec![unclear, feet, waist], vec![waist, unclear, feet]] {
        update_box3d_water(&mut state, &waters);
        assert_eq!(state, expected);
    }
    let head = Immersion { eye: inside, ..feet };
    update_box3d_water(&mut state, &vec![head]);
    assert_eq!(state.level, WaterLevel::Head);
    assert!(!WaterLevel::Feet.is_swimming() && WaterLevel::Waist.is_swimming());
}

// Jumping.

fn tac_direction(
    cfg: &Box3dCharacterController,
    state: &mut Box3dCharacterControllerState,
    normal: Vec3,
    wish_velocity: Vec3,
) -> Option<Vec3> {
    let wish_unit = wish_velocity.normalize();
    let wish_dot = wish_unit.dot(normal);
    let velocity = vec3(state.velocity);
    let closing = velocity.dot(normal);
    let contact = TacContact {
        normal: vector(normal),
        against: scalar(-wish_dot),
        closing: scalar(closing),
        deflected: vector(velocity - number(impact(scalar(closing))) * normal),
    };
    let groundedness = handle_box3d_tac(cfg, state, &Some(contact))?;
    let flat_normal = Vec3::new(normal.x, 0.0, normal.z);
    let tac_wish = wish_unit - (wish_dot.min(0.0) - 1.0) * flat_normal;
    let direction = (Vec3::Y * number(cfg.tac_jump_factor) + tac_wish).normalize_or_zero();
    Some(direction * number(groundedness) * number(cfg.tac_power))
}

#[test]
fn tac_redirects_glancing_movement_away_from_wall() {
    let cfg = settings();
    let mut state =
        Box3dCharacterControllerState { tac_velocity: scalar(1.0), ..Default::default() };
    let direction =
        tac_direction(&cfg, &mut state, Vec3::NEG_X, Vec3::new(0.5, 0.0, 0.866)).unwrap();

    assert!(direction.x < 0.0);
    assert!(direction.y > 0.0);
    assert!(direction.z > 0.0);
    assert!((direction.length() - number(cfg.tac_power)).abs() < 0.0001);
    assert_eq!(number(state.tac_velocity), 0.0);
}

#[test]
fn tac_rejects_head_on_wall_approach() {
    let cfg = settings();
    let mut state =
        Box3dCharacterControllerState { tac_velocity: scalar(1.0), ..Default::default() };

    assert!(tac_direction(&cfg, &mut state, Vec3::NEG_X, Vec3::X).is_none());
    assert_eq!(number(state.tac_velocity), 1.0);
    assert!(tac_direction(&cfg, &mut state, Vec3::NEG_Y, Vec3::Z).is_none());
}

#[test]
fn no_jump_is_made_without_a_wall_or_grip() {
    let cfg = settings();
    let before = Box3dCharacterControllerState { tac_velocity: scalar(1.0), ..Default::default() };
    let wall = TacContact {
        normal: vector(Vec3::NEG_X),
        against: scalar(0.0),
        closing: scalar(0.0),
        deflected: vector(Vec3::Z),
    };
    let overhang = TacContact { normal: vector(Vec3::NEG_Y), ..wall };
    for contact in [None, Some(overhang)] {
        let mut state = before;
        let push = handle_box3d_tac(&cfg, &mut state, &contact);
        assert_eq!(push, None);
        assert_eq!(shown(&state), shown(&before));
        let plan = settle_box3d_jump(JumpPlan::Wall, push);
        assert_eq!(plan, JumpPlan::Stay);
        let mut input = AccumulatedInput { tac: aged(0), craned: aged(0), ..Default::default() };
        let asked = input;
        handle_box3d_jump(&cfg, &mut state, &mut input, plan, vector(Vec3::Y));
        assert_eq!(shown(&(state, input)), shown(&(before, asked)));
    }
    let mut state = before;
    let push = handle_box3d_tac(&cfg, &mut state, &Some(wall));
    assert_eq!(push, Some(scalar(1.0)));
    assert_eq!(settle_box3d_jump(JumpPlan::Wall, push), JumpPlan::Wall);
    assert_eq!(settle_box3d_jump(JumpPlan::Ground, None), JumpPlan::Ground);
}

#[test]
fn push_off_a_wall_is_at_most_full() {
    let cfg = settings();
    for (lost, closing, expected) in [(3.0, 0.0, 1.0), (0.25, -4.0, 0.25), (0.0, 2.0, 0.0)] {
        let mut state =
            Box3dCharacterControllerState { tac_velocity: scalar(lost), ..Default::default() };
        let contact = TacContact {
            normal: vector(Vec3::X),
            against: scalar(0.0),
            closing: scalar(closing),
            deflected: vector(Vec3::Z),
        };
        let push = calculate_box3d_tac_direction(&cfg, &mut state, &contact).unwrap();
        assert_eq!(number(push), expected);
        assert_eq!(vec3(state.velocity), Vec3::Z);
    }
}

#[test]
fn fallbacks_for_walls_and_headings() {
    let (near, far) = (floor_hit(Some(entity(1))), floor_hit(Some(entity(2))));
    assert_eq!(tac_wall(Some(near), Some(far)), Some(near));
    assert_eq!(tac_wall(None, Some(far)), Some(far));
    assert_eq!(tac_wall(None, None), None);
    let (wish, moving) = (vector(Vec3::X), vector(Vec3::Z));
    assert_eq!(crane_heading(Some(wish), Some(moving)), Some(wish));
    assert_eq!(crane_heading(None, Some(moving)), Some(moving));
    assert_eq!(crane_heading(None, None), None);
}

#[test]
fn jump_plans_follow_ground_and_requests() {
    let cfg = settings();
    let wish = scalar(4.0);
    let asked = AccumulatedInput { jumped: aged(0), tac: aged(0), ..Default::default() };
    let late = AccumulatedInput { jumped: aged(151), tac: aged(151), ..Default::default() };
    let none = AccumulatedInput::default();
    let flying = Box3dCharacterControllerState::default();
    assert_eq!(plan_box3d_jump(&cfg, &standing(), &asked, wish), JumpPlan::Ground);
    assert_eq!(plan_box3d_jump(&cfg, &standing(), &late, wish), JumpPlan::Stay);
    assert_eq!(plan_box3d_jump(&cfg, &standing(), &none, wish), JumpPlan::Stay);
    assert_eq!(plan_box3d_jump(&cfg, &flying, &asked, wish), JumpPlan::Wall);
    assert_eq!(plan_box3d_jump(&cfg, &flying, &late, wish), JumpPlan::Stay);
    assert_eq!(plan_box3d_jump(&cfg, &flying, &asked, scalar(0.05)), JumpPlan::Stay);
    let mut just_left = flying;
    just_left.last_ground.set_elapsed(millis(100));
    assert_eq!(plan_box3d_jump(&cfg, &just_left, &asked, wish), JumpPlan::Ground);
    let mut cooling = flying;
    cooling.last_tac.set_elapsed(millis(299));
    assert_eq!(plan_box3d_jump(&cfg, &cooling, &asked, wish), JumpPlan::Stay);
}

#[test]
fn jump_is_made_once_and_chains_a_crane() {
    let cfg = settings();
    let mut state = standing();
    let mut input = AccumulatedInput {
        jumped: aged(0),
        tac: aged(0),
        craned: aged(10),
        ..Default::default()
    };
    let up = vector(Vec3::Y * 10.0);
    handle_box3d_jump(&cfg, &mut state, &mut input, JumpPlan::Stay, up);
    assert!(input.jumped.is_some() && state.grounded.is_some());

    handle_box3d_jump(&cfg, &mut state, &mut input, JumpPlan::Ground, up);
    assert_eq!(vec3(state.velocity), Vec3::Y * 10.0);
    assert!(state.grounded.is_none());
    // Without a jump the chain time does not matter.
    let long_chain = Box3dCharacterController { jump_crane_chain_time: millis(900), ..cfg };
    let (mut idle, mut waiting) = (state, AccumulatedInput { craned: aged(10), ..input });
    handle_box3d_jump(&long_chain, &mut idle, &mut waiting, JumpPlan::Stay, up);
    assert_eq!(waiting.craned, aged(10));
    assert_eq!(state.last_ground.elapsed, cfg.coyote_time);
    assert_eq!(state.last_tac.elapsed, TimeSpan::zero());
    assert!(input.jumped.is_none() && input.tac.is_none());
    assert_eq!(input.craned.unwrap().elapsed, millis(70));
    // Granted for as long as the age at the jump and the time since then stay
    // within the chain time.
    let mut later = input;
    let mut request = later.craned.unwrap();
    request.tick(millis(130));
    later.craned = Some(request);
    assert!(wants_crane(&cfg, &state, &later));
    request.tick(TimeSpan::new(0, 1));
    later.craned = Some(request);
    assert!(!wants_crane(&cfg, &state, &later));
    assert_eq!(plan_box3d_jump(&cfg, &state, &input, scalar(9.0)), JumpPlan::Stay);

    let mut flying = Box3dCharacterControllerState::default();
    let mut again = AccumulatedInput { tac: aged(0), ..Default::default() };
    handle_box3d_jump(&cfg, &mut flying, &mut again, JumpPlan::Wall, up);
    assert_eq!(flying.last_ground, Stopwatch::expired());
    assert!(again.tac.is_none());
}

// Speed.

#[test]
fn airborne_wish_velocity_uses_air_speed() {
    let cfg = settings();
    let state = Box3dCharacterControllerState::default();
    let input = AccumulatedInput { last_movement: stick(0.0, 1.0), ..Default::default() };

    let movement = input.movement();
    let wish = number(movement.y) * Vec3::NEG_Z + number(movement.x) * Vec3::X;
    let speed = calculate_wish_speed(&cfg, &state);
    let wish_velocity = wish.normalize_or_zero()
        * number(speed.speed)
        * speed.scale.map(number).unwrap_or(1.0);

    assert!((wish_velocity.length() - number(cfg.air_speed)).abs() < 0.0001);
}

#[test]
fn wish_speed_depends_on_stance() {
    let cfg = settings();
    let walking = calculate_wish_speed(&cfg, &standing());
    assert_eq!((number(walking.speed), walking.scale), (12.0, None));
    let crouched = Box3dCharacterControllerState { crouching: true, ..standing() };
    let slow = calculate_wish_speed(&cfg, &crouched);
    assert_eq!((number(slow.speed), slow.scale), (12.0, Some(scalar(0.25))));
    let flying = Box3dCharacterControllerState { grounded: None, ..crouched };
    assert_eq!(number(calculate_wish_speed(&cfg, &flying).speed), 1.5);
    assert_eq!(calculate_wish_speed(&cfg, &flying).scale, None);
    assert_eq!(calculate_3d_wish_speed(&cfg, &flying).scale, Some(scalar(0.25)));
}

#[test]
fn air_friction_damps_airborne_velocity() {
    let cfg = Box3dCharacterController { air_friction: scalar(1.0), ..settings() };
    let mut state = Box3dCharacterControllerState {
        velocity: vector(Vec3::X * number(cfg.speed)),
        ..Default::default()
    };

    let speed = vec3(state.velocity).length();
    let control = number(friction_control(&cfg, Medium::Air, scalar(speed)).unwrap());
    let lost = control * number(cfg.friction_hz) * number(cfg.air_friction) * (1.0 / 60.0);
    let left = number(damped_speed(scalar(speed), scalar(speed - lost)).unwrap());
    state.velocity = vector(vec3(state.velocity) * (left / speed));

    assert!(number(state.velocity.x) < number(cfg.speed), "{:?}", state.velocity);
}

#[test]
fn friction_acts_where_it_should() {
    let cfg = settings();
    assert_eq!(friction_control(&cfg, Medium::Air, scalar(5.0)), None);
    assert_eq!(friction_control(&cfg, Medium::Ground, scalar(0.0005)), None);
    assert_eq!(friction_control(&cfg, Medium::Ground, scalar(1.0)), Some(scalar(2.54)));
    assert_eq!(friction_control(&cfg, Medium::Water, scalar(5.0)), Some(scalar(5.0)));
    assert_eq!(damped_speed(scalar(1.0), scalar(-3.0)), Some(scalar(0.0)));
    assert_eq!(damped_speed(scalar(1.0), scalar(1.0)), None);
    assert_eq!(damped_speed(scalar(2.0), scalar(1.5)), Some(scalar(1.5)));
}

#[test]
fn acceleration_never_overshoots() {
    let cfg = settings();
    assert_eq!(speed_gain(scalar(2.0), scalar(5.0)), Some(scalar(2.0)));
    assert_eq!(speed_gain(scalar(2.0), scalar(0.5)), Some(scalar(0.5)));
    assert_eq!(speed_gain(scalar(0.0), scalar(0.5)), None);
    assert_eq!(speed_gain(scalar(-1.0), scalar(0.5)), None);
    assert_eq!(number(target_speed(&cfg, Medium::Air, scalar(5.0))), 0.76);
    assert_eq!(number(target_speed(&cfg, Medium::Ground, scalar(5.0))), 5.0);
}

#[test]
fn medium_is_water_before_ground_before_air() {
    let wet = WaterState { level: WaterLevel::Waist, speed: scalar(1.0) };
    let dry = WaterState { level: WaterLevel::Feet, speed: scalar(1.0) };
    assert_eq!(medium(&wet, &standing()), Medium::Water);
    assert_eq!(medium(&dry, &standing()), Medium::Ground);
    assert_eq!(medium(&dry, &Box3dCharacterControllerState::default()), Medium::Air);
}

#[test]
fn swimming_up_is_asked_for_once() {
    let mut input = AccumulatedInput { swim_up: true, ..Default::default() };
    assert!(take_swim_up(&mut input));
    assert!(!take_swim_up(&mut input));
    assert!(sinks(&vector(Vec3::new(0.0, -0.0, 0.0))));
    assert!(!sinks(&vector(Vec3::new(0.0, 0.1, 0.0))));
}

#[test]
fn velocity_is_mended_and_limited() {
    let mut state = Box3dCharacterControllerState {
        velocity: vector(Vec3::new(f32::NAN, 2.0, f32::NEG_INFINITY)),
        ..Default::default()
    };
    validate_box3d_velocity(&mut state);
    assert_eq!(vec3(state.velocity), Vec3::new(0.0, 2.0, 0.0));
    let mended = state;

    let slow = vector(Vec3::Y);
    limit_box3d_velocity(&mut state, scalar(4.0), scalar(4.0), slow);
    assert_eq!(shown(&state), shown(&mended));
    limit_box3d_velocity(&mut state, scalar(4.0), scalar(1.0), slow);
    let expected = Box3dCharacterControllerState { velocity: slow, ..mended };
    assert_eq!(shown(&state), shown(&expected));

    let (long, short) = (vector(Vec3::new(3.0, 4.0, 0.0)), vector(Vec3::new(0.75, 1.0, 0.0)));
    assert_eq!(keep_within(long, scalar(25.0), scalar(1.5625), short), short);
    assert_eq!(keep_within(long, scalar(25.0), scalar(25.0), short), long);
    assert_eq!(keep_within(long, scalar(25.0), scalar(f32::NAN), short), long);
}

#[test]
fn friction_leaves_the_fall_alone() {
    let mut state = standing();
    state.velocity = vector(Vec3::new(2.0, -3.0, 2.0));
    slow_box3d_character(&mut state, Medium::Ground, vector(Vec3::new(1.0, -1.5, 1.0)));
    assert_eq!(vec3(state.velocity), Vec3::new(1.0, -3.0, 1.0));
    slow_box3d_character(&mut state, Medium::Water, vector(Vec3::new(0.5, -1.5, 0.5)));
    assert_eq!(vec3(state.velocity), Vec3::new(0.5, -1.5, 0.5));
    assert_eq!(damped_speed(scalar(2.0), scalar(-1.0)), Some(scalar(0.0)));
    assert_eq!(damped_speed(scalar(2.0), scalar(2.0)), None);
}

/// Goes a way, at the velocity (1, 2, 3) up to its end. Returns the phases.
fn go(
    water: &WaterState,
    mut state: Box3dCharacterControllerState,
    squared: f32,
    hit: Option<Box3dCastHit>,
    course: Option<GroundCourse>,
) -> Vec<TravelPhase> {
    let mut travel = Travel::begin(water, &state);
    let velocity = vector(Vec3::new(1.0, 2.0, 3.0));
    let rise = if travel.medium() == Medium::Ground { 0.0 } else { 2.0 };
    let mut position = Vector::zero();
    let mut phases = Vec::new();
    while travel.phase() != TravelPhase::Over {
        phases.push(travel.phase());
        match travel.phase() {
            TravelPhase::Accelerate => {
                travel.accelerated(&mut state, velocity);
                assert_eq!(number(state.velocity.y), rise);
            }
            TravelPhase::Carry => {
                travel.carried(&mut state, velocity);
                assert_eq!(state.velocity, velocity);
            }
            TravelPhase::Head => {
                travel.headed(velocity);
                assert_eq!(vec3(travel.movement()), Vec3::new(1.0, rise, 3.0));
            }
            TravelPhase::Slide => travel.slid(),
            TravelPhase::Measure => travel.measured(scalar(squared)),
            TravelPhase::Cast => travel.met(&hit),
            TravelPhase::Glide => {
                travel.glided(&mut position, velocity);
                assert_eq!(position, velocity);
            }
            TravelPhase::Step => travel.stepped(),
            TravelPhase::Release => {
                travel.released(&mut state, vector(Vec3::X));
                assert_eq!(vec3(state.velocity), Vec3::X);
            }
            TravelPhase::PushOut => travel.pushed_out(),
            TravelPhase::Snap => travel.snapped(),
            TravelPhase::Over => unreachable!(),
        }
    }
    assert_eq!(travel.course(), course);
    phases
}

#[test]
fn ways_through_water_and_air() {
    let wet = WaterState { level: WaterLevel::Waist, ..dry() };
    let swim = vec![
        TravelPhase::Accelerate,
        TravelPhase::Carry,
        TravelPhase::Head,
        TravelPhase::Slide,
        TravelPhase::Release,
    ];
    assert_eq!(go(&wet, standing(), 1.0, None, None), swim);
    let fly = vec![TravelPhase::Accelerate, TravelPhase::Head, TravelPhase::Slide];
    assert_eq!(go(&dry(), Default::default(), 1.0, None, None), fly);
}

#[test]
fn ways_over_ground() {
    let begun = [
        TravelPhase::Accelerate,
        TravelPhase::Carry,
        TravelPhase::Head,
        TravelPhase::Measure,
    ];
    let rest = vec![TravelPhase::Release, TravelPhase::Snap];
    let glide = vec![
        TravelPhase::Cast,
        TravelPhase::Glide,
        TravelPhase::Release,
        TravelPhase::PushOut,
        TravelPhase::Snap,
    ];
    let step =
        vec![TravelPhase::Cast, TravelPhase::Step, TravelPhase::Release, TravelPhase::Snap];
    let wall = Some(floor_hit(None));
    for (squared, hit, course, ended) in [
        (0.00005, wall, GroundCourse::Rest, rest),
        (1.0, None, GroundCourse::Glide, glide),
        (1.0, wall, GroundCourse::Step, step),
    ] {
        let phases = go(&dry(), standing(), squared, hit, Some(course));
        assert_eq!(phases[..4], begun);
        assert_eq!(phases[4..], ended);
    }
}

#[test]
fn casts_go_straight_up_and_down() {
    let cfg = Box3dCharacterController {
        step_size: scalar(0.5),
        crane_height: scalar(1.5),
        ground_distance: scalar(0.25),
        ..settings()
    };
    let near = Some(Box3dCastHit { distance: scalar(0.75), ..floor_hit(None) });
    for (cast, height) in [
        (step_up_cast(&cfg), 0.5),
        (step_down_cast(&cfg), -0.5),
        (crane_up_cast(&cfg), 1.5),
        (crane_down_cast(&cfg, &None), -1.5),
        (crane_down_cast(&cfg, &near), -0.75),
        (CraneMove::rise_cast(scalar(0.125)), 0.125),
        (climbdown_cast(&cfg), -1.5),
        (mantle_cast(scalar(3.0)), -3.0),
        (snap_up_cast(&cfg), 0.25),
        (snap_down_cast(scalar(0.75)), -0.75),
    ] {
        assert_eq!(vec3(cast), Vec3::Y * height);
    }
}

// Ground.

#[test]
fn ground_probe_allows_for_the_platform() {
    let cfg = settings();
    let mut lifted = Box3dCharacterControllerState {
        velocity: vector(Vec3::Y * 15.0),
        platform_velocity: vector(Vec3::Y * 14.0),
        ..standing()
    };
    assert_eq!(
        begin_box3d_ground_probe(&cfg, &mut lifted, scalar(1.0)),
        GroundProbe::Cast { sinking: false }
    );
    assert!(lifted.grounded.is_some());
    lifted.grounded = None;
    assert_eq!(
        begin_box3d_ground_probe(&cfg, &mut lifted, scalar(1.0)),
        GroundProbe::LeavesGround
    );
    let mut sinking = Box3dCharacterControllerState {
        platform_velocity: vector(Vec3::NEG_Y),
        ..standing()
    };
    assert_eq!(
        begin_box3d_ground_probe(&cfg, &mut sinking, scalar(1.0)),
        GroundProbe::Cast { sinking: true }
    );
}

#[test]
fn steep_ground_is_no_ground() {
    let cfg = settings();
    let steep = Box3dCastHit { normal: vector(Vec3::X), ..floor_hit(Some(entity(1))) };
    let mut state = standing();
    let left = settle_box3d_ground(&cfg, &mut state, Some(steep), Some(floor_hit(None)));
    assert!(state.grounded.is_none());
    assert_eq!(left, Some(floor_hit(None)));
    let found = settle_box3d_ground(&cfg, &mut state, None, Some(floor_hit(Some(entity(2)))));
    assert_eq!(found, Some(floor_hit(Some(entity(2)))));
    assert_eq!(state.grounded, found);
    assert!(spin_box3d_character_look(&state));
    assert_eq!(settle_box3d_ground(&cfg, &mut Default::default(), None, None), None);
}

#[test]
fn platforms_lend_their_motion() {
    let mut runtime = Box3dRuntime::new();
    runtime.record_body(entity(1), BodyId { bits: 10 });
    runtime.record_shape(entity(1), ShapeId { bits: 20 });
    let ground = floor_hit(Some(entity(1)));
    assert_eq!(platform_body(&runtime, &ground), Some(BodyId { bits: 10 }));
    assert_eq!(platform_body(&runtime, &floor_hit(None)), None);
    assert_eq!(platform_body(&runtime, &floor_hit(Some(entity(2)))), None);
    let mut state =
        Box3dCharacterControllerState { grounded: Some(ground), ..Default::default() };
    assert_eq!(surface_shape(&runtime, &state), Some(ShapeId { bits: 20 }));
    let motion =
        PlatformMotion { velocity: vector(Vec3::X), angular_velocity: vector(Vec3::Y) };
    update_box3d_platform_velocity(&mut state, Some(motion));
    assert_eq!(vec3(state.platform_velocity), Vec3::X);
    assert_eq!(vec3(state.platform_angular_velocity), Vec3::Y);
    update_box3d_platform_velocity(&mut state, None);
    assert_eq!(vec3(state.platform_velocity), Vec3::ZERO);
    assert_eq!(vec3(state.platform_angular_velocity), Vec3::ZERO);
}

#[test]
fn heights_depend_on_stance() {
    let cfg = settings();
    let crouched = Box3dCharacterControllerState { crouching: true, ..Default::default() };
    let upright = Box3dCharacterControllerState::default();
    assert_eq!(number(active_height(&cfg, &upright)), 1.8);
    assert_eq!(number(active_height(&cfg, &crouched)), 1.4);
    assert_eq!(number(eye_height(&cfg, &upright)), 1.7);
    assert_eq!(number(eye_height(&cfg, &crouched)), 1.2);
}

// Contacts.

#[test]
fn depenetration_gathers_a_bounded_number_of_planes() {
    let mut runtime = Box3dRuntime::new();
    runtime.record_shape(entity(1), ShapeId { bits: 1 });
    let state =
        Box3dCharacterControllerState { held_body: Some(entity(1)), ..Default::default() };
    let contact = |shape| OverlapContact {
        shape: ShapeId { bits: shape },
        point: Vector::zero(),
        plane: OverlapPlane { normal: vector(Vec3::Y), offset: scalar(0.1) },
        normal: vector(Vec3::Y),
    };
    let mut planes = Vec::new();
    assert!(consider_depenetration_contact(&runtime, &state, &mut planes, &contact(1)));
    assert!(planes.is_empty());
    let mut reported = 0;
    while consider_depenetration_contact(&runtime, &state, &mut planes, &contact(2)) {
        reported += 1;
    }
    assert_eq!(reported + 1, MAX_BOX3D_DEPENETRATION_PLANES);
    assert_eq!(planes.len(), MAX_BOX3D_DEPENETRATION_PLANES);
}

#[test]
fn like_planes_are_one_plane() {
    assert!(!is_repeated(&vec![]));
    assert!(!is_repeated(&vec![scalar(0.5), scalar(0.999)]));
    assert!(is_repeated(&vec![scalar(0.5), scalar(0.9995)]));
}

#[test]
fn touches_need_an_entity_and_a_direction() {
    let mut output = CharacterControllerOutput::new();
    let up = Some(vector(Vec3::Y));
    let at = vector(Vec3::ONE);
    push_box3d_touch(&mut output, &floor_hit(None), up, at, at);
    push_box3d_touch(&mut output, &floor_hit(Some(entity(3))), None, at, at);
    assert!(output.touching_entities.is_empty());
    push_box3d_touch(&mut output, &floor_hit(Some(entity(3))), up, at, at);
    assert_eq!(output.touching_entities.len(), 1);
    assert_eq!(output.touching_entities[0].entity, entity(3));
}

#[test]
fn overhanging_hits_are_not_pushed_off() {
    let cfg = settings();
    for (normal, distance, expected) in [
        (Vec3::NEG_X, 0.5, true),
        (Vec3::NEG_Y, 0.5, false),
        (Vec3::NEG_X, 0.0001, false),
        (Vec3::NEG_X, -0.5, false),
    ] {
        let mut slide = Slide::new(&cfg, vector(Vec3::X));
        slide.measured(scalar(1.0));
        slide.overlapped();
        let hit = Box3dCastHit {
            distance: scalar(distance),
            normal: vector(normal),
            ..floor_hit(None)
        };
        let step = slide.met(
            &mut CharacterControllerOutput::new(),
            &Some(hit),
            None,
            Vector::zero(),
            Vector::zero(),
            &vec![],
        );
        let travel = scalar(distance.max(0.0));
        assert_eq!(step, SlideMove::Part { travel, pushed_off: expected });
        assert_eq!(slide.phase(), SlidePhase::Clip);
    }
    let mut short = Slide::new(&cfg, Vector::zero());
    short.measured(scalar(1.0e-8));
    assert_eq!(short.phase(), SlidePhase::Done);
}

// Climbing.

#[test]
fn climb_factor_uses_input_and_look_pitch() {
    let cfg = settings();
    let factor = |movement: f32, pitch: f32| {
        let cos = (forward(pitch) * movement.abs()).y;
        let pull = (cos + number(cfg.climb_reverse_sin)) * number(cfg.climb_sensitivity);
        let wish = scalar(number(cfg.speed) * number(cfg.speed));
        number(calculate_box3d_climb_factor(wish, scalar(movement), scalar(pull)))
    };
    let ahead = factor(1.0, 0.0);
    assert!(ahead > 0.0, "{ahead}");
    let backward = factor(-1.0, 0.0);
    assert!(backward < 0.0, "{backward}");
    let stalled = factor(1.0, -std::f32::consts::FRAC_PI_2);
    assert!(stalled < ahead, "{stalled} >= {ahead}");

    assert_eq!(ahead, 1.0);
    assert_eq!(backward, -ahead);
    let idle = calculate_box3d_climb_factor(scalar(0.0), scalar(1.0), scalar(5.0));
    assert_eq!(number(idle), 0.0);
}

#[test]
fn ledge_jump_releases_mantle() {
    let cfg = settings();
    let mut state =
        Box3dCharacterControllerState { mantle: Some(on_ledge(&cfg)), ..Default::default() };
    let mut mantle_input = Stopwatch::new();
    mantle_input.set_elapsed(cfg.mantle_input_buffer);
    let mut input = AccumulatedInput {
        last_movement: stick(0.0, 1.0),
        jumped: Some(Stopwatch::new()),
        mantled: Some(mantle_input),
        ..Default::default()
    };

    let direction = if ledge_jump_goes_up(&input) {
        let look = forward(0.0);
        let flat = Vec3::new(look.x, 0.0, look.z).normalize_or_zero();
        (Vec3::Y * number(cfg.ledge_jump_factor) + flat).normalize_or_zero()
    } else {
        Vec3::NEG_Y
    };
    let power = (2.0 * number(cfg.gravity) * number(cfg.jump_height)).sqrt();
    let launched = vec3(state.velocity) + direction * number(cfg.ledge_jump_power) * power;
    handle_box3d_ledge_jump(&cfg, &mut state, &mut input, vector(launched));

    assert!(state.mantle.is_none());
    assert!(number(state.velocity.y) > 0.0);
    assert!(number(state.velocity.z) < 0.0);
    assert!(input.jumped.is_none());
    assert!(input.mantled.is_none());
    let backward = AccumulatedInput { last_movement: stick(0.0, -1.0), ..input };
    assert!(!ledge_jump_goes_up(&backward));
}

#[test]
fn held_jump_does_not_release_fresh_mantle() {
    let cfg = settings();
    let mut state =
        Box3dCharacterControllerState { mantle: Some(on_ledge(&cfg)), ..Default::default() };
    let mut input = AccumulatedInput {
        last_movement: stick(0.0, 1.0),
        jumped: Some(Stopwatch::new()),
        mantled: None,
        ..Default::default()
    };

    assert!(!handle_box3d_ledge_jump(&cfg, &mut state, &mut input, vector(Vec3::Y)));

    assert!(state.mantle.is_some());
    assert_eq!(vec3(state.velocity), Vec3::ZERO);
    assert!(input.jumped.is_some());

    input.mantled = aged(149);
    assert!(!handle_box3d_ledge_jump(&cfg, &mut state, &mut input, vector(Vec3::Y)));
    assert!(state.mantle.is_some());
}

fn good_landing() -> CraneLanding {
    CraneLanding { normal: vector(Vec3::Y), height: scalar(1.0), blocked: false }
}

#[test]
fn crane_needs_a_wall_and_a_clear_landing() {
    let cfg = settings();
    let probe = |facing: Option<f32>, landing| CraneProbe { facing: facing.map(scalar), landing };
    let height = |facing, landing| available_box3d_crane_height(&cfg, &probe(facing, landing));
    assert_eq!(height(Some(1.0), Some(good_landing())), Some(scalar(1.0)));
    assert_eq!(height(Some(0.5), Some(good_landing())), None);
    assert_eq!(height(None, Some(good_landing())), None);
    assert_eq!(height(Some(1.0), None), None);
    for landing in [
        CraneLanding { blocked: true, ..good_landing() },
        CraneLanding { height: scalar(0.7), ..good_landing() },
        CraneLanding { height: scalar(1.6), ..good_landing() },
        CraneLanding { normal: vector(Vec3::X), ..good_landing() },
    ] {
        assert_eq!(height(Some(1.0), Some(landing)), None);
    }
    let top = CraneLanding { height: cfg.crane_height, ..good_landing() };
    assert_eq!(height(Some(1.0), Some(top)), Some(cfg.crane_height));
}

#[test]
fn crane_and_mantle_exclude_each_other() {
    let cfg = settings();
    let probe = CraneProbe { facing: Some(scalar(1.0)), landing: Some(good_landing()) };
    let mut hanging =
        Box3dCharacterControllerState { mantle: Some(on_ledge(&cfg)), ..Default::default() };
    let mut input = AccumulatedInput { craned: aged(0), ..Default::default() };
    assert!(!wants_crane(&cfg, &hanging, &input));
    update_box3d_crane_state(&cfg, &mut hanging, &mut input, &probe);
    assert!(hanging.crane_height_left.is_none() && input.craned.is_some());

    let mut state = standing();
    let mut stale = AccumulatedInput { craned: aged(201), ..Default::default() };
    update_box3d_crane_state(&cfg, &mut state, &mut stale, &probe);
    assert!(state.crane_height_left.is_none() && stale.craned.is_some());
    update_box3d_crane_state(&cfg, &mut state, &mut input, &probe);
    assert_eq!(state.crane_height_left, Some(scalar(1.0)));
    assert!(state.grounded.is_none() && input.craned.is_none());
}

#[test]
fn crane_ends_under_a_ceiling() {
    let mut state = Box3dCharacterControllerState {
        crane_height_left: Some(scalar(1.0)),
        platform_velocity: vector(Vec3::Z),
        ..Default::default()
    };
    let cfg = settings();
    let mut crane = CraneMove::begin(&mut state).unwrap();
    crane.accelerated(&mut state, vector(Vec3::new(2.0, 3.0, 0.0)));
    assert_eq!(vec3(state.velocity), Vec3::new(2.0, 0.0, 0.0));
    crane.steered(&mut state, vector(Vec3::X), true);
    crane.faced(&cfg, &mut state, Some(scalar(0.9)));
    let rise = crane.rise(scalar(0.25));
    assert_eq!(number(rise), 0.25);
    let hit = Box3dCastHit { distance: scalar(0.1), ..floor_hit(None) };
    assert_eq!(number(crane.risen(&mut state, &Some(hit), rise)), 0.1);
    assert_eq!(vec3(state.velocity), Vec3::Z);
    crane.drifted(&mut state, scalar(0.9));
    assert_eq!(vec3(state.velocity), Vec3::X);
    assert_eq!(state.crane_height_left, Some(scalar(0.0)));
    assert!(!crane.looked_ahead(&mut state, &Some(hit)));
    assert!(state.crane_height_left.is_none());
    assert_eq!(crane.phase(), CranePhase::Over);
    assert!(CraneMove::begin(&mut state).is_none());
}

fn good_probe() -> MantleProbe {
    MantleProbe {
        wall: Some(WallContact {
            entity: Some(entity(42)),
            normal: Some(vector(Vec3::Z)),
            facing: scalar(1.0),
        }),
        ledge: Some(LedgeContact {
            point: vector(Vec3::new(0.0, 1.5, -1.0)),
            normal: vector(Vec3::Y),
            height: scalar(1.5),
            target: vector(Vec3::new(0.0, 2.7, -1.0)),
            blocked: false,
        }),
        reach: scalar(2.8),
    }
}

#[test]
fn mantle_needs_a_wall_and_a_clear_ledge() {
    let cfg = settings();
    let mantle = find_box3d_mantle(&cfg, &good_probe()).unwrap();
    assert_eq!(mantle.wall_entity, entity(42));
    assert_eq!(vec3(mantle.target_position), Vec3::new(0.0, 2.7, -1.0));
    assert_eq!(mantle.speed, cfg.mantle_speed);
    assert!(!mantle.automatic);
    let wall = good_probe().wall.unwrap();
    let ledge = good_probe().ledge.unwrap();
    let with_wall = |wall| MantleProbe { wall: Some(wall), ..good_probe() };
    let with_ledge = |ledge| MantleProbe { ledge: Some(ledge), ..good_probe() };
    for probe in [
        MantleProbe { wall: None, ..good_probe() },
        MantleProbe { ledge: None, ..good_probe() },
        with_wall(WallContact { entity: None, ..wall }),
        with_wall(WallContact { normal: None, ..wall }),
        with_wall(WallContact { facing: scalar(0.5), ..wall }),
        with_ledge(LedgeContact { normal: vector(Vec3::X), ..ledge }),
        with_ledge(LedgeContact { height: scalar(0.7), ..ledge }),
        with_ledge(LedgeContact { height: scalar(2.9), ..ledge }),
        with_ledge(LedgeContact { blocked: true, ..ledge }),
    ] {
        assert_eq!(find_box3d_mantle(&cfg, &probe), None);
    }
    assert_eq!(number(hand_radius(&cfg)), 0.2);
    let small = Box3dCharacterController { min_ledge_grab_space: Vector::zero(), ..cfg };
    assert_eq!(number(hand_radius(&small)), 0.01);
}

#[test]
fn mantle_uses_up_its_requests() {
    let cfg = settings();
    let mut state = standing();
    let mut input = AccumulatedInput {
        mantled: aged(0),
        jumped: aged(0),
        craned: aged(0),
        tac: aged(0),
        ..Default::default()
    };
    update_box3d_mantle_state(&cfg, &mut state, &mut input, &good_probe());
    assert!(state.mantle.is_some() && state.grounded.is_none());
    assert!(input.mantled.is_none() && input.jumped.is_none() && input.craned.is_none());
    assert!(input.tac.is_some());
}

#[test]
fn climbs_are_wanted_while_requests_are_fresh() {
    let cfg = settings();
    let flying = Box3dCharacterControllerState::default();
    let hanging = Box3dCharacterControllerState { mantle: Some(on_ledge(&cfg)), ..flying };
    let input = AccumulatedInput {
        last_movement: stick(0.0, -1.0),
        mantled: aged(150),
        climbdown: aged(250),
        craned: aged(200),
        ..Default::default()
    };
    assert!(wants_mantle(&cfg, &flying, &input));
    assert!(wants_crane(&cfg, &flying, &input));
    assert!(wants_climbdown(&cfg, &flying, &input));
    assert!(!wants_mantle(&cfg, &hanging, &input));
    assert!(!wants_climbdown(&cfg, &hanging, &input));
    assert!(!wants_climbdown(&cfg, &standing(), &input));
    let late = AccumulatedInput {
        mantled: aged(151),
        climbdown: aged(251),
        craned: aged(201),
        ..input
    };
    assert!(!wants_mantle(&cfg, &flying, &late));
    assert!(!wants_crane(&cfg, &flying, &late));
    assert!(!wants_climbdown(&cfg, &flying, &late));
    assert!(!wants_mantle(&cfg, &flying, &AccumulatedInput::default()));
}

#[test]
fn climbdown_without_a_ledge_changes_nothing() {
    let cfg = settings();
    let asked = AccumulatedInput {
        last_movement: stick(0.0, -1.0),
        climbdown: aged(0),
        mantled: aged(40),
        jumped: aged(0),
        ..Default::default()
    };
    let nothing = MantleProbe { ledge: None, ..good_probe() };
    let late = AccumulatedInput { climbdown: aged(200), ..asked };
    let ahead = AccumulatedInput { last_movement: stick(0.0, 0.0), ..asked };
    for (input, below, probe, state) in [
        (asked, false, nothing, Box3dCharacterControllerState::default()),
        (asked, true, good_probe(), Box3dCharacterControllerState::default()),
        (ahead, false, good_probe(), Box3dCharacterControllerState::default()),
        (late, false, good_probe(), Box3dCharacterControllerState::default()),
        (asked, false, good_probe(), standing()),
    ] {
        let (mut after, mut rest) = (state, input);
        update_box3d_climbdown_state(&cfg, &mut after, &mut rest, below, &probe);
        assert!(after.mantle.is_none());
        assert_eq!(rest.mantled, aged(40));
        assert_eq!(rest.climbdown, input.climbdown);
        assert_eq!(rest.jumped, input.jumped);
    }
}

#[test]
fn mantle_moves_up_and_arrives() {
    let cfg = settings();
    let ledge = on_ledge(&cfg);
    let mut output = CharacterControllerOutput::new();
    let mut position = vector(Vec3::ZERO);
    let skin = scalar(0.0001);
    let mut idle = Box3dCharacterControllerState::default();
    let mut course = |state: &mut Box3dCharacterControllerState,
                      position: &mut Vector,
                      gap: f32,
                      factor: f32| {
        begin_box3d_mantle_move(state, &mut output, position, scalar(gap), skin, scalar(factor))
    };
    assert_eq!(course(&mut idle, &mut position, 0.0, 1.0), MantleCourse::Idle);
    let hanging = Box3dCharacterControllerState {
        mantle: Some(ledge),
        velocity: vector(Vec3::ONE),
        ..Default::default()
    };
    let mut state = hanging;
    assert_eq!(course(&mut state, &mut position, 1.0, 0.0), MantleCourse::Hanging);
    assert_eq!(vec3(state.velocity), Vec3::ZERO);
    assert_eq!(course(&mut state, &mut position, 1.0, -0.5), MantleCourse::Climbing);
    let mut automatic = Box3dCharacterControllerState {
        mantle: Some(Box3dMantleState { automatic: true, ..ledge }),
        ..hanging
    };
    assert_eq!(course(&mut automatic, &mut position, 1.0, 0.0), MantleCourse::Climbing);
    assert!(state.mantle.is_some());
    assert_eq!(course(&mut state, &mut position, 0.0001, 1.0), MantleCourse::Arrived);
    assert_eq!(vec3(position), Vec3::Y);
    assert!(state.mantle.is_none());
    assert_eq!(state.last_step_up.elapsed, TimeSpan::zero());
    assert_eq!(output.mantle.unwrap().wall_entity, entity(42));

    assert_eq!(number(mantle_factor(&ledge, scalar(0.25))), 0.25);
    assert_eq!(number(mantle_factor(&automatic.mantle.unwrap(), scalar(0.25))), 1.0);
    assert!(climbs_straight_up(scalar(0.5), cfg.skin_width));
    assert!(!climbs_straight_up(scalar(-0.5), cfg.skin_width));
    assert_eq!(number(mantle_rise(scalar(0.8), scalar(0.5))), 0.5);
    assert_eq!(number(mantle_rise(scalar(-0.8), scalar(0.5))), -0.5);
    assert_eq!(number(mantle_rise(scalar(0.2), scalar(0.5))), 0.2);

    let mut climbing = hanging;
    let reached = vector(Vec3::Y * 0.5);
    let velocity = vector(Vec3::Y * 3.0);
    let one = scalar(1.0);
    finish_box3d_mantle_move(&mut climbing, &mut position, reached, velocity, one, one);
    assert!(climbing.mantle.is_some());
    assert_eq!(vec3(position), Vec3::Y * 0.5);
    assert_eq!(vec3(climbing.velocity), Vec3::Y * 3.0);
    finish_box3d_mantle_move(&mut climbing, &mut position, reached, velocity, scalar(0.5), one);
    assert!(climbing.mantle.is_none());
}

// Pushing.

fn touch(of: u64, x: f32) -> TouchingEntity {
    TouchingEntity {
        entity: entity(of),
        distance: Scalar::zero(),
        point: vector(Vec3::X * x),
        normal: vector(Vec3::NEG_X),
        character_position: Vector::zero(),
        character_velocity: Vector::zero(),
        collision_distance: Scalar::zero(),
    }
}

#[test]
fn each_body_is_pushed_once_through_its_first_touch() {
    let mut runtime = Box3dRuntime::new();
    for bits in [1, 2] {
        runtime.record_body(entity(bits), BodyId { bits: 10 + bits });
        runtime.record_shape(entity(bits), ShapeId { bits: 20 + bits });
    }
    runtime.record_shape(entity(3), ShapeId { bits: 23 });
    let touches =
        vec![touch(2, 1.0), touch(9, 2.0), touch(1, 3.0), touch(2, 4.0), touch(3, 5.0)];
    let targets = find_push_targets(&runtime, &touches);
    assert_eq!(targets.len(), 2);
    assert_eq!((targets[0].body_entity, targets[0].touch), (entity(2), touch(2, 1.0)));
    assert_eq!((targets[1].body_entity, targets[1].body), (entity(1), BodyId { bits: 11 }));
}

/// The impulse on a free cube at rest, pushed at its centre.
fn push_cube(character_mass: f32, inverse_mass: f32, character_velocity: Vec3) -> Vec3 {
    let direction = Vec3::X;
    let closing = direction.dot(character_velocity);
    let angular = number(angular_inverse_mass(scalar(-0.5)));
    let inverse_effective_mass = character_mass.recip() + inverse_mass + angular;
    let impulse = direction * (number(closing_speed(scalar(closing))) / inverse_effective_mass);
    let push = Push {
        closing: scalar(closing),
        inverse_effective_mass: scalar(inverse_effective_mass),
        impulse: vector(impulse),
    };
    vec3(calculate_box3d_push_impulse(scalar(character_mass), &push))
}

#[test]
fn push_impulse_uses_reduced_effective_mass() {
    let inverse_mass = 1.0 / (0.8_f32 * 0.8 * 0.8);
    let impulse = push_cube(80.0, inverse_mass, Vec3::X * 12.0);
    assert!(impulse.x > 0.0 && impulse.x < 10.0, "{impulse:?}");

    let velocity = impulse * inverse_mass;
    assert!(velocity.x > 0.0 && velocity.x <= 12.0, "{velocity:?}");

    let separating = push_cube(80.0, inverse_mass, Vec3::NEG_X);
    assert_eq!(separating, Vec3::ZERO);
    assert_eq!(push_cube(0.0, inverse_mass, Vec3::X), Vec3::ZERO);
    assert_eq!(push_cube(f32::INFINITY, inverse_mass, Vec3::X), Vec3::ZERO);
    assert_eq!(push_cube(80.0, f32::INFINITY, Vec3::X), Vec3::ZERO);
}

#[test]
fn impulses_are_noted_and_put_in_order() {
    let impulse = |body, character, strength: f32| Impulse {
        body: entity(body),
        character: entity(character),
        point: Vector::zero(),
        impulse: vector(Vec3::X * strength),
    };
    let mut impulses = Vec::new();
    note_impulse(&mut impulses, impulse(1, 1, 0.0), scalar(0.0));
    note_impulse(&mut impulses, impulse(1, 1, f32::INFINITY), scalar(f32::INFINITY));
    assert!(impulses.is_empty());
    for (body, character, strength) in
        [(2, 1, 1.0), (1, 9, 2.0), (2, 0, 3.0), (1, 9, 4.0), (1, 2, 5.0)]
    {
        let noted = impulse(body, character, strength);
        note_impulse(&mut impulses, noted, scalar(strength * strength));
    }
    sort_impulses(&mut impulses);
    let expected = vec![
        impulse(1, 2, 5.0),
        impulse(1, 9, 2.0),
        impulse(1, 9, 4.0),
        impulse(2, 0, 3.0),
        impulse(2, 1, 1.0),
    ];
    assert_eq!(impulses, expected);
}

// Ticks.

fn run_tick(
    state: &mut Box3dCharacterControllerState,
    water: &WaterState,
    mut work: impl FnMut(KccPhase, &mut Box3dCharacterControllerState),
) -> Vec<KccPhase> {
    let mut tick = KccTick::start();
    let mut phases = Vec::new();
    while tick.phase() != KccPhase::Done {
        phases.push(tick.phase());
        work(tick.phase(), state);
        tick.advance(state, water);
    }
    phases
}

fn dry() -> WaterState {
    WaterState { level: WaterLevel::Dry, speed: scalar(f32::MAX) }
}

#[test]
fn tick_ends_on_firm_ground_or_falls() {
    let cfg = settings();
    let steep = Box3dCastHit { normal: vector(Vec3::X), ..floor_hit(None) };
    for (hit, water, stands) in [
        (Some(floor_hit(None)), dry(), true),
        (Some(steep), dry(), false),
        (None, dry(), false),
        (Some(floor_hit(None)), WaterState { level: WaterLevel::Waist, ..dry() }, false),
    ] {
        let mut state = standing();
        state.last_ground.set_elapsed(millis(700));
        run_tick(&mut state, &water, |phase, state| match phase {
            KccPhase::GroundAgain => {
                settle_box3d_ground(&cfg, state, hit, None);
            }
            KccPhase::Finish => finish_box3d_kcc_tick(&water, state, scalar(-2.0)),
            _ => {}
        });
        assert_eq!(state.grounded.is_some(), stands);
        assert_eq!(state.last_ground.elapsed == TimeSpan::zero(), stands);
        let falls = !stands && !water.level.is_swimming();
        assert_eq!(number(state.velocity.y), if falls { -2.0 } else { 0.0 });
    }
    let mut state = standing();
    fall_box3d_character(&mut state, scalar(-1.0));
    assert_eq!(vec3(state.velocity), Vec3::NEG_Y);
}

#[test]
fn walking_tick_moves_once_on_foot() {
    let mut state = standing();
    let phases = run_tick(&mut state, &dry(), |_, _| {});
    assert_eq!(
        phases,
        vec![
            KccPhase::Prepare,
            KccPhase::Depenetrate,
            KccPhase::Ground,
            KccPhase::Crouch,
            KccPhase::Water,
            KccPhase::Wish,
            KccPhase::Crane,
            KccPhase::Mantle,
            KccPhase::LedgeJump,
            KccPhase::Jump,
            KccPhase::Friction,
            KccPhase::Limit,
            KccPhase::Move,
            KccPhase::GroundAgain,
            KccPhase::Climbdown,
            KccPhase::Finish,
            KccPhase::LimitAgain,
        ]
    );
}

#[test]
fn ticks_fall_swim_crane_and_mantle() {
    let falling = run_tick(&mut Default::default(), &dry(), |_, _| {});
    assert!(falling.contains(&KccPhase::Fall));
    assert!(!falling.contains(&KccPhase::Climbdown));

    let deep = WaterState { level: WaterLevel::Waist, ..dry() };
    let mut swimmer = standing();
    let swimming = run_tick(&mut swimmer, &deep, |phase, state| {
        if phase == KccPhase::GroundAgain {
            state.grounded = Some(floor_hit(None));
        }
    });
    assert!(!swimming.contains(&KccPhase::Fall));
    assert!(swimmer.grounded.is_none());

    let cfg = settings();
    let mut craning = Box3dCharacterControllerState {
        crane_height_left: Some(scalar(0.5)),
        mantle: Some(on_ledge(&cfg)),
        ..Default::default()
    };
    let crane = run_tick(&mut craning, &dry(), |_, _| {});
    assert!(craning.mantle.is_none());
    assert!(crane.contains(&KccPhase::CraneMove));
    assert!(!crane.contains(&KccPhase::Mantle) && !crane.contains(&KccPhase::Move));

    let mut hanging =
        Box3dCharacterControllerState { mantle: Some(on_ledge(&cfg)), ..Default::default() };
    let mantle = run_tick(&mut hanging, &dry(), |_, _| {});
    assert!(mantle.contains(&KccPhase::ClimbJump) && mantle.contains(&KccPhase::MantleMove));
    assert!(!mantle.contains(&KccPhase::CraneMove) && !mantle.contains(&KccPhase::Move));
}

#[test]
fn tick_starts_and_ends() {
    let mut output = CharacterControllerOutput::new();
    output.touching_entities.push(touch(1, 1.0));
    let mut state = standing();
    state.last_ground.reset();
    prepare_box3d_kcc_tick(millis(16), &mut state, &mut output, scalar(0.99));
    assert!(output.touching_entities.is_empty() && output.mantle.is_none());
    assert_eq!(state.last_ground.elapsed, millis(16));
    assert_eq!(state.last_tac.elapsed, TimeSpan::max());
    assert_eq!(number(state.tac_velocity), 0.99);

    state.platform_velocity = vector(Vec3::Y * 2.0);
    finish_box3d_kcc_tick(&dry(), &mut state, scalar(-1.0));
    assert_eq!(number(state.velocity.y), 2.0);
    assert_eq!(state.last_ground.elapsed, TimeSpan::zero());
    let mut flying = Box3dCharacterControllerState::default();
    finish_box3d_kcc_tick(&dry(), &mut flying, scalar(-1.0));
    assert_eq!(number(flying.velocity.y), -1.0);
    let deep = WaterState { level: WaterLevel::Head, ..dry() };
    finish_box3d_kcc_tick(&deep, &mut flying, scalar(-9.0));
    assert_eq!(number(flying.velocity.y), -1.0);
}
