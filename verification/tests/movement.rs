//! Characters that move among solid boxes. The boxes stand in for the physics
//! world: they answer casts and overlap queries of an upright capsule.

use ahoy_box3d::climb::{
    climbdown_cast, crane_down_cast, crane_up_cast, mantle_cast, update_box3d_climbdown_state,
    update_box3d_crane_state, update_box3d_mantle_state, CraneLanding, CraneMove, CranePhase,
    CraneProbe, LedgeContact, MantleProbe, WallContact,
};
use ahoy_box3d::contact::{
    cast_is_due, consider_blocking_contact, consider_depenetration_contact,
    consider_ground_contact, consider_probe_contact, CastContact, CastPhase, CastReply,
    CharacterCast, OverlapContact, OverlapPlane,
};
use ahoy_box3d::controller::{
    AccumulatedInput, Box3dCastHit, Box3dCharacterController, Box3dCharacterControllerState,
    CharacterController, CharacterControllerOutput, Stick,
};
use ahoy_box3d::entity::{BodyId, Entity, ShapeId};
use ahoy_box3d::ground::{
    begin_box3d_ground_probe, box3d_character_points, capsule_height, clear_distance,
    half_segment, handle_box3d_crouching, platform_body, settle_box3d_ground,
    snap_box3d_to_ground, snap_down_cast, snap_up_cast, surface_shape,
    update_box3d_platform_velocity, GroundProbe, PlatformMotion,
};
use ahoy_box3d::motion::{
    acceleration_hz, damped_speed, friction_control, slow_box3d_character, speed_gain,
    target_speed, GroundCourse, Medium,
};
use ahoy_box3d::runtime::Box3dRuntime;
use ahoy_box3d::scalar::{Scalar, Vector};
use ahoy_box3d::slide::{
    fade, step_down_cast, step_up_cast, Clip, ClipTask, Slide, SlideMove, SlidePhase, StepMove,
    StepPhase,
};
use ahoy_box3d::time::{Stopwatch, TimeSpan};
use ahoy_box3d::travel::{Travel, TravelPhase};
use ahoy_box3d::water::{WaterLevel, WaterState};
use bevy_math::{Dir3, Quat, Vec3, Vec3Swizzles};

// Quantities.

fn scalar(value: f32) -> Scalar {
    Scalar::new(value.to_bits())
}

fn number(value: Scalar) -> f32 {
    f32::from_bits(value.bits)
}

fn vector(value: Vec3) -> Vector {
    Vector::new(scalar(value.x), scalar(value.y), scalar(value.z))
}

fn vec3(value: Vector) -> Vec3 {
    Vec3::new(number(value.x), number(value.y), number(value.z))
}

fn millis(count: u32) -> TimeSpan {
    TimeSpan::new(0, count * 1_000_000)
}

// A world of boxes.

const SLOP: f32 = 0.005;

struct Solid {
    shape: ShapeId,
    center: Vec3,
    half: Vec3,
    turn: Quat,
}

impl Solid {
    /// Signed distance of a point, and the direction away from the box there.
    fn point_distance(&self, point: Vec3) -> (f32, Vec3) {
        let local = self.turn.inverse() * (point - self.center);
        let outside = local - local.clamp(-self.half, self.half);
        if outside.length_squared() > 0.0 {
            return (outside.length(), self.turn * outside.normalize());
        }
        let depth = self.half - local.abs();
        let inner = if depth.x <= depth.y && depth.x <= depth.z {
            (-depth.x, Vec3::X * local.x.signum())
        } else if depth.y <= depth.z {
            (-depth.y, Vec3::Y * local.y.signum())
        } else {
            (-depth.z, Vec3::Z * local.z.signum())
        };
        (inner.0, self.turn * inner.1)
    }

    /// Signed distance of a segment, the direction away from the box, and the
    /// closest point on the box.
    fn distance(&self, a: Vec3, b: Vec3) -> (f32, Vec3, Vec3) {
        let (mut low, mut high) = (0.0_f32, 1.0_f32);
        for _ in 0..60 {
            let third = (high - low) / 3.0;
            let (near, far) = (low + third, high - third);
            if self.point_distance(a.lerp(b, near)).0 <= self.point_distance(a.lerp(b, far)).0 {
                high = far;
            } else {
                low = near;
            }
        }
        let mut best = low;
        for at in [0.0, 1.0] {
            if self.point_distance(a.lerp(b, at)).0 < self.point_distance(a.lerp(b, best)).0 {
                best = at;
            }
        }
        let point = a.lerp(b, best);
        let (distance, normal) = self.point_distance(point);
        (distance, normal, point - normal * distance)
    }
}

struct RawHit {
    shape: ShapeId,
    fraction: f32,
    point: Vec3,
    normal: Vec3,
}

struct RawPlane {
    shape: ShapeId,
    point: Vec3,
    normal: Vec3,
    offset: f32,
}

struct World {
    solids: Vec<Solid>,
    links: Box3dRuntime,
}

impl World {
    fn new() -> World {
        World { solids: Vec::new(), links: Box3dRuntime::new() }
    }

    fn add_box(&mut self, center: Vec3, half: Vec3) -> ShapeId {
        self.add_turned_box(center, half, Quat::IDENTITY)
    }

    fn add_turned_box(&mut self, center: Vec3, half: Vec3, turn: Quat) -> ShapeId {
        let shape = ShapeId { bits: 1000 + self.solids.len() as u64 };
        self.solids.push(Solid { shape, center, half, turn });
        shape
    }

    fn cast_shape(
        &self,
        origin: Vec3,
        points: [Vec3; 2],
        radius: f32,
        movement: Vec3,
        mut f: impl FnMut(RawHit) -> f32,
    ) {
        let length = movement.length();
        let target = SLOP.max(radius - SLOP);
        let mut limit = 1.0_f32;
        for solid in &self.solids {
            let mut fraction = 0.0_f32;
            let mut first = true;
            loop {
                let at = origin + movement * fraction;
                let (distance, normal, point) = solid.distance(at + points[0], at + points[1]);
                let gap = distance - target;
                if gap < 0.25 * SLOP {
                    let normal = if first && gap < 0.0 { Vec3::ZERO } else { normal };
                    limit = limit.min(f(RawHit { shape: solid.shape, fraction, point, normal }));
                    break;
                }
                let approach = -movement.dot(normal);
                if approach <= 0.0 {
                    break;
                }
                fraction += gap / approach;
                if fraction > limit || fraction * length > length {
                    break;
                }
                first = false;
            }
        }
    }

    fn collide_mover(
        &self,
        origin: Vec3,
        points: [Vec3; 2],
        radius: f32,
        mut f: impl FnMut(RawPlane) -> bool,
    ) {
        for solid in &self.solids {
            let (distance, normal, point) = solid.distance(origin + points[0], origin + points[1]);
            if distance <= radius
                && !f(RawPlane { shape: solid.shape, point, normal, offset: radius - distance })
            {
                return;
            }
        }
    }
}

fn solve_planes(planes: &[OverlapPlane]) -> Vec3 {
    let mut delta = Vec3::ZERO;
    let mut pushes = vec![0.0_f32; planes.len()];
    for _ in 0..20 {
        for (plane, push) in planes.iter().zip(pushes.iter_mut()) {
            let normal = vec3(plane.normal);
            let separation = normal.dot(delta) - number(plane.offset) + SLOP;
            let total = (*push - separation).max(0.0);
            delta += normal * (total - *push);
            *push = total;
        }
    }
    delta
}

// A character.

fn shared_settings() -> CharacterController {
    CharacterController {
        crouch_height: scalar(1.3),
        crouch_view_height: scalar(1.2),
        crouch_speed_scale: scalar(1.0 / 3.0),
        ground_distance: scalar(0.05),
        min_walk_cos: scalar(0.766),
        stop_speed: scalar(2.54),
        friction_hz: scalar(6.0),
        acceleration_hz: scalar(8.0),
        air_acceleration_hz: scalar(12.0),
        water_acceleration_hz: scalar(12.0),
        water_slowdown: scalar(0.6),
        water_gravity: scalar(2.4),
        gravity: scalar(29.0),
        speed: scalar(12.0),
        air_speed: scalar(1.5),
        max_speed: scalar(100.0),
        max_air_wish_speed: scalar(0.76),
        jump_height: scalar(1.8),
        tac_power: scalar(0.755),
        tac_jump_factor: scalar(1.0),
        tac_input_buffer: millis(150),
        max_tac_cos: scalar(0.766),
        tac_cooldown: millis(300),
        mantle_input_buffer: millis(150),
        climbdown_input_buffer: millis(150),
        mantle_height: scalar(1.0),
        mantle_speed: scalar(5.0),
        min_mantle_cos: scalar(0.64),
        min_mantle_ledge_space: scalar(0.35),
        max_ledge_grab_distance: scalar(0.5),
        climb_pull_up_height: scalar(0.3),
        climb_reverse_sin: scalar(0.64),
        climb_sensitivity: scalar(2.5),
        ledge_jump_power: scalar(1.5),
        ledge_jump_factor: scalar(1.0),
        crane_input_buffer: millis(200),
        crane_height: scalar(1.5),
        crane_speed: scalar(15.0),
        min_crane_cos: scalar(0.64),
        min_crane_ledge_space: scalar(0.35),
        jump_crane_chain_time: millis(140),
        unground_speed: scalar(10.0),
        coyote_time: millis(100),
        jump_input_buffer: millis(150),
        step_size: scalar(0.7),
        step_down_detection_distance: scalar(0.2),
        min_step_ledge_space: scalar(0.2),
        standing_view_height: scalar(1.7),
        min_ledge_grab_half_size: vector(Vec3::new(0.1, 0.05, 0.1)),
        skin_width: scalar(0.01),
        max_planes: 20,
    }
}

fn settings() -> Box3dCharacterController {
    Box3dCharacterController::from(shared_settings())
}

fn character_points(cfg: &Box3dCharacterController, crouching: bool) -> [Vec3; 2] {
    let height = number(capsule_height(cfg, crouching));
    let center_offset = (height - number(cfg.height)) * 0.5;
    let half = number(half_segment(scalar(height * 0.5 - number(cfg.radius))));
    let (lower, upper) = (center_offset - half, center_offset + half);
    let (lower, upper) = box3d_character_points(scalar(lower), scalar(upper));
    [vec3(lower), vec3(upper)]
}

fn cast_character(
    world: &World,
    cfg: &Box3dCharacterController,
    state: &Box3dCharacterControllerState,
    origin: Vec3,
    movement: Vec3,
) -> Option<Box3dCastHit> {
    let distance = movement.length();
    let skin = number(cfg.skin_width);
    let points = character_points(cfg, state.crouching);
    let mut cast = CharacterCast::begin(scalar(distance), scalar(movement.y));
    while cast.phase() != CastPhase::Over {
        let (start, sweep) = if cast.phase() == CastPhase::Behind {
            let direction = movement / distance;
            (origin - direction * skin, movement + direction * skin)
        } else {
            (origin, movement)
        };
        let reach = sweep.length();
        world.cast_shape(start, points, number(cfg.radius), sweep, |hit| {
            let normal = hit.normal.normalize_or_zero();
            let collision_distance = hit.fraction * reach;
            let contact = CastContact {
                shape: hit.shape,
                collision_distance: scalar(collision_distance),
                clearance: scalar(collision_distance - skin),
                point: vector(hit.point),
                normal: vector(normal),
                approach: scalar(movement.dot(normal)),
            };
            match cast.contact(&world.links, state, &contact) {
                CastReply::Ignore => 1.0,
                CastReply::KeepClosest(Some(closest)) => number(closest) / reach,
                CastReply::KeepClosest(None) => 1.0,
                CastReply::Stop => hit.fraction,
            }
        });
        cast.pass_over();
    }
    cast.closest()
}

fn cast_sphere(
    world: &World,
    origin: Vec3,
    movement: Vec3,
    radius: f32,
    skin: f32,
) -> Option<Box3dCastHit> {
    let distance = movement.length();
    if !cast_is_due(scalar(distance)) {
        return None;
    }
    let mut closest = None;
    world.cast_shape(origin, [Vec3::ZERO, Vec3::ZERO], radius, movement, |hit| {
        let normal = hit.normal.normalize_or_zero();
        let collision_distance = hit.fraction * distance;
        let contact = CastContact {
            shape: hit.shape,
            collision_distance: scalar(collision_distance),
            clearance: scalar(collision_distance - skin),
            point: vector(hit.point),
            normal: vector(normal),
            approach: scalar(movement.dot(normal)),
        };
        let reply = consider_probe_contact(&world.links, &mut closest, &contact);
        assert_eq!(reply, CastReply::Stop);
        hit.fraction
    });
    closest
}

fn overlaps(
    world: &World,
    cfg: &Box3dCharacterController,
    origin: Vec3,
    crouching: bool,
    mut f: impl FnMut(&OverlapContact) -> bool,
) {
    let points = character_points(cfg, crouching);
    world.collide_mover(origin, points, number(cfg.radius), |plane| {
        f(&OverlapContact {
            shape: plane.shape,
            point: vector(plane.point),
            plane: OverlapPlane { normal: vector(plane.normal), offset: scalar(plane.offset) },
            normal: vector(plane.normal.normalize_or_zero()),
        })
    });
}

fn intersects(
    world: &World,
    cfg: &Box3dCharacterController,
    origin: Vec3,
    crouching: bool,
) -> bool {
    let mut blocked = false;
    overlaps(world, cfg, origin, crouching, |contact| {
        consider_blocking_contact(cfg, &mut blocked, contact.normal)
    });
    blocked
}

fn depenetrate(
    world: &World,
    cfg: &Box3dCharacterController,
    state: &Box3dCharacterControllerState,
    position: &mut Vec3,
) {
    let mut planes = Vec::new();
    overlaps(world, cfg, *position, state.crouching, |contact| {
        consider_depenetration_contact(&world.links, state, &mut planes, contact)
    });
    if !planes.is_empty() {
        *position += solve_planes(&planes);
    }
}

fn clip(vector_to_clip: Vec3, planes: &[Vector]) -> Vec3 {
    let mut clip = Clip::new(vector(vector_to_clip), planes.len());
    loop {
        match clip.task() {
            ClipTask::Meet(index) => {
                let normal = vec3(planes[index]).normalize_or_zero();
                let current = vec3(clip.vector());
                let into = current.dot(normal);
                clip.meet(scalar(into), vector(current - normal * into));
            }
            ClipTask::Settle => {
                let moved = vec3(clip.vector()).distance_squared(vec3(clip.before()));
                clip.settle(scalar(moved));
            }
            ClipTask::Done => break,
        }
    }
    let held = clip.held();
    vec3(fade(held, scalar(vec3(held).length_squared())))
}

/// What a normal has in common with each of the planes.
fn likeness(planes: &[Vector], normal: Vec3) -> Vec<Scalar> {
    planes.iter().map(|plane| scalar(vec3(*plane).dot(normal))).collect()
}

fn move_and_slide(
    world: &World,
    cfg: &Box3dCharacterController,
    state: &mut Box3dCharacterControllerState,
    output: &mut CharacterControllerOutput,
    position: &mut Vec3,
    movement: Vec3,
) -> usize {
    let mut slide = Slide::new(cfg, vector(movement));
    let mut travelled = Vec3::ZERO;
    let mut passes = 0;
    loop {
        let remaining = vec3(slide.remaining());
        match slide.phase() {
            SlidePhase::Measure => slide.measured(scalar(remaining.length_squared())),
            SlidePhase::Overlap => {
                passes += 1;
                overlaps(world, cfg, *position, state.crouching, |contact| {
                    let normal = vec3(contact.normal);
                    let likeness = likeness(slide.planes(), normal);
                    let approach = scalar(remaining.dot(normal));
                    slide.overlap(&world.links, state, contact, approach, &likeness)
                });
                slide.overlapped();
            }
            SlidePhase::Cast => {
                let hit = cast_character(world, cfg, state, *position, remaining);
                let normal = hit.map(|hit| vec3(hit.normal)).unwrap_or(Vec3::ZERO);
                let direction = Dir3::new(normal).ok().map(|direction| vector(*direction));
                let likeness = likeness(slide.planes(), normal);
                match slide.met(
                    output,
                    &hit,
                    direction,
                    vector(*position),
                    state.velocity,
                    &likeness,
                ) {
                    SlideMove::All => *position += remaining,
                    SlideMove::Part { travel, pushed_off } => {
                        travelled = remaining.normalize_or_zero() * number(travel);
                        *position += travelled;
                        if pushed_off {
                            *position += normal * number(cfg.skin_width);
                        }
                    }
                }
            }
            SlidePhase::Clip => {
                let velocity = vec3(state.velocity);
                let clipped = clip(velocity, slide.planes());
                let lost = number(state.tac_velocity) + (velocity - clipped).length();
                let rest = clip(remaining - travelled, slide.planes());
                slide.clipped(state, vector(clipped), scalar(lost), vector(rest));
                travelled = Vec3::ZERO;
            }
            SlidePhase::Done => break,
        }
    }
    passes
}

fn step_move(
    world: &World,
    cfg: &Box3dCharacterController,
    state: &mut Box3dCharacterControllerState,
    output: &mut CharacterControllerOutput,
    position: &mut Vec3,
    movement: Vec3,
) -> StepPhase {
    let mut at = vector(*position);
    let mut step = StepMove::begin(&at, state, output);
    loop {
        *position = vec3(at);
        match step.phase() {
            StepPhase::Slide => {
                move_and_slide(world, cfg, state, output, position, movement);
                at = vector(*position);
                step.has_slid(&mut at, state, output);
            }
            StepPhase::Rise => {
                let up = vec3(step_up_cast(cfg));
                let hit = cast_character(world, cfg, state, *position, up);
                if let Some(rise) = step.has_risen(cfg, &mut at, state, output, &hit) {
                    at = vector(*position + Vec3::Y * number(rise));
                }
            }
            StepPhase::Probe => {
                let ahead =
                    vec3(state.velocity).normalize_or_zero() * number(cfg.min_step_ledge_space);
                let hit = cast_character(world, cfg, state, *position, ahead);
                step.has_probed(&mut at, state, output, &hit);
            }
            StepPhase::SlideAbove => {
                move_and_slide(world, cfg, state, output, position, movement);
                at = vector(*position);
                step.has_slid_above();
            }
            StepPhase::Descend => {
                let down = vec3(step_down_cast(cfg));
                let hit = cast_character(world, cfg, state, *position, down);
                if let Some(drop) = step.has_descended(cfg, &mut at, state, output, &hit) {
                    *position -= Vec3::Y * number(drop);
                    depenetrate(world, cfg, state, position);
                    at = vector(*position);
                }
            }
            StepPhase::Compare => {
                let start = vec3(step.start_position()).xz();
                let slid = vec3(step.slid_position()).xz().distance_squared(start);
                let stepped = position.xz().distance_squared(start);
                step.compare(&mut at, state, output, scalar(slid), scalar(stepped));
            }
            StepPhase::Stepped | StepPhase::Slid => return step.phase(),
        }
    }
}

fn snap_to_ground(
    world: &World,
    cfg: &Box3dCharacterController,
    state: &mut Box3dCharacterControllerState,
    position: &mut Vec3,
) -> bool {
    let up = vec3(snap_up_cast(cfg));
    let above = cast_character(world, cfg, state, *position, up);
    let up_distance = number(clear_distance(&above, cfg.ground_distance));
    let start = *position + Vec3::Y * up_distance;
    let down = vec3(snap_down_cast(scalar(up_distance + number(cfg.step_size))));
    let hit = cast_character(world, cfg, state, start, down);
    let landing = start + Vec3::NEG_Y * hit.map(|hit| number(hit.distance)).unwrap_or(0.0);
    let drop = position.y - landing.y;
    let mut at = vector(*position);
    let snapped =
        snap_box3d_to_ground(cfg, state, &mut at, &hit, vector(landing), scalar(drop));
    *position = vec3(at);
    if snapped {
        depenetrate(world, cfg, state, position);
    }
    snapped
}

fn update_grounded(
    world: &World,
    cfg: &Box3dCharacterController,
    state: &mut Box3dCharacterControllerState,
    position: Vec3,
    delta: f32,
) {
    let rise = number(state.velocity.y) - number(state.platform_velocity.y);
    let sinking = match begin_box3d_ground_probe(cfg, state, scalar(rise)) {
        GroundProbe::LeavesGround => return,
        GroundProbe::Cast { sinking } => sinking,
    };
    let mut reach = number(cfg.ground_distance);
    if sinking {
        reach -= number(state.platform_velocity.y) * delta;
    }
    let cast = cast_character(world, cfg, state, position, Vec3::NEG_Y * reach);
    let mut overlap = None;
    if cast.is_none() {
        overlaps(world, cfg, position, state.crouching, |contact| {
            consider_ground_contact(&world.links, cfg, state, &mut overlap, contact)
        });
    }
    if let Some(platform) = settle_box3d_ground(cfg, state, cast, overlap) {
        let motion = platform_body(&world.links, &platform).map(|_| PlatformMotion {
            velocity: vector(Vec3::ZERO),
            angular_velocity: vector(Vec3::ZERO),
        });
        update_box3d_platform_velocity(state, motion);
    }
}

fn apply_ground_friction(
    world: &World,
    cfg: &Box3dCharacterController,
    state: &mut Box3dCharacterControllerState,
    delta: f32,
) {
    let velocity = vec3(state.velocity);
    let speed = velocity.xz().length();
    let Some(control) = friction_control(cfg, Medium::Ground, scalar(speed)) else {
        return;
    };
    assert_eq!(surface_shape(&world.links, state), None);
    let reduced = speed - number(control) * number(cfg.friction_hz) * delta;
    if let Some(left) = damped_speed(scalar(speed), scalar(reduced)) {
        let factor = number(left) / speed;
        slow_box3d_character(state, Medium::Ground, vector(velocity * factor));
    }
}

fn sped_up(
    cfg: &Box3dCharacterController,
    state: &Box3dCharacterControllerState,
    medium: Medium,
    wish_velocity: Vec3,
    delta: f32,
) -> Vec3 {
    let velocity = vec3(state.velocity);
    let Ok((direction, wish_speed)) = Dir3::new_and_length(wish_velocity) else {
        return velocity;
    };
    let target = number(target_speed(cfg, medium, scalar(wish_speed)));
    let missing = target - velocity.dot(*direction);
    let gain = wish_speed * number(acceleration_hz(cfg, medium)) * delta;
    match speed_gain(scalar(missing), scalar(gain)) {
        Some(gained) => velocity + number(gained) * *direction,
        None => velocity,
    }
}

/// Moves on through a medium, at the velocity that the character has sped up to.
fn travel(
    world: &World,
    cfg: &Box3dCharacterController,
    state: &mut Box3dCharacterControllerState,
    output: &mut CharacterControllerOutput,
    position: &mut Vec3,
    delta: f32,
) -> Travel {
    let dry = WaterState { level: WaterLevel::Dry, speed: scalar(f32::MAX) };
    let mut travel = Travel::begin(&dry, state);
    loop {
        let movement = vec3(travel.movement());
        match travel.phase() {
            TravelPhase::Accelerate => {
                let velocity = state.velocity;
                travel.accelerated(state, velocity);
            }
            TravelPhase::Carry => {
                let velocity = vec3(state.velocity) + vec3(state.platform_velocity);
                travel.carried(state, vector(velocity));
            }
            TravelPhase::Head => travel.headed(vector(vec3(state.velocity) * delta)),
            TravelPhase::Slide => {
                move_and_slide(world, cfg, state, output, position, movement);
                travel.slid();
            }
            TravelPhase::Measure => travel.measured(scalar(movement.length_squared())),
            TravelPhase::Cast => {
                travel.met(&cast_character(world, cfg, state, *position, movement));
            }
            TravelPhase::Glide => {
                let mut at = vector(*position);
                travel.glided(&mut at, vector(*position + movement));
                *position = vec3(at);
            }
            TravelPhase::Step => {
                step_move(world, cfg, state, output, position, movement);
                travel.stepped();
            }
            TravelPhase::Release => {
                let velocity = vec3(state.velocity) - vec3(state.platform_velocity);
                travel.released(state, vector(velocity));
            }
            TravelPhase::PushOut => {
                depenetrate(world, cfg, state, position);
                travel.pushed_out();
            }
            TravelPhase::Snap => {
                snap_to_ground(world, cfg, state, position);
                travel.snapped();
            }
            TravelPhase::Over => return travel,
        }
    }
}

fn ground_move(
    world: &World,
    cfg: &Box3dCharacterController,
    state: &mut Box3dCharacterControllerState,
    output: &mut CharacterControllerOutput,
    position: &mut Vec3,
    delta: f32,
) {
    let travel = travel(world, cfg, state, output, position, delta);
    assert_eq!(travel.medium(), Medium::Ground);
}

fn mantle_probe(
    world: &World,
    cfg: &Box3dCharacterController,
    state: &Box3dCharacterControllerState,
    position: Vec3,
    wish_velocity: Vec3,
) -> MantleProbe {
    let reach = number(cfg.height) + number(cfg.mantle_height);
    let nothing = MantleProbe { wall: None, ledge: None, reach: scalar(reach) };
    let Ok(wish) = Dir3::new(wish_velocity) else {
        return nothing;
    };
    let grab = *wish * number(cfg.max_ledge_grab_distance);
    let Some(wall_hit) = cast_character(world, cfg, state, position, grab) else {
        return nothing;
    };
    let normal = Dir3::new(vec3(wall_hit.normal)).ok();
    let facing = normal.map(|normal| (-normal).dot(*wish)).unwrap_or(0.0);
    let wall = Some(WallContact {
        entity: wall_hit.entity,
        normal: normal.map(|normal| vector(*normal)),
        facing: scalar(facing),
    });
    let Some(normal) = normal else {
        return MantleProbe { wall, ..nothing };
    };
    let half_height = number(cfg.height) * 0.5;
    let inward = number(cfg.radius)
        + number(cfg.skin_width)
        + number(cfg.min_ledge_grab_space.z) * 0.5;
    let start = position + Vec3::Y * (half_height + number(cfg.mantle_height)) - *normal * inward;
    let radius = number(ahoy_box3d::climb::hand_radius(cfg));
    let skin = number(cfg.skin_width);
    let Some(hit) = cast_sphere(world, start, vec3(mantle_cast(nothing.reach)), radius, skin) else {
        return MantleProbe { wall, ..nothing };
    };
    let point = vec3(hit.point);
    let pull_up = number(cfg.climb_pull_up_height);
    let target = Vec3::new(point.x, point.y + half_height + skin + pull_up, point.z);
    let ledge = Some(LedgeContact {
        point: hit.point,
        normal: hit.normal,
        height: scalar(point.y - (position.y - half_height)),
        target: vector(target),
        blocked: intersects(world, cfg, target, state.crouching),
    });
    MantleProbe { wall, ledge, ..nothing }
}

fn crane_probe(
    world: &World,
    cfg: &Box3dCharacterController,
    state: &Box3dCharacterControllerState,
    position: Vec3,
    wish_velocity: Vec3,
) -> CraneProbe {
    let nothing = CraneProbe { facing: None, landing: None };
    let velocity = vec3(state.velocity);
    let Ok(wish) = Dir3::new(wish_velocity)
        .or_else(|_| Dir3::new(Vec3::new(velocity.x, 0.0, velocity.z)))
    else {
        return nothing;
    };
    let space = number(cfg.min_crane_ledge_space);
    let Some(wall) = cast_character(world, cfg, state, position, *wish * space) else {
        return nothing;
    };
    let wall = vec3(wall.normal);
    let normal = Vec3::new(wall.x, 0.0, wall.z).normalize_or_zero();
    let facing = Some(scalar((-normal).dot(*wish)));
    let above = cast_character(world, cfg, state, position, vec3(crane_up_cast(cfg)));
    let up = number(clear_distance(&above, cfg.crane_height));
    let start = position + Vec3::Y * up - normal * space;
    let back = vec3(crane_down_cast(cfg, &above));
    let Some(hit) = cast_character(world, cfg, state, start, back) else {
        return CraneProbe { facing, landing: None };
    };
    let down = number(hit.distance);
    let standing = start + Vec3::NEG_Y * down + Vec3::Y * number(cfg.skin_width);
    CraneProbe {
        facing,
        landing: Some(CraneLanding {
            normal: hit.normal,
            height: scalar(up - down),
            blocked: intersects(world, cfg, standing, state.crouching),
        }),
    }
}

fn crane_move(
    world: &World,
    cfg: &Box3dCharacterController,
    state: &mut Box3dCharacterControllerState,
    output: &mut CharacterControllerOutput,
    position: &mut Vec3,
    wish_velocity: Vec3,
    delta: f32,
) {
    let Some(mut crane) = CraneMove::begin(state) else {
        return;
    };
    let mut heading = None;
    let mut wish = Vec3::ZERO;
    let space = number(cfg.min_crane_ledge_space);
    loop {
        match crane.phase() {
            CranePhase::Accelerate => {
                let velocity = sped_up(cfg, state, Medium::Ground, wish_velocity, delta);
                crane.accelerated(state, vector(velocity));
            }
            CranePhase::Steer => {
                let platform = vec3(state.platform_velocity);
                let moving = vec3(state.velocity) + platform;
                heading = Dir3::new_and_length(moving).ok();
                if let Some((direction, _)) = heading {
                    wish = *Dir3::new(wish_velocity).unwrap_or(direction);
                }
                crane.steered(state, vector(moving - platform), heading.is_some());
            }
            CranePhase::Face => {
                let hit = cast_character(world, cfg, state, *position, wish * space);
                let facing = hit.map(|hit| {
                    let wall = vec3(hit.normal);
                    let normal = Vec3::new(wall.x, 0.0, wall.z).normalize_or_zero();
                    scalar((-normal).dot(wish))
                });
                crane.faced(cfg, state, facing);
            }
            CranePhase::Rise => {
                let rise = crane.rise(scalar(number(cfg.crane_speed) * delta));
                let up = vec3(CraneMove::rise_cast(rise));
                let hit = cast_character(world, cfg, state, *position, up);
                position.y += number(crane.risen(state, &hit, rise));
                let travelled = hit.map(|hit| number(hit.distance)).unwrap_or(number(rise));
                let drift = vec3(state.velocity) * delta;
                move_and_slide(world, cfg, state, output, position, drift);
                crane.drifted(state, scalar(number(crane.height()) - travelled));
            }
            CranePhase::Ahead => {
                let (direction, speed) = heading.unwrap();
                let hit = cast_character(world, cfg, state, *position, *direction * space);
                if crane.looked_ahead(state, &hit) {
                    *position += *direction * speed * delta;
                    depenetrate(world, cfg, state, position);
                }
            }
            CranePhase::Drift => unreachable!(),
            CranePhase::Over => return,
        }
    }
}

/// A value as it is shown, to compare all of it.
fn shown(value: &impl std::fmt::Debug) -> String {
    format!("{value:?}")
}

fn feet(cfg: &Box3dCharacterController, position: Vec3) -> f32 {
    position.y - number(cfg.height) * 0.5
}

fn floor_hit(point: Vec3) -> Box3dCastHit {
    Box3dCastHit {
        entity: None,
        distance: Scalar::zero(),
        point: vector(point),
        normal: vector(Vec3::Y),
        collision_distance: Scalar::zero(),
    }
}

fn moving(velocity: Vec3) -> Box3dCharacterControllerState {
    Box3dCharacterControllerState { velocity: vector(velocity), ..Default::default() }
}

// Crouching.

#[test]
fn crouching_keeps_capsule_feet_fixed() {
    let cfg = settings();
    let standing = character_points(&cfg, false);
    let crouching = character_points(&cfg, true);

    let standing_foot = standing[0].y - number(cfg.radius);
    let crouching_foot = crouching[0].y - number(cfg.radius);
    assert_eq!(standing_foot, crouching_foot);
    assert!(crouching[1].y < standing[1].y);
    assert!((standing_foot + number(cfg.height) * 0.5).abs() < 1.0e-6);
    for points in [standing, crouching] {
        assert!(points[0].y <= points[1].y);
        assert_eq!((points[0].x, points[0].z, points[1].x, points[1].z), (0.0, 0.0, 0.0, 0.0));
    }
}

#[test]
fn crouch_height_cannot_make_capsule_shorter_than_its_diameter() {
    let cfg = Box3dCharacterController { crouch_height: scalar(0.1), ..settings() };
    let crouching = character_points(&cfg, true);

    assert_eq!(crouching[0], crouching[1]);
    assert_eq!(crouching[0].y - number(cfg.radius), -number(cfg.height) * 0.5);
}

#[test]
fn standing_overlap_ignores_floor_contact_but_detects_low_ceiling() {
    let mut world = World::new();
    world.add_box(Vec3::new(0.0, -0.5, 0.0), Vec3::new(5.0, 0.5, 5.0));
    let cfg = settings();
    let origin = Vec3::Y * number(cfg.height) * 0.5;

    assert!(!intersects(&world, &cfg, origin, false));

    world.add_box(Vec3::new(0.0, 1.75, 0.0), Vec3::new(2.0, 0.25, 2.0));

    assert!(intersects(&world, &cfg, origin, false));
    assert!(!intersects(&world, &cfg, origin, true));
}

#[test]
fn standing_probe_ignores_tiny_floor_overlap() {
    let mut world = World::new();
    world.add_box(Vec3::new(0.0, -0.5, 0.0), Vec3::new(5.0, 0.5, 5.0));
    let cfg = settings();
    let origin = Vec3::Y * (number(cfg.height) * 0.5 - number(cfg.skin_width));

    assert!(!intersects(&world, &cfg, origin, false));
}

fn release_crouch(world: &World) {
    let cfg = settings();
    let mut state = Box3dCharacterControllerState { crouching: true, ..Default::default() };
    let input = AccumulatedInput::default();
    let mut position = Vec3::new(-1.0, number(cfg.height) * 0.5, 0.0);

    let blocked = intersects(world, &cfg, position, false);
    handle_box3d_crouching(&mut state, &input, blocked);
    assert!(state.crouching);

    position.x = 1.0;
    let blocked = intersects(world, &cfg, position, false);
    handle_box3d_crouching(&mut state, &input, blocked);
    assert!(!state.crouching);
}

#[test]
fn crouch_release_stands_after_leaving_low_space() {
    let mut world = World::new();
    world.add_box(Vec3::new(-1.0, 1.55, 0.0), Vec3::new(1.0, 0.1, 1.0));
    release_crouch(&world);
}

#[test]
fn crouch_release_stands_after_leaving_sloped_low_space() {
    let mut world = World::new();
    world.add_turned_box(
        Vec3::new(-1.0, 1.58, 0.0),
        Vec3::new(1.1, 0.08, 1.0),
        Quat::from_rotation_z(18.0_f32.to_radians()),
    );
    release_crouch(&world);
}

// Casts.

#[test]
fn held_body_is_ignored_by_character_casts() {
    let mut world = World::new();
    let body_entity = Entity { bits: 42 };
    let shape = world.add_box(Vec3::new(0.0, 0.9, -1.0), Vec3::new(1.0, 0.9, 0.1));
    world.links.record_body(body_entity, BodyId { bits: 7 });
    world.links.record_shape(body_entity, shape);

    let cfg = settings();
    let clear_state = Box3dCharacterControllerState::default();
    let held_state =
        Box3dCharacterControllerState { held_body: Some(body_entity), ..Default::default() };
    let origin = Vec3::Y * number(cfg.height) * 0.5;

    let hit = cast_character(&world, &cfg, &clear_state, origin, Vec3::NEG_Z * 2.0);
    assert!(hit.is_some());
    assert_eq!(hit.unwrap().entity, Some(body_entity));
    assert!(cast_character(&world, &cfg, &held_state, origin, Vec3::NEG_Z * 2.0).is_none());
}

#[test]
fn cast_up_finds_a_ceiling_within_the_skin() {
    let mut world = World::new();
    let cfg = settings();
    let top = number(cfg.height);
    // The capsule already reaches into the slop of the ceiling.
    world.add_box(Vec3::new(0.0, top + 0.5 - 0.006, 0.0), Vec3::new(2.0, 0.5, 2.0));
    let state = Box3dCharacterControllerState::default();
    let origin = Vec3::Y * top * 0.5;

    let hit = cast_character(&world, &cfg, &state, origin, Vec3::Y * 0.5).unwrap();
    assert_eq!(number(hit.distance), 0.0);
    assert!(number(hit.normal.y) < -0.99);

    // Nothing stops a cast down from there.
    assert!(cast_character(&world, &cfg, &state, origin, Vec3::NEG_Y * 0.5).is_none());
    // A movement of next to no length is not cast.
    assert!(cast_character(&world, &cfg, &state, origin, Vec3::Y * 1.0e-8).is_none());
}

// Ground.

#[test]
fn upward_speed_can_unground_character() {
    let mut world = World::new();
    world.add_box(Vec3::new(0.0, -0.5, 0.0), Vec3::new(5.0, 0.5, 5.0));
    let cfg = settings();
    let mut state = Box3dCharacterControllerState {
        grounded: Some(floor_hit(Vec3::ZERO)),
        ..moving(Vec3::Y * (number(cfg.unground_speed) + 1.0))
    };

    let position = Vec3::new(0.0, number(cfg.height) * 0.5, 0.0);
    update_grounded(&world, &cfg, &mut state, position, 1.0 / 60.0);

    assert!(state.grounded.is_none());
}

#[test]
fn grounded_probe_accepts_tiny_floor_overlap() {
    let mut world = World::new();
    world.add_box(Vec3::new(0.0, 1.5, -7.0), Vec3::new(1.5, 0.15, 1.5));
    let cfg = settings();
    let platform_top = 1.65;
    let mut state = Box3dCharacterControllerState::default();
    let position = Vec3::new(0.0, platform_top + number(cfg.height) * 0.5 - 0.002, -7.0);

    update_grounded(&world, &cfg, &mut state, position, 1.0 / 60.0);

    let ground = state.grounded.unwrap();
    assert!(number(ground.normal.y) >= number(cfg.min_walk_cos));
}

// Sliding.

#[test]
fn movement_crosses_adjacent_floor_colliders() {
    let mut world = World::new();
    world.add_box(Vec3::new(-2.5, -0.5, 0.0), Vec3::new(2.5, 0.5, 5.0));
    world.add_box(Vec3::new(2.5, -0.4999, 0.0), Vec3::new(2.5, 0.5, 5.0));
    let cfg = settings();
    let mut state = moving(Vec3::X);
    let mut output = CharacterControllerOutput::new();
    let mut position = Vec3::new(-0.5, number(cfg.height) * 0.5, 0.0);

    move_and_slide(&world, &cfg, &mut state, &mut output, &mut position, Vec3::X);

    assert!(position.x > 0.45, "{position:?}");
    assert!(number(state.velocity.x) > 0.99);
}

#[test]
fn movement_slides_across_adjacent_wall_colliders() {
    let mut world = World::new();
    world.add_box(Vec3::new(1.25, 1.0, 2.5), Vec3::new(0.5, 2.0, 2.5));
    world.add_box(Vec3::new(1.25, 1.0, -2.5), Vec3::new(0.5, 2.0, 2.5));
    let cfg = settings();
    let mut state = moving(Vec3::NEG_Z);
    let mut output = CharacterControllerOutput::new();
    let mut position = Vec3::new(0.05, number(cfg.height) * 0.5, 0.5);

    move_and_slide(&world, &cfg, &mut state, &mut output, &mut position, Vec3::NEG_Z);

    assert!(position.z < -0.45, "{position:?}");
    assert!(number(state.velocity.z) < -0.99);
}

fn corner() -> World {
    let mut world = World::new();
    world.add_box(Vec3::new(-1.25, 1.0, 0.0), Vec3::new(0.5, 2.0, 2.0));
    world.add_box(Vec3::new(0.0, 1.0, -1.25), Vec3::new(2.0, 2.0, 0.5));
    world
}

#[test]
fn sustained_corner_push_does_not_jitter_position() {
    let world = corner();
    let cfg = settings();
    let speed = number(cfg.speed);
    let push = Vec3::new(-speed, 0.0, -speed).normalize() * speed;
    let mut state = moving(push);
    let mut output = CharacterControllerOutput::new();
    let mut position = Vec3::new(0.0, number(cfg.height) * 0.5, 0.0);
    for tick in 0..8 {
        let previous = position;
        let movement = Vec3::new(-1.0, 0.0, -1.0).normalize() * 0.2;
        move_and_slide(&world, &cfg, &mut state, &mut output, &mut position, movement);
        state.velocity = vector(push);

        if tick > 5 {
            assert!(
                (position - previous).length() <= 1.0e-4,
                "corner push moved too far: previous={previous:?}, current={position:?}"
            );
        }
    }
}

#[test]
fn zero_distance_corner_hit_does_not_apply_skin_shove() {
    let world = corner();
    let cfg = settings();
    let speed = number(cfg.speed);
    let mut state = moving(Vec3::new(-speed, 0.0, -speed).normalize() * speed);
    let mut output = CharacterControllerOutput::new();
    let skin = number(cfg.skin_width);
    let mut position = Vec3::new(-0.05 - skin, number(cfg.height) * 0.5, -0.05 - skin);
    let original = position;

    let movement = Vec3::new(-1.0, 0.0, -1.0).normalize() * 0.2;
    move_and_slide(&world, &cfg, &mut state, &mut output, &mut position, movement);

    assert!((position - original).length() <= 1.0e-4, "{original:?} {position:?}");
    assert!(number(state.velocity.x).abs() <= 1.0e-4);
    assert!(number(state.velocity.z).abs() <= 1.0e-4);
}

#[test]
fn grounded_corner_push_does_not_jitter_position() {
    let mut world = corner();
    world.add_box(Vec3::new(0.0, -0.5, 0.0), Vec3::new(5.0, 0.5, 5.0));
    let cfg = settings();
    let delta = 1.0 / 60.0;
    let wish_velocity = Vec3::new(-1.0, 0.0, -1.0).normalize() * number(cfg.speed);
    let mut state = Box3dCharacterControllerState::default();
    let mut output = CharacterControllerOutput::new();
    let mut position = Vec3::new(0.0, number(cfg.height) * 0.5, 0.0);
    update_grounded(&world, &cfg, &mut state, position, delta);

    for tick in 0..16 {
        let previous = position;
        apply_ground_friction(&world, &cfg, &mut state, delta);
        state.velocity =
            vector(sped_up(&cfg, &state, Medium::Ground, wish_velocity, delta));
        ground_move(&world, &cfg, &mut state, &mut output, &mut position, delta);
        update_grounded(&world, &cfg, &mut state, position, delta);

        if tick > 2 {
            assert!(
                (position - previous).length() <= 1.0e-4,
                "corner push moved too far: previous={previous:?}, current={position:?}"
            );
        }
    }
}

fn rise_against(ceiling: Vec3, movement: Vec3, push_out: bool) {
    let mut world = World::new();
    world.add_box(Vec3::new(0.0, -0.5, 0.0), Vec3::new(5.0, 0.5, 5.0));
    world.add_box(ceiling, Vec3::new(5.0, 0.05, 5.0));
    let cfg = settings();
    let mut state = moving(Vec3::Y * 4.0);
    let mut output = CharacterControllerOutput::new();
    let mut position = Vec3::new(0.0, number(cfg.height) * 0.5, 0.0);

    move_and_slide(&world, &cfg, &mut state, &mut output, &mut position, movement);
    if push_out {
        depenetrate(&world, &cfg, &state, &mut position);
    }

    assert!(feet(&cfg, position) >= -0.0001, "{position:?}");
    assert!(number(state.velocity.y) <= 0.0001);
}

#[test]
fn ceiling_hit_does_not_push_character_through_floor() {
    rise_against(Vec3::new(0.0, 1.95, 0.0), Vec3::Y * 0.3, true);
}

#[test]
fn ceiling_contact_clips_upward_velocity() {
    rise_against(Vec3::new(0.0, 1.85, 0.0), Vec3::Y * 0.2, false);
}

#[test]
fn downward_overhang_plane_does_not_add_downward_velocity() {
    let planes = [vector(Vec3::new(-0.70710677, -0.70710677, 0.0))];

    let clipped = clip(Vec3::X, &planes);

    assert!(clipped.x >= -0.0001, "{clipped:?}");
    assert!(clipped.y >= -0.0001, "{clipped:?}");
}

#[test]
fn clipping_oblique_corner_does_not_reenter_previous_plane() {
    let planes = [
        vector(Vec3::new(1.0, 0.0, 0.0)),
        vector(Vec3::new(-0.70710677, 0.0, 0.70710677)),
    ];
    let clipped = clip(Vec3::new(-1.0, 0.0, -1.0), &planes);

    for plane in planes {
        let normal = vec3(plane).normalize_or_zero();
        assert!(clipped.dot(normal) >= -1.0e-4, "{clipped:?}");
    }
}

#[test]
fn clipping_against_no_planes_changes_nothing() {
    let free = Vec3::new(1.0, -2.0, 3.0);
    assert_eq!(clip(free, &[]), free);
    assert_eq!(clip(Vec3::splat(1.0e-6), &[]), Vec3::ZERO);
}

#[test]
fn head_height_platform_contact_does_not_inject_downward_motion() {
    let mut world = World::new();
    world.add_box(Vec3::new(0.0, -0.5, 0.0), Vec3::new(5.0, 0.5, 5.0));
    world.add_box(Vec3::new(1.35, 0.82, 0.0), Vec3::new(0.25, 0.82, 2.0));
    let cfg = settings();
    let mut state = moving(Vec3::X * 4.0);
    let mut output = CharacterControllerOutput::new();
    let mut position = Vec3::new(0.0, number(cfg.height) * 0.5, 0.0);

    update_grounded(&world, &cfg, &mut state, position, 1.0 / 60.0);
    move_and_slide(&world, &cfg, &mut state, &mut output, &mut position, Vec3::X * 0.8);
    update_grounded(&world, &cfg, &mut state, position, 1.0 / 60.0);

    assert!(feet(&cfg, position) >= -0.0001, "{position:?}");
    assert!(number(state.velocity.y) >= -0.0001);
    assert!(state.grounded.is_some(), "{state:?}");
}

fn platform_under_overhang() -> World {
    let mut world = World::new();
    world.add_box(Vec3::new(0.0, 1.5, -7.0), Vec3::new(1.5, 0.15, 1.5));
    world.add_box(Vec3::new(-2.0, 1.75, -7.0), Vec3::new(2.0, 0.15, 1.5));
    world
}

#[test]
fn low_overhead_platform_keeps_character_on_moving_platform() {
    let world = platform_under_overhang();
    let cfg = settings();
    let platform_top = 1.65;
    let mut state = Box3dCharacterControllerState {
        grounded: Some(floor_hit(Vec3::new(0.0, platform_top, -7.0))),
        ..moving(Vec3::NEG_X * 12.0)
    };
    let mut output = CharacterControllerOutput::new();
    let mut position = Vec3::new(0.8, platform_top + number(cfg.height) * 0.5, -7.0);

    ground_move(&world, &cfg, &mut state, &mut output, &mut position, 1.0 / 60.0);
    update_grounded(&world, &cfg, &mut state, position, 1.0 / 60.0);

    assert!(feet(&cfg, position) >= platform_top - 0.0001, "{position:?}");
    assert!(state.grounded.is_some(), "{state:?}");
}

#[test]
fn grounded_depenetration_does_not_push_character_below_moving_platform() {
    let world = platform_under_overhang();
    let cfg = settings();
    let platform_top = 1.65;
    let mut state = Box3dCharacterControllerState {
        grounded: Some(floor_hit(Vec3::new(0.0, platform_top, -7.0))),
        ..Default::default()
    };
    let mut position = Vec3::new(0.65, platform_top + number(cfg.height) * 0.5, -7.0);

    depenetrate(&world, &cfg, &state, &mut position);
    update_grounded(&world, &cfg, &mut state, position, 1.0 / 60.0);

    assert!(feet(&cfg, position) >= platform_top - 0.0001, "{position:?}");
    assert!(state.grounded.is_some(), "{state:?}");
}

#[test]
fn low_head_platform_contact_keeps_floor_grounding() {
    let mut world = World::new();
    world.add_box(Vec3::new(0.0, -0.5, 0.0), Vec3::new(10.0, 0.5, 10.0));
    world.add_box(Vec3::new(-2.0, 1.75, -7.0), Vec3::new(2.0, 0.15, 1.5));
    let cfg = settings();
    let mut state = moving(Vec3::NEG_X * 12.0);
    let mut output = CharacterControllerOutput::new();
    let mut position = Vec3::new(0.8, number(cfg.height) * 0.5, -7.0);

    update_grounded(&world, &cfg, &mut state, position, 1.0 / 60.0);
    ground_move(&world, &cfg, &mut state, &mut output, &mut position, 1.0 / 60.0);
    update_grounded(&world, &cfg, &mut state, position, 1.0 / 60.0);

    assert!(feet(&cfg, position) >= -0.0001, "{position:?}");
    assert!(state.grounded.is_some(), "{state:?}");
}

#[test]
fn platform_is_left_behind_after_a_glide() {
    let mut world = World::new();
    world.add_box(Vec3::new(0.0, -0.5, 0.0), Vec3::new(10.0, 0.5, 10.0));
    let cfg = settings();
    let mut state = Box3dCharacterControllerState {
        grounded: Some(floor_hit(Vec3::ZERO)),
        platform_velocity: vector(Vec3::new(0.0, 1.0, 4.0)),
        ..moving(Vec3::new(8.0, 3.0, 0.0))
    };
    let mut output = CharacterControllerOutput::new();
    let mut position = Vec3::new(0.0, number(cfg.height) * 0.5, 0.0);

    let way = travel(&world, &cfg, &mut state, &mut output, &mut position, 0.125);

    assert_eq!(way.course(), Some(GroundCourse::Glide));
    assert_eq!(vec3(way.movement()), Vec3::new(1.0, 0.0, 0.5));
    assert_eq!(vec3(state.velocity), Vec3::new(8.0, 0.0, 0.0));
    assert_eq!((position.x, position.z), (1.0, 0.5));
    assert!(output.touching_entities.is_empty());
}

#[test]
fn slide_keeps_earlier_touches_and_the_rest_of_the_state() {
    let mut world = corner();
    let (wall, other) = (Entity { bits: 5 }, Entity { bits: 6 });
    let shape = world.add_box(Vec3::new(-1.25, 1.0, 0.0), Vec3::new(0.5, 2.0, 2.0));
    world.links.record_body(wall, BodyId { bits: 5 });
    world.links.record_shape(wall, shape);
    let cfg = settings();
    let before = Box3dCharacterControllerState {
        held_body: Some(other),
        crane_height_left: Some(scalar(1.0)),
        ..moving(Vec3::new(-6.0, 0.0, -5.0))
    };
    let mut state = before;
    let mut output = CharacterControllerOutput::new();
    let mut position = Vec3::new(0.5, number(cfg.height) * 0.5, 0.5);
    let movement = Vec3::new(-2.0, 0.0, -1.5);
    move_and_slide(&world, &cfg, &mut state, &mut output, &mut position, movement);
    let first = output.touching_entities.clone();
    state = before;
    move_and_slide(&world, &cfg, &mut state, &mut output, &mut position, movement);

    assert!(output.touching_entities.len() <= first.len() + cfg.max_slides);
    assert_eq!(output.touching_entities[..first.len()], first[..]);
    let rest = Box3dCharacterControllerState {
        velocity: before.velocity,
        tac_velocity: before.tac_velocity,
        ..state
    };
    assert_eq!(shown(&rest), shown(&before));
    assert!(vec3(state.velocity).length() <= vec3(before.velocity).length() + 1.0e-4);
}

#[test]
fn clipping_shortens_and_settles_outside_every_plane() {
    let planes = [vector(Vec3::X), vector(Vec3::Y), vector(Vec3::Z)];
    for (from, to) in [
        (Vec3::new(-1.0, 2.0, -3.0), Vec3::new(0.0, 2.0, 0.0)),
        (Vec3::new(1.0, 2.0, 3.0), Vec3::new(1.0, 2.0, 3.0)),
        (Vec3::new(-1.0, 0.0, -3.0), Vec3::ZERO),
    ] {
        let clipped = clip(from, &planes);
        assert_eq!(clipped, to);
        assert!(clipped.length_squared() <= from.length_squared());
        for plane in planes {
            assert!(clipped.dot(vec3(plane)) >= 0.0);
        }
    }
}

#[test]
fn slide_takes_no_more_passes_than_allowed() {
    let world = corner();
    let cfg = Box3dCharacterController { max_slides: 1, ..settings() };
    let mut state = moving(Vec3::new(-4.0, 0.0, -4.0));
    let mut output = CharacterControllerOutput::new();
    let mut position = Vec3::new(0.0, number(cfg.height) * 0.5, 0.0);
    let passes = move_and_slide(
        &world,
        &cfg,
        &mut state,
        &mut output,
        &mut position,
        Vec3::new(-1.0, 0.0, -1.0),
    );
    assert_eq!(passes, 1);

    let none = Box3dCharacterController { max_slides: 0, ..settings() };
    let before = position;
    assert_eq!(
        move_and_slide(&world, &none, &mut state, &mut output, &mut position, Vec3::X),
        0
    );
    assert_eq!(position, before);
}

// Steps.

#[test]
fn low_step_is_climbed_and_high_wall_is_not() {
    let cfg = settings();
    let start = Vec3::new(0.0, number(cfg.height) * 0.5, 0.0);
    for (height, expected) in [(0.3, StepPhase::Stepped), (3.0, StepPhase::Slid)] {
        let mut world = World::new();
        world.add_box(Vec3::new(0.0, -0.5, 0.0), Vec3::new(10.0, 0.5, 10.0));
        world.add_box(Vec3::new(2.0, height * 0.5, 0.0), Vec3::new(1.0, height * 0.5, 5.0));
        let mut state = moving(Vec3::X * 12.0);
        let mut output = CharacterControllerOutput::new();
        let mut position = start;
        let movement = Vec3::X * 0.8;

        let mut slid_state = state;
        let mut slid_output = CharacterControllerOutput::new();
        let mut slid_position = start;
        move_and_slide(
            &world,
            &cfg,
            &mut slid_state,
            &mut slid_output,
            &mut slid_position,
            movement,
        );

        let phase = step_move(&world, &cfg, &mut state, &mut output, &mut position, movement);
        assert_eq!(phase, expected);
        if phase == StepPhase::Slid {
            assert_eq!(position, slid_position);
            assert_eq!(state.velocity, slid_state.velocity);
            assert_eq!(state.tac_velocity, slid_state.tac_velocity);
            assert_eq!(output.touching_entities, slid_output.touching_entities);
            assert_eq!(state.last_step_up, slid_state.last_step_up);
        } else {
            assert!(position.x > slid_position.x);
            assert!(feet(&cfg, position) > 0.2, "{position:?}");
            assert_eq!(state.last_step_up.elapsed, TimeSpan::zero());
            assert_eq!(state.velocity.y, slid_state.velocity.y);
        }
    }
}

// Climbing.

fn ledge_world() -> (World, Entity) {
    let mut world = World::new();
    let entity = Entity { bits: 42 };
    let shape = world.add_box(Vec3::new(0.0, 0.75, -1.0), Vec3::new(2.0, 0.75, 0.25));
    world.links.record_shape(entity, shape);
    (world, entity)
}

#[test]
fn mantle_probe_finds_clear_ledge() {
    let (world, ledge_entity) = ledge_world();
    let cfg = settings();
    let mut state = Box3dCharacterControllerState::default();
    let mut input = AccumulatedInput { mantled: Some(Stopwatch::new()), ..Default::default() };
    let position = Vec3::new(0.0, number(cfg.height) * 0.5, 0.0);
    let wish = Vec3::NEG_Z * number(cfg.speed);
    let probe = mantle_probe(&world, &cfg, &state, position, wish);
    update_box3d_mantle_state(&cfg, &mut state, &mut input, &probe);

    let mantle = state.mantle.unwrap();
    assert_eq!(mantle.wall_entity, ledge_entity);
    assert!(number(mantle.target_position.y) > number(cfg.height) * 0.5);
    assert!(input.mantled.is_none());

    let mut state = Box3dCharacterControllerState::default();
    let mut input = AccumulatedInput {
        craned: Some(Stopwatch::new()),
        mantled: Some(Stopwatch::new()),
        jumped: Some(Stopwatch::new()),
        ..Default::default()
    };
    let probe = crane_probe(&world, &cfg, &state, position, wish);
    update_box3d_crane_state(&cfg, &mut state, &mut input, &probe);

    assert!(state.mantle.is_none());
    assert!(state.crane_height_left.is_some());
    assert!(input.craned.is_none());
    assert!(input.mantled.is_none());
    assert!(input.jumped.is_none());
}

#[test]
fn climbdown_enters_mantle_from_empty_ledge() {
    let (world, ledge_entity) = ledge_world();
    let cfg = settings();
    let mut state = Box3dCharacterControllerState::default();
    let mut input = AccumulatedInput {
        last_movement: Some(Stick { x: Scalar::zero(), y: scalar(-1.0) }),
        climbdown: Some(Stopwatch::new()),
        ..Default::default()
    };
    let crane_height = number(cfg.crane_height);
    let position = Vec3::new(0.0, number(cfg.height) * 0.5 + crane_height, 0.0);
    let original_position = position;
    let down = vec3(climbdown_cast(&cfg));
    assert_eq!(down, Vec3::NEG_Y * crane_height);
    let wish = Vec3::Z * number(cfg.speed);
    let below = cast_character(&world, &cfg, &state, position, down).is_some();
    let probe = mantle_probe(&world, &cfg, &state, position + down, -wish);

    update_box3d_climbdown_state(&cfg, &mut state, &mut input, below, &probe);

    let mantle = state.mantle.unwrap();
    assert_eq!(mantle.wall_entity, ledge_entity);
    assert_eq!(position, original_position);
    assert!(input.climbdown.is_none());
    assert!(input.jumped.is_none());
}

#[test]
fn crane_lifts_a_character_onto_a_ledge() {
    let mut world = World::new();
    let entity = Entity { bits: 42 };
    world.add_box(Vec3::new(0.0, -0.5, 0.0), Vec3::new(10.0, 0.5, 10.0));
    let shape = world.add_box(Vec3::new(0.0, 0.5, -3.0), Vec3::new(2.0, 0.5, 2.0));
    world.links.record_shape(entity, shape);
    let cfg = settings();
    let delta = 1.0 / 60.0;
    let mut state = Box3dCharacterControllerState::default();
    let mut output = CharacterControllerOutput::new();
    let mut input = AccumulatedInput { craned: Some(Stopwatch::new()), ..Default::default() };
    let mut position = Vec3::new(0.0, number(cfg.height) * 0.5, -0.28);
    let wish = Vec3::NEG_Z * number(cfg.speed);
    let probe = crane_probe(&world, &cfg, &state, position, wish);
    update_box3d_crane_state(&cfg, &mut state, &mut input, &probe);
    let height = number(state.crane_height_left.unwrap());
    assert!(height > number(cfg.step_size) && height <= 1.0, "{height}");

    let mut ticks = 0;
    while state.crane_height_left.is_some() {
        let before = state.crane_height_left.map(number);
        crane_move(&world, &cfg, &mut state, &mut output, &mut position, wish, delta);
        ticks += 1;
        assert!(ticks < 20);
        assert_eq!(number(state.velocity.y), 0.0);
        if let (Some(before), Some(after)) = (before, state.crane_height_left.map(number)) {
            assert!(after > 0.0 && after < before);
            assert!((before - after - number(cfg.crane_speed) * delta).abs() < 1.0e-6);
        }
    }
    assert!(feet(&cfg, position) > 0.8, "{position:?}");
    assert_eq!(state.last_step_up.elapsed, TimeSpan::zero());
    assert!(number(state.velocity.z) < 0.0);
}

#[test]
fn crane_ends_without_a_wall() {
    let world = World::new();
    let cfg = settings();
    let mut state = Box3dCharacterControllerState {
        crane_height_left: Some(scalar(0.5)),
        ..moving(Vec3::new(0.0, 3.0, -1.0))
    };
    let mut output = CharacterControllerOutput::new();
    let mut position = Vec3::ZERO;
    crane_move(&world, &cfg, &mut state, &mut output, &mut position, Vec3::NEG_Z, 1.0 / 60.0);
    assert!(state.crane_height_left.is_none());
    assert_eq!(position, Vec3::ZERO);
    assert_eq!(number(state.velocity.y), 0.0);

    let mut at_rest = Box3dCharacterControllerState {
        crane_height_left: Some(scalar(0.5)),
        ..Default::default()
    };
    crane_move(&world, &cfg, &mut at_rest, &mut output, &mut position, Vec3::ZERO, 1.0 / 60.0);
    assert!(at_rest.crane_height_left.is_none());
}

#[test]
fn snapping_follows_the_ground_down_a_step() {
    let mut world = World::new();
    world.add_box(Vec3::new(0.0, -0.5, 0.0), Vec3::new(10.0, 0.5, 10.0));
    let cfg = settings();
    let mut state = Box3dCharacterControllerState::default();
    let mut position = Vec3::new(0.0, number(cfg.height) * 0.5 + 0.4, 0.0);
    assert!(snap_to_ground(&world, &cfg, &mut state, &mut position));
    assert!(feet(&cfg, position).abs() < 0.02, "{position:?}");
    assert_eq!(state.last_step_down.elapsed, TimeSpan::zero());

    let mut standing = Vec3::new(0.0, number(cfg.height) * 0.5, 0.0);
    assert!(!snap_to_ground(&world, &cfg, &mut state, &mut standing));
    assert_eq!(standing, Vec3::new(0.0, number(cfg.height) * 0.5, 0.0));

    let mut high = Vec3::new(0.0, number(cfg.height) * 0.5 + 2.0, 0.0);
    assert!(!snap_to_ground(&world, &cfg, &mut state, &mut high));
}

#[test]
fn touches_are_noted_with_the_velocity_before_the_hit() {
    let mut world = World::new();
    let entity = Entity { bits: 5 };
    let shape = world.add_box(Vec3::new(1.25, 1.0, 0.0), Vec3::new(0.5, 2.0, 2.0));
    world.links.record_shape(entity, shape);
    let cfg = settings();
    let mut state = moving(Vec3::X * 3.0);
    let mut output = CharacterControllerOutput::new();
    let mut position = Vec3::new(-0.5, 1.0, 0.0);
    let start = position;
    move_and_slide(&world, &cfg, &mut state, &mut output, &mut position, Vec3::X);
    assert_eq!(output.touching_entities.len(), 1);
    let touch = &output.touching_entities[0];
    assert_eq!(touch.entity, entity);
    assert_eq!(vec3(touch.character_velocity), Vec3::X * 3.0);
    assert_eq!(vec3(touch.character_position), start);
    assert!(number(touch.normal.x) < -0.99);
    assert_eq!(vec3(state.velocity), Vec3::ZERO);
    assert!((number(state.tac_velocity) - 3.0).abs() < 1.0e-5);
}
