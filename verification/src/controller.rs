//! The character controller: its settings, its state from tick to tick, the
//! input that it consumes and the output that it leaves.

use vstd::prelude::*;
use crate::entity::Entity;
use crate::scalar::{Scalar, Vector};
use crate::time::{Stopwatch, TimeSpan};

verus! {

/// The pattern of 1.8, the height of a character.
pub const DEFAULT_HEIGHT: u32 = 0x3fe6_6666;

/// The pattern of 0.7, the radius of a character.
pub const DEFAULT_RADIUS: u32 = 0x3f33_3333;

/// The pattern of 80, the mass that a character pushes with.
pub const DEFAULT_PUSH_MASS: u32 = 0x42a0_0000;

/// Settings that every kind of character controller shares.
#[derive(Clone, Copy, Debug)]
pub struct CharacterController {
    pub crouch_height: Scalar,
    pub crouch_view_height: Scalar,
    pub crouch_speed_scale: Scalar,
    pub ground_distance: Scalar,
    pub min_walk_cos: Scalar,
    pub stop_speed: Scalar,
    pub friction_hz: Scalar,
    pub acceleration_hz: Scalar,
    pub air_acceleration_hz: Scalar,
    pub water_acceleration_hz: Scalar,
    pub water_slowdown: Scalar,
    pub water_gravity: Scalar,
    pub gravity: Scalar,
    pub speed: Scalar,
    pub air_speed: Scalar,
    pub max_speed: Scalar,
    pub max_air_wish_speed: Scalar,
    pub jump_height: Scalar,
    pub tac_power: Scalar,
    pub tac_jump_factor: Scalar,
    pub tac_input_buffer: TimeSpan,
    pub max_tac_cos: Scalar,
    pub tac_cooldown: TimeSpan,
    pub mantle_input_buffer: TimeSpan,
    pub climbdown_input_buffer: TimeSpan,
    pub mantle_height: Scalar,
    pub mantle_speed: Scalar,
    pub min_mantle_cos: Scalar,
    pub min_mantle_ledge_space: Scalar,
    pub max_ledge_grab_distance: Scalar,
    pub climb_pull_up_height: Scalar,
    pub climb_reverse_sin: Scalar,
    pub climb_sensitivity: Scalar,
    pub ledge_jump_power: Scalar,
    pub ledge_jump_factor: Scalar,
    pub crane_input_buffer: TimeSpan,
    pub crane_height: Scalar,
    pub crane_speed: Scalar,
    pub min_crane_cos: Scalar,
    pub min_crane_ledge_space: Scalar,
    pub jump_crane_chain_time: TimeSpan,
    pub unground_speed: Scalar,
    pub coyote_time: TimeSpan,
    pub jump_input_buffer: TimeSpan,
    pub step_size: Scalar,
    pub step_down_detection_distance: Scalar,
    pub min_step_ledge_space: Scalar,
    pub standing_view_height: Scalar,
    /// Half the size of the space that hands need on a ledge.
    pub min_ledge_grab_half_size: Vector,
    /// Distance that a character keeps from what it touches.
    pub skin_width: Scalar,
    /// Planes that a single movement may slide along.
    pub max_planes: usize,
}

/// Settings of a character that the physics world's shape casts move.
#[derive(Clone, Copy, Debug)]
pub struct Box3dCharacterController {
    pub height: Scalar,
    pub crouch_height: Scalar,
    pub radius: Scalar,
    pub view_height: Scalar,
    pub crouch_view_height: Scalar,
    pub crouch_speed_scale: Scalar,
    pub ground_distance: Scalar,
    pub min_walk_cos: Scalar,
    pub stop_speed: Scalar,
    pub friction_hz: Scalar,
    pub acceleration_hz: Scalar,
    pub air_acceleration_hz: Scalar,
    pub water_acceleration_hz: Scalar,
    pub water_slowdown: Scalar,
    pub water_gravity: Scalar,
    pub gravity: Scalar,
    pub speed: Scalar,
    pub air_speed: Scalar,
    pub max_speed: Scalar,
    pub max_air_wish_speed: Scalar,
    pub jump_height: Scalar,
    pub air_friction: Scalar,
    pub tac_power: Scalar,
    pub tac_jump_factor: Scalar,
    pub tac_input_buffer: TimeSpan,
    pub max_tac_cos: Scalar,
    pub tac_cooldown: TimeSpan,
    pub mantle_input_buffer: TimeSpan,
    pub climbdown_input_buffer: TimeSpan,
    pub mantle_height: Scalar,
    pub mantle_speed: Scalar,
    pub min_mantle_cos: Scalar,
    pub min_mantle_ledge_space: Scalar,
    pub min_ledge_grab_space: Vector,
    pub max_ledge_grab_distance: Scalar,
    pub climb_pull_up_height: Scalar,
    pub climb_reverse_sin: Scalar,
    pub climb_sensitivity: Scalar,
    pub ledge_jump_power: Scalar,
    pub ledge_jump_factor: Scalar,
    pub crane_input_buffer: TimeSpan,
    pub crane_height: Scalar,
    pub crane_speed: Scalar,
    pub min_crane_cos: Scalar,
    pub min_crane_ledge_space: Scalar,
    pub jump_crane_chain_time: TimeSpan,
    pub unground_speed: Scalar,
    pub coyote_time: TimeSpan,
    pub jump_input_buffer: TimeSpan,
    pub skin_width: Scalar,
    pub max_slides: usize,
    pub push_mass: Scalar,
    pub step_size: Scalar,
    pub step_down_detection_distance: Scalar,
    pub min_step_ledge_space: Scalar,
}

impl Box3dCharacterController {
    /// The settings in `self` are those of `shared`, with the body of a default
    /// character and no friction in the air.
    pub open spec fn takes_over(self, shared: CharacterController) -> bool {
        &&& self.height.bits == DEFAULT_HEIGHT
        &&& self.radius.bits == DEFAULT_RADIUS
        &&& self.push_mass.bits == DEFAULT_PUSH_MASS
        &&& self.air_friction.bits == 0
        &&& self.view_height == shared.standing_view_height
        &&& crate::scalar::doubles(self.min_ledge_grab_space, shared.min_ledge_grab_half_size)
        &&& self.skin_width == shared.skin_width
        &&& self.max_slides == shared.max_planes
        &&& self.crouch_height == shared.crouch_height
        &&& self.crouch_view_height == shared.crouch_view_height
        &&& self.crouch_speed_scale == shared.crouch_speed_scale
        &&& self.ground_distance == shared.ground_distance
        &&& self.min_walk_cos == shared.min_walk_cos
        &&& self.stop_speed == shared.stop_speed
        &&& self.friction_hz == shared.friction_hz
        &&& self.acceleration_hz == shared.acceleration_hz
        &&& self.air_acceleration_hz == shared.air_acceleration_hz
        &&& self.water_acceleration_hz == shared.water_acceleration_hz
        &&& self.water_slowdown == shared.water_slowdown
        &&& self.water_gravity == shared.water_gravity
        &&& self.gravity == shared.gravity
        &&& self.speed == shared.speed
        &&& self.air_speed == shared.air_speed
        &&& self.max_speed == shared.max_speed
        &&& self.max_air_wish_speed == shared.max_air_wish_speed
        &&& self.jump_height == shared.jump_height
        &&& self.tac_power == shared.tac_power
        &&& self.tac_jump_factor == shared.tac_jump_factor
        &&& self.tac_input_buffer == shared.tac_input_buffer
        &&& self.max_tac_cos == shared.max_tac_cos
        &&& self.tac_cooldown == shared.tac_cooldown
        &&& self.mantle_input_buffer == shared.mantle_input_buffer
        &&& self.climbdown_input_buffer == shared.climbdown_input_buffer
        &&& self.mantle_height == shared.mantle_height
        &&& self.mantle_speed == shared.mantle_speed
        &&& self.min_mantle_cos == shared.min_mantle_cos
        &&& self.min_mantle_ledge_space == shared.min_mantle_ledge_space
        &&& self.max_ledge_grab_distance == shared.max_ledge_grab_distance
        &&& self.climb_pull_up_height == shared.climb_pull_up_height
        &&& self.climb_reverse_sin == shared.climb_reverse_sin
        &&& self.climb_sensitivity == shared.climb_sensitivity
        &&& self.ledge_jump_power == shared.ledge_jump_power
        &&& self.ledge_jump_factor == shared.ledge_jump_factor
        &&& self.crane_input_buffer == shared.crane_input_buffer
        &&& self.crane_height == shared.crane_height
        &&& self.crane_speed == shared.crane_speed
        &&& self.min_crane_cos == shared.min_crane_cos
        &&& self.min_crane_ledge_space == shared.min_crane_ledge_space
        &&& self.jump_crane_chain_time == shared.jump_crane_chain_time
        &&& self.unground_speed == shared.unground_speed
        &&& self.coyote_time == shared.coyote_time
        &&& self.jump_input_buffer == shared.jump_input_buffer
        &&& self.step_size == shared.step_size
        &&& self.step_down_detection_distance == shared.step_down_detection_distance
        &&& self.min_step_ledge_space == shared.min_step_ledge_space
    }

    /// Time enough is left to chain a crane onto a jump: the chain window lies
    /// within the crane's input buffer.
    pub open spec fn chain_fits(self) -> bool {
        self.jump_crane_chain_time@ <= self.crane_input_buffer@
    }

    /// The settings for a character with the shared settings `shared`.
    pub fn from(shared: CharacterController) -> (r: Box3dCharacterController)
        ensures
            r.takes_over(shared),
    {
        Box3dCharacterController {
            height: Scalar::new(DEFAULT_HEIGHT),
            crouch_height: shared.crouch_height,
            radius: Scalar::new(DEFAULT_RADIUS),
            view_height: shared.standing_view_height,
            crouch_view_height: shared.crouch_view_height,
            crouch_speed_scale: shared.crouch_speed_scale,
            ground_distance: shared.ground_distance,
            min_walk_cos: shared.min_walk_cos,
            stop_speed: shared.stop_speed,
            friction_hz: shared.friction_hz,
            acceleration_hz: shared.acceleration_hz,
            air_acceleration_hz: shared.air_acceleration_hz,
            water_acceleration_hz: shared.water_acceleration_hz,
            water_slowdown: shared.water_slowdown,
            water_gravity: shared.water_gravity,
            gravity: shared.gravity,
            speed: shared.speed,
            air_speed: shared.air_speed,
            max_speed: shared.max_speed,
            max_air_wish_speed: shared.max_air_wish_speed,
            jump_height: shared.jump_height,
            air_friction: Scalar::zero(),
            tac_power: shared.tac_power,
            tac_jump_factor: shared.tac_jump_factor,
            tac_input_buffer: shared.tac_input_buffer,
            max_tac_cos: shared.max_tac_cos,
            tac_cooldown: shared.tac_cooldown,
            mantle_input_buffer: shared.mantle_input_buffer,
            climbdown_input_buffer: shared.climbdown_input_buffer,
            mantle_height: shared.mantle_height,
            mantle_speed: shared.mantle_speed,
            min_mantle_cos: shared.min_mantle_cos,
            min_mantle_ledge_space: shared.min_mantle_ledge_space,
            min_ledge_grab_space: shared.min_ledge_grab_half_size.doubled(),
            max_ledge_grab_distance: shared.max_ledge_grab_distance,
            climb_pull_up_height: shared.climb_pull_up_height,
            climb_reverse_sin: shared.climb_reverse_sin,
            climb_sensitivity: shared.climb_sensitivity,
            ledge_jump_power: shared.ledge_jump_power,
            ledge_jump_factor: shared.ledge_jump_factor,
            crane_input_buffer: shared.crane_input_buffer,
            crane_height: shared.crane_height,
            crane_speed: shared.crane_speed,
            min_crane_cos: shared.min_crane_cos,
            min_crane_ledge_space: shared.min_crane_ledge_space,
            jump_crane_chain_time: shared.jump_crane_chain_time,
            unground_speed: shared.unground_speed,
            coyote_time: shared.coyote_time,
            jump_input_buffer: shared.jump_input_buffer,
            skin_width: shared.skin_width,
            max_slides: shared.max_planes,
            push_mass: Scalar::new(DEFAULT_PUSH_MASS),
            step_size: shared.step_size,
            step_down_detection_distance: shared.step_down_detection_distance,
            min_step_ledge_space: shared.min_step_ledge_space,
        }
    }
}

/// What a cast of a character's body met.
#[derive(Clone, Copy, Debug, PartialEq, Eq, Structural)]
pub struct Box3dCastHit {
    /// Entity of the shape that was met, if it has one.
    pub entity: Option<Entity>,
    /// Distance that can be travelled before the skin touches.
    pub distance: Scalar,
    pub point: Vector,
    pub normal: Vector,
    /// Distance at which the bodies themselves would touch.
    pub collision_distance: Scalar,
}

/// A character on its way up a ledge.
#[derive(Clone, Copy, Debug, PartialEq, Eq, Structural)]
pub struct Box3dMantleState {
    pub wall_normal: Vector,
    pub ledge_position: Vector,
    pub wall_entity: Entity,
    pub target_position: Vector,
    pub speed: Scalar,
    /// Climbs by itself, whatever the input.
    pub automatic: bool,
}

/// State of a character from tick to tick.
#[derive(Clone, Copy, Debug)]
pub struct Box3dCharacterControllerState {
    pub velocity: Vector,
    pub platform_velocity: Vector,
    pub platform_angular_velocity: Vector,
    /// The ground that the character stands on.
    pub grounded: Option<Box3dCastHit>,
    pub crouching: bool,
    /// Speed lost against walls, spent by a wall jump.
    pub tac_velocity: Scalar,
    /// Height that is still to be craned up.
    pub crane_height_left: Option<Scalar>,
    pub mantle: Option<Box3dMantleState>,
    pub last_ground: Stopwatch,
    pub last_tac: Stopwatch,
    pub last_step_up: Stopwatch,
    pub last_step_down: Stopwatch,
    /// Entity of the body that the character carries.
    pub held_body: Option<Entity>,
}

impl Box3dCharacterControllerState {
    /// The state of a character that has done nothing yet.
    pub open spec fn initial() -> Box3dCharacterControllerState {
        let never = Stopwatch::running_at(crate::time::longest());
        Box3dCharacterControllerState {
            velocity: crate::scalar::origin(),
            platform_velocity: crate::scalar::origin(),
            platform_angular_velocity: crate::scalar::origin(),
            grounded: None,
            crouching: false,
            tac_velocity: Scalar { bits: 0 },
            crane_height_left: None,
            mantle: None,
            last_ground: never,
            last_tac: never,
            last_step_up: never,
            last_step_down: never,
            held_body: None,
        }
    }
}

impl Default for Box3dCharacterControllerState {
    /// At rest, in the air, with nothing recent behind it.
    fn default() -> (r: Box3dCharacterControllerState)
        ensures
            r.velocity.null(),
            r.platform_velocity.null(),
            r.platform_angular_velocity.null(),
            r.grounded is None,
            !r.crouching,
            r.tac_velocity.bits == 0,
            r.crane_height_left is None,
            r.mantle is None,
            r.last_ground == Stopwatch::running_at(crate::time::longest()),
            r.last_tac == Stopwatch::running_at(crate::time::longest()),
            r.last_step_up == Stopwatch::running_at(crate::time::longest()),
            r.last_step_down == Stopwatch::running_at(crate::time::longest()),
            r.held_body is None,
            r == Box3dCharacterControllerState::initial(),
    {
        Box3dCharacterControllerState {
            velocity: Vector::zero(),
            platform_velocity: Vector::zero(),
            platform_angular_velocity: Vector::zero(),
            grounded: None,
            crouching: false,
            tac_velocity: Scalar::zero(),
            crane_height_left: None,
            mantle: None,
            last_ground: Stopwatch::expired(),
            last_tac: Stopwatch::expired(),
            last_step_up: Stopwatch::expired(),
            last_step_down: Stopwatch::expired(),
            held_body: None,
        }
    }
}

/// Deflection of the movement input: `x` to the right, `y` forward.
#[derive(Clone, Copy, Debug, PartialEq, Eq, Structural)]
pub struct Stick {
    pub x: Scalar,
    pub y: Scalar,
}

/// Input gathered since the last tick. A request that carries a stopwatch
/// tells how long ago it was made.
#[derive(Clone, Copy, Debug)]
pub struct AccumulatedInput {
    pub last_movement: Option<Stick>,
    pub jumped: Option<Stopwatch>,
    pub tac: Option<Stopwatch>,
    pub craned: Option<Stopwatch>,
    pub mantled: Option<Stopwatch>,
    pub climbdown: Option<Stopwatch>,
    pub crouched: bool,
    pub swim_up: bool,
}

impl AccumulatedInput {
    /// No input at all.
    pub open spec fn nothing() -> AccumulatedInput {
        AccumulatedInput {
            last_movement: None,
            jumped: None,
            tac: None,
            craned: None,
            mantled: None,
            climbdown: None,
            crouched: false,
            swim_up: false,
        }
    }

    /// The movement input; none counts as centred.
    pub open spec fn stick(self) -> Stick {
        match self.last_movement {
            Some(stick) => stick,
            None => Stick { x: Scalar { bits: 0 }, y: Scalar { bits: 0 } },
        }
    }

    pub fn movement(&self) -> (r: Stick)
        ensures
            r == self.stick(),
    {
        match self.last_movement {
            Some(stick) => stick,
            None => Stick { x: Scalar::zero(), y: Scalar::zero() },
        }
    }
}

impl Default for AccumulatedInput {
    fn default() -> (r: AccumulatedInput)
        ensures
            r.last_movement is None,
            r.jumped is None,
            r.tac is None,
            r.craned is None,
            r.mantled is None,
            r.climbdown is None,
            !r.crouched,
            !r.swim_up,
            r == AccumulatedInput::nothing(),
    {
        AccumulatedInput {
            last_movement: None,
            jumped: None,
            tac: None,
            craned: None,
            mantled: None,
            climbdown: None,
            crouched: false,
            swim_up: false,
        }
    }
}

/// The request was made no longer than `buffer` ago.
pub open spec fn fresh(request: Option<Stopwatch>, buffer: TimeSpan) -> bool {
    match request {
        Some(watch) => watch.elapsed@ <= buffer@,
        None => false,
    }
}

pub fn is_fresh(request: &Option<Stopwatch>, buffer: &TimeSpan) -> (r: bool)
    ensures
        r == fresh(*request, *buffer),
{
    match request {
        Some(watch) => !buffer.shorter_than(&watch.elapsed),
        None => false,
    }
}

/// The ledge that a character hangs on, for whoever animates it.
#[derive(Clone, Copy, Debug, PartialEq, Eq, Structural)]
pub struct MantleOutput {
    pub wall_normal: Vector,
    pub ledge_position: Vector,
    pub wall_entity: Entity,
}

/// Something that a character touched while it moved.
#[derive(Clone, Copy, Debug, PartialEq, Eq, Structural)]
pub struct TouchingEntity {
    pub entity: Entity,
    pub distance: Scalar,
    pub point: Vector,
    pub normal: Vector,
    pub character_position: Vector,
    pub character_velocity: Vector,
    pub collision_distance: Scalar,
}

/// What a tick leaves for others to read.
#[derive(Debug)]
pub struct CharacterControllerOutput {
    pub mantle: Option<MantleOutput>,
    pub touching_entities: Vec<TouchingEntity>,
}

impl CharacterControllerOutput {
    pub fn new() -> (r: CharacterControllerOutput)
        ensures
            r.mantle is None,
            r.touching_entities@.len() == 0,
    {
        CharacterControllerOutput { mantle: None, touching_entities: Vec::new() }
    }
}

/// A request is granted up to its buffer and not after it: one that was never
/// made is not granted, an older one is not granted where a younger is not, and
/// a longer buffer grants whatever a shorter one does.
pub proof fn law_requests_go_stale(
    request: Stopwatch,
    older: Stopwatch,
    buffer: TimeSpan,
    longer: TimeSpan,
)
    requires
        request.elapsed@ <= older.elapsed@,
        buffer@ <= longer@,
    ensures
        !fresh(None, buffer),
        request.elapsed@ <= buffer@ ==> fresh(Some(request), buffer),
        buffer@ < request.elapsed@ ==> !fresh(Some(request), buffer),
        fresh(Some(older), buffer) ==> fresh(Some(request), buffer),
        fresh(Some(request), buffer) ==> fresh(Some(request), longer),
{
}

/// The movement is what was last put in, and none if nothing was.
pub proof fn law_stick_is_the_last_movement(input: AccumulatedInput)
    ensures
        input.last_movement is Some ==> Some(input.stick()) == input.last_movement,
        input.last_movement is None ==> input.stick().x.bits == 0 && input.stick().y.bits == 0,
{
}

/// A character that has done nothing yet is at rest, in the air, upright and with
/// empty hands. Nothing that a cooldown or a coyote time counts from is recent,
/// and nothing is asked of it.
pub proof fn law_beginnings()
    ensures
        ({
            let state = Box3dCharacterControllerState::initial();
            &&& state.velocity.null() && state.platform_velocity.null()
            &&& state.platform_angular_velocity.null()
            &&& state.grounded is None && state.mantle is None && state.crane_height_left is None
            &&& !state.crouching && state.held_body is None && state.tac_velocity.bits == 0
            &&& state.last_ground.elapsed@ == crate::time::longest() && !state.last_ground.paused
            &&& state.last_tac.elapsed@ == crate::time::longest() && !state.last_tac.paused
            &&& state.last_step_up.elapsed@ == crate::time::longest()
                && !state.last_step_up.paused
            &&& state.last_step_down.elapsed@ == crate::time::longest()
                && !state.last_step_down.paused
        }),
        ({
            let input = AccumulatedInput::nothing();
            &&& input.last_movement is None && input.jumped is None && input.tac is None
            &&& input.craned is None && input.mantled is None && input.climbdown is None
            &&& !input.crouched && !input.swim_up
        }),
{
    broadcast use crate::time::lemma_view_of;

}

/// Whatever is shared keeps its meaning: each setting of a character is the
/// shared one of that name. Only the body is its own, upright and with a mass to
/// push with, the space for the hands is twice the shared half, and air does not
/// slow it down.
pub proof fn law_settings_are_taken_over(
    own: Box3dCharacterController,
    shared: CharacterController,
)
    requires
        own.takes_over(shared),
    ensures
        crate::scalar::is_nearest_to(own.height, 18, 10),
        crate::scalar::is_nearest_to(own.radius, 7, 10),
        crate::scalar::is_nearest_to(own.push_mass, 80, 1),
        own.air_friction.value() == 0,
        own.min_ledge_grab_space.x.finite() ==> own.min_ledge_grab_space.x.value() == 2
            * shared.min_ledge_grab_half_size.x.value(),
        own.min_ledge_grab_space.y.finite() ==> own.min_ledge_grab_space.y.value() == 2
            * shared.min_ledge_grab_half_size.y.value(),
        own.min_ledge_grab_space.z.finite() ==> own.min_ledge_grab_space.z.value() == 2
            * shared.min_ledge_grab_half_size.z.value(),
        shared.standing_view_height == own.view_height,
        shared.skin_width == own.skin_width,
        shared.max_planes == own.max_slides,
        shared.crouch_height == own.crouch_height,
        shared.crouch_view_height == own.crouch_view_height,
        shared.crouch_speed_scale == own.crouch_speed_scale,
        shared.ground_distance == own.ground_distance,
        shared.min_walk_cos == own.min_walk_cos,
        shared.stop_speed == own.stop_speed,
        shared.friction_hz == own.friction_hz,
        shared.acceleration_hz == own.acceleration_hz,
        shared.air_acceleration_hz == own.air_acceleration_hz,
        shared.water_acceleration_hz == own.water_acceleration_hz,
        shared.water_slowdown == own.water_slowdown,
        shared.water_gravity == own.water_gravity,
        shared.gravity == own.gravity,
        shared.speed == own.speed,
        shared.air_speed == own.air_speed,
        shared.max_speed == own.max_speed,
        shared.max_air_wish_speed == own.max_air_wish_speed,
        shared.jump_height == own.jump_height,
        shared.tac_power == own.tac_power,
        shared.tac_jump_factor == own.tac_jump_factor,
        shared.tac_input_buffer == own.tac_input_buffer,
        shared.max_tac_cos == own.max_tac_cos,
        shared.tac_cooldown == own.tac_cooldown,
        shared.mantle_input_buffer == own.mantle_input_buffer,
        shared.climbdown_input_buffer == own.climbdown_input_buffer,
        shared.mantle_height == own.mantle_height,
        shared.mantle_speed == own.mantle_speed,
        shared.min_mantle_cos == own.min_mantle_cos,
        shared.min_mantle_ledge_space == own.min_mantle_ledge_space,
        shared.max_ledge_grab_distance == own.max_ledge_grab_distance,
        shared.climb_pull_up_height == own.climb_pull_up_height,
        shared.climb_reverse_sin == own.climb_reverse_sin,
        shared.climb_sensitivity == own.climb_sensitivity,
        shared.ledge_jump_power == own.ledge_jump_power,
        shared.ledge_jump_factor == own.ledge_jump_factor,
        shared.crane_input_buffer == own.crane_input_buffer,
        shared.crane_height == own.crane_height,
        shared.crane_speed == own.crane_speed,
        shared.min_crane_cos == own.min_crane_cos,
        shared.min_crane_ledge_space == own.min_crane_ledge_space,
        shared.jump_crane_chain_time == own.jump_crane_chain_time,
        shared.unground_speed == own.unground_speed,
        shared.coyote_time == own.coyote_time,
        shared.jump_input_buffer == own.jump_input_buffer,
        shared.step_size == own.step_size,
        shared.step_down_detection_distance == own.step_down_detection_distance,
        shared.min_step_ledge_space == own.min_step_ledge_space,
        own.chain_fits() <==> !(shared.crane_input_buffer@ < shared.jump_crane_chain_time@),
{
    vstd::arithmetic::power2::lemma2_to64();
    crate::scalar::lemma_nearest(own.height, 127, 0x00e6_6666, 0x0080_0000, 18, 10);
    crate::scalar::lemma_nearest(own.radius, 126, 0x00b3_3333, 0x0100_0000, 7, 10);
    crate::scalar::lemma_nearest(own.push_mass, 133, 0x00a0_0000, 0x0002_0000, 80, 1);
    assert(own.air_friction == (Scalar { bits: 0 }));
}

}
