//! Moving: what a character moves in, and how it gains and loses speed there.

use vstd::prelude::*;
use crate::controller::{
    AccumulatedInput, Box3dCharacterController, Box3dCharacterControllerState,
};
use crate::scalar::{Scalar, Vector};
use crate::water::WaterState;

verus! {

/// The pattern of 1e-10.
pub const TINY: u32 = 0x2edb_e6ff;

/// The pattern of 0.0001.
pub const SHORT: u32 = 0x38d1_b717;

/// The pattern of 0.001.
pub const SLOW: u32 = 0x3a83_126f;

/// What a character moves in.
#[derive(Clone, Copy, Debug, PartialEq, Eq, Structural)]
pub enum Medium {
    Water,
    Ground,
    Air,
}

/// Deep water first, else ground underfoot, else air.
pub open spec fn medium_of(water: WaterState, state: Box3dCharacterControllerState) -> Medium {
    if water.level.swims() {
        Medium::Water
    } else if state.grounded is Some {
        Medium::Ground
    } else {
        Medium::Air
    }
}

pub fn medium(water: &WaterState, state: &Box3dCharacterControllerState) -> (r: Medium)
    ensures
        r == medium_of(*water, *state),
{
    if water.level.is_swimming() {
        Medium::Water
    } else if state.grounded.is_some() {
        Medium::Ground
    } else {
        Medium::Air
    }
}

/// A speed, and what it is scaled by if it is.
#[derive(Clone, Copy, Debug, PartialEq, Eq, Structural)]
pub struct WishSpeed {
    pub speed: Scalar,
    pub scale: Option<Scalar>,
}

/// The speed that a character wishes for, flying or not.
pub open spec fn wished(
    cfg: Box3dCharacterController,
    state: Box3dCharacterControllerState,
    flying: bool,
) -> WishSpeed {
    if flying {
        WishSpeed { speed: cfg.air_speed, scale: None }
    } else if state.crouching {
        WishSpeed { speed: cfg.speed, scale: Some(cfg.crouch_speed_scale) }
    } else {
        WishSpeed { speed: cfg.speed, scale: None }
    }
}

/// The speed that a character on its feet wishes for.
pub fn calculate_wish_speed(
    cfg: &Box3dCharacterController,
    state: &Box3dCharacterControllerState,
) -> (r: WishSpeed)
    ensures
        r == (if state.grounded is None {
            WishSpeed { speed: cfg.air_speed, scale: None }
        } else if state.crouching {
            WishSpeed { speed: cfg.speed, scale: Some(cfg.crouch_speed_scale) }
        } else {
            WishSpeed { speed: cfg.speed, scale: None }
        }),
        r == wished(*cfg, *state, state.grounded is None),
{
    if state.grounded.is_none() {
        WishSpeed { speed: cfg.air_speed, scale: None }
    } else {
        calculate_3d_wish_speed(cfg, state)
    }
}

/// The speed that a swimming or climbing character wishes for.
pub fn calculate_3d_wish_speed(
    cfg: &Box3dCharacterController,
    state: &Box3dCharacterControllerState,
) -> (r: WishSpeed)
    ensures
        r.speed == cfg.speed,
        r.scale == (if state.crouching {
            Some(cfg.crouch_speed_scale)
        } else {
            None
        }),
        r == wished(*cfg, *state, false),
{
    if state.crouching {
        WishSpeed { speed: cfg.speed, scale: Some(cfg.crouch_speed_scale) }
    } else {
        WishSpeed { speed: cfg.speed, scale: None }
    }
}

/// The input without a request to swim up, and whether there was one.
pub open spec fn swim_up_taken(input: AccumulatedInput) -> (AccumulatedInput, bool) {
    (AccumulatedInput { swim_up: false, ..input }, input.swim_up)
}

/// Takes up a request to swim up. Returns whether there was one.
pub fn take_swim_up(input: &mut AccumulatedInput) -> (r: bool)
    ensures
        r == old(input).swim_up,
        *final(input) == (AccumulatedInput { swim_up: false, ..*old(input) }),
        (*final(input), r) == swim_up_taken(*old(input)),
{
    let asked = input.swim_up;
    input.swim_up = false;
    asked
}

/// All three components are zero, of either sign.
pub open spec fn still(v: Vector) -> bool {
    let zero = Scalar { bits: 0 };
    v.x.same(zero) && v.y.same(zero) && v.z.same(zero)
}

/// Whether a swimmer sinks: when it wishes to go nowhere.
pub fn sinks(wish_velocity: &Vector) -> (r: bool)
    ensures
        r == still(*wish_velocity),
{
    let zero = Scalar::zero();
    wish_velocity.x.eq_value(zero) && wish_velocity.y.eq_value(zero) && wish_velocity.z.eq_value(
        zero,
    )
}

pub open spec fn hz_in(cfg: Box3dCharacterController, medium: Medium) -> Scalar {
    match medium {
        Medium::Water => cfg.water_acceleration_hz,
        Medium::Ground => cfg.acceleration_hz,
        Medium::Air => cfg.air_acceleration_hz,
    }
}

/// How quickly speed is gained in a medium.
pub fn acceleration_hz(cfg: &Box3dCharacterController, medium: Medium) -> (r: Scalar)
    ensures
        r == (match medium {
            Medium::Water => cfg.water_acceleration_hz,
            Medium::Ground => cfg.acceleration_hz,
            Medium::Air => cfg.air_acceleration_hz,
        }),
        r == hz_in(*cfg, medium),
{
    match medium {
        Medium::Water => cfg.water_acceleration_hz,
        Medium::Ground => cfg.acceleration_hz,
        Medium::Air => cfg.air_acceleration_hz,
    }
}

pub open spec fn aimed_at(
    cfg: Box3dCharacterController,
    medium: Medium,
    wish_speed: Scalar,
) -> Scalar {
    if medium == Medium::Air {
        wish_speed.smaller(cfg.max_air_wish_speed)
    } else {
        wish_speed
    }
}

/// The speed that acceleration leads up to: in the air no more than a limit of
/// its own.
pub fn target_speed(cfg: &Box3dCharacterController, medium: Medium, wish_speed: Scalar) -> (r:
    Scalar)
    ensures
        r == (if medium == Medium::Air {
            wish_speed.smaller(cfg.max_air_wish_speed)
        } else {
            wish_speed
        }),
        r == aimed_at(*cfg, medium, wish_speed),
{
    match medium {
        Medium::Air => wish_speed.min(cfg.max_air_wish_speed),
        _ => wish_speed,
    }
}

/// The speed gained along the wish: nothing unless speed is missing, and never
/// more than is missing.
pub open spec fn gained(missing: Scalar, gain: Scalar) -> Option<Scalar> {
    if missing.at_most(Scalar { bits: 0 }) {
        None
    } else {
        Some(gain.smaller(missing))
    }
}

pub fn speed_gain(missing: Scalar, gain: Scalar) -> (r: Option<Scalar>)
    ensures
        r == gained(missing, gain),
{
    if missing.le(Scalar::zero()) {
        None
    } else {
        Some(gain.min(missing))
    }
}

/// Acceleration never overshoots: what is gained is at most what was missing.
pub proof fn law_acceleration_never_overshoots(missing: Scalar, gain: Scalar)
    requires
        !missing.nan(),
    ensures
        gained(missing, gain) matches Some(speed) ==> speed.at_most(missing)
            && crate::scalar::positive(missing),
        gained(missing, gain) is None <==> !crate::scalar::positive(missing),
{
    let zero = Scalar { bits: 0 };
    assert(zero.value() == 0 && !zero.nan());
}

/// The speed that friction works on, or nothing if the character hardly moves
/// or the medium has no friction.
pub open spec fn friction_base(
    cfg: Box3dCharacterController,
    medium: Medium,
    speed: Scalar,
) -> Option<Scalar> {
    if medium == Medium::Air && cfg.air_friction.at_most(Scalar { bits: 0 }) {
        None
    } else if speed.below(Scalar { bits: SLOW }) {
        None
    } else {
        Some(speed.larger(cfg.stop_speed))
    }
}

pub fn friction_control(cfg: &Box3dCharacterController, medium: Medium, speed: Scalar) -> (r:
    Option<Scalar>)
    ensures
        r == friction_base(*cfg, medium, speed),
{
    if medium == Medium::Air && cfg.air_friction.le(Scalar::zero()) {
        None
    } else if speed.lt(Scalar::new(SLOW)) {
        None
    } else {
        Some(speed.max(cfg.stop_speed))
    }
}

/// The speed after friction, if it is another one: never below zero. `reduced`
/// is the speed less what friction takes.
pub open spec fn damped(speed: Scalar, reduced: Scalar) -> Option<Scalar> {
    let left = reduced.larger(Scalar { bits: 0 });
    if left.same(speed) {
        None
    } else {
        Some(left)
    }
}

pub fn damped_speed(speed: Scalar, reduced: Scalar) -> (r: Option<Scalar>)
    ensures
        r == damped(speed, reduced),
        r matches Some(left) ==> (Scalar { bits: 0 }).at_most(left),
{
    let left = reduced.max(Scalar::zero());
    if left.eq_value(speed) {
        None
    } else {
        Some(left)
    }
}

/// Friction never speeds a character up and never turns it round: where it takes
/// nothing below zero away, the speed after it is between none and the speed
/// before.
pub proof fn law_friction_only_slows(speed: Scalar, reduced: Scalar)
    requires
        (Scalar { bits: 0 }).at_most(speed),
        reduced.at_most(speed),
    ensures
        damped(speed, reduced) matches Some(left) ==> (Scalar { bits: 0 }).at_most(left)
            && left.below(speed),
        damped(speed, reduced) is None ==> reduced.same(speed) || speed.same(Scalar { bits: 0 }),
{
    assert((Scalar { bits: 0 }).value() == 0);
}

/// A component that is not finite counts as zero.
pub open spec fn mended(s: Scalar) -> Scalar {
    if s.finite() {
        s
    } else {
        Scalar { bits: 0 }
    }
}

fn mend(s: Scalar) -> (r: Scalar)
    ensures
        r == mended(s),
{
    if s.is_finite() {
        s
    } else {
        Scalar::zero()
    }
}

/// The state with a finite velocity.
pub open spec fn validated(state: Box3dCharacterControllerState) -> Box3dCharacterControllerState {
    Box3dCharacterControllerState {
        velocity: Vector {
            x: mended(state.velocity.x),
            y: mended(state.velocity.y),
            z: mended(state.velocity.z),
        },
        ..state
    }
}

/// Replaces what is not finite in a character's velocity.
pub fn validate_box3d_velocity(state: &mut Box3dCharacterControllerState)
    ensures
        *final(state) == validated(*old(state)),
        final(state).velocity.x.finite(),
        final(state).velocity.y.finite(),
        final(state).velocity.z.finite(),
{
    state.velocity = Vector::new(
        mend(state.velocity.x),
        mend(state.velocity.y),
        mend(state.velocity.z),
    );
}

/// A vector kept to a length: `scaled`, which has that length, if it is longer.
pub open spec fn kept_within(
    vector: Vector,
    length_squared: Scalar,
    max_squared: Scalar,
    scaled: Vector,
) -> Vector {
    if max_squared.below(length_squared) {
        scaled
    } else {
        vector
    }
}

/// Keeps a vector to a length, by the squares of its own length and of that one.
pub fn keep_within(
    vector: Vector,
    length_squared: Scalar,
    max_squared: Scalar,
    scaled: Vector,
) -> (r: Vector)
    ensures
        r == kept_within(vector, length_squared, max_squared, scaled),
{
    if max_squared.lt(length_squared) {
        scaled
    } else {
        vector
    }
}

/// The state with a velocity that is kept to a length.
pub open spec fn limited(
    state: Box3dCharacterControllerState,
    length_squared: Scalar,
    max_squared: Scalar,
    scaled: Vector,
) -> Box3dCharacterControllerState {
    Box3dCharacterControllerState {
        velocity: kept_within(state.velocity, length_squared, max_squared, scaled),
        ..state
    }
}

/// Keeps a character's velocity to its highest speed. `scaled` is the velocity
/// at that speed.
pub fn limit_box3d_velocity(
    state: &mut Box3dCharacterControllerState,
    length_squared: Scalar,
    max_squared: Scalar,
    scaled: Vector,
)
    ensures
        *final(state) == limited(*old(state), length_squared, max_squared, scaled),
{
    state.velocity = keep_within(state.velocity, length_squared, max_squared, scaled);
}

/// `scaled` is `vector` times `max` over `length`, without rounding, where
/// `length` is no less than that of the vector. The squares are not rounded
/// either.
pub open spec fn scales_exactly(
    vector: Vector,
    length_squared: Scalar,
    max: Scalar,
    max_squared: Scalar,
    scaled: Vector,
    length: int,
) -> bool {
    &&& !length_squared.nan() && !max_squared.nan()
    &&& length_squared.value() * crate::scalar::unit() == crate::scalar::square(vector)
    &&& max_squared.value() * crate::scalar::unit() == max.value() * max.value()
    &&& length > 0 && crate::scalar::square(vector) <= length * length
    &&& scaled.x.value() * length == vector.x.value() * max.value()
    &&& scaled.y.value() * length == vector.y.value() * max.value()
    &&& scaled.z.value() * length == vector.z.value() * max.value()
}

/// A vector that is kept to a length has no more than that, in exact arithmetic.
pub proof fn law_length_is_kept(
    vector: Vector,
    length_squared: Scalar,
    max: Scalar,
    max_squared: Scalar,
    scaled: Vector,
    length: int,
)
    requires
        scales_exactly(vector, length_squared, max, max_squared, scaled, length),
    ensures
        crate::scalar::square(kept_within(vector, length_squared, max_squared, scaled))
            <= max.value() * max.value(),
{
    let m = max.value();
    if max_squared.below(length_squared) {
        let (x, y, z) = (scaled.x.value(), scaled.y.value(), scaled.z.value());
        let (a, b, c) = (vector.x.value(), vector.y.value(), vector.z.value());
        assert((x * length) * (x * length) == (x * x) * (length * length)) by (nonlinear_arith);
        assert((y * length) * (y * length) == (y * y) * (length * length)) by (nonlinear_arith);
        assert((z * length) * (z * length) == (z * z) * (length * length)) by (nonlinear_arith);
        assert((a * m) * (a * m) == (a * a) * (m * m)) by (nonlinear_arith);
        assert((b * m) * (b * m) == (b * b) * (m * m)) by (nonlinear_arith);
        assert((c * m) * (c * m) == (c * c) * (m * m)) by (nonlinear_arith);
        let (s, v, l, k) = (x * x + y * y + z * z, a * a + b * b + c * c, length * length, m * m);
        assert(s * l == (x * x) * l + (y * y) * l + (z * z) * l) by (nonlinear_arith)
            requires
                s == x * x + y * y + z * z,
        ;
        assert(v * k == (a * a) * k + (b * b) * k + (c * c) * k) by (nonlinear_arith)
            requires
                v == a * a + b * b + c * c,
        ;
        assert(l > 0 && k >= 0) by (nonlinear_arith)
            requires
                length > 0,
                l == length * length,
                k == m * m,
        ;
        assert(s <= k) by (nonlinear_arith)
            requires
                s * l == v * k,
                v <= l,
                l > 0,
                k >= 0,
        ;
    } else {
        let u = crate::scalar::unit();
        crate::scalar::lemma_unit();
        assert(length_squared.value() * u <= max_squared.value() * u) by (nonlinear_arith)
            requires
                length_squared.value() <= max_squared.value(),
                u > 0,
        ;
    }
}

/// The state of a character after friction.
pub open spec fn slowed_down(
    state: Box3dCharacterControllerState,
    medium: Medium,
    slowed: Vector,
) -> Box3dCharacterControllerState {
    Box3dCharacterControllerState {
        velocity: if medium == Medium::Ground {
            Vector { y: state.velocity.y, ..slowed }
        } else {
            slowed
        },
        ..state
    }
}

/// Takes the velocity of a character after friction. On the ground friction
/// leaves the vertical part alone.
pub fn slow_box3d_character(
    state: &mut Box3dCharacterControllerState,
    medium: Medium,
    slowed: Vector,
)
    ensures
        *final(state) == (Box3dCharacterControllerState {
            velocity: if medium == Medium::Ground {
                Vector { y: old(state).velocity.y, ..slowed }
            } else {
                slowed
            },
            ..*old(state)
        }),
        *final(state) == slowed_down(*old(state), medium, slowed),
{
    state.velocity = if medium == Medium::Ground {
        slowed.with_y(state.velocity.y)
    } else {
        slowed
    };
}

/// How a character moves over ground.
#[derive(Clone, Copy, Debug, PartialEq, Eq, Structural)]
pub enum GroundCourse {
    /// It stays where it is.
    Rest,
    /// Nothing is in the way.
    Glide,
    /// Something is in the way, which it may step onto.
    Step,
}

pub open spec fn is_short(movement_squared: Scalar) -> bool {
    movement_squared.below(Scalar { bits: SHORT })
}

/// Whether a movement over ground is too short to make.
pub fn rests(movement_squared: Scalar) -> (r: bool)
    ensures
        r == movement_squared.below(Scalar { bits: SHORT }),
        r == is_short(movement_squared),
{
    movement_squared.lt(Scalar::new(SHORT))
}

/// A character swims in water above the feet whatever is below it, else walks if
/// it stands, and else flies. It gains speed at the rate of what it is in, and in
/// the air toward no more than the limit there.
pub proof fn law_what_a_character_moves_in(
    cfg: Box3dCharacterController,
    water: WaterState,
    state: Box3dCharacterControllerState,
    wish_speed: Scalar,
)
    requires
        !wish_speed.nan() && !cfg.max_air_wish_speed.nan(),
    ensures
        ({
            let medium = medium_of(water, state);
            &&& medium == Medium::Water <==> water.level == crate::water::WaterLevel::Waist
                || water.level == crate::water::WaterLevel::Head
            &&& medium == Medium::Ground <==> state.grounded is Some && (water.level
                == crate::water::WaterLevel::Dry || water.level == crate::water::WaterLevel::Feet)
            &&& medium == Medium::Air ==> state.grounded is None
        }),
        hz_in(cfg, Medium::Water) == cfg.water_acceleration_hz,
        hz_in(cfg, Medium::Ground) == cfg.acceleration_hz,
        hz_in(cfg, Medium::Air) == cfg.air_acceleration_hz,
        aimed_at(cfg, Medium::Water, wish_speed) == wish_speed,
        aimed_at(cfg, Medium::Ground, wish_speed) == wish_speed,
        wish_speed.value() <= cfg.max_air_wish_speed.value() ==> aimed_at(
            cfg,
            Medium::Air,
            wish_speed,
        ) == wish_speed,
        wish_speed.value() > cfg.max_air_wish_speed.value() ==> aimed_at(
            cfg,
            Medium::Air,
            wish_speed,
        ) == cfg.max_air_wish_speed,
{
}

/// A character wishes for its speed on foot, scaled while it crouches, and for
/// the speed of the air in flight, where crouching makes no difference.
pub proof fn law_wished_speed(
    cfg: Box3dCharacterController,
    state: Box3dCharacterControllerState,
    input: AccumulatedInput,
    wish: Vector,
)
    ensures
        wished(cfg, state, true).speed == cfg.air_speed,
        wished(cfg, state, true).scale is None,
        wished(cfg, state, false).speed == cfg.speed,
        state.crouching ==> wished(cfg, state, false).scale == Some(cfg.crouch_speed_scale),
        !state.crouching ==> wished(cfg, state, false).scale is None,
        swim_up_taken(input).1 == input.swim_up,
        !swim_up_taken(input).0.swim_up,
        swim_up_taken(swim_up_taken(input).0) == (swim_up_taken(input).0, false),
        swim_up_taken(input).0 == (AccumulatedInput { swim_up: false, ..input }),
        !wish.x.nan() && !wish.y.nan() && !wish.z.nan() ==> (still(wish) <==> wish.x.value() == 0
            && wish.y.value() == 0 && wish.z.value() == 0),
        wish.x.nan() || wish.y.nan() || wish.z.nan() ==> !still(wish),
{
    assert((Scalar { bits: 0 }).value() == 0);
}

/// Acceleration gives all of its gain while that much is missing, and what is
/// missing where that is less: a larger gain never gives less.
pub proof fn law_acceleration_closes_the_gap(missing: Scalar, gain: Scalar, larger: Scalar)
    requires
        !missing.nan() && !gain.nan() && !larger.nan(),
        gain.value() <= larger.value(),
    ensures
        missing.value() > 0 && gain.value() <= missing.value() ==> gained(missing, gain) == Some(
            gain,
        ),
        missing.value() > 0 && gain.value() > missing.value() ==> gained(missing, gain) == Some(
            missing,
        ),
        missing.value() <= 0 ==> gained(missing, gain) is None,
        missing.value() > 0 ==> gained(missing, gain)->0.value() <= gained(
            missing,
            larger,
        )->0.value(),
{
    assert((Scalar { bits: 0 }).value() == 0);
}

/// Friction works on the speed, but at least on the stop speed, so that it brings
/// a slow character to rest. It leaves one alone that hardly moves, and one in
/// the air where air does not slow. What is left is what friction leaves, and
/// none where that would be below zero.
pub proof fn law_friction_works_on_speed(
    cfg: Box3dCharacterController,
    medium: Medium,
    speed: Scalar,
    reduced: Scalar,
)
    requires
        !speed.nan() && !cfg.stop_speed.nan() && !cfg.air_friction.nan() && !reduced.nan(),
    ensures
        speed.value() < (Scalar { bits: SLOW }).value() ==> friction_base(cfg, medium, speed) is None,
        medium == Medium::Air && cfg.air_friction.value() <= 0 ==> friction_base(
            cfg,
            medium,
            speed,
        ) is None,
        speed.value() >= (Scalar { bits: SLOW }).value() && (medium != Medium::Air
            || cfg.air_friction.value() > 0) ==> {
            let base = friction_base(cfg, medium, speed);
            &&& base is Some
            &&& base->0.value() >= speed.value() && base->0.value() >= cfg.stop_speed.value()
            &&& base->0 == speed || base->0 == cfg.stop_speed
        },
        reduced.value() > 0 && reduced.value() != speed.value() ==> damped(speed, reduced) == Some(
            reduced,
        ),
        reduced.value() <= 0 && speed.value() != 0 ==> damped(speed, reduced) is Some && damped(
            speed,
            reduced,
        )->0.value() == 0,
        reduced.value() == speed.value() && speed.value() >= 0 ==> damped(speed, reduced) is None,
{
    assert((Scalar { bits: 0 }).value() == 0);
    assert(!(Scalar { bits: SLOW }).nan());
}

/// Mending keeps every finite part of a velocity, puts none in place of the
/// others, and so changes nothing the second time. Neither mending nor limiting
/// touches anything else.
pub proof fn law_velocity_is_mended_and_limited(
    state: Box3dCharacterControllerState,
    length_squared: Scalar,
    max_squared: Scalar,
    scaled: Vector,
)
    requires
        !length_squared.nan() && !max_squared.nan(),
    ensures
        ({
            let after = validated(state);
            &&& state.velocity.x.finite() ==> after.velocity.x == state.velocity.x
            &&& state.velocity.y.finite() ==> after.velocity.y == state.velocity.y
            &&& state.velocity.z.finite() ==> after.velocity.z == state.velocity.z
            &&& !state.velocity.x.finite() ==> after.velocity.x.value() == 0
            &&& !state.velocity.y.finite() ==> after.velocity.y.value() == 0
            &&& !state.velocity.z.finite() ==> after.velocity.z.value() == 0
            &&& validated(after) == after
            &&& after == (Box3dCharacterControllerState { velocity: after.velocity, ..state })
        }),
        ({
            let after = limited(state, length_squared, max_squared, scaled);
            &&& length_squared.value() <= max_squared.value() ==> after == state
            &&& length_squared.value() > max_squared.value() ==> after.velocity == scaled
            &&& after == (Box3dCharacterControllerState { velocity: after.velocity, ..state })
        }),
        length_squared.value() <= max_squared.value() ==> kept_within(
            state.velocity,
            length_squared,
            max_squared,
            scaled,
        ) == state.velocity,
        length_squared.value() > max_squared.value() ==> kept_within(
            state.velocity,
            length_squared,
            max_squared,
            scaled,
        ) == scaled,
{
    assert((Scalar { bits: 0 }).value() == 0);
}

/// On the ground friction works to the sides alone: a fall goes on as it was.
/// Elsewhere it works on all of the velocity. A movement is too short to make
/// where its square is below a ten-thousandth.
pub proof fn law_friction_leaves_a_fall_alone(
    state: Box3dCharacterControllerState,
    medium: Medium,
    slowed: Vector,
    movement_squared: Scalar,
)
    ensures
        ({
            let after = slowed_down(state, medium, slowed);
            &&& after.velocity.x == slowed.x && after.velocity.z == slowed.z
            &&& medium == Medium::Ground ==> after.velocity.y == state.velocity.y
            &&& medium != Medium::Ground ==> after.velocity.y == slowed.y
            &&& after == (Box3dCharacterControllerState { velocity: after.velocity, ..state })
        }),
        !movement_squared.nan() ==> (is_short(movement_squared) <==> movement_squared.value() < (
        Scalar { bits: SHORT }).value()),
        movement_squared.nan() ==> !is_short(movement_squared),
{
    assert(!(Scalar { bits: SHORT }).nan());
}

/// The constants stand for what they are called: 1e-10, 0.0001 and 0.001.
pub proof fn law_motion_constants()
    ensures
        crate::scalar::is_nearest_to(Scalar { bits: TINY }, 1, 10_000_000_000),
        crate::scalar::is_nearest_to(Scalar { bits: SHORT }, 1, 10_000),
        crate::scalar::is_nearest_to(Scalar { bits: SLOW }, 1, 1000),
{
    vstd::arithmetic::power2::lemma2_to64();
    vstd::arithmetic::power2::lemma_pow2_adds(32, 25);
    vstd::arithmetic::power2::lemma_pow2_adds(32, 5);
    vstd::arithmetic::power2::lemma_pow2_adds(32, 1);
    crate::scalar::lemma_nearest(
        Scalar { bits: TINY },
        93,
        0x00db_e6ff,
        0x0200_0000_0000_0000,
        1,
        10_000_000_000,
    );
    crate::scalar::lemma_nearest(
        Scalar { bits: SHORT },
        113,
        0x00d1_b717,
        0x20_0000_0000,
        1,
        10_000,
    );
    crate::scalar::lemma_nearest(Scalar { bits: SLOW }, 117, 0x0083_126f, 0x2_0000_0000, 1, 1000);
}

}
