//! How deep a character is in water.

use vstd::prelude::*;
use crate::body::LARGEST;
use crate::scalar::{Scalar, Vector};

verus! {

/// A cuboid of water that bodies pass through.
#[derive(Clone, Copy, Debug, PartialEq, Eq, Structural)]
pub struct Box3dWater {
    pub half_extents: Vector,
    /// Fastest that anything moves in it.
    pub speed: Scalar,
}

impl Box3dWater {
    pub open spec fn calm(half_extents: Vector) -> Box3dWater {
        Box3dWater { half_extents, speed: Scalar { bits: LARGEST } }
    }

    /// Water of that size, without a limit on speed.
    pub fn cuboid(half_extents: Vector) -> (r: Box3dWater)
        ensures
            r.half_extents == half_extents,
            r.speed.bits == LARGEST,
            r == Box3dWater::calm(half_extents),
    {
        Box3dWater { half_extents, speed: Scalar::new(LARGEST) }
    }

    /// The point, given in the water's own frame, is within the cuboid.
    pub open spec fn contains(self, local: Vector) -> bool {
        &&& local.x.absolute().at_most(self.half_extents.x)
        &&& local.y.absolute().at_most(self.half_extents.y)
        &&& local.z.absolute().at_most(self.half_extents.z)
    }
}

/// Whether a point in the water's own frame is within the water.
pub fn box3d_water_contains(water: &Box3dWater, local: Vector) -> (r: bool)
    ensures
        r == water.contains(local),
{
    local.x.abs().le(water.half_extents.x) && local.y.abs().le(water.half_extents.y)
        && local.z.abs().le(water.half_extents.z)
}

/// How much of a character is under water.
#[derive(Clone, Copy, Debug, PartialEq, Eq, Structural)]
pub enum WaterLevel {
    Dry,
    Feet,
    Waist,
    Head,
}

impl WaterLevel {
    /// The levels in order, from dry to submerged.
    pub open spec fn depth(self) -> nat {
        match self {
            WaterLevel::Dry => 0,
            WaterLevel::Feet => 1,
            WaterLevel::Waist => 2,
            WaterLevel::Head => 3,
        }
    }

    /// Deep enough to swim: above the feet.
    pub open spec fn swims(self) -> bool {
        self.depth() > WaterLevel::Feet.depth()
    }

    fn rank(self) -> (r: u8)
        ensures
            r == self.depth(),
    {
        match self {
            WaterLevel::Dry => 0,
            WaterLevel::Feet => 1,
            WaterLevel::Waist => 2,
            WaterLevel::Head => 3,
        }
    }

    /// The deeper of two levels.
    pub open spec fn deeper(self, other: WaterLevel) -> WaterLevel {
        if self.depth() < other.depth() {
            other
        } else {
            self
        }
    }

    pub fn is_swimming(self) -> (r: bool)
        ensures
            r == self.swims(),
    {
        self.rank() > 1
    }

    pub fn max(self, other: WaterLevel) -> (r: WaterLevel)
        ensures
            r == self.deeper(other),
    {
        if self.rank() < other.rank() {
            other
        } else {
            self
        }
    }
}

/// A character's water at the moment.
#[derive(Clone, Copy, Debug, PartialEq, Eq, Structural)]
pub struct WaterState {
    pub level: WaterLevel,
    /// Fastest that the waters around allow.
    pub speed: Scalar,
}

/// A water, and where three points of a character are in its frame.
#[derive(Clone, Copy, Debug, PartialEq, Eq, Structural)]
pub struct Immersion {
    pub water: Box3dWater,
    pub eye: Vector,
    pub waist: Vector,
    pub feet: Vector,
}

impl Immersion {
    /// The highest of the three points that is under water.
    pub open spec fn level(self) -> WaterLevel {
        if self.water.contains(self.eye) {
            WaterLevel::Head
        } else if self.water.contains(self.waist) {
            WaterLevel::Waist
        } else if self.water.contains(self.feet) {
            WaterLevel::Feet
        } else {
            WaterLevel::Dry
        }
    }

    pub fn water_level(&self) -> (r: WaterLevel)
        ensures
            r == self.level(),
    {
        if box3d_water_contains(&self.water, self.eye) {
            WaterLevel::Head
        } else if box3d_water_contains(&self.water, self.waist) {
            WaterLevel::Waist
        } else if box3d_water_contains(&self.water, self.feet) {
            WaterLevel::Feet
        } else {
            WaterLevel::Dry
        }
    }
}

/// The state over the waters taken one after the other: the deepest level, and
/// the lowest speed of those that the character is in.
pub open spec fn immersed(waters: Seq<Immersion>) -> WaterState
    decreases waters.len(),
{
    if waters.len() == 0 {
        WaterState { level: WaterLevel::Dry, speed: Scalar { bits: LARGEST } }
    } else {
        let before = immersed(waters.drop_last());
        let level = waters.last().level();
        if level == WaterLevel::Dry {
            before
        } else {
            WaterState {
                level: before.level.deeper(level),
                speed: before.speed.smaller(waters.last().water.speed),
            }
        }
    }
}

/// Works out how deep a character is, over all the waters there are.
pub fn update_box3d_water(water_state: &mut WaterState, waters: &Vec<Immersion>)
    ensures
        *final(water_state) == immersed(waters@),
{
    water_state.level = WaterLevel::Dry;
    water_state.speed = Scalar::new(LARGEST);
    let mut i: usize = 0;
    while i < waters.len()
        invariant
            i <= waters@.len(),
            *water_state == immersed(waters@.take(i as int)),
        decreases waters@.len() - i,
    {
        assert(waters@.take(i + 1).drop_last() =~= waters@.take(i as int));
        let level = waters[i].water_level();
        if level != WaterLevel::Dry {
            water_state.level = water_state.level.max(level);
            water_state.speed = water_state.speed.min(waters[i].water.speed);
        }
        i = i + 1;
    }
    assert(waters@.take(i as int) =~= waters@);
}

/// The level is the deepest that any water gives, in whatever order the waters
/// are taken: none exceeds it, and one reaches it unless the character is dry.
pub proof fn law_level_is_deepest(waters: Seq<Immersion>)
    ensures
        forall|i: int|
            0 <= i < waters.len() ==> (#[trigger] waters[i]).level().depth() <= immersed(
                waters,
            ).level.depth(),
        immersed(waters).level == WaterLevel::Dry || exists|i: int|
            0 <= i < waters.len() && (#[trigger] waters[i]).level() == immersed(waters).level,
    decreases waters.len(),
{
    if waters.len() > 0 {
        let before = waters.drop_last();
        law_level_is_deepest(before);
        assert forall|i: int| 0 <= i < waters.len() implies (
        #[trigger] waters[i]).level().depth() <= immersed(waters).level.depth() by {
            if i < before.len() {
                assert(before[i].level().depth() <= immersed(before).level.depth());
            }
        }
        if immersed(waters).level != WaterLevel::Dry {
            if immersed(waters).level == waters.last().level() {
                assert(waters[waters.len() - 1].level() == immersed(waters).level);
            } else {
                let i = choose|i: int|
                    0 <= i < before.len() && (#[trigger] before[i]).level() == immersed(
                        before,
                    ).level;
                assert(waters[i].level() == immersed(waters).level);
            }
        }
    }
}

/// The character is in that water, and it names a speed.
pub open spec fn slows(immersion: Immersion) -> bool {
    immersion.level() != WaterLevel::Dry && !immersion.water.speed.nan()
}

/// The speed is the lowest of those that the waters around name, and as high as
/// can be if none does. A water whose speed is not a number names none.
pub proof fn law_speed_is_lowest(waters: Seq<Immersion>)
    ensures
        !immersed(waters).speed.nan(),
        immersed(waters).speed.at_most(Scalar { bits: LARGEST }),
        forall|i: int|
            0 <= i < waters.len() && slows(#[trigger] waters[i]) ==> immersed(
                waters,
            ).speed.at_most(waters[i].water.speed),
        immersed(waters).speed.bits == LARGEST || exists|i: int|
            0 <= i < waters.len() && slows(#[trigger] waters[i]) && waters[i].water.speed
                == immersed(waters).speed,
    decreases waters.len(),
{
    if waters.len() > 0 {
        let before = waters.drop_last();
        law_speed_is_lowest(before);
        assert(waters.last() == waters[waters.len() - 1]);
        assert forall|i: int| 0 <= i < waters.len() && slows(#[trigger] waters[i]) implies immersed(
            waters,
        ).speed.at_most(waters[i].water.speed) by {
            if i < before.len() {
                assert(before[i] == waters[i]);
                assert(immersed(before).speed.at_most(before[i].water.speed));
            }
        }
        if immersed(waters).speed.bits != LARGEST {
            if immersed(waters).speed != immersed(before).speed {
                assert(waters[waters.len() - 1].water.speed == immersed(waters).speed);
            } else {
                let i = choose|i: int|
                    0 <= i < before.len() && slows(#[trigger] before[i]) && before[i].water.speed
                        == immersed(before).speed;
                assert(waters[i] == before[i]);
            }
        }
    }
}

/// The order in which the waters are taken does not matter: neither to the
/// level, nor to the value of the speed.
pub proof fn law_order_of_waters_does_not_matter(a: Seq<Immersion>, b: Seq<Immersion>)
    requires
        a.to_multiset() == b.to_multiset(),
    ensures
        immersed(a).level == immersed(b).level,
        immersed(a).speed.same(immersed(b).speed),
{
    lemma_no_deeper_no_faster(a, b);
    lemma_no_deeper_no_faster(b, a);
}

proof fn lemma_no_deeper_no_faster(a: Seq<Immersion>, b: Seq<Immersion>)
    requires
        a.to_multiset() == b.to_multiset(),
    ensures
        immersed(a).level.depth() <= immersed(b).level.depth(),
        immersed(b).speed.at_most(immersed(a).speed),
{
    broadcast use vstd::seq_lib::group_to_multiset_ensures;

    law_level_is_deepest(a);
    law_level_is_deepest(b);
    law_speed_is_lowest(a);
    law_speed_is_lowest(b);
    assert forall|i: int| 0 <= i < a.len() implies b.contains(#[trigger] a[i]) by {
        assert(a.contains(a[i]));
        assert(b.to_multiset().count(a[i]) > 0);
    }
    if immersed(a).level != WaterLevel::Dry {
        let i = choose|i: int| 0 <= i < a.len() && (#[trigger] a[i]).level() == immersed(a).level;
        let j = b.index_of(a[i]);
        assert(b[j].level() == immersed(a).level);
    }
    if immersed(a).speed.bits != LARGEST {
        let i = choose|i: int|
            0 <= i < a.len() && slows(#[trigger] a[i]) && a[i].water.speed == immersed(a).speed;
        let j = b.index_of(a[i]);
        assert(slows(b[j]) && b[j].water.speed == immersed(a).speed);
    }
}

/// A point is in the water exactly when it is no farther from the middle than
/// half the size, on each of the three axes and to both sides. So the point
/// opposite is in the water as well.
pub proof fn law_water_is_a_cuboid(water: Box3dWater, local: Vector, opposite: Vector)
    requires
        !local.x.nan() && !local.y.nan() && !local.z.nan(),
        !water.half_extents.x.nan() && !water.half_extents.y.nan() && !water.half_extents.z.nan(),
        opposite == (Vector {
            x: local.x.opposite(),
            y: local.y.opposite(),
            z: local.z.opposite(),
        }),
    ensures
        water.contains(local) ==> {
            &&& -water.half_extents.x.value() <= local.x.value() <= water.half_extents.x.value()
            &&& -water.half_extents.y.value() <= local.y.value() <= water.half_extents.y.value()
            &&& -water.half_extents.z.value() <= local.z.value() <= water.half_extents.z.value()
        },
        !water.contains(local) ==> {
            ||| local.x.value() < -water.half_extents.x.value()
            ||| local.x.value() > water.half_extents.x.value()
            ||| local.y.value() < -water.half_extents.y.value()
            ||| local.y.value() > water.half_extents.y.value()
            ||| local.z.value() < -water.half_extents.z.value()
            ||| local.z.value() > water.half_extents.z.value()
        },
        water.contains(opposite) == water.contains(local),
{
    crate::scalar::law_signs(local.x);
    crate::scalar::law_signs(local.y);
    crate::scalar::law_signs(local.z);
    crate::scalar::law_signs(opposite.x);
    crate::scalar::law_signs(opposite.y);
    crate::scalar::law_signs(opposite.z);
}

/// How deep a character is goes by the highest point that is under water: the
/// eyes before the waist before the feet. It swims from the waist on.
pub proof fn law_depth_goes_by_the_highest_point(immersion: Immersion, other: WaterLevel)
    ensures
        ({
            let water = immersion.water;
            let level = immersion.level();
            &&& level == WaterLevel::Head <==> water.contains(immersion.eye)
            &&& level == WaterLevel::Waist <==> !water.contains(immersion.eye) && water.contains(
                immersion.waist,
            )
            &&& level == WaterLevel::Dry <==> !water.contains(immersion.eye) && !water.contains(
                immersion.waist,
            ) && !water.contains(immersion.feet)
            &&& level.swims() <==> water.contains(immersion.eye) || water.contains(immersion.waist)
            &&& level.deeper(other) == level || level.deeper(other) == other
            &&& level.deeper(other).swims() <==> level.swims() || other.swims()
            &&& level.deeper(other) == other.deeper(level)
            &&& level.deeper(other) == WaterLevel::Dry <==> level == WaterLevel::Dry && other
                == WaterLevel::Dry
        }),
        WaterLevel::Head.swims() && WaterLevel::Waist.swims(),
        !WaterLevel::Feet.swims() && !WaterLevel::Dry.swims(),
        WaterLevel::Dry.depth() < WaterLevel::Feet.depth() < WaterLevel::Waist.depth()
            < WaterLevel::Head.depth(),
{
}

/// Out of all water a character is dry and as fast as can be. Another water that
/// it is not in changes nothing; one that it is in makes it no less deep and no
/// faster.
pub proof fn law_waters_add_up(waters: Seq<Immersion>, more: Immersion)
    ensures
        immersed(Seq::empty()).level == WaterLevel::Dry,
        immersed(Seq::empty()).speed.bits == 0x7f7f_ffffu32,
        Box3dWater::calm(more.eye).half_extents == more.eye,
        Box3dWater::calm(more.eye).speed == immersed(Seq::empty()).speed,
        !more.water.contains(more.eye) && !more.water.contains(more.waist)
            && !more.water.contains(more.feet) ==> immersed(waters.push(more)) == immersed(waters),
        more.water.contains(more.eye) ==> immersed(waters.push(more)).level == WaterLevel::Head,
        more.water.contains(more.waist) ==> immersed(waters.push(more)).level.swims(),
        more.water.contains(more.feet) ==> immersed(waters.push(more)).level != WaterLevel::Dry,
        immersed(waters.push(more)).level.swims() ==> immersed(waters).level.swims()
            || more.water.contains(more.eye) || more.water.contains(more.waist),
        more.water.contains(more.feet) && !more.water.speed.nan() ==> immersed(
            waters.push(more),
        ).speed.value() <= more.water.speed.value(),
        immersed(waters.push(more)).speed.value() <= immersed(waters).speed.value(),
{
    assert(waters.push(more).drop_last() =~= waters);
    law_speed_is_lowest(waters);
    law_speed_is_lowest(waters.push(more));
}

}
