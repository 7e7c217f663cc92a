//! Single-precision quantities, kept by their IEEE 754 bit pattern.
//!
//! The controller decides on lengths, speeds and cosines that a physics engine
//! reports in binary32. Every non-NaN pattern stands for an integer multiple of
//! 2^-149, the smallest positive quantity of the format, so ordering two
//! quantities, negating, halving and doubling one are exact integer operations.

use vstd::prelude::*;

verus! {

/// Patterns from here on carry the sign bit.
pub const SIGN: u32 = 0x8000_0000;

/// One step of the exponent field; also the hidden bit of a normal quantity.
pub const EXPONENT_STEP: u32 = 0x0080_0000;

/// The pattern of positive infinity, above that of every finite quantity.
pub const INFINITY: u32 = 0x7f80_0000;

/// The pattern of 1.
pub const ONE: u32 = 0x3f80_0000;

/// The pattern of 2^-23.
pub const EPSILON: u32 = 0x3400_0000;

/// The pattern of -0.01: a normal that points down farther is a ceiling's.
pub const OVERHANG: u32 = 0xbc23_d70a;

/// What a pattern without its sign bit stands for, in units of 2^-149.
/// Infinity continues the scale just above the largest finite quantity.
pub open spec fn quanta(magnitude: nat) -> nat {
    let exponent = magnitude / EXPONENT_STEP as nat;
    let fraction = magnitude % EXPONENT_STEP as nat;
    if exponent == 0 {
        fraction
    } else {
        (EXPONENT_STEP as nat + fraction) * vstd::arithmetic::power2::pow2((exponent - 1) as nat)
    }
}

/// A single-precision quantity.
#[derive(Clone, Copy, Debug, PartialEq, Eq, Structural)]
pub struct Scalar {
    pub bits: u32,
}

impl Scalar {
    pub open spec fn negative(self) -> bool {
        self.bits >= SIGN
    }

    /// The pattern without its sign bit.
    pub open spec fn magnitude(self) -> nat {
        if self.negative() {
            (self.bits - SIGN) as nat
        } else {
            self.bits as nat
        }
    }

    /// Not a number: ordered with nothing, not even with itself.
    pub open spec fn nan(self) -> bool {
        self.magnitude() > INFINITY
    }

    pub open spec fn finite(self) -> bool {
        self.magnitude() < INFINITY
    }

    /// The quantity in units of 2^-149.
    pub open spec fn value(self) -> int {
        if self.negative() {
            -(quanta(self.magnitude()) as int)
        } else {
            quanta(self.magnitude()) as int
        }
    }

    /// `self < other`.
    pub open spec fn below(self, other: Scalar) -> bool {
        !self.nan() && !other.nan() && self.value() < other.value()
    }

    /// `self <= other`.
    pub open spec fn at_most(self, other: Scalar) -> bool {
        !self.nan() && !other.nan() && self.value() <= other.value()
    }

    /// `self == other`: the two zeros are equal, NaN equals nothing.
    pub open spec fn same(self, other: Scalar) -> bool {
        !self.nan() && !other.nan() && self.value() == other.value()
    }

    /// The larger of the two; a NaN gives way to the other operand.
    pub open spec fn larger(self, other: Scalar) -> Scalar {
        if self.nan() || self.below(other) {
            other
        } else {
            self
        }
    }

    /// The smaller of the two; a NaN gives way to the other operand.
    pub open spec fn smaller(self, other: Scalar) -> Scalar {
        if self.nan() || other.below(self) {
            other
        } else {
            self
        }
    }

    /// The pattern read as sign and magnitude.
    spec fn rank(self) -> int {
        if self.negative() {
            -(self.magnitude() as int)
        } else {
            self.magnitude() as int
        }
    }

    pub fn new(bits: u32) -> (r: Scalar)
        ensures
            r.bits == bits,
    {
        Scalar { bits }
    }

    pub fn zero() -> (r: Scalar)
        ensures
            r.bits == 0,
            r.value() == 0,
            !r.nan(),
    {
        Scalar { bits: 0 }
    }

    pub fn is_nan(self) -> (r: bool)
        ensures
            r == self.nan(),
    {
        self.unsigned() > INFINITY
    }

    pub fn is_finite(self) -> (r: bool)
        ensures
            r == self.finite(),
    {
        self.unsigned() < INFINITY
    }

    fn unsigned(self) -> (r: u32)
        ensures
            r == self.magnitude(),
    {
        if self.bits >= SIGN {
            self.bits - SIGN
        } else {
            self.bits
        }
    }

    fn signed(self) -> (r: i64)
        ensures
            r == self.rank(),
    {
        if self.bits >= SIGN {
            -((self.bits - SIGN) as i64)
        } else {
            self.bits as i64
        }
    }

    pub fn lt(self, other: Scalar) -> (r: bool)
        ensures
            r == self.below(other),
    {
        proof {
            lemma_rank_orders(self, other);
        }
        !self.is_nan() && !other.is_nan() && self.signed() < other.signed()
    }

    pub fn le(self, other: Scalar) -> (r: bool)
        ensures
            r == self.at_most(other),
    {
        proof {
            lemma_rank_orders(self, other);
            lemma_rank_orders(other, self);
        }
        !self.is_nan() && !other.is_nan() && self.signed() <= other.signed()
    }

    pub fn eq_value(self, other: Scalar) -> (r: bool)
        ensures
            r == self.same(other),
    {
        self.le(other) && other.le(self)
    }

    pub fn max(self, other: Scalar) -> (r: Scalar)
        ensures
            r == self.larger(other),
    {
        if self.is_nan() || self.lt(other) {
            other
        } else {
            self
        }
    }

    pub fn min(self, other: Scalar) -> (r: Scalar)
        ensures
            r == self.smaller(other),
    {
        if self.is_nan() || other.lt(self) {
            other
        } else {
            self
        }
    }

    /// The same magnitude with the other sign.
    pub open spec fn opposite(self) -> Scalar {
        if self.negative() {
            Scalar { bits: (self.bits - SIGN) as u32 }
        } else {
            Scalar { bits: (self.bits + SIGN) as u32 }
        }
    }

    /// The distance from zero.
    pub open spec fn absolute(self) -> Scalar {
        Scalar { bits: self.magnitude() as u32 }
    }

    /// Held between `low` and `high`; a NaN stays one.
    pub open spec fn held_between(self, low: Scalar, high: Scalar) -> Scalar {
        if self.below(low) {
            low
        } else if high.below(self) {
            high
        } else {
            self
        }
    }

    pub fn abs(self) -> (r: Scalar)
        ensures
            r == self.absolute(),
    {
        Scalar { bits: self.unsigned() }
    }

    pub fn clamp(self, low: Scalar, high: Scalar) -> (r: Scalar)
        requires
            low.at_most(high),
        ensures
            r == self.held_between(low, high),
    {
        if self.lt(low) {
            low
        } else if high.lt(self) {
            high
        } else {
            self
        }
    }

    pub fn negated(self) -> (r: Scalar)
        ensures
            r == self.opposite(),
            r.value() == -self.value(),
    {
        if self.bits >= SIGN {
            Scalar { bits: self.bits - SIGN }
        } else {
            Scalar { bits: self.bits + SIGN }
        }
    }

    /// Twice the quantity; beyond the largest finite one, infinity of the same sign.
    pub fn doubled(self) -> (r: Scalar)
        ensures
            twice_of(r, self),
    {
        let m: u32 = self.unsigned();
        proof {
            lemma_doubling(m as nat);
        }
        let twice: u32 = if m >= INFINITY {
            m
        } else if m < EXPONENT_STEP {
            m + m
        } else if m + EXPONENT_STEP < INFINITY {
            m + EXPONENT_STEP
        } else {
            INFINITY
        };
        self.with_magnitude(twice)
    }

    /// Half the quantity, rounded to the nearest multiple of 2^-149, a tie to
    /// the even one.
    pub fn halved(self) -> (r: Scalar)
        ensures
            half_of(r, self),
    {
        let m: u32 = self.unsigned();
        proof {
            lemma_halving(m as nat);
        }
        let half: u32 = if m >= INFINITY {
            m
        } else if m >= 2 * EXPONENT_STEP {
            m - EXPONENT_STEP
        } else if m % 4 == 3 {
            m / 2 + 1
        } else {
            m / 2
        };
        self.with_magnitude(half)
    }

    fn with_magnitude(self, magnitude: u32) -> (r: Scalar)
        requires
            magnitude < SIGN,
        ensures
            r.negative() == self.negative(),
            r.magnitude() == magnitude,
            magnitude == self.magnitude() ==> r == self,
    {
        if self.bits >= SIGN {
            Scalar { bits: magnitude + SIGN }
        } else {
            Scalar { bits: magnitude }
        }
    }
}

/// Above zero.
pub open spec fn positive(s: Scalar) -> bool {
    !s.nan() && s.value() > 0
}

/// `half` is half of `whole`, rounded to the nearest quantity, a tie to the
/// even one. What is not finite is its own half.
pub open spec fn half_of(half: Scalar, whole: Scalar) -> bool {
    &&& half.negative() == whole.negative()
    &&& !whole.finite() ==> half == whole
    &&& whole.finite() ==> half.finite() && quanta(half.magnitude()) == half_to_even(
        quanta(whole.magnitude()),
    )
}

/// `twice` is double `once`, or infinity where no finite quantity is that
/// large. What is not finite is its own double.
pub open spec fn twice_of(twice: Scalar, once: Scalar) -> bool {
    let exact = 2 * quanta(once.magnitude());
    &&& twice.negative() == once.negative()
    &&& !once.finite() ==> twice == once
    &&& once.finite() && exact < quanta(INFINITY as nat) ==> twice.finite() && quanta(
        twice.magnitude(),
    ) == exact
    &&& once.finite() && exact >= quanta(INFINITY as nat) ==> twice.magnitude() == INFINITY
}

pub open spec fn halves(half: Vector, whole: Vector) -> bool {
    half_of(half.x, whole.x) && half_of(half.y, whole.y) && half_of(half.z, whole.z)
}

pub open spec fn doubles(twice: Vector, once: Vector) -> bool {
    twice_of(twice.x, once.x) && twice_of(twice.y, once.y) && twice_of(twice.z, once.z)
}

/// Half of a count, a tie going to the even neighbour.
pub open spec fn half_to_even(n: nat) -> nat {
    if n % 4 == 3 {
        n / 2 + 1
    } else {
        n / 2
    }
}

/// The quantity grows strictly with the pattern.
pub proof fn lemma_quanta_increase(a: nat, b: nat)
    requires
        a < b,
    ensures
        quanta(a) < quanta(b),
    decreases b - a,
{
    if a + 1 < b {
        lemma_quanta_increase(a, (b - 1) as nat);
        lemma_quanta_step((b - 1) as nat);
    } else {
        lemma_quanta_step(a);
    }
}

proof fn lemma_quanta_step(a: nat)
    ensures
        quanta(a) < quanta(a + 1),
{
    let step = EXPONENT_STEP as nat;
    let e = a / step;
    let f = a % step;
    if f + 1 < step {
        assert((a + 1) / step == e && (a + 1) % step == f + 1) by {
            vstd::arithmetic::div_mod::lemma_fundamental_div_mod(a as int, step as int);
            vstd::arithmetic::div_mod::lemma_fundamental_div_mod_converse(
                (a + 1) as int,
                step as int,
                e as int,
                (f + 1) as int,
            );
        }
        if e > 0 {
            let p = vstd::arithmetic::power2::pow2((e - 1) as nat);
            vstd::arithmetic::power2::lemma_pow2_pos((e - 1) as nat);
            assert((step + f) * p < (step + f + 1) * p) by (nonlinear_arith)
                requires
                    p > 0,
            ;
        }
    } else {
        assert((a + 1) / step == e + 1 && (a + 1) % step == 0) by {
            vstd::arithmetic::div_mod::lemma_fundamental_div_mod(a as int, step as int);
            assert(step * (e + 1) == step * e + step) by (nonlinear_arith);
            vstd::arithmetic::div_mod::lemma_fundamental_div_mod_converse(
                (a + 1) as int,
                step as int,
                (e + 1) as int,
                0,
            );
        }
        if e == 0 {
            vstd::arithmetic::power2::lemma2_to64();
        } else {
            let p = vstd::arithmetic::power2::pow2((e - 1) as nat);
            vstd::arithmetic::power2::lemma_pow2_pos((e - 1) as nat);
            vstd::arithmetic::power2::lemma_pow2_unfold(e);
            assert((step + f) * p < step * (2 * p)) by (nonlinear_arith)
                requires
                    p > 0,
                    f < step,
            ;
        }
    }
}

/// Sign and magnitude order the patterns as the quantities are ordered.
proof fn lemma_rank_orders(a: Scalar, b: Scalar)
    ensures
        a.rank() < b.rank() <==> a.value() < b.value(),
{
    let (m, n) = (a.magnitude(), b.magnitude());
    assert(quanta(0) == 0);
    if m < n {
        lemma_quanta_increase(m, n);
    }
    if n < m {
        lemma_quanta_increase(n, m);
    }
    if m > 0 {
        lemma_quanta_increase(0, m);
    }
    if n > 0 {
        lemma_quanta_increase(0, n);
    }
}

/// Patterns below two exponent steps stand for themselves.
proof fn lemma_small_quanta(m: nat)
    requires
        m < 2 * EXPONENT_STEP,
    ensures
        quanta(m) == m,
{
    vstd::arithmetic::power2::lemma2_to64();
    if m >= EXPONENT_STEP {
        assert(m / EXPONENT_STEP as nat == 1 && m % EXPONENT_STEP as nat == m - EXPONENT_STEP);
        let p = vstd::arithmetic::power2::pow2((1 - 1) as nat);
        assert(m * p == m) by (nonlinear_arith)
            requires
                p == 1,
        ;
    } else {
        assert(m / EXPONENT_STEP as nat == 0 && m % EXPONENT_STEP as nat == m);
    }
}

/// One exponent step doubles a normal quantity.
proof fn lemma_exponent_step_doubles(m: nat)
    requires
        m >= EXPONENT_STEP,
    ensures
        quanta(m + EXPONENT_STEP as nat) == 2 * quanta(m),
{
    let step = EXPONENT_STEP as nat;
    let e = m / step;
    let f = m % step;
    assert(e >= 1 && (m + step) / step == e + 1 && (m + step) % step == f);
    let p = vstd::arithmetic::power2::pow2((e - 1) as nat);
    vstd::arithmetic::power2::lemma_pow2_unfold(e);
    assert((step + f) * (2 * p) == 2 * ((step + f) * p)) by (nonlinear_arith);
}

proof fn lemma_doubling(m: nat)
    ensures
        m < EXPONENT_STEP ==> quanta(m + m) == 2 * quanta(m),
        EXPONENT_STEP <= m ==> quanta(m + EXPONENT_STEP as nat) == 2 * quanta(m),
        m < EXPONENT_STEP ==> 2 * quanta(m) < quanta(INFINITY as nat),
        EXPONENT_STEP <= m && m + EXPONENT_STEP < INFINITY ==> 2 * quanta(m) < quanta(
            INFINITY as nat,
        ),
        m + EXPONENT_STEP >= INFINITY ==> 2 * quanta(m) >= quanta(INFINITY as nat),
{
    if m < EXPONENT_STEP {
        lemma_small_quanta(m);
        lemma_small_quanta(m + m);
        lemma_quanta_increase(m + m, INFINITY as nat);
    } else {
        lemma_exponent_step_doubles(m);
        if m + EXPONENT_STEP < INFINITY {
            lemma_quanta_increase(m + EXPONENT_STEP as nat, INFINITY as nat);
        } else if m + EXPONENT_STEP > INFINITY {
            lemma_quanta_increase(INFINITY as nat, m + EXPONENT_STEP as nat);
        }
    }
}

proof fn lemma_halving(m: nat)
    ensures
        m >= 2 * EXPONENT_STEP ==> quanta((m - EXPONENT_STEP) as nat) == half_to_even(quanta(m)),
        m < 2 * EXPONENT_STEP ==> quanta(half_to_even(m)) == half_to_even(quanta(m)),
{
    if m >= 2 * EXPONENT_STEP {
        lemma_exponent_step_doubles((m - EXPONENT_STEP) as nat);
        let h = quanta((m - EXPONENT_STEP) as nat);
        assert(quanta(m) == 2 * h);
        assert((2 * h) / 2 == h && (2 * h) % 4 != 3);
    } else {
        lemma_small_quanta(m);
        lemma_small_quanta(half_to_even(m));
    }
}

/// Three quantities along the axes; `y` points up.
#[derive(Clone, Copy, Debug, PartialEq, Eq, Structural)]
pub struct Vector {
    pub x: Scalar,
    pub y: Scalar,
    pub z: Scalar,
}

impl Vector {
    /// All three components are the zero pattern.
    pub open spec fn null(self) -> bool {
        self.x.bits == 0 && self.y.bits == 0 && self.z.bits == 0
    }

    pub fn new(x: Scalar, y: Scalar, z: Scalar) -> (r: Vector)
        ensures
            r.x == x,
            r.y == y,
            r.z == z,
    {
        Vector { x, y, z }
    }

    pub fn zero() -> (r: Vector)
        ensures
            r == origin(),
            r.null(),
    {
        Vector { x: Scalar::zero(), y: Scalar::zero(), z: Scalar::zero() }
    }

    /// Half of the vector, each component rounded as `Scalar::halved` rounds.
    pub fn halved(self) -> (r: Vector)
        ensures
            halves(r, self),
    {
        Vector { x: self.x.halved(), y: self.y.halved(), z: self.z.halved() }
    }

    /// Twice the vector, each component as `Scalar::doubled` has it.
    pub fn doubled(self) -> (r: Vector)
        ensures
            doubles(r, self),
    {
        Vector { x: self.x.doubled(), y: self.y.doubled(), z: self.z.doubled() }
    }

    /// Straight up, that far.
    pub fn up(distance: Scalar) -> (r: Vector)
        ensures
            r == upward(distance),
    {
        Vector { x: Scalar::zero(), y: distance, z: Scalar::zero() }
    }

    /// Straight down, that far.
    pub fn down(distance: Scalar) -> (r: Vector)
        ensures
            r == upward(distance.opposite()),
    {
        Vector { x: Scalar::zero(), y: distance.negated(), z: Scalar::zero() }
    }

    /// The same vector with another height component.
    pub fn with_y(self, y: Scalar) -> (r: Vector)
        ensures
            r == (Vector { y, ..self }),
    {
        Vector { x: self.x, y, z: self.z }
    }
}

/// The vector of three zeros.
pub open spec fn origin() -> Vector {
    Vector { x: Scalar { bits: 0 }, y: Scalar { bits: 0 }, z: Scalar { bits: 0 } }
}

/// The vector that goes straight up, that far.
pub open spec fn upward(distance: Scalar) -> Vector {
    Vector { y: distance, ..origin() }
}

/// How many quanta one is.
pub open spec fn unit() -> int {
    (Scalar { bits: ONE }).value()
}

/// The dot product of two vectors, in squares of a quantum: exact, where the
/// product of two quantities would be rounded.
pub open spec fn dot(a: Vector, b: Vector) -> int {
    a.x.value() * b.x.value() + a.y.value() * b.y.value() + a.z.value() * b.z.value()
}

/// The square of a vector's length, in squares of a quantum.
pub open spec fn square(v: Vector) -> int {
    dot(v, v)
}

/// The two vectors stand for the same quantities.
pub open spec fn alike(a: Vector, b: Vector) -> bool {
    a.x.value() == b.x.value() && a.y.value() == b.y.value() && a.z.value() == b.z.value()
}

pub proof fn lemma_unit()
    ensures
        unit() > 0,
{
    assert(quanta(0) == 0);
    lemma_quanta_increase(0, ONE as nat);
}

/// A rotation, by its vector part and its scalar part.
#[derive(Clone, Copy, Debug, PartialEq, Eq, Structural)]
pub struct Rotation {
    pub v: Vector,
    pub s: Scalar,
}

impl Rotation {
    /// Turns nothing.
    pub open spec fn unturned(self) -> bool {
        self.v.null() && self.s.bits == ONE
    }

    pub fn identity() -> (r: Rotation)
        ensures
            r.unturned(),
    {
        Rotation { v: Vector::zero(), s: Scalar::new(ONE) }
    }
}

/// The patterns stand for what the format says. The sign bit negates, the
/// magnitudes from the pattern of infinity on are infinite or no number, small
/// magnitudes count quanta, and a step of the exponent doubles.
pub proof fn law_patterns_follow_the_format(s: Scalar)
    ensures
        s.negative() <==> s.bits >= 0x8000_0000u32,
        s.magnitude() == s.bits as int % 0x8000_0000,
        s.finite() <==> s.magnitude() < 0x7f80_0000,
        s.nan() <==> s.magnitude() > 0x7f80_0000,
        s.value() == if s.bits >= 0x8000_0000u32 {
            -(quanta(s.magnitude()) as int)
        } else {
            quanta(s.magnitude()) as int
        },
        s.magnitude() < 0x0100_0000 ==> quanta(s.magnitude()) == s.magnitude(),
        s.magnitude() >= 0x0080_0000 ==> quanta((s.magnitude() + 0x0080_0000) as nat) == 2 * quanta(
            s.magnitude(),
        ),
        forall|m: nat| m < s.magnitude() ==> #[trigger] quanta(m) < quanta(s.magnitude()),
        s.value() == 0 <==> s.magnitude() == 0,
{
    let m = s.magnitude();
    if m < 0x0100_0000 {
        lemma_small_quanta(m);
    }
    if m >= 0x0080_0000 {
        lemma_exponent_step_doubles(m);
    }
    assert forall|n: nat| n < m implies #[trigger] quanta(n) < quanta(m) by {
        lemma_quanta_increase(n, m);
    }
    assert(quanta(0) == 0);
    if m > 0 {
        lemma_quanta_increase(0, m);
    }
}

/// Comparing orders the quantities: exactly one of less, equal and greater holds
/// of two numbers, and none of them of what is no number. The order is that of
/// the values.
pub proof fn law_quantities_are_ordered(a: Scalar, b: Scalar, c: Scalar)
    ensures
        a.below(b) ==> a.value() < b.value() && !b.below(a) && !a.same(b),
        a.at_most(b) ==> a.value() <= b.value(),
        a.same(b) ==> a.value() == b.value() && a.at_most(b) && b.at_most(a),
        !a.nan() && !b.nan() ==> a.below(b) || a.same(b) || b.below(a),
        !a.nan() && !b.nan() && a.value() < b.value() ==> a.below(b) && a.at_most(b),
        !a.nan() && a.value() == b.value() && !b.nan() ==> a.same(b),
        a.nan() || b.nan() ==> !a.below(b) && !a.at_most(b) && !a.same(b),
        a.below(b) && b.below(c) ==> a.below(c),
        a.below(b) && b.at_most(c) ==> a.below(c),
        positive(a) <==> (Scalar { bits: 0 }).below(a),
{
    assert((Scalar { bits: 0 }).value() == 0);
}

/// The larger and the smaller of two are these two: no number is left out, the
/// larger is no less than either and the smaller no more, and a number is taken
/// where the other is none.
pub proof fn law_larger_and_smaller(a: Scalar, b: Scalar)
    ensures
        a.larger(b) == a || a.larger(b) == b,
        a.smaller(b) == a || a.smaller(b) == b,
        !a.nan() && !b.nan() ==> {
            &&& a.value() <= a.larger(b).value() && b.value() <= a.larger(b).value()
            &&& a.smaller(b).value() <= a.value() && a.smaller(b).value() <= b.value()
            &&& a.larger(b).value() + a.smaller(b).value() == a.value() + b.value()
        },
        a.nan() ==> a.larger(b) == b && a.smaller(b) == b,
        b.nan() && !a.nan() ==> a.larger(b) == a && a.smaller(b) == a,
{
}

/// What is held between two bounds is between them, is left alone if it was, and
/// is the nearer bound if it was not.
pub proof fn law_held_between_bounds(s: Scalar, low: Scalar, high: Scalar)
    requires
        !s.nan(),
        !low.nan(),
        !high.nan(),
        low.value() <= high.value(),
    ensures
        low.value() <= s.held_between(low, high).value() <= high.value(),
        low.value() <= s.value() <= high.value() ==> s.held_between(low, high) == s,
        s.value() < low.value() ==> s.held_between(low, high) == low,
        s.value() > high.value() ==> s.held_between(low, high) == high,
        !s.held_between(low, high).nan(),
{
}

/// Negating twice changes nothing, once negates the value, and a distance from
/// zero has the value without its sign. Neither makes a number of what is none.
pub proof fn law_signs(s: Scalar)
    ensures
        s.opposite().opposite() == s,
        s.opposite().value() == -s.value(),
        s.opposite().nan() == s.nan(),
        s.absolute().nan() == s.nan(),
        s.absolute().value() >= 0,
        s.absolute().value() == s.value() || s.absolute().value() == -s.value(),
        s.absolute() == s || s.absolute() == s.opposite(),
{
}

/// Doubling and halving undo each other: a double that is finite has twice the
/// value, and half of it is what it was. A half is at most half a quantum off.
pub proof fn law_doubling_and_halving(once: Scalar, twice: Scalar, half: Scalar, whole: Scalar)
    requires
        twice_of(twice, once),
        half_of(half, whole),
    ensures
        twice.finite() ==> once.finite() && twice.value() == 2 * once.value(),
        once.nan() ==> twice == once,
        !once.finite() ==> !twice.finite(),
        once.finite() && !twice.finite() ==> 2 * quanta(once.magnitude()) >= quanta(0x7f80_0000),
        twice.nan() == once.nan(),
        whole.finite() ==> half.finite() && -1 <= 2 * half.value() - whole.value() <= 1,
        whole.finite() && whole.value() % 2 == 0 ==> 2 * half.value() == whole.value(),
        whole.finite() && whole.value() % 2 != 0 ==> half.value() % 2 == 0,
        !whole.finite() ==> half == whole,
        whole == twice && twice.finite() ==> half.value() == once.value(),
{
    let n = quanta(whole.magnitude()) as int;
    if whole.finite() {
        assert(n % 4 == 0 || n % 4 == 1 || n % 4 == 2 || n % 4 == 3);
    }
}

/// The vector that goes nowhere has three zeros, and the one that goes up has
/// its distance as its height, and nothing to the sides.
pub proof fn law_straight_vectors(distance: Scalar, other: Vector)
    ensures
        origin().null(),
        upward(distance).x.bits == 0 && upward(distance).z.bits == 0,
        upward(distance).y == distance,
        square(upward(distance)) == distance.value() * distance.value(),
        dot(upward(distance), other) == distance.value() * other.y.value(),
        dot(origin(), other) == 0,
        square(other) >= 0,
        square(other) == 0 <==> other.x.value() == 0 && other.y.value() == 0 && other.z.value()
            == 0,
        alike(other, other),
{
    let zero = Scalar { bits: 0 };
    assert(zero.value() == 0);
    assert(origin().x == zero && origin().y == zero && origin().z == zero);
    let (x, y, z) = (other.x.value(), other.y.value(), other.z.value());
    assert(x * x >= 0 && y * y >= 0 && z * z >= 0) by (nonlinear_arith);
    assert(x * x == 0 <==> x == 0) by (nonlinear_arith);
    assert(y * y == 0 <==> y == 0) by (nonlinear_arith);
    assert(z * z == 0 <==> z == 0) by (nonlinear_arith);
    assert(0 * x == 0 && 0 * y == 0 && 0 * z == 0 && 0 * distance.value() == 0);
}

/// No quantity is nearer to that fraction: it is off by no more than half the
/// gap to the next one.
pub open spec fn is_nearest_to(s: Scalar, numerator: int, denominator: int) -> bool {
    let off = 2 * (denominator * s.value() - numerator * unit());
    let gap = denominator * (quanta(s.magnitude() + 1) - quanta(s.magnitude()));
    s.finite() && -gap <= off <= gap
}

/// What a pattern stands for, by its mantissa and the size of its last bit, and
/// how many of those one is.
pub proof fn lemma_pattern(s: Scalar, exponent: nat, mantissa: nat, ones: nat)
    requires
        1 <= exponent <= 150,
        0x0080_0000 <= mantissa < 0x00ff_ffff,
        s.magnitude() == (exponent - 1) * 0x0080_0000 + mantissa,
        ones == vstd::arithmetic::power2::pow2((150 - exponent) as nat),
    ensures
        ({
            let last = vstd::arithmetic::power2::pow2((exponent - 1) as nat);
            &&& last > 0
            &&& quanta(s.magnitude()) == mantissa * last
            &&& quanta(s.magnitude() + 1) - quanta(s.magnitude()) == last
            &&& unit() == ones * last
        }),
{
    let last = vstd::arithmetic::power2::pow2((exponent - 1) as nat);
    let m = s.magnitude();
    vstd::arithmetic::power2::lemma_pow2_pos((exponent - 1) as nat);
    assert(m / 0x0080_0000 == exponent && m % 0x0080_0000 == mantissa - 0x0080_0000);
    assert((m + 1) / 0x0080_0000 == exponent && (m + 1) % 0x0080_0000 == mantissa - 0x0080_0000
        + 1);
    assert((mantissa + 1) * last == mantissa * last + last) by (nonlinear_arith);
    let one = Scalar { bits: ONE };
    assert(one.magnitude() / 0x0080_0000 == 127 && one.magnitude() % 0x0080_0000 == 0);
    vstd::arithmetic::power2::lemma2_to64();
    vstd::arithmetic::power2::lemma_pow2_adds(23, 126);
    vstd::arithmetic::power2::lemma_pow2_adds((150 - exponent) as nat, (exponent - 1) as nat);
}

/// A pattern is nearest to a fraction if its mantissa is nearest to that many
/// times one.
pub proof fn lemma_nearest(
    s: Scalar,
    exponent: nat,
    mantissa: nat,
    ones: nat,
    numerator: int,
    denominator: int,
)
    requires
        1 <= exponent <= 150,
        0x0080_0000 <= mantissa < 0x00ff_ffff,
        s.magnitude() == (exponent - 1) * 0x0080_0000 + mantissa,
        ones == vstd::arithmetic::power2::pow2((150 - exponent) as nat),
        denominator > 0,
        ({
            let signed = if s.negative() {
                -mantissa
            } else {
                mantissa as int
            };
            -denominator <= 2 * (denominator * signed - numerator * ones) <= denominator
        }),
    ensures
        is_nearest_to(s, numerator, denominator),
{
    lemma_pattern(s, exponent, mantissa, ones);
    let last = vstd::arithmetic::power2::pow2((exponent - 1) as nat);
    let signed = if s.negative() {
        -mantissa
    } else {
        mantissa as int
    };
    assert(s.value() == signed * last) by (nonlinear_arith)
        requires
            s.value() == if s.negative() {
                -(mantissa * last)
            } else {
                (mantissa * last) as int
            },
            signed == if s.negative() {
                -(mantissa as int)
            } else {
                mantissa as int
            },
    ;
    let off = 2 * (denominator * signed - numerator * ones);
    assert(2 * (denominator * (signed * last) - numerator * (ones * last)) == off * last)
        by (nonlinear_arith)
        requires
            off == 2 * (denominator * signed - numerator * ones),
    ;
    assert(-(denominator * last) <= off * last <= denominator * last) by (nonlinear_arith)
        requires
            -denominator <= off <= denominator,
            last > 0,
    ;
}

/// Every quantity has a double.
pub proof fn lemma_has_a_double(once: Scalar) -> (twice: Scalar)
    ensures
        twice_of(twice, once),
{
    let m = once.magnitude();
    lemma_doubling(m);
    let d: nat = if m >= INFINITY {
        m
    } else if m < EXPONENT_STEP {
        m + m
    } else if m + EXPONENT_STEP < INFINITY {
        m + EXPONENT_STEP as nat
    } else {
        INFINITY as nat
    };
    if once.negative() {
        Scalar { bits: (d + SIGN) as u32 }
    } else {
        Scalar { bits: d as u32 }
    }
}

/// The constants stand for what they are called: one, 2^-23 and -0.01.
pub proof fn law_constants()
    ensures
        is_nearest_to(Scalar { bits: ONE }, 1, 1),
        is_nearest_to(Scalar { bits: EPSILON }, 1, 0x0080_0000),
        is_nearest_to(Scalar { bits: OVERHANG }, -1, 100),
        unit() == vstd::arithmetic::power2::pow2(149),
        0x0080_0000 * (Scalar { bits: EPSILON }).value() == unit(),
{
    vstd::arithmetic::power2::lemma2_to64();
    lemma_nearest(Scalar { bits: ONE }, 127, 0x0080_0000, 0x0080_0000, 1, 1);
    vstd::arithmetic::power2::lemma_pow2_adds(23, 23);
    lemma_pattern(Scalar { bits: EPSILON }, 104, 0x0080_0000, 0x4000_0000_0000);
    lemma_nearest(Scalar { bits: EPSILON }, 104, 0x0080_0000, 0x4000_0000_0000, 1, 0x0080_0000);
    lemma_nearest(Scalar { bits: OVERHANG }, 120, 0x00a3_d70a, 0x4000_0000, -1, 100);
    vstd::arithmetic::power2::lemma_pow2_adds(23, 126);
    lemma_pattern(Scalar { bits: ONE }, 127, 0x0080_0000, 0x0080_0000);
}

}
