//! Sliding along what is in the way, and stepping up onto it.
//!
//! Three processes that alternate between decisions, made here, and work that
//! needs the physics world or arithmetic on quantities: clipping a vector
//! against planes, sliding along surfaces, and stepping up. Each keeps a phase,
//! tells what it needs next, and takes the answer.

use vstd::prelude::*;
use crate::contact::{consider_slide_contact, is_repeated, push_box3d_touch, OverlapContact};
use crate::controller::{
    Box3dCastHit, Box3dCharacterController, Box3dCharacterControllerState,
    CharacterControllerOutput, TouchingEntity,
};
use crate::entity::Entity;
use crate::motion::{SHORT, TINY};
use crate::runtime::{Box3dRuntime, Links};
use crate::scalar::{Scalar, Vector, EPSILON, OVERHANG};

verus! {

/// Rounds that clipping a vector against planes takes at most.
pub const MAX_BOX3D_CLIP_PASSES: usize = 32;

/// What clipping needs next.
#[derive(Clone, Copy, Debug, PartialEq, Eq, Structural)]
pub enum ClipTask {
    /// The vector held against the plane with this index.
    Meet(usize),
    /// How far the vector moved in this round.
    Settle,
    /// Nothing: the vector is clipped.
    Done,
}

/// Where a clip stands.
#[derive(Clone, Copy, Debug, PartialEq, Eq, Structural)]
pub struct ClipState {
    pub vector: Vector,
    /// The vector at the start of the round.
    pub before: Vector,
    /// The vertical component at the very start.
    pub original_y: Scalar,
    pub passes_left: usize,
    pub next_plane: usize,
    pub planes: usize,
}

impl ClipState {
    /// The next plane is one of the planes, or there is none left.
    pub open spec fn well_formed(self) -> bool {
        self.next_plane <= self.planes < usize::MAX
    }

    pub open spec fn wants(self) -> ClipTask {
        if self.passes_left == 0 {
            ClipTask::Done
        } else if self.next_plane < self.planes {
            ClipTask::Meet(self.next_plane)
        } else {
            ClipTask::Settle
        }
    }

    /// The clipped vector, held up if clipping turned it down.
    pub open spec fn outcome(self) -> Vector {
        held_up(self.original_y, self.vector)
    }

    /// Answers that clipping still takes at most.
    pub open spec fn budget(self) -> int {
        self.passes_left * (self.planes + 1) - self.next_plane
    }

    /// The clip of a vector before any answer.
    pub open spec fn start(vector: Vector, planes: usize) -> ClipState {
        ClipState {
            vector,
            before: vector,
            original_y: vector.y,
            passes_left: MAX_BOX3D_CLIP_PASSES,
            next_plane: 0,
            planes,
        }
    }

    /// The clip after the vector was held against the next plane: what is left
    /// of it replaces the vector if the vector points into the plane.
    pub open spec fn after_meeting(self, into: Scalar, deflected: Vector) -> ClipState {
        ClipState {
            vector: if into.below(Scalar { bits: 0 }) {
                deflected
            } else {
                self.vector
            },
            next_plane: (self.next_plane + 1) as usize,
            ..self
        }
    }

    /// The clip after a round: over if the vector hardly moved.
    pub open spec fn after_settling(self, moved_squared: Scalar) -> ClipState {
        ClipState {
            before: self.vector,
            passes_left: if moved_squared.at_most(Scalar { bits: TINY }) {
                0
            } else {
                (self.passes_left - 1) as usize
            },
            next_plane: 0,
            ..self
        }
    }
}

/// A vector that is clipped against planes, round after round, until a round
/// hardly changes it.
#[derive(Clone, Copy, Debug, PartialEq, Eq, Structural)]
pub struct Clip {
    at: ClipState,
}

impl View for Clip {
    type V = ClipState;

    closed spec fn view(&self) -> ClipState {
        self.at
    }
}

impl Clip {
    #[verifier::type_invariant]
    spec fn wf(self) -> bool {
        self.at.well_formed()
    }

    pub fn new(vector: Vector, planes: usize) -> (r: Clip)
        requires
            planes < usize::MAX,
        ensures
            r@.well_formed(),
            r@ == ClipState::start(vector, planes),
    {
        Clip {
            at: ClipState {
                vector,
                before: vector,
                original_y: vector.y,
                passes_left: MAX_BOX3D_CLIP_PASSES,
                next_plane: 0,
                planes,
            },
        }
    }

    /// The vector as it is now.
    pub fn vector(&self) -> (r: Vector)
        ensures
            r == self@.vector,
    {
        self.at.vector
    }

    /// The vector at the start of the round.
    pub fn before(&self) -> (r: Vector)
        ensures
            r == self@.before,
    {
        self.at.before
    }

    pub fn task(&self) -> (r: ClipTask)
        ensures
            r == self@.wants(),
    {
        if self.at.passes_left == 0 {
            ClipTask::Done
        } else if self.at.next_plane < self.at.planes {
            ClipTask::Meet(self.at.next_plane)
        } else {
            ClipTask::Settle
        }
    }

    /// Takes the vector's part along the plane's normal, and the vector without
    /// that part: it replaces the vector if the vector points into the plane.
    pub fn meet(&mut self, into: Scalar, deflected: Vector)
        requires
            old(self)@.wants() is Meet,
        ensures
            final(self)@.well_formed(),
            final(self)@ == old(self)@.after_meeting(into, deflected),
            0 <= final(self)@.budget() < old(self)@.budget(),
    {
        proof {
            use_type_invariant(&*self);
            lemma_budget(self.at.passes_left as int, self.at.planes as int);
        }
        let vector = if into.lt(Scalar::zero()) {
            deflected
        } else {
            self.at.vector
        };
        self.at = ClipState { vector, next_plane: self.at.next_plane + 1, ..self.at };
    }

    /// Ends a round. It was the last one if the vector hardly moved in it, or if
    /// there is none left.
    pub fn settle(&mut self, moved_squared: Scalar)
        requires
            old(self)@.wants() == ClipTask::Settle,
        ensures
            final(self)@.well_formed(),
            final(self)@ == old(self)@.after_settling(moved_squared),
            0 <= final(self)@.budget() < old(self)@.budget(),
    {
        proof {
            use_type_invariant(&*self);
            lemma_budget(self.at.passes_left as int, self.at.planes as int);
            lemma_round(self.at.passes_left as int, self.at.planes as int);
        }
        let passes_left: usize = if moved_squared.le(Scalar::new(TINY)) {
            0
        } else {
            self.at.passes_left - 1
        };
        self.at = ClipState { before: self.at.vector, passes_left, next_plane: 0, ..self.at };
    }

    /// The clipped vector, brought back up if clipping turned it down.
    pub fn held(&self) -> (r: Vector)
        ensures
            r == held_up(self@.original_y, self@.vector),
            r == self@.outcome(),
    {
        let (start, vector) = (self.at.original_y, self.at.vector);
        if start.le(Scalar::zero()) && vector.y.lt(start) {
            vector.with_y(start)
        } else {
            vector
        }
    }
}

proof fn lemma_budget(passes: int, planes: int)
    requires
        passes >= 1,
        planes >= 0,
    ensures
        passes * (planes + 1) >= planes + 1,
{
    assert(passes * (planes + 1) >= planes + 1) by (nonlinear_arith)
        requires
            passes >= 1,
            planes >= 0,
    ;
}

proof fn lemma_round(passes: int, planes: int)
    requires
        passes >= 1,
        planes >= 0,
    ensures
        (passes - 1) * (planes + 1) == passes * (planes + 1) - (planes + 1),
        (passes - 1) * (planes + 1) >= 0,
        0 * (planes + 1) == 0,
{
    assert((passes - 1) * (planes + 1) == passes * (planes + 1) - (planes + 1)) by (nonlinear_arith);
    assert((passes - 1) * (planes + 1) >= 0) by (nonlinear_arith)
        requires
            passes >= 1,
            planes >= 0,
    ;
}

/// A vector that did not point up is not turned farther down.
pub open spec fn held_up(original_y: Scalar, vector: Vector) -> Vector {
    if original_y.at_most(Scalar { bits: 0 }) && vector.y.below(original_y) {
        Vector { y: original_y, ..vector }
    } else {
        vector
    }
}

/// A vector with next to no length is none.
pub open spec fn faded(vector: Vector, length_squared: Scalar) -> Vector {
    if length_squared.at_most(Scalar { bits: TINY }) {
        crate::scalar::origin()
    } else {
        vector
    }
}

pub fn fade(vector: Vector, length_squared: Scalar) -> (r: Vector)
    ensures
        r == faded(vector, length_squared),
{
    if length_squared.le(Scalar::new(TINY)) {
        Vector::zero()
    } else {
        vector
    }
}

/// Clipping ends: however the vector moves, no more answers are asked for than
/// there are rounds, each over all planes and once more to settle.
pub proof fn law_clipping_ends(vector: Vector, planes: usize)
    ensures
        ClipState::start(vector, planes).budget() == MAX_BOX3D_CLIP_PASSES * (planes + 1),
        forall|c: ClipState| #[trigger]
            c.well_formed() && c.wants() != ClipTask::Done ==> c.budget() > 0,
{
    assert forall|c: ClipState| #[trigger]
        c.well_formed() && c.wants() != ClipTask::Done implies c.budget() > 0 by {
        lemma_budget(c.passes_left as int, c.planes as int);
    }
}

/// The arithmetic that clipping asks for, on a vector and the index of a plane.
pub struct ClipArithmetic {
    /// The vector's part along the plane's normal.
    pub into: spec_fn(Vector, int) -> Scalar,
    /// The vector without that part.
    pub deflected: spec_fn(Vector, int) -> Vector,
    /// The square of the distance between two vectors.
    pub moved: spec_fn(Vector, Vector) -> Scalar,
}

/// A vector clipped once against each of the first `planes` planes, in order.
pub open spec fn clipped_once(a: ClipArithmetic, vector: Vector, planes: nat) -> Vector
    decreases planes,
{
    if planes == 0 {
        vector
    } else {
        let last = planes - 1;
        let so_far = clipped_once(a, vector, last as nat);
        if (a.into)(so_far, last).below(Scalar { bits: 0 }) {
            (a.deflected)(so_far, last)
        } else {
            so_far
        }
    }
}

/// A vector clipped in at most that many rounds; a round that hardly moves it
/// is the last.
pub open spec fn clipped_in_rounds(
    a: ClipArithmetic,
    vector: Vector,
    planes: nat,
    rounds: nat,
) -> Vector
    decreases rounds,
{
    if rounds == 0 {
        vector
    } else {
        let next = clipped_once(a, vector, planes);
        if (a.moved)(next, vector).at_most(Scalar { bits: TINY }) {
            next
        } else {
            clipped_in_rounds(a, next, planes, (rounds - 1) as nat)
        }
    }
}

/// The vector that a clip ends with when that arithmetic answers it.
pub open spec fn answered(a: ClipArithmetic, c: ClipState) -> Vector
    decreases c.budget(),
    when c.well_formed()
    via answers_run_out
{
    match c.wants() {
        ClipTask::Meet(i) => answered(
            a,
            c.after_meeting((a.into)(c.vector, i as int), (a.deflected)(c.vector, i as int)),
        ),
        ClipTask::Settle => answered(a, c.after_settling((a.moved)(c.vector, c.before))),
        ClipTask::Done => c.vector,
    }
}

#[via_fn]
proof fn answers_run_out(a: ClipArithmetic, c: ClipState) {
    if c.wants() != ClipTask::Done {
        let i = c.next_plane as int;
        lemma_answer_shrinks(
            c,
            (a.into)(c.vector, i),
            (a.deflected)(c.vector, i),
            (a.moved)(c.vector, c.before),
        );
    }
}

proof fn lemma_answer_shrinks(c: ClipState, into: Scalar, deflected: Vector, moved: Scalar)
    requires
        c.well_formed(),
        c.wants() != ClipTask::Done,
    ensures
        c.wants() is Meet ==> 0 <= c.after_meeting(into, deflected).budget() < c.budget()
            && c.after_meeting(into, deflected).well_formed(),
        c.wants() == ClipTask::Settle ==> 0 <= c.after_settling(moved).budget() < c.budget()
            && c.after_settling(moved).well_formed(),
{
    lemma_budget(c.passes_left as int, c.planes as int);
    lemma_round(c.passes_left as int, c.planes as int);
}

proof fn lemma_round_answered(a: ClipArithmetic, c: ClipState)
    requires
        c.well_formed(),
        c.passes_left > 0,
        c.vector == clipped_once(a, c.before, c.next_plane as nat),
    ensures
        answered(a, c) == answered(
            a,
            ClipState {
                vector: clipped_once(a, c.before, c.planes as nat),
                next_plane: c.planes,
                ..c
            },
        ),
    decreases c.planes - c.next_plane,
{
    if c.next_plane < c.planes {
        let i = c.next_plane as int;
        lemma_answer_shrinks(
            c,
            (a.into)(c.vector, i),
            (a.deflected)(c.vector, i),
            (a.moved)(c.vector, c.before),
        );
        let next = c.after_meeting((a.into)(c.vector, i), (a.deflected)(c.vector, i));
        assert(next.vector == clipped_once(a, next.before, next.next_plane as nat));
        lemma_round_answered(a, next);
    }
}

proof fn lemma_rounds_answered(a: ClipArithmetic, c: ClipState)
    requires
        c.well_formed(),
        c.next_plane == 0,
        c.vector == c.before,
    ensures
        answered(a, c) == clipped_in_rounds(a, c.vector, c.planes as nat, c.passes_left as nat),
    decreases c.passes_left,
{
    if c.passes_left > 0 {
        lemma_round_answered(a, c);
        let end = ClipState {
            vector: clipped_once(a, c.before, c.planes as nat),
            next_plane: c.planes,
            ..c
        };
        let moved = (a.moved)(end.vector, end.before);
        lemma_answer_shrinks(end, moved, end.vector, moved);
        let next = end.after_settling(moved);
        assert(answered(a, end) == answered(a, next));
        if next.passes_left > 0 {
            lemma_rounds_answered(a, next);
        } else {
            assert(answered(a, next) == next.vector);
            assert(clipped_in_rounds(a, next.vector, c.planes as nat, 0) == next.vector);
        }
    }
}

/// Clipping one answer at a time comes to the same as rounds over all planes:
/// whatever the arithmetic says, the vector ends where the rounds leave it.
pub proof fn law_clipping_goes_in_rounds(a: ClipArithmetic, vector: Vector, planes: usize)
    requires
        planes < usize::MAX,
    ensures
        answered(a, ClipState::start(vector, planes)) == clipped_in_rounds(
            a,
            vector,
            planes as nat,
            MAX_BOX3D_CLIP_PASSES as nat,
        ),
{
    lemma_rounds_answered(a, ClipState::start(vector, planes));
}

/// The arithmetic is exact where that vector meets a plane with that index and
/// normal: neither its part along the normal nor what is left without that part
/// is rounded.
pub open spec fn meets_exactly(a: ClipArithmetic, vector: Vector, normal: Vector, i: int) -> bool {
    let one = crate::scalar::unit();
    let into = (a.into)(vector, i);
    let left = (a.deflected)(vector, i);
    &&& !into.nan()
    &&& into.value() * one == crate::scalar::dot(vector, normal)
    &&& left.x.value() * one == vector.x.value() * one - normal.x.value() * into.value()
    &&& left.y.value() * one == vector.y.value() * one - normal.y.value() * into.value()
    &&& left.z.value() * one == vector.z.value() * one - normal.z.value() * into.value()
}

/// The normals are at most about one long, as normals at unit length are: the
/// squares of their lengths are below two.
pub open spec fn are_normals(normals: Seq<Vector>) -> bool {
    forall|i: int|
        0 <= i < normals.len() ==> crate::scalar::square(#[trigger] normals[i]) < 2
            * crate::scalar::unit() * crate::scalar::unit()
}

/// A round over the first `planes` planes is exact.
pub open spec fn round_is_exact(
    a: ClipArithmetic,
    vector: Vector,
    normals: Seq<Vector>,
    planes: nat,
) -> bool
    decreases planes,
{
    planes > 0 ==> {
        let last = planes - 1;
        &&& round_is_exact(a, vector, normals, last as nat)
        &&& meets_exactly(a, clipped_once(a, vector, last as nat), normals[last], last)
    }
}

/// All rounds that are made are exact.
pub open spec fn rounds_are_exact(
    a: ClipArithmetic,
    vector: Vector,
    normals: Seq<Vector>,
    rounds: nat,
) -> bool
    decreases rounds,
{
    rounds > 0 ==> {
        let next = clipped_once(a, vector, normals.len());
        &&& round_is_exact(a, vector, normals, normals.len())
        &&& (a.moved)(next, vector).at_most(Scalar { bits: TINY }) || rounds_are_exact(
            a,
            next,
            normals,
            (rounds - 1) as nat,
        )
    }
}

/// The vector at the start of the last round.
pub open spec fn before_last_round(
    a: ClipArithmetic,
    vector: Vector,
    planes: nat,
    rounds: nat,
) -> Vector
    decreases rounds,
{
    let next = clipped_once(a, vector, planes);
    if rounds <= 1 || (a.moved)(next, vector).at_most(Scalar { bits: TINY }) {
        vector
    } else {
        before_last_round(a, next, planes, (rounds - 1) as nat)
    }
}

/// Taking a vector's part along a normal away shortens it, unless there is no
/// such part.
proof fn lemma_deflection_shortens(v: Vector, n: Vector, d: Vector, into: int)
    requires
        into * crate::scalar::unit() == crate::scalar::dot(v, n),
        d.x.value() * crate::scalar::unit() == v.x.value() * crate::scalar::unit() - n.x.value()
            * into,
        d.y.value() * crate::scalar::unit() == v.y.value() * crate::scalar::unit() - n.y.value()
            * into,
        d.z.value() * crate::scalar::unit() == v.z.value() * crate::scalar::unit() - n.z.value()
            * into,
        crate::scalar::square(n) < 2 * crate::scalar::unit() * crate::scalar::unit(),
        into != 0,
    ensures
        crate::scalar::square(d) < crate::scalar::square(v),
{
    let u = crate::scalar::unit();
    crate::scalar::lemma_unit();
    let (vx, vy, vz) = (v.x.value(), v.y.value(), v.z.value());
    let (nx, ny, nz) = (n.x.value(), n.y.value(), n.z.value());
    let (dx, dy, dz) = (d.x.value(), d.y.value(), d.z.value());
    lemma_part_taken_away(vx, nx, dx, into, u);
    lemma_part_taken_away(vy, ny, dy, into, u);
    lemma_part_taken_away(vz, nz, dz, into, u);
    let (vv, nn, dd, vn) = (
        vx * vx + vy * vy + vz * vz,
        nx * nx + ny * ny + nz * nz,
        dx * dx + dy * dy + dz * dz,
        vx * nx + vy * ny + vz * nz,
    );
    let (uu, tt, ut) = (u * u, into * into, u * into);
    assert(dd * uu == (dx * dx) * uu + (dy * dy) * uu + (dz * dz) * uu) by (nonlinear_arith)
        requires
            dd == dx * dx + dy * dy + dz * dz,
    ;
    assert(vv * uu == (vx * vx) * uu + (vy * vy) * uu + (vz * vz) * uu) by (nonlinear_arith)
        requires
            vv == vx * vx + vy * vy + vz * vz,
    ;
    assert(vn * ut == (vx * nx) * ut + (vy * ny) * ut + (vz * nz) * ut) by (nonlinear_arith)
        requires
            vn == vx * nx + vy * ny + vz * nz,
    ;
    assert(nn * tt == (nx * nx) * tt + (ny * ny) * tt + (nz * nz) * tt) by (nonlinear_arith)
        requires
            nn == nx * nx + ny * ny + nz * nz,
    ;
    assert(dd * uu == vv * uu - 2 * (vn * ut) + nn * tt);
    assert(vn * ut == tt * uu) by (nonlinear_arith)
        requires
            vn == into * u,
            ut == u * into,
            tt == into * into,
            uu == u * u,
    ;
    assert(nn * tt < 2 * (tt * uu)) by (nonlinear_arith)
        requires
            nn < 2 * u * u,
            uu == u * u,
            tt == into * into,
            into != 0,
    ;
    assert(dd < vv) by (nonlinear_arith)
        requires
            dd * uu < vv * uu,
            uu == u * u,
            u > 0,
    ;
}

proof fn lemma_part_taken_away(v: int, n: int, d: int, into: int, u: int)
    requires
        d * u == v * u - n * into,
    ensures
        (d * d) * (u * u) == (v * v) * (u * u) - 2 * ((v * n) * (u * into)) + (n * n) * (into
            * into),
{
    let (a, b) = (v * u, n * into);
    assert((d * d) * (u * u) == (d * u) * (d * u)) by (nonlinear_arith);
    assert((a - b) * (a - b) == a * a - 2 * (a * b) + b * b) by (nonlinear_arith);
    assert((v * u) * (v * u) == (v * v) * (u * u)) by (nonlinear_arith);
    assert((v * u) * (n * into) == (v * n) * (u * into)) by (nonlinear_arith);
    assert((n * into) * (n * into) == (n * n) * (into * into)) by (nonlinear_arith);
}

/// A round shortens the vector, or it points into none of the planes and stays
/// as it is.
proof fn lemma_round_shortens(a: ClipArithmetic, vector: Vector, normals: Seq<Vector>, planes: nat)
    requires
        planes <= normals.len(),
        are_normals(normals),
        round_is_exact(a, vector, normals, planes),
    ensures
        ({
            let end = clipped_once(a, vector, planes);
            ||| crate::scalar::square(end) < crate::scalar::square(vector)
            ||| end == vector && forall|i: int|
                0 <= i < planes ==> crate::scalar::dot(vector, #[trigger] normals[i]) >= 0
        }),
    decreases planes,
{
    if planes > 0 {
        let last = planes - 1;
        lemma_round_shortens(a, vector, normals, last as nat);
        let so_far = clipped_once(a, vector, last as nat);
        let into = (a.into)(so_far, last);
        let normal = normals[last];
        let one = crate::scalar::unit();
        crate::scalar::lemma_unit();
        assert((Scalar { bits: 0 }).value() == 0);
        if into.below(Scalar { bits: 0 }) {
            lemma_deflection_shortens(so_far, normal, (a.deflected)(so_far, last), into.value());
        } else {
            assert(crate::scalar::dot(so_far, normal) >= 0) by (nonlinear_arith)
                requires
                    into.value() * one == crate::scalar::dot(so_far, normal),
                    into.value() >= 0,
                    one > 0,
            ;
        }
    }
}

proof fn lemma_rounds_shorten(
    a: ClipArithmetic,
    vector: Vector,
    normals: Seq<Vector>,
    rounds: nat,
)
    requires
        are_normals(normals),
        rounds_are_exact(a, vector, normals, rounds),
    ensures
        crate::scalar::square(clipped_in_rounds(a, vector, normals.len(), rounds))
            <= crate::scalar::square(vector),
        rounds > 0 ==> ({
            let last = before_last_round(a, vector, normals.len(), rounds);
            &&& round_is_exact(a, last, normals, normals.len())
            &&& clipped_in_rounds(a, vector, normals.len(), rounds) == clipped_once(
                a,
                last,
                normals.len(),
            )
        }),
    decreases rounds,
{
    if rounds > 0 {
        lemma_round_shortens(a, vector, normals, normals.len());
        let next = clipped_once(a, vector, normals.len());
        if !(a.moved)(next, vector).at_most(Scalar { bits: TINY }) {
            lemma_rounds_shorten(a, next, normals, (rounds - 1) as nat);
            if rounds == 1 {
                assert(clipped_in_rounds(a, next, normals.len(), 0) == next);
            }
        }
    }
}

/// Clipping never makes a vector longer, in exact arithmetic: neither do the
/// rounds, nor is it longer once it is held up and faded.
pub proof fn law_clipping_never_lengthens(
    a: ClipArithmetic,
    vector: Vector,
    normals: Seq<Vector>,
    rounds: nat,
    length_squared: Scalar,
)
    requires
        are_normals(normals),
        rounds_are_exact(a, vector, normals, rounds),
    ensures
        ({
            let clipped = clipped_in_rounds(a, vector, normals.len(), rounds);
            &&& crate::scalar::square(clipped) <= crate::scalar::square(vector)
            &&& crate::scalar::square(faded(held_up(vector.y, clipped), length_squared))
                <= crate::scalar::square(vector)
        }),
{
    lemma_rounds_shorten(a, vector, normals, rounds);
    let clipped = clipped_in_rounds(a, vector, normals.len(), rounds);
    let held = held_up(vector.y, clipped);
    assert((Scalar { bits: 0 }).value() == 0);
    assert(crate::scalar::square(held) <= crate::scalar::square(clipped)) by {
        let (from, to) = (clipped.y.value(), held.y.value());
        assert(to * to <= from * from) by (nonlinear_arith)
            requires
                to == from || from < to <= 0,
        ;
    }
    assert(crate::scalar::square(crate::scalar::origin()) == 0) by {
        assert(crate::scalar::origin().x.value() == 0);
    }
    assert(crate::scalar::square(vector) >= 0) by {
        let (x, y, z) = (vector.x.value(), vector.y.value(), vector.z.value());
        assert(x * x >= 0 && y * y >= 0 && z * z >= 0) by (nonlinear_arith);
    }
}

/// A clip whose last round changed nothing points into no plane, in exact
/// arithmetic.
pub proof fn law_settled_clip_points_into_no_plane(
    a: ClipArithmetic,
    vector: Vector,
    normals: Seq<Vector>,
    rounds: nat,
)
    requires
        are_normals(normals),
        rounds > 0,
        rounds_are_exact(a, vector, normals, rounds),
        crate::scalar::alike(
            clipped_in_rounds(a, vector, normals.len(), rounds),
            before_last_round(a, vector, normals.len(), rounds),
        ),
    ensures
        forall|i: int|
            0 <= i < normals.len() ==> crate::scalar::dot(
                clipped_in_rounds(a, vector, normals.len(), rounds),
                #[trigger] normals[i],
            ) >= 0,
{
    lemma_rounds_shorten(a, vector, normals, rounds);
    let last = before_last_round(a, vector, normals.len(), rounds);
    lemma_round_shortens(a, last, normals, normals.len());
}

/// Clipping never turns a vector down: one that did not point up ends no lower
/// than it started, whatever the planes made of it.
pub proof fn law_clipping_never_pulls_down(original_y: Scalar, vector: Vector, length_squared: Scalar)
    requires
        original_y.at_most(Scalar { bits: 0 }),
    ensures
        !faded(held_up(original_y, vector), length_squared).y.below(original_y),
{
    assert((Scalar { bits: 0 }).value() == 0);
}

/// What a slide needs next.
#[derive(Clone, Copy, Debug, PartialEq, Eq, Structural)]
pub enum SlidePhase {
    /// The length of what remains of the movement.
    Measure,
    /// The planes that the character already reaches into.
    Overlap,
    /// What a cast along the remaining movement meets.
    Cast,
    /// Velocity and remaining movement, clipped against the planes.
    Clip,
    /// Nothing: the slide is over.
    Done,
}

/// How far a character goes in one pass of a slide.
#[derive(Clone, Copy, Debug, PartialEq, Eq, Structural)]
pub enum SlideMove {
    /// All of the remaining movement.
    All,
    /// So far along it, and then off the surface by the skin if `pushed_off`.
    Part { travel: Scalar, pushed_off: bool },
}

/// Where a slide stands.
#[verifier::ext_equal]
pub struct SlideState {
    pub phase: SlidePhase,
    /// What is left of the movement.
    pub remaining: Vector,
    /// Normals of the planes met so far.
    pub planes: Seq<Vector>,
    /// Whether the overlaps of this pass added to them.
    pub added: bool,
    pub passes_left: nat,
}

impl SlideState {
    /// A slide before its first pass.
    pub open spec fn start(cfg: Box3dCharacterController, movement: Vector) -> SlideState {
        SlideState {
            phase: SlidePhase::Measure,
            remaining: movement,
            planes: Seq::empty(),
            added: false,
            passes_left: cfg.max_slides as nat,
        }
    }

    /// Answers that the slide still takes at most, overlaps not counted.
    pub open spec fn budget(self) -> nat {
        match self.phase {
            SlidePhase::Measure => 4 * self.passes_left + 1,
            SlidePhase::Overlap => 4 * self.passes_left + 4,
            SlidePhase::Cast => 4 * self.passes_left + 3,
            SlidePhase::Clip => 4 * self.passes_left + 2,
            SlidePhase::Done => 0,
        }
    }

    /// Another pass starts, if one is left and the movement is not used up.
    pub open spec fn after_measuring(self, remaining_squared: Scalar) -> SlideState {
        if self.passes_left == 0 || remaining_squared.at_most(Scalar { bits: EPSILON }) {
            SlideState { phase: SlidePhase::Done, ..self }
        } else {
            SlideState {
                phase: SlidePhase::Overlap,
                added: false,
                passes_left: (self.passes_left - 1) as nat,
                ..self
            }
        }
    }

    /// A plane that the character already reaches into, and runs into, joins
    /// the planes if it is none of them.
    pub open spec fn after_overlap(
        self,
        links: Links,
        state: Box3dCharacterControllerState,
        contact: OverlapContact,
        approach: Scalar,
        likeness: Seq<Scalar>,
    ) -> SlideState {
        if !links.holds_shape(state.held_body, contact.shape) && approach.below(
            crate::contact::grazing(),
        ) && !crate::contact::repeats(likeness) {
            SlideState { planes: self.planes.push(contact.normal), added: true, ..self }
        } else {
            self
        }
    }

    /// More overlaps are looked for after that one.
    pub open spec fn looks_on(
        self,
        links: Links,
        state: Box3dCharacterControllerState,
        contact: OverlapContact,
    ) -> bool {
        links.holds_shape(state.held_body, contact.shape) || self.planes.len()
            < crate::contact::MAX_BOX3D_DEPENETRATION_PLANES
    }

    /// New planes are clipped against at once, else the movement is cast.
    pub open spec fn after_overlaps(self) -> SlideState {
        SlideState {
            phase: if self.added {
                SlidePhase::Clip
            } else {
                SlidePhase::Cast
            },
            ..self
        }
    }

    /// Without a hit the slide is over. The normal of a hit joins the planes,
    /// if it is none of them.
    pub open spec fn after_meeting(
        self,
        hit: Option<Box3dCastHit>,
        likeness: Seq<Scalar>,
    ) -> SlideState {
        match hit {
            None => SlideState { phase: SlidePhase::Done, ..self },
            Some(hit) => SlideState {
                phase: SlidePhase::Clip,
                planes: if crate::contact::repeats(likeness) {
                    self.planes
                } else {
                    self.planes.push(hit.normal)
                },
                ..self
            },
        }
    }

    pub open spec fn after_clipping(self, remaining: Vector) -> SlideState {
        SlideState { phase: SlidePhase::Measure, remaining, ..self }
    }
}

/// A movement that slides along what it runs into.
#[derive(Debug)]
pub struct Slide {
    phase: SlidePhase,
    remaining: Vector,
    planes: Vec<Vector>,
    added: bool,
    passes_left: usize,
}

impl View for Slide {
    type V = SlideState;

    closed spec fn view(&self) -> SlideState {
        SlideState {
            phase: self.phase,
            remaining: self.remaining,
            planes: self.planes@,
            added: self.added,
            passes_left: self.passes_left as nat,
        }
    }
}

impl Slide {
    pub fn new(cfg: &Box3dCharacterController, movement: Vector) -> (r: Slide)
        ensures
            r@ == SlideState::start(*cfg, movement),
    {
        let r = Slide {
            phase: SlidePhase::Measure,
            remaining: movement,
            planes: Vec::new(),
            added: false,
            passes_left: cfg.max_slides,
        };
        assert(r@.planes =~= Seq::empty());
        r
    }

    pub fn phase(&self) -> (r: SlidePhase)
        ensures
            r == self@.phase,
    {
        self.phase
    }

    /// What is left of the movement.
    pub fn remaining(&self) -> (r: Vector)
        ensures
            r == self@.remaining,
    {
        self.remaining
    }

    /// Normals of the planes met so far.
    pub fn planes(&self) -> (r: &Vec<Vector>)
        ensures
            r@ == self@.planes,
    {
        &self.planes
    }

    /// Starts another pass, if one is left and the movement is not used up.
    pub fn measured(&mut self, remaining_squared: Scalar)
        requires
            old(self)@.phase == SlidePhase::Measure,
        ensures
            final(self)@ == old(self)@.after_measuring(remaining_squared),
            final(self)@.budget() < old(self)@.budget(),
    {
        if self.passes_left == 0 || remaining_squared.le(Scalar::new(EPSILON)) {
            self.phase = SlidePhase::Done;
        } else {
            self.passes_left = self.passes_left - 1;
            self.added = false;
            self.phase = SlidePhase::Overlap;
        }
    }

    /// Takes a plane that the character already reaches into: `approach` is the
    /// movement along its normal, and `likeness` what the normal has in common
    /// with each of the planes met so far. Returns whether to go on looking.
    pub fn overlap(
        &mut self,
        runtime: &Box3dRuntime,
        state: &Box3dCharacterControllerState,
        contact: &OverlapContact,
        approach: Scalar,
        likeness: &Vec<Scalar>,
    ) -> (r: bool)
        requires
            old(self)@.phase == SlidePhase::Overlap,
        ensures
            final(self)@ == old(self)@.after_overlap(
                runtime@,
                *state,
                *contact,
                approach,
                likeness@,
            ),
            r == (runtime@.holds_shape(state.held_body, contact.shape) || final(self)@.planes.len()
                < crate::contact::MAX_BOX3D_DEPENETRATION_PLANES),
            r == final(self)@.looks_on(runtime@, *state, *contact),
    {
        consider_slide_contact(
            runtime,
            state,
            &mut self.planes,
            &mut self.added,
            contact,
            approach,
            likeness,
        )
    }

    /// Goes on once the overlaps are gathered: new planes are clipped against
    /// at once, else the movement is cast.
    pub fn overlapped(&mut self)
        requires
            old(self)@.phase == SlidePhase::Overlap,
        ensures
            final(self)@ == old(self)@.after_overlaps(),
            final(self)@.budget() < old(self)@.budget(),
    {
        self.phase = if self.added {
            SlidePhase::Clip
        } else {
            SlidePhase::Cast
        };
    }

    /// Takes what the cast met. Without a hit the movement is made in full and
    /// the slide is over. A hit is noted as a touch at the character's present
    /// position and velocity, and its normal joins the planes, unless
    /// `likeness`, what it has in common with each of them, says that it is one
    /// of them.
    pub fn met(
        &mut self,
        output: &mut CharacterControllerOutput,
        hit: &Option<Box3dCastHit>,
        direction: Option<Vector>,
        position: Vector,
        velocity: Vector,
        likeness: &Vec<Scalar>,
    ) -> (r: SlideMove)
        requires
            old(self)@.phase == SlidePhase::Cast,
        ensures
            final(self)@ == old(self)@.after_meeting(*hit, likeness@),
            final(self)@.budget() < old(self)@.budget(),
            final(output).mantle == old(output).mantle,
            final(output).touching_entities@ == old(output).touching_entities@ + touches_of(
                *hit,
                direction,
                position,
                velocity,
            ),
            r == (match *hit {
                Some(hit) => slide_move_to(hit),
                None => SlideMove::All,
            }),
            r == move_by(*hit),
    {
        match hit {
            None => {
                self.phase = SlidePhase::Done;
                assert(output.touching_entities@ + Seq::<TouchingEntity>::empty()
                    =~= output.touching_entities@);
                SlideMove::All
            },
            Some(hit) => {
                push_box3d_touch(output, hit, direction, position, velocity);
                if !is_repeated(likeness) {
                    self.planes.push(hit.normal);
                }
                self.phase = SlidePhase::Clip;
                let travel = hit.distance.max(Scalar::zero());
                SlideMove::Part {
                    travel,
                    pushed_off: Scalar::new(SHORT).lt(travel) && Scalar::new(OVERHANG).le(
                        hit.normal.y,
                    ),
                }
            },
        }
    }

    /// Takes the clipped velocity, the speed lost against walls so far, and the
    /// clipped remainder of the movement.
    pub fn clipped(
        &mut self,
        state: &mut Box3dCharacterControllerState,
        velocity: Vector,
        tac_velocity: Scalar,
        remaining: Vector,
    )
        requires
            old(self)@.phase == SlidePhase::Clip,
        ensures
            final(self)@ == old(self)@.after_clipping(remaining),
            *final(state) == (Box3dCharacterControllerState {
                velocity,
                tac_velocity,
                ..*old(state)
            }),
            *final(state) == turned_aside(*old(state), velocity, tac_velocity),
            final(self)@.budget() < old(self)@.budget(),
    {
        state.velocity = velocity;
        state.tac_velocity = tac_velocity;
        self.remaining = remaining;
        self.phase = SlidePhase::Measure;
    }
}

/// The state of a character whose velocity was clipped.
pub open spec fn turned_aside(
    state: Box3dCharacterControllerState,
    velocity: Vector,
    tac_velocity: Scalar,
) -> Box3dCharacterControllerState {
    Box3dCharacterControllerState { velocity, tac_velocity, ..state }
}

/// How far a slide goes by what its cast met.
pub open spec fn move_by(hit: Option<Box3dCastHit>) -> SlideMove {
    match hit {
        Some(hit) => slide_move_to(hit),
        None => SlideMove::All,
    }
}

/// The touches to note for what a cast met.
pub open spec fn touches_of(
    hit: Option<Box3dCastHit>,
    direction: Option<Vector>,
    position: Vector,
    velocity: Vector,
) -> Seq<TouchingEntity> {
    match hit {
        Some(hit) => crate::contact::touch_of(hit, direction, position, velocity),
        None => Seq::empty(),
    }
}

/// What a slide is answered.
pub enum SlideAnswer {
    Measured { remaining_squared: Scalar },
    Overlap { contact: OverlapContact, approach: Scalar, likeness: Seq<Scalar> },
    Overlapped,
    Met {
        hit: Option<Box3dCastHit>,
        direction: Option<Vector>,
        position: Vector,
        likeness: Seq<Scalar>,
    },
    Clipped { velocity: Vector, tac_velocity: Scalar, remaining: Vector },
}

/// A slide, with the state and the touches of the character that slides.
#[verifier::ext_equal]
pub struct Sliding {
    pub slide: SlideState,
    pub state: Box3dCharacterControllerState,
    pub touches: Seq<TouchingEntity>,
}

impl Sliding {
    /// The answer is one that the slide is waiting for.
    pub open spec fn waits_for(self, answer: SlideAnswer) -> bool {
        match answer {
            SlideAnswer::Measured { .. } => self.slide.phase == SlidePhase::Measure,
            SlideAnswer::Overlap { .. } => self.slide.phase == SlidePhase::Overlap,
            SlideAnswer::Overlapped => self.slide.phase == SlidePhase::Overlap,
            SlideAnswer::Met { .. } => self.slide.phase == SlidePhase::Cast,
            SlideAnswer::Clipped { .. } => self.slide.phase == SlidePhase::Clip,
        }
    }

    pub open spec fn after(self, links: Links, answer: SlideAnswer) -> Sliding {
        match answer {
            SlideAnswer::Measured { remaining_squared } => Sliding {
                slide: self.slide.after_measuring(remaining_squared),
                ..self
            },
            SlideAnswer::Overlap { contact, approach, likeness } => Sliding {
                slide: self.slide.after_overlap(links, self.state, contact, approach, likeness),
                ..self
            },
            SlideAnswer::Overlapped => Sliding { slide: self.slide.after_overlaps(), ..self },
            SlideAnswer::Met { hit, direction, position, likeness } => Sliding {
                slide: self.slide.after_meeting(hit, likeness),
                touches: self.touches + touches_of(hit, direction, position, self.state.velocity),
                ..self
            },
            SlideAnswer::Clipped { velocity, tac_velocity, remaining } => Sliding {
                slide: self.slide.after_clipping(remaining),
                state: turned_aside(self.state, velocity, tac_velocity),
                ..self
            },
        }
    }

    /// The slide after those answers, in order.
    pub open spec fn after_all(self, links: Links, answers: Seq<SlideAnswer>) -> Sliding
        decreases answers.len(),
    {
        if answers.len() == 0 {
            self
        } else {
            self.after_all(links, answers.drop_last()).after(links, answers.last())
        }
    }

    /// The slide waits for each of those answers when it comes.
    pub open spec fn waits_for_all(self, links: Links, answers: Seq<SlideAnswer>) -> bool
        decreases answers.len(),
    {
        answers.len() > 0 ==> {
            &&& self.waits_for_all(links, answers.drop_last())
            &&& self.after_all(links, answers.drop_last()).waits_for(answers.last())
        }
    }
}

/// The answers that are no overlaps.
pub open spec fn turns(answers: Seq<SlideAnswer>) -> nat
    decreases answers.len(),
{
    if answers.len() == 0 {
        0
    } else {
        turns(answers.drop_last()) + if answers.last() is Overlap {
            0nat
        } else {
            1nat
        }
    }
}

/// Whatever a slide runs into, it keeps the touches that were there, adds at
/// most one for each of its passes, and changes nothing of the character's state
/// but the velocity and what is lost against walls. It takes a bounded number of
/// turns: so it ends.
pub proof fn law_slide_only_adds_touches(
    cfg: Box3dCharacterController,
    movement: Vector,
    state: Box3dCharacterControllerState,
    touches: Seq<TouchingEntity>,
    links: Links,
    answers: Seq<SlideAnswer>,
)
    requires
        (Sliding { slide: SlideState::start(cfg, movement), state, touches }).waits_for_all(
            links,
            answers,
        ),
    ensures
        ({
            let start = Sliding { slide: SlideState::start(cfg, movement), state, touches };
            let end = start.after_all(links, answers);
            &&& touches.len() <= end.touches.len() <= touches.len() + cfg.max_slides
            &&& touches.is_prefix_of(end.touches)
            &&& end.state == (Box3dCharacterControllerState {
                velocity: end.state.velocity,
                tac_velocity: end.state.tac_velocity,
                ..state
            })
            &&& turns(answers) + end.slide.budget() <= 4 * cfg.max_slides + 1
        }),
{
    lemma_slide_run(cfg, movement, state, touches, links, answers);
}

/// One touch is still to come in a pass that has not come to its cast.
spec fn to_come(phase: SlidePhase) -> nat {
    if phase == SlidePhase::Overlap || phase == SlidePhase::Cast {
        1
    } else {
        0
    }
}

proof fn lemma_slide_run(
    cfg: Box3dCharacterController,
    movement: Vector,
    state: Box3dCharacterControllerState,
    touches: Seq<TouchingEntity>,
    links: Links,
    answers: Seq<SlideAnswer>,
)
    requires
        (Sliding { slide: SlideState::start(cfg, movement), state, touches }).waits_for_all(
            links,
            answers,
        ),
    ensures
        ({
            let start = Sliding { slide: SlideState::start(cfg, movement), state, touches };
            let end = start.after_all(links, answers);
            &&& touches.is_prefix_of(end.touches)
            &&& end.slide.passes_left <= cfg.max_slides
            &&& end.touches.len() + to_come(end.slide.phase) + end.slide.passes_left
                <= touches.len() + cfg.max_slides
            &&& end.state == (Box3dCharacterControllerState {
                velocity: end.state.velocity,
                tac_velocity: end.state.tac_velocity,
                ..state
            })
            &&& turns(answers) + end.slide.budget() <= 4 * cfg.max_slides + 1
        }),
    decreases answers.len(),
{
    let start = Sliding { slide: SlideState::start(cfg, movement), state, touches };
    if answers.len() > 0 {
        let before = start.after_all(links, answers.drop_last());
        lemma_slide_run(cfg, movement, state, touches, links, answers.drop_last());
        let end = before.after(links, answers.last());
        assert(before.touches.is_prefix_of(end.touches));
        assert(touches =~= end.touches.subrange(0, touches.len() as int));
    }
}

/// How far a slide goes before a hit: as far as the hit is away, never
/// backward. It leaves the surface by the skin unless it was there already or
/// the surface hangs over.
pub open spec fn slide_move_to(hit: Box3dCastHit) -> SlideMove {
    let travel = hit.distance.larger(Scalar { bits: 0 });
    SlideMove::Part {
        travel,
        pushed_off: (Scalar { bits: SHORT }).below(travel) && (Scalar { bits: OVERHANG }).at_most(
            hit.normal.y,
        ),
    }
}

/// A slide never goes backward along its movement, and never leaves a surface
/// that hangs over by the skin: that would push the character down.
pub proof fn law_slide_never_backs_off(hit: Box3dCastHit)
    ensures
        slide_move_to(hit) matches SlideMove::Part { travel, pushed_off } ==> {
            &&& (Scalar { bits: 0 }).at_most(travel)
            &&& hit.normal.y.below(Scalar { bits: OVERHANG }) ==> !pushed_off
        },
{
    assert((Scalar { bits: 0 }).value() == 0);
}

/// What a step can be undone to.
#[derive(Debug)]
pub struct Snapshot {
    pub position: Vector,
    pub velocity: Vector,
    pub tac_velocity: Scalar,
    pub touching_entities: Vec<TouchingEntity>,
}

fn copy_touches(touches: &Vec<TouchingEntity>) -> (r: Vec<TouchingEntity>)
    ensures
        r@ == touches@,
{
    let mut r: Vec<TouchingEntity> = Vec::new();
    let mut i: usize = 0;
    while i < touches.len()
        invariant
            i <= touches@.len(),
            r@ == touches@.take(i as int),
        decreases touches@.len() - i,
    {
        r.push(touches[i]);
        i = i + 1;
        assert(touches@.take(i as int) =~= touches@.take(i - 1).push(touches@[i - 1]));
    }
    assert(touches@.take(i as int) =~= touches@);
    r
}

impl Snapshot {
    /// The snapshot shows the character as it is.
    pub open spec fn shows(
        self,
        position: Vector,
        state: Box3dCharacterControllerState,
        output: CharacterControllerOutput,
    ) -> bool {
        &&& self.position == position
        &&& self.velocity == state.velocity
        &&& self.tac_velocity == state.tac_velocity
        &&& self.touching_entities@ == output.touching_entities@
    }

    /// The state of a character that is put back to where the snapshot shows it.
    pub open spec fn put_back(
        self,
        state: Box3dCharacterControllerState,
    ) -> Box3dCharacterControllerState {
        Box3dCharacterControllerState {
            velocity: self.velocity,
            tac_velocity: self.tac_velocity,
            ..state
        }
    }

    pub fn take(
        position: &Vector,
        state: &Box3dCharacterControllerState,
        output: &CharacterControllerOutput,
    ) -> (r: Snapshot)
        ensures
            r.shows(*position, *state, *output),
    {
        Snapshot {
            position: *position,
            velocity: state.velocity,
            tac_velocity: state.tac_velocity,
            touching_entities: copy_touches(&output.touching_entities),
        }
    }

    /// Puts the character back to where the snapshot shows it.
    pub fn restore(
        &self,
        position: &mut Vector,
        state: &mut Box3dCharacterControllerState,
        output: &mut CharacterControllerOutput,
    )
        ensures
            self.shows(*final(position), *final(state), *final(output)),
            *final(state) == (Box3dCharacterControllerState {
                velocity: self.velocity,
                tac_velocity: self.tac_velocity,
                ..*old(state)
            }),
            *final(state) == self.put_back(*old(state)),
            final(output).mantle == old(output).mantle,
    {
        *position = self.position;
        state.velocity = self.velocity;
        state.tac_velocity = self.tac_velocity;
        output.touching_entities = copy_touches(&self.touching_entities);
    }
}

/// What a step needs next.
#[derive(Clone, Copy, Debug, PartialEq, Eq, Structural)]
pub enum StepPhase {
    /// The movement made as a plain slide.
    Slide,
    /// What a cast up by the step's height meets.
    Rise,
    /// What a short cast ahead from up there meets.
    Probe,
    /// The movement made as a slide up there.
    SlideAbove,
    /// What a cast back down meets.
    Descend,
    /// How far the plain slide and the step went.
    Compare,
    /// Nothing: the step was made.
    Stepped,
    /// Nothing: the step was given up for the plain slide.
    Slid,
}

/// Where a step stands.
pub struct StepState {
    pub phase: StepPhase,
    /// The character at the start.
    pub start: Snapshot,
    /// The character after the plain slide, once it was made.
    pub slid: Snapshot,
}

/// A movement that may go up a step. It is first made as a plain slide; the
/// step is made only if it gets farther.
#[derive(Debug)]
pub struct StepMove {
    phase: StepPhase,
    start: Snapshot,
    slid: Snapshot,
}

impl View for StepMove {
    type V = StepState;

    closed spec fn view(&self) -> StepState {
        StepState { phase: self.phase, start: self.start, slid: self.slid }
    }
}

/// The casts up and back down that a step looks with.
pub open spec fn casts_for_a_step(cfg: Box3dCharacterController) -> (Vector, Vector) {
    (
        crate::scalar::upward(cfg.step_size),
        crate::scalar::upward(cfg.step_size.opposite()),
    )
}

/// The cast up of a step: as far as a step goes.
pub fn step_up_cast(cfg: &Box3dCharacterController) -> (r: Vector)
    ensures
        r == crate::scalar::upward(cfg.step_size),
        r == casts_for_a_step(*cfg).0,
{
    Vector::up(cfg.step_size)
}

/// The cast back down of a step: as far as a step goes.
pub fn step_down_cast(cfg: &Box3dCharacterController) -> (r: Vector)
    ensures
        r == crate::scalar::upward(cfg.step_size.opposite()),
        r == casts_for_a_step(*cfg).1,
{
    Vector::down(cfg.step_size)
}

/// The ceiling leaves no room for the step.
pub open spec fn step_is_capped(cfg: Box3dCharacterController, hit: Option<Box3dCastHit>) -> bool {
    hit matches Some(hit) && hit.normal.y.below(Scalar { bits: OVERHANG }) && hit.distance.below(
        cfg.step_size,
    )
}

/// There is ground to come back down to.
pub open spec fn step_has_ground(cfg: Box3dCharacterController, hit: Option<Box3dCastHit>) -> bool {
    hit matches Some(hit) && !crate::contact::too_steep(hit.normal, cfg)
}

pub open spec fn pose_of(
    position: Vector,
    state: Box3dCharacterControllerState,
    output: CharacterControllerOutput,
) -> Pose {
    Pose { position, state, touches: output.touching_entities@ }
}

/// How far a step rises, unless the ceiling is too low for it.
pub open spec fn step_rise(cfg: Box3dCharacterController, hit: Option<Box3dCastHit>) -> Option<
    Scalar,
> {
    if step_is_capped(cfg, hit) {
        None
    } else {
        Some(crate::ground::way_to(hit, cfg.step_size))
    }
}

/// How far a step comes back down, if there is ground.
pub open spec fn step_descent(cfg: Box3dCharacterController, hit: Option<Box3dCastHit>) -> Option<
    Scalar,
> {
    match hit {
        Some(hit) if !crate::contact::too_steep(hit.normal, cfg) => Some(hit.distance),
        _ => None,
    }
}

/// A step goes on past its cast ahead.
pub open spec fn step_is_free(hit: Option<Box3dCastHit>) -> bool {
    hit is None
}

/// A step is worth it.
pub open spec fn step_gets_farther(slid_squared: Scalar, stepped_squared: Scalar) -> bool {
    !stepped_squared.at_most(slid_squared)
}

/// Position, state and touches of a character.
#[verifier::ext_equal]
pub struct Pose {
    pub position: Vector,
    pub state: Box3dCharacterControllerState,
    pub touches: Seq<TouchingEntity>,
}

impl StepState {
    /// The step and the character after a decision: on to that phase, or given up
    /// for the plain slide.
    pub open spec fn decided(self, goes_on: bool, next: StepPhase, pose: Pose) -> (StepPhase, Pose) {
        if goes_on {
            (next, pose)
        } else {
            (
                StepPhase::Slid,
                Pose {
                    position: self.slid.position,
                    state: self.slid.put_back(pose.state),
                    touches: self.slid.touching_entities@,
                },
            )
        }
    }

    /// The state of a character that made the step.
    pub open spec fn stepped(
        self,
        state: Box3dCharacterControllerState,
    ) -> Box3dCharacterControllerState {
        Box3dCharacterControllerState {
            velocity: Vector { y: self.slid.velocity.y, ..state.velocity },
            last_step_up: state.last_step_up.cleared(),
            ..state
        }
    }

    /// The character is as the plain slide left it; nothing else of its state
    /// changed since `before`.
    pub open spec fn gave_up(
        self,
        position: Vector,
        before: Box3dCharacterControllerState,
        state: Box3dCharacterControllerState,
        output: CharacterControllerOutput,
    ) -> bool {
        &&& self.phase == StepPhase::Slid
        &&& self.slid.shows(position, state, output)
        &&& state == (Box3dCharacterControllerState {
            velocity: self.slid.velocity,
            tac_velocity: self.slid.tac_velocity,
            ..before
        })
    }
}

impl StepMove {
    /// Begins a step from where the character is.
    pub fn begin(
        position: &Vector,
        state: &Box3dCharacterControllerState,
        output: &CharacterControllerOutput,
    ) -> (r: StepMove)
        ensures
            r@.phase == StepPhase::Slide,
            r@.start.shows(*position, *state, *output),
    {
        StepMove {
            phase: StepPhase::Slide,
            start: Snapshot::take(position, state, output),
            slid: Snapshot::take(position, state, output),
        }
    }

    pub fn phase(&self) -> (r: StepPhase)
        ensures
            r == self@.phase,
    {
        self.phase
    }

    /// Where the character was at the start.
    pub fn start_position(&self) -> (r: Vector)
        ensures
            r == self@.start.position,
    {
        self.start.position
    }

    /// Where the plain slide led, once it was made.
    pub fn slid_position(&self) -> (r: Vector)
        ensures
            r == self@.slid.position,
    {
        self.slid.position
    }

    /// Remembers where the plain slide led, and puts the character back to the
    /// start.
    pub fn has_slid(
        &mut self,
        position: &mut Vector,
        state: &mut Box3dCharacterControllerState,
        output: &mut CharacterControllerOutput,
    )
        requires
            old(self)@.phase == StepPhase::Slide,
        ensures
            final(self)@.phase == StepPhase::Rise,
            final(self)@.start == old(self)@.start,
            final(self)@.slid.shows(*old(position), *old(state), *old(output)),
            final(self)@.start.shows(*final(position), *final(state), *final(output)),
            *final(state) == (Box3dCharacterControllerState {
                velocity: old(self)@.start.velocity,
                tac_velocity: old(self)@.start.tac_velocity,
                ..*old(state)
            }),
            *final(state) == old(self)@.start.put_back(*old(state)),
            final(output).mantle == old(output).mantle,
    {
        self.slid = Snapshot::take(position, state, output);
        self.start.restore(position, state, output);
        self.phase = StepPhase::Rise;
    }

    fn give_up(
        &mut self,
        position: &mut Vector,
        state: &mut Box3dCharacterControllerState,
        output: &mut CharacterControllerOutput,
    )
        ensures
            final(self)@.start == old(self)@.start,
            final(self)@.slid == old(self)@.slid,
            final(self)@.gave_up(*final(position), *old(state), *final(state), *final(output)),
            final(output).mantle == old(output).mantle,
    {
        self.slid.restore(position, state, output);
        self.phase = StepPhase::Slid;
    }

    /// Takes what the cast up met. Returns how far the character rises, unless
    /// the ceiling is too low for the step.
    pub fn has_risen(
        &mut self,
        cfg: &Box3dCharacterController,
        position: &mut Vector,
        state: &mut Box3dCharacterControllerState,
        output: &mut CharacterControllerOutput,
        hit: &Option<Box3dCastHit>,
    ) -> (r: Option<Scalar>)
        requires
            old(self)@.phase == StepPhase::Rise,
        ensures
            final(self)@.start == old(self)@.start,
            final(self)@.slid == old(self)@.slid,
            final(output).mantle == old(output).mantle,
            step_is_capped(*cfg, *hit) ==> r is None && final(self)@.gave_up(
                *final(position),
                *old(state),
                *final(state),
                *final(output),
            ),
            !step_is_capped(*cfg, *hit) ==> {
                &&& r == Some(match *hit {
                    Some(hit) => hit.distance,
                    None => cfg.step_size,
                })
                &&& final(self)@.phase == StepPhase::Probe
                &&& *final(position) == *old(position) && *final(state) == *old(state)
                &&& final(output).touching_entities@ == old(output).touching_entities@
            },
            r == step_rise(*cfg, *hit),
            (final(self)@.phase, pose_of(*final(position), *final(state), *final(output))) == old(
                self,
            )@.decided(
                r is Some,
                StepPhase::Probe,
                pose_of(*old(position), *old(state), *old(output)),
            ),
    {
        match hit {
            Some(hit) => {
                if hit.normal.y.lt(Scalar::new(OVERHANG)) && hit.distance.lt(cfg.step_size) {
                    self.give_up(position, state, output);
                    None
                } else {
                    self.phase = StepPhase::Probe;
                    Some(hit.distance)
                }
            },
            None => {
                self.phase = StepPhase::Probe;
                Some(cfg.step_size)
            },
        }
    }

    /// Takes what the cast ahead met: only with nothing there does the step go
    /// on.
    pub fn has_probed(
        &mut self,
        position: &mut Vector,
        state: &mut Box3dCharacterControllerState,
        output: &mut CharacterControllerOutput,
        hit: &Option<Box3dCastHit>,
    )
        requires
            old(self)@.phase == StepPhase::Probe,
        ensures
            final(self)@.start == old(self)@.start,
            final(self)@.slid == old(self)@.slid,
            final(output).mantle == old(output).mantle,
            *hit is Some ==> final(self)@.gave_up(
                *final(position),
                *old(state),
                *final(state),
                *final(output),
            ),
            *hit is None ==> {
                &&& final(self)@.phase == StepPhase::SlideAbove
                &&& *final(position) == *old(position) && *final(state) == *old(state)
                &&& final(output).touching_entities@ == old(output).touching_entities@
            },
            (final(self)@.phase, pose_of(*final(position), *final(state), *final(output))) == old(
                self,
            )@.decided(
                step_is_free(*hit),
                StepPhase::SlideAbove,
                pose_of(*old(position), *old(state), *old(output)),
            ),
    {
        if hit.is_some() {
            self.give_up(position, state, output);
        } else {
            self.phase = StepPhase::SlideAbove;
        }
    }

    /// Notes that the movement was made up there.
    pub fn has_slid_above(&mut self)
        requires
            old(self)@.phase == StepPhase::SlideAbove,
        ensures
            final(self)@ == (StepState { phase: StepPhase::Descend, ..old(self)@ }),
    {
        self.phase = StepPhase::Descend;
    }

    /// Takes what the cast down met. Returns how far the character comes down,
    /// unless there is no ground to stand on.
    pub fn has_descended(
        &mut self,
        cfg: &Box3dCharacterController,
        position: &mut Vector,
        state: &mut Box3dCharacterControllerState,
        output: &mut CharacterControllerOutput,
        hit: &Option<Box3dCastHit>,
    ) -> (r: Option<Scalar>)
        requires
            old(self)@.phase == StepPhase::Descend,
        ensures
            final(self)@.start == old(self)@.start,
            final(self)@.slid == old(self)@.slid,
            final(output).mantle == old(output).mantle,
            !step_has_ground(*cfg, *hit) ==> r is None && final(self)@.gave_up(
                *final(position),
                *old(state),
                *final(state),
                *final(output),
            ),
            step_has_ground(*cfg, *hit) ==> {
                &&& r == Some((*hit)->0.distance)
                &&& final(self)@.phase == StepPhase::Compare
                &&& *final(position) == *old(position) && *final(state) == *old(state)
                &&& final(output).touching_entities@ == old(output).touching_entities@
            },
            r == step_descent(*cfg, *hit),
            (final(self)@.phase, pose_of(*final(position), *final(state), *final(output))) == old(
                self,
            )@.decided(
                r is Some,
                StepPhase::Compare,
                pose_of(*old(position), *old(state), *old(output)),
            ),
    {
        match hit {
            Some(hit) => {
                if hit.normal.y.lt(cfg.min_walk_cos) {
                    self.give_up(position, state, output);
                    None
                } else {
                    self.phase = StepPhase::Compare;
                    Some(hit.distance)
                }
            },
            None => {
                self.give_up(position, state, output);
                None
            },
        }
    }

    /// Takes how far, level and squared, the plain slide and the step went. The
    /// step is made only if it went farther; it keeps the vertical speed of the
    /// plain slide.
    pub fn compare(
        &mut self,
        position: &mut Vector,
        state: &mut Box3dCharacterControllerState,
        output: &mut CharacterControllerOutput,
        slid_squared: Scalar,
        stepped_squared: Scalar,
    )
        requires
            old(self)@.phase == StepPhase::Compare,
        ensures
            final(self)@.start == old(self)@.start,
            final(self)@.slid == old(self)@.slid,
            final(output).mantle == old(output).mantle,
            stepped_squared.at_most(slid_squared) ==> final(self)@.gave_up(
                *final(position),
                *old(state),
                *final(state),
                *final(output),
            ),
            !stepped_squared.at_most(slid_squared) ==> {
                &&& final(self)@.phase == StepPhase::Stepped
                &&& *final(position) == *old(position)
                &&& final(output).touching_entities@ == old(output).touching_entities@
                &&& *final(state) == (Box3dCharacterControllerState {
                    velocity: Vector { y: old(self)@.slid.velocity.y, ..old(state).velocity },
                    last_step_up: old(state).last_step_up.cleared(),
                    ..*old(state)
                })
            },
            (final(self)@.phase, pose_of(*final(position), *final(state), *final(output))) == old(
                self,
            )@.decided(
                step_gets_farther(slid_squared, stepped_squared),
                StepPhase::Stepped,
                pose_of(
                    *old(position),
                    if step_gets_farther(slid_squared, stepped_squared) {
                        old(self)@.stepped(*old(state))
                    } else {
                        *old(state)
                    },
                    *old(output),
                ),
            ),
    {
        if stepped_squared.le(slid_squared) {
            self.give_up(position, state, output);
        } else {
            state.velocity = state.velocity.with_y(self.slid.velocity.y);
            state.last_step_up.reset();
            self.phase = StepPhase::Stepped;
        }
    }
}

/// A step that is given up leaves no trace: wherever it is given up, the
/// character ends exactly as the plain slide left it.
pub proof fn law_given_up_step_is_a_slide(
    step: StepState,
    slid_position: Vector,
    slid_state: Box3dCharacterControllerState,
    slid_output: CharacterControllerOutput,
    before: Box3dCharacterControllerState,
    position: Vector,
    state: Box3dCharacterControllerState,
    output: CharacterControllerOutput,
)
    requires
        step.slid.shows(slid_position, slid_state, slid_output),
        before == (Box3dCharacterControllerState {
            velocity: before.velocity,
            tac_velocity: before.tac_velocity,
            ..slid_state
        }),
        step.gave_up(position, before, state, output),
    ensures
        position == slid_position,
        state == slid_state,
        output.touching_entities@ == slid_output.touching_entities@,
{
}

/// Holding a vector up changes nothing of one that is no lower than it started,
/// and nothing of one that started above zero. One that is lower than a start that
/// is not above zero gets exactly that start as its vertical part, and keeps its
/// level parts. So a vector is held at most once.
pub proof fn law_only_a_lowered_vector_is_held(original_y: Scalar, vector: Vector, clip: ClipState)
    ensures
        !vector.y.below(original_y) ==> held_up(original_y, vector) == vector,
        !original_y.nan() && !vector.y.nan() && vector.y.value() >= original_y.value()
            ==> held_up(original_y, vector) == vector,
        original_y.value() > 0 ==> held_up(original_y, vector) == vector,
        original_y.nan() || vector.y.nan() ==> held_up(original_y, vector) == vector,
        !original_y.nan() && !vector.y.nan() && vector.y.value() < original_y.value()
            && original_y.value() <= 0 ==> {
            let held = held_up(original_y, vector);
            &&& held.y == original_y && held.x == vector.x && held.z == vector.z
        },
        held_up(original_y, held_up(original_y, vector)) == held_up(original_y, vector),
        clip.vector.y == clip.original_y ==> clip.outcome() == clip.vector,
        clip.outcome().x == clip.vector.x && clip.outcome().z == clip.vector.z,
        clip.outcome().y == clip.vector.y || clip.outcome().y == clip.original_y,
        clip.original_y.value() > 0 ==> clip.outcome() == clip.vector,
{
    assert((Scalar { bits: 0 }).value() == 0);
}

/// A vector fades to none exactly when the square of its length is at most tiny.
pub proof fn law_only_a_tiny_vector_fades(vector: Vector, length_squared: Scalar)
    ensures
        !length_squared.nan() && length_squared.value() <= (Scalar { bits: TINY }).value()
            ==> faded(vector, length_squared).null(),
        length_squared.nan() || length_squared.value() > (Scalar { bits: TINY }).value() ==> faded(
            vector,
            length_squared,
        ) == vector,
        crate::scalar::is_nearest_to(Scalar { bits: TINY }, 1, 10_000_000_000),
{
    crate::motion::law_motion_constants();
    assert(!(Scalar { bits: TINY }).nan());
}

/// A clip starts with the vector itself, and meets the planes one by one. A plane
/// that the vector points into replaces it by what is left of it, any other leaves
/// it alone. After the last plane the round is over: the clip is done if the vector
/// moved at most a tiny way in it or no round is left, else it meets the planes
/// again. The vertical part at the start is never forgotten.
pub proof fn law_steps_of_a_clip(
    c: ClipState,
    vector: Vector,
    planes: usize,
    quantity: Scalar,
    deflected: Vector,
)
    requires
        c.well_formed(),
        c.passes_left > 0,
        !quantity.nan(),
    ensures
        ({
            let start = ClipState::start(vector, planes);
            &&& start.vector == vector && start.before == vector && start.original_y == vector.y
            &&& start.planes == planes && start.next_plane == 0 && start.passes_left == 32
        }),
        c.wants() == ClipTask::Meet(c.next_plane) <==> c.next_plane < c.planes,
        c.wants() == ClipTask::Settle <==> c.next_plane == c.planes,
        (ClipState { passes_left: 0, ..c }).wants() == ClipTask::Done,
        c.next_plane < c.planes ==> {
            let met = c.after_meeting(quantity, deflected);
            &&& quantity.value() < 0 ==> met.vector == deflected
            &&& quantity.value() >= 0 ==> met.vector == c.vector
            &&& met.next_plane == c.next_plane + 1
            &&& met.before == c.before && met.original_y == c.original_y
            &&& met.passes_left == c.passes_left && met.planes == c.planes
        },
        ({
            let settled = c.after_settling(quantity);
            let tiny = (Scalar { bits: TINY }).value();
            &&& quantity.value() <= tiny ==> settled.passes_left == 0
            &&& quantity.value() > tiny ==> settled.passes_left == c.passes_left - 1
            &&& settled.vector == c.vector && settled.before == c.vector
            &&& settled.next_plane == 0 && settled.planes == c.planes
            &&& settled.original_y == c.original_y
        }),
{
    assert((Scalar { bits: 0 }).value() == 0);
    assert(!(Scalar { bits: TINY }).nan());
}

/// A vector that points into none of the planes comes out of a clip as it went in,
/// however many planes there are.
pub proof fn law_free_vector_is_not_clipped(a: ClipArithmetic, vector: Vector, planes: usize)
    requires
        planes < usize::MAX,
        forall|i: int|
            0 <= i < planes ==> !(#[trigger] (a.into)(vector, i)).nan() && (a.into)(
                vector,
                i,
            ).value() >= 0,
    ensures
        answered(a, ClipState::start(vector, planes)) == vector,
        held_up(vector.y, answered(a, ClipState::start(vector, planes))) == vector,
{
    law_clipping_goes_in_rounds(a, vector, planes);
    lemma_free_rounds(a, vector, planes as nat, MAX_BOX3D_CLIP_PASSES as nat);
}

proof fn lemma_free_round(a: ClipArithmetic, vector: Vector, planes: nat)
    requires
        forall|i: int|
            0 <= i < planes ==> !(#[trigger] (a.into)(vector, i)).nan() && (a.into)(
                vector,
                i,
            ).value() >= 0,
    ensures
        clipped_once(a, vector, planes) == vector,
    decreases planes,
{
    assert((Scalar { bits: 0 }).value() == 0);
    if planes > 0 {
        lemma_free_round(a, vector, (planes - 1) as nat);
        assert((a.into)(vector, planes - 1).value() >= 0);
    }
}

proof fn lemma_free_rounds(a: ClipArithmetic, vector: Vector, planes: nat, rounds: nat)
    requires
        forall|i: int|
            0 <= i < planes ==> !(#[trigger] (a.into)(vector, i)).nan() && (a.into)(
                vector,
                i,
            ).value() >= 0,
    ensures
        clipped_in_rounds(a, vector, planes, rounds) == vector,
    decreases rounds,
{
    if rounds > 0 {
        lemma_free_round(a, vector, planes);
        lemma_free_rounds(a, vector, planes, (rounds - 1) as nat);
    }
}

/// In exact arithmetic, a vector that points into a single plane with a normal of
/// unit length comes out of a clip as its projection onto the plane, in all three
/// parts: the vector less the normal times what they have in common. A vector that
/// does not point up and meets a plane that faces down is the one exception: it
/// keeps its vertical part, and is projected in its level parts.
pub proof fn law_single_plane_projects(a: ClipArithmetic, vector: Vector, normal: Vector)
    requires
        crate::scalar::square(normal) == crate::scalar::unit() * crate::scalar::unit(),
        crate::scalar::dot(vector, normal) < 0,
        meets_exactly(a, vector, normal, 0),
        meets_exactly(a, (a.deflected)(vector, 0), normal, 0),
        !vector.y.nan(),
        !(a.deflected)(vector, 0).y.nan(),
    ensures
        ({
            let one = crate::scalar::unit();
            let common = crate::scalar::dot(vector, normal);
            let clip = ClipState {
                vector: answered(a, ClipState::start(vector, 1)),
                ..ClipState::start(vector, 1)
            };
            let r = clip.outcome();
            let lowered = normal.y.value() < 0 && vector.y.value() <= 0;
            &&& r.x.value() * (one * one) == vector.x.value() * (one * one) - normal.x.value()
                * common
            &&& r.z.value() * (one * one) == vector.z.value() * (one * one) - normal.z.value()
                * common
            &&& !lowered ==> r.y.value() * (one * one) == vector.y.value() * (one * one)
                - normal.y.value() * common
            &&& lowered ==> r.y == vector.y
            &&& normal.y.value() == 0 ==> r.y.value() == vector.y.value()
        }),
{
    let one = crate::scalar::unit();
    crate::scalar::lemma_unit();
    let common = crate::scalar::dot(vector, normal);
    let into = (a.into)(vector, 0);
    let left = (a.deflected)(vector, 0);
    let zero = Scalar { bits: 0 };
    assert(zero.value() == 0 && !zero.nan());
    assert(into.value() < 0) by (nonlinear_arith)
        requires
            into.value() * one == common,
            common < 0,
            one > 0,
    ;
    law_clipping_goes_in_rounds(a, vector, 1);
    assert(clipped_once(a, vector, 0) == vector);
    assert(clipped_once(a, vector, 1) == left);
    lemma_projection_is_level(vector, normal, left, into.value());
    let again = (a.into)(left, 0);
    assert(again.value() == 0) by (nonlinear_arith)
        requires
            again.value() * one == crate::scalar::dot(left, normal),
            crate::scalar::dot(left, normal) == 0,
            one > 0,
    ;
    assert forall|i: int| 0 <= i < 1nat implies !(#[trigger] (a.into)(left, i)).nan() && (a.into)(
        left,
        i,
    ).value() >= 0 by {
        assert(i == 0);
    }
    lemma_free_rounds(a, left, 1, (MAX_BOX3D_CLIP_PASSES - 1) as nat);
    assert(clipped_in_rounds(a, vector, 1, MAX_BOX3D_CLIP_PASSES as nat) == left);
    let (x, y, z) = (vector.x.value(), vector.y.value(), vector.z.value());
    let (nx, ny, nz) = (normal.x.value(), normal.y.value(), normal.z.value());
    lemma_scaled_part(x, nx, left.x.value(), into.value(), common, one);
    lemma_scaled_part(y, ny, left.y.value(), into.value(), common, one);
    lemma_scaled_part(z, nz, left.z.value(), into.value(), common, one);
    let ly = left.y.value();
    let down = into.value();
    assert(ny < 0 ==> ly < y) by (nonlinear_arith)
        requires
            ly * one == y * one - ny * down,
            down < 0,
            one > 0,
    ;
    assert(ny >= 0 ==> ly >= y) by (nonlinear_arith)
        requires
            ly * one == y * one - ny * down,
            down < 0,
            one > 0,
    ;
    assert(ny == 0 ==> ly == y) by (nonlinear_arith)
        requires
            ly * one == y * one - ny * down,
            one > 0,
    ;
}

proof fn lemma_scaled_part(v: int, n: int, d: int, into: int, common: int, one: int)
    requires
        d * one == v * one - n * into,
        into * one == common,
    ensures
        d * (one * one) == v * (one * one) - n * common,
{
    assert(d * (one * one) == (d * one) * one) by (nonlinear_arith);
    assert((v * one - n * into) * one == v * (one * one) - n * (into * one)) by (nonlinear_arith);
}

/// What is left of a vector without its part along a unit normal has no part along
/// it.
proof fn lemma_projection_is_level(v: Vector, n: Vector, d: Vector, into: int)
    requires
        crate::scalar::square(n) == crate::scalar::unit() * crate::scalar::unit(),
        into * crate::scalar::unit() == crate::scalar::dot(v, n),
        d.x.value() * crate::scalar::unit() == v.x.value() * crate::scalar::unit() - n.x.value()
            * into,
        d.y.value() * crate::scalar::unit() == v.y.value() * crate::scalar::unit() - n.y.value()
            * into,
        d.z.value() * crate::scalar::unit() == v.z.value() * crate::scalar::unit() - n.z.value()
            * into,
    ensures
        crate::scalar::dot(d, n) == 0,
{
    let u = crate::scalar::unit();
    crate::scalar::lemma_unit();
    let (vx, vy, vz) = (v.x.value(), v.y.value(), v.z.value());
    let (nx, ny, nz) = (n.x.value(), n.y.value(), n.z.value());
    let (dx, dy, dz) = (d.x.value(), d.y.value(), d.z.value());
    assert((dx * nx) * u == (vx * nx) * u - (nx * nx) * into) by (nonlinear_arith)
        requires
            dx * u == vx * u - nx * into,
    ;
    assert((dy * ny) * u == (vy * ny) * u - (ny * ny) * into) by (nonlinear_arith)
        requires
            dy * u == vy * u - ny * into,
    ;
    assert((dz * nz) * u == (vz * nz) * u - (nz * nz) * into) by (nonlinear_arith)
        requires
            dz * u == vz * u - nz * into,
    ;
    let (dn, vn, nn) = (
        dx * nx + dy * ny + dz * nz,
        vx * nx + vy * ny + vz * nz,
        nx * nx + ny * ny + nz * nz,
    );
    assert(dn * u == (dx * nx) * u + (dy * ny) * u + (dz * nz) * u) by (nonlinear_arith)
        requires
            dn == dx * nx + dy * ny + dz * nz,
    ;
    assert(vn * u == (vx * nx) * u + (vy * ny) * u + (vz * nz) * u) by (nonlinear_arith)
        requires
            vn == vx * nx + vy * ny + vz * nz,
    ;
    assert(nn * into == (nx * nx) * into + (ny * ny) * into + (nz * nz) * into) by (nonlinear_arith)
        requires
            nn == nx * nx + ny * ny + nz * nz,
    ;
    assert(vn * u == nn * into) by (nonlinear_arith)
        requires
            vn == into * u,
            nn == u * u,
    ;
    assert(dn == 0) by (nonlinear_arith)
        requires
            dn * u == 0,
            u > 0,
    ;
}

/// A slide starts with the whole movement, no planes and as many passes as are
/// allowed. A pass begins only while one is left and the movement is not used up,
/// and counts as one. New planes send it to be clipped at once, else the movement
/// is cast; without a hit it is over, and with one it is clipped. After clipping
/// the remainder is measured again.
pub proof fn law_passes_of_a_slide(
    slide: SlideState,
    cfg: Box3dCharacterController,
    movement: Vector,
    quantity: Scalar,
    hit: Box3dCastHit,
    likeness: Seq<Scalar>,
)
    requires
        !quantity.nan(),
    ensures
        ({
            let start = SlideState::start(cfg, movement);
            &&& start.phase == SlidePhase::Measure && start.remaining == movement
            &&& start.planes.len() == 0 && !start.added && start.passes_left == cfg.max_slides
        }),
        ({
            let next = slide.after_measuring(quantity);
            let over = slide.passes_left == 0 || quantity.value() <= (Scalar {
                bits: EPSILON,
            }).value();
            &&& over ==> next.phase == SlidePhase::Done && next.passes_left == slide.passes_left
            &&& !over ==> next.phase == SlidePhase::Overlap && next.passes_left + 1
                == slide.passes_left && !next.added
            &&& next.remaining == slide.remaining && next.planes == slide.planes
        }),
        ({
            let next = slide.after_overlaps();
            &&& slide.added ==> next.phase == SlidePhase::Clip
            &&& !slide.added ==> next.phase == SlidePhase::Cast
            &&& next == (SlideState { phase: next.phase, ..slide })
        }),
        ({
            let next = slide.after_meeting(None, likeness);
            next == (SlideState { phase: SlidePhase::Done, ..slide })
        }),
        ({
            let next = slide.after_meeting(Some(hit), likeness);
            let known = exists|i: int|
                0 <= i < likeness.len() && !(#[trigger] likeness[i]).nan() && likeness[i].value()
                    > crate::contact::alike().value();
            &&& next.phase == SlidePhase::Clip
            &&& known ==> next.planes == slide.planes
            &&& !known ==> next.planes.len() == slide.planes.len() + 1 && next.planes.last()
                == hit.normal && slide.planes =~= next.planes.take(slide.planes.len() as int)
            &&& next == (SlideState { phase: next.phase, planes: next.planes, ..slide })
        }),
        ({
            let next = slide.after_clipping(movement);
            &&& next.phase == SlidePhase::Measure && next.remaining == movement
            &&& next.planes == slide.planes && next.passes_left == slide.passes_left
            &&& next.added == slide.added
        }),
{
    assert(!(Scalar { bits: EPSILON }).nan());
    crate::contact::law_contact_constants();
    assert(!crate::contact::alike().nan());
    if crate::contact::repeats(likeness) {
        let i = choose|i: int|
            0 <= i < likeness.len() && crate::contact::alike().below(#[trigger] likeness[i]);
        assert(!likeness[i].nan() && likeness[i].value() > crate::contact::alike().value());
    } else {
        assert forall|i: int| 0 <= i < likeness.len() implies (#[trigger] likeness[i]).nan()
            || likeness[i].value() <= crate::contact::alike().value() by {
            assert(!crate::contact::alike().below(likeness[i]));
        }
    }
}

/// An overlap joins the planes of a slide exactly as it joins the normals that are
/// gathered, and so does whether to look on; nothing else of the slide changes.
pub proof fn law_overlaps_join_a_slide(
    slide: SlideState,
    links: Links,
    state: Box3dCharacterControllerState,
    contact: OverlapContact,
    approach: Scalar,
    likeness: Seq<Scalar>,
)
    requires
        !approach.nan(),
    ensures
        ({
            let next = slide.after_overlap(links, state, contact, approach, likeness);
            let held = links.holds_shape(state.held_body, contact.shape);
            let joins = !held && approach.value() < crate::contact::grazing().value() && forall|
                i: int,
            |
                0 <= i < likeness.len() ==> (#[trigger] likeness[i]).nan() || likeness[i].value()
                    <= crate::contact::alike().value();
            &&& joins ==> next.planes.len() == slide.planes.len() + 1 && next.planes.last()
                == contact.normal && next.added
            &&& !joins ==> next.planes == slide.planes && next.added == slide.added
            &&& slide.planes =~= next.planes.take(slide.planes.len() as int)
            &&& next.phase == slide.phase && next.remaining == slide.remaining
            &&& next.passes_left == slide.passes_left
            &&& held ==> next.looks_on(links, state, contact)
            &&& !held ==> (next.looks_on(links, state, contact) <==> next.planes.len() < 8)
        }),
{
    crate::contact::law_planes_are_gathered(
        links,
        state,
        Seq::empty(),
        slide.planes,
        slide.added,
        contact,
        approach,
        likeness,
    );
}

/// With nothing in the way a slide makes its whole movement and notes no touch.
/// Else it goes as far as the hit is away, and not at all to one that is behind,
/// and leaves the surface exactly when it went more than a short way and the
/// surface does not hang over. The touch tells of the hit, where the character was
/// and how fast it went.
pub proof fn law_how_far_a_slide_goes(
    hit: Box3dCastHit,
    direction: Vector,
    entity: Entity,
    position: Vector,
    velocity: Vector,
)
    requires
        !hit.distance.nan() && !hit.normal.y.nan(),
    ensures
        move_by(None) == SlideMove::All,
        touches_of(None, Some(direction), position, velocity).len() == 0,
        move_by(Some(hit)) is Part,
        move_by(Some(hit)) matches SlideMove::Part { travel, pushed_off } ==> {
            &&& hit.distance.value() >= 0 ==> travel.value() == hit.distance.value()
            &&& hit.distance.value() <= 0 ==> travel.value() == 0
            &&& pushed_off <==> hit.distance.value() > (Scalar { bits: SHORT }).value()
                && hit.normal.y.value() >= (Scalar { bits: OVERHANG }).value()
        },
        touches_of(Some(hit), None, position, velocity).len() == 0,
        ({
            let seen = Box3dCastHit { entity: Some(entity), ..hit };
            let touches = touches_of(Some(seen), Some(direction), position, velocity);
            &&& touches.len() == 1
            &&& touches[0].entity == entity && touches[0].normal == direction
            &&& touches[0].distance == hit.distance && touches[0].point == hit.point
            &&& touches[0].collision_distance == hit.collision_distance
            &&& touches[0].character_position == position
            &&& touches[0].character_velocity == velocity
        }),
{
    assert((Scalar { bits: 0 }).value() == 0);
    crate::motion::law_motion_constants();
    lemma_short_is_positive();
}

proof fn lemma_short_is_positive()
    ensures
        (Scalar { bits: SHORT }).value() > 0,
        !(Scalar { bits: SHORT }).nan(),
        !(Scalar { bits: OVERHANG }).nan(),
{
    assert(crate::scalar::quanta(0) == 0);
    crate::scalar::lemma_quanta_increase(0, SHORT as nat);
}

/// Clipping gives the character the clipped velocity, and what it lost against
/// walls. Nothing else of it changes.
pub proof fn law_clipping_turns_aside(
    state: Box3dCharacterControllerState,
    velocity: Vector,
    tac_velocity: Scalar,
)
    ensures
        ({
            let after = turned_aside(state, velocity, tac_velocity);
            &&& after.velocity == velocity && after.tac_velocity == tac_velocity
            &&& turned_aside(after, state.velocity, state.tac_velocity) == state
        }),
{
}

/// A snapshot shows one character alone: whatever two it shows are in the same
/// place, with the same velocity, the same loss against walls and the same touches.
/// Putting any character back to it undoes whatever became of these, and leaves the
/// rest of its state alone.
pub proof fn law_snapshot_is_put_back(
    snapshot: Snapshot,
    position: Vector,
    state: Box3dCharacterControllerState,
    output: CharacterControllerOutput,
    other_position: Vector,
    other_state: Box3dCharacterControllerState,
    other_output: CharacterControllerOutput,
)
    requires
        snapshot.shows(position, state, output),
    ensures
        snapshot.shows(other_position, other_state, other_output) <==> {
            &&& other_position == position
            &&& other_state.velocity == state.velocity
            &&& other_state.tac_velocity == state.tac_velocity
            &&& other_output.touching_entities@ == output.touching_entities@
        },
        ({
            let back = snapshot.put_back(other_state);
            &&& back.velocity == state.velocity && back.tac_velocity == state.tac_velocity
            &&& back == turned_aside(other_state, back.velocity, back.tac_velocity)
        }),
        snapshot.put_back(state) == state,
{
}

/// A step looks up and back down by the height of a step, straight.
pub proof fn law_where_a_step_looks(cfg: Box3dCharacterController)
    ensures
        ({
            let (up, down) = casts_for_a_step(cfg);
            &&& up.y == cfg.step_size && down.y.value() == -cfg.step_size.value()
            &&& up.x.value() == 0 && up.z.value() == 0
            &&& down.x.value() == 0 && down.z.value() == 0
        }),
{
    crate::scalar::law_signs(cfg.step_size);
    let (up, down) = casts_for_a_step(cfg);
    let zero = Scalar { bits: 0 };
    assert(zero.value() == 0);
    assert(up.x == zero && up.z == zero && down.x == zero && down.z == zero);
}

/// A step is given up under a ceiling that is lower than the step, for anything in
/// the way up there, for ground that is too steep or none at all, and when it gets
/// no farther than the plain slide. Else it goes on: it rises as far as there is
/// room, comes down as far as the ground is away, and is made.
pub proof fn law_when_a_step_is_given_up(
    cfg: Box3dCharacterController,
    hit: Box3dCastHit,
    slid_squared: Scalar,
    stepped_squared: Scalar,
)
    requires
        !hit.normal.y.nan() && !hit.distance.nan() && !cfg.step_size.nan(),
        !cfg.min_walk_cos.nan() && !slid_squared.nan() && !stepped_squared.nan(),
    ensures
        step_rise(cfg, None) == Some(cfg.step_size),
        step_rise(cfg, Some(hit)) is None <==> hit.normal.y.value() < (Scalar {
            bits: OVERHANG,
        }).value() && hit.distance.value() < cfg.step_size.value(),
        step_rise(cfg, Some(hit)) is Some ==> step_rise(cfg, Some(hit)) == Some(hit.distance),
        step_is_capped(cfg, Some(hit)) <==> step_rise(cfg, Some(hit)) is None,
        !step_is_capped(cfg, None),
        step_is_free(None) && !step_is_free(Some(hit)),
        step_descent(cfg, None) is None,
        step_descent(cfg, Some(hit)) is Some <==> hit.normal.y.value() >= cfg.min_walk_cos.value(),
        step_descent(cfg, Some(hit)) is Some ==> step_descent(cfg, Some(hit)) == Some(hit.distance),
        step_has_ground(cfg, Some(hit)) <==> step_descent(cfg, Some(hit)) is Some,
        !step_has_ground(cfg, None),
        step_gets_farther(slid_squared, stepped_squared) <==> stepped_squared.value()
            > slid_squared.value(),
        crate::scalar::is_nearest_to(Scalar { bits: OVERHANG }, -1, 100),
{
    crate::scalar::law_constants();
    assert(!(Scalar { bits: OVERHANG }).nan());
}

/// A decision against a step leaves the character as the plain slide did, in place,
/// velocity, loss against walls and touches; one for it leaves the character as it
/// is and goes on. A step that is made keeps its level velocity, takes the vertical
/// speed of the plain slide, and counts as a step up just now.
pub proof fn law_what_a_decision_on_a_step_leaves(
    step: StepState,
    next: StepPhase,
    pose: Pose,
    state: Box3dCharacterControllerState,
)
    ensures
        step.decided(true, next, pose) == (next, pose),
        ({
            let (phase, after) = step.decided(false, next, pose);
            &&& phase == StepPhase::Slid
            &&& after.position == step.slid.position
            &&& after.state.velocity == step.slid.velocity
            &&& after.state.tac_velocity == step.slid.tac_velocity
            &&& after.touches == step.slid.touching_entities@
            &&& turned_aside(after.state, pose.state.velocity, pose.state.tac_velocity)
                == pose.state
        }),
        ({
            let after = step.stepped(state);
            &&& after.velocity.x == state.velocity.x && after.velocity.z == state.velocity.z
            &&& after.velocity.y == step.slid.velocity.y
            &&& after.last_step_up.elapsed@ == 0
            &&& after == (Box3dCharacterControllerState {
                velocity: after.velocity,
                last_step_up: after.last_step_up,
                ..state
            })
        }),
{
    broadcast use crate::time::lemma_view_of;

}

}
