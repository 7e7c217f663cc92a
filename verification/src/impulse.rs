//! Pushing the bodies that characters touched.

use vstd::prelude::*;
use crate::controller::TouchingEntity;
use crate::entity::{BodyId, Entity};
use crate::runtime::{Box3dRuntime, Links};
use crate::scalar::{Scalar, Vector, EPSILON};

verus! {

/// A body that a character pushes, and the touch through which it does.
#[derive(Clone, Copy, Debug, PartialEq, Eq, Structural)]
pub struct PushTarget {
    pub body_entity: Entity,
    pub body: BodyId,
    pub touch: TouchingEntity,
}

/// One of the touches was with that body.
pub open spec fn touched(links: Links, touches: Seq<TouchingEntity>, owner: Entity) -> bool {
    exists|i: int| 0 <= i < touches.len() && links.owner((#[trigger] touches[i]).entity) == Some(owner)
}

/// The bodies that a character pushes: each that it touched, once, through the
/// first touch, in the order of these.
pub open spec fn push_targets(links: Links, touches: Seq<TouchingEntity>) -> Seq<PushTarget>
    decreases touches.len(),
{
    if touches.len() == 0 {
        Seq::empty()
    } else {
        let before = push_targets(links, touches.drop_last());
        let touch = touches.last();
        match links.owner(touch.entity) {
            Some(owner) => match links.body(owner) {
                Some(body) => {
                    if touched(links, touches.drop_last(), owner) {
                        before
                    } else {
                        before.push(PushTarget { body_entity: owner, body, touch })
                    }
                },
                None => before,
            },
            None => before,
        }
    }
}

fn was_touched(
    runtime: &Box3dRuntime,
    touches: &Vec<TouchingEntity>,
    count: usize,
    owner: Entity,
) -> (r: bool)
    requires
        count <= touches@.len(),
    ensures
        r == touched(runtime@, touches@.take(count as int), owner),
{
    let mut i: usize = 0;
    while i < count
        invariant
            i <= count <= touches@.len(),
            forall|j: int|
                0 <= j < i ==> runtime@.owner((#[trigger] touches@[j]).entity) != Some(owner),
        decreases count - i,
    {
        if let Some(other) = runtime.owner(touches[i].entity) {
            if other == owner {
                assert(touches@.take(count as int)[i as int] == touches@[i as int]);
                return true;
            }
        }
        i = i + 1;
    }
    assert forall|j: int| 0 <= j < count implies runtime@.owner(
        (#[trigger] touches@.take(count as int)[j]).entity,
    ) != Some(owner) by {
        assert(touches@.take(count as int)[j] == touches@[j]);
    }
    false
}

/// Finds the bodies that a character pushes.
pub fn find_push_targets(runtime: &Box3dRuntime, touches: &Vec<TouchingEntity>) -> (r: Vec<
    PushTarget,
>)
    ensures
        r@ == push_targets(runtime@, touches@),
{
    let mut targets: Vec<PushTarget> = Vec::new();
    let mut i: usize = 0;
    while i < touches.len()
        invariant
            i <= touches@.len(),
            targets@ == push_targets(runtime@, touches@.take(i as int)),
        decreases touches@.len() - i,
    {
        let touch = touches[i];
        proof {
            assert(touches@.take(i + 1).drop_last() =~= touches@.take(i as int));
            assert(touches@.take(i + 1).last() == touch);
        }
        if let Some(owner) = runtime.owner(touch.entity) {
            if !was_touched(runtime, touches, i, owner) {
                if let Some(body) = runtime.body(owner) {
                    targets.push(PushTarget { body_entity: owner, body, touch });
                }
            }
        }
        i = i + 1;
    }
    assert(touches@.take(i as int) =~= touches@);
    targets
}

/// A character pushes no body twice in a tick. It pushes every body that it
/// touched and that the runtime knows, and no other.
pub proof fn law_body_is_pushed_once(links: Links, touches: Seq<TouchingEntity>)
    ensures
        forall|i: int, j: int|
            0 <= i < j < push_targets(links, touches).len() ==> (#[trigger] push_targets(
                links,
                touches,
            )[i]).body_entity != (#[trigger] push_targets(links, touches)[j]).body_entity,
        forall|i: int|
            0 <= i < push_targets(links, touches).len() ==> {
                let target = #[trigger] push_targets(links, touches)[i];
                &&& touched(links, touches, target.body_entity)
                &&& links.body(target.body_entity) == Some(target.body)
                &&& touches.contains(target.touch)
                &&& links.owner(target.touch.entity) == Some(target.body_entity)
            },
        forall|owner: Entity| #[trigger]
            touched(links, touches, owner) && links.body(owner) is Some ==> exists|i: int|
                0 <= i < push_targets(links, touches).len() && (#[trigger] push_targets(
                    links,
                    touches,
                )[i]).body_entity == owner,
    decreases touches.len(),
{
    if touches.len() > 0 {
        let rest = touches.drop_last();
        let last = touches.last();
        law_body_is_pushed_once(links, rest);
        let (before, after) = (push_targets(links, rest), push_targets(links, touches));
        assert forall|owner: Entity| #[trigger] touched(links, rest, owner) implies touched(
            links,
            touches,
            owner,
        ) by {
            let i = choose|i: int|
                0 <= i < rest.len() && links.owner((#[trigger] rest[i]).entity) == Some(owner);
            assert(links.owner(touches[i].entity) == Some(owner));
        }
        assert forall|i: int| 0 <= i < after.len() implies {
            let target = #[trigger] after[i];
            &&& touched(links, touches, target.body_entity)
            &&& links.body(target.body_entity) == Some(target.body)
            &&& touches.contains(target.touch)
            &&& links.owner(target.touch.entity) == Some(target.body_entity)
        } by {
            if i < before.len() {
                assert(after[i] == before[i]);
                let k = rest.index_of(before[i].touch);
                assert(touches[k] == before[i].touch);
            } else {
                assert(after[i].touch == last);
                assert(touches[touches.len() - 1] == last);
            }
        }
        assert forall|i: int, j: int| 0 <= i < j < after.len() implies (
        #[trigger] after[i]).body_entity != (#[trigger] after[j]).body_entity by {
            if j < before.len() {
                assert(before[i].body_entity != before[j].body_entity);
            } else {
                assert(touched(links, rest, before[i].body_entity));
            }
        }
        assert forall|owner: Entity| #[trigger]
            touched(links, touches, owner) && links.body(owner) is Some implies exists|i: int|
            0 <= i < after.len() && (#[trigger] after[i]).body_entity == owner by {
            let k = choose|k: int|
                0 <= k < touches.len() && links.owner((#[trigger] touches[k]).entity) == Some(owner);
            if touched(links, rest, owner) {
                let i = choose|i: int|
                    0 <= i < before.len() && (#[trigger] before[i]).body_entity == owner;
                assert(after[i] == before[i]);
            } else {
                if k < rest.len() {
                    assert(links.owner(rest[k].entity) == Some(owner));
                }
                assert(after[after.len() - 1].body_entity == owner);
            }
        }
    }
}

/// What is known of a push before it is made.
#[derive(Clone, Copy, Debug, PartialEq, Eq, Structural)]
pub struct Push {
    /// How fast character and body close in on each other.
    pub closing: Scalar,
    /// The inverse of the mass that the push works on.
    pub inverse_effective_mass: Scalar,
    /// The impulse, if one is made.
    pub impulse: Vector,
}

/// The impulse of a push: none from a character without a proper mass, none
/// unless the two close in, and none on what does not respond.
pub open spec fn push_impulse(character_mass: Scalar, push: Push) -> Vector {
    let zero = Scalar { bits: 0 };
    let epsilon = Scalar { bits: EPSILON };
    if character_mass.at_most(zero) || !character_mass.finite() {
        crate::scalar::origin()
    } else if push.closing.larger(zero).at_most(epsilon) {
        crate::scalar::origin()
    } else if push.inverse_effective_mass.at_most(epsilon) || !push.inverse_effective_mass.finite() {
        crate::scalar::origin()
    } else {
        push.impulse
    }
}

pub fn calculate_box3d_push_impulse(character_mass: Scalar, push: &Push) -> (r: Vector)
    ensures
        r == push_impulse(character_mass, *push),
{
    let epsilon = Scalar::new(EPSILON);
    if character_mass.le(Scalar::zero()) || !character_mass.is_finite() {
        return Vector::zero();
    }
    if push.closing.max(Scalar::zero()).le(epsilon) {
        return Vector::zero();
    }
    if push.inverse_effective_mass.le(epsilon) || !push.inverse_effective_mass.is_finite() {
        return Vector::zero();
    }
    push.impulse
}

pub open spec fn not_below_zero(quantity: Scalar) -> Scalar {
    quantity.larger(Scalar { bits: 0 })
}

/// The response of a body's spin to a push: it never helps the push along.
pub fn angular_inverse_mass(response: Scalar) -> (r: Scalar)
    ensures
        r == response.larger(Scalar { bits: 0 }),
        r == not_below_zero(response),
{
    response.max(Scalar::zero())
}

/// The speed at which character and body close in, by their relative speed along
/// the push: none if they move apart.
pub fn closing_speed(closing: Scalar) -> (r: Scalar)
    ensures
        r == closing.larger(Scalar { bits: 0 }),
        r == not_below_zero(closing),
{
    closing.max(Scalar::zero())
}

/// The quantities that a push is worked out from.
pub struct PushSums {
    /// Where the push goes.
    pub direction: Vector,
    /// The inverse of the character's mass.
    pub character_inverse_mass: Scalar,
    /// The inverse of the body's mass.
    pub body_inverse_mass: Scalar,
    /// How readily the push makes the body spin.
    pub response: Scalar,
    /// How hard the push is.
    pub strength: Scalar,
}

impl PushSums {
    /// How readily the point that is pushed gives way: with the body, and with
    /// its spin.
    pub open spec fn yielding(self) -> int {
        self.body_inverse_mass.value() + self.response.larger(Scalar { bits: 0 }).value()
    }

    /// The push is worked out without rounding: the inverse masses add up, the
    /// strength is the closing speed over their sum, and the impulse has that
    /// strength along the direction. No mass is below zero.
    pub open spec fn exact(self, push: Push) -> bool {
        let one = crate::scalar::unit();
        let closing = push.closing.larger(Scalar { bits: 0 }).value();
        &&& self.character_inverse_mass.value() >= 0 && self.body_inverse_mass.value() >= 0
        &&& push.inverse_effective_mass.value() == self.character_inverse_mass.value()
            + self.yielding()
        &&& self.strength.value() * push.inverse_effective_mass.value() == closing * one
        &&& push.impulse.x.value() * one == self.direction.x.value() * self.strength.value()
        &&& push.impulse.y.value() * one == self.direction.y.value() * self.strength.value()
        &&& push.impulse.z.value() * one == self.direction.z.value() * self.strength.value()
    }
}

/// A push never goes against its direction, and gives the body no more speed
/// than the two close in with: neither at the point that is pushed, nor at its
/// center of mass. In exact arithmetic.
pub proof fn law_impulse_is_bounded(character_mass: Scalar, push: Push, sums: PushSums)
    requires
        sums.exact(push),
    ensures
        ({
            let impulse = push_impulse(character_mass, push);
            let one = crate::scalar::unit();
            let closing = push.closing.larger(Scalar { bits: 0 }).value();
            &&& impulse.x.value() * sums.direction.x.value() >= 0
            &&& impulse.y.value() * sums.direction.y.value() >= 0
            &&& impulse.z.value() * sums.direction.z.value() >= 0
            &&& crate::scalar::dot(impulse, sums.direction) >= 0
            &&& !impulse.null() ==> {
                &&& 0 < sums.strength.value()
                &&& 0 <= sums.strength.value() * sums.yielding() <= closing * one
                &&& 0 <= sums.strength.value() * sums.body_inverse_mass.value() <= closing * one
            }
        }),
{
    let zero = Scalar { bits: 0 };
    assert(zero.value() == 0);
    let one = crate::scalar::unit();
    crate::scalar::lemma_unit();
    let closing = push.closing.larger(zero).value();
    let (strength, inverse) = (sums.strength.value(), push.inverse_effective_mass.value());
    let (whole, part) = (sums.yielding(), sums.body_inverse_mass.value());
    if !push_impulse(character_mass, push).null() {
        assert(crate::scalar::quanta(0) == 0);
        crate::scalar::lemma_quanta_increase(0, EPSILON as nat);
        assert(inverse > 0 && closing > 0);
        assert(strength > 0) by (nonlinear_arith)
            requires
                strength * inverse == closing * one,
                inverse > 0,
                closing > 0,
                one > 0,
        ;
        assert(0 <= strength * whole <= strength * inverse) by (nonlinear_arith)
            requires
                strength > 0,
                0 <= whole <= inverse,
        ;
        assert(0 <= strength * part <= strength * inverse) by (nonlinear_arith)
            requires
                strength > 0,
                0 <= part <= inverse,
        ;
        lemma_same_way(push.impulse.x.value(), sums.direction.x.value(), strength, one);
        lemma_same_way(push.impulse.y.value(), sums.direction.y.value(), strength, one);
        lemma_same_way(push.impulse.z.value(), sums.direction.z.value(), strength, one);
    } else {
        let impulse = push_impulse(character_mass, push);
        assert(impulse.x == zero && impulse.y == zero && impulse.z == zero);
    }
}

proof fn lemma_same_way(part: int, along: int, strength: int, one: int)
    requires
        part * one == along * strength,
        strength > 0,
        one > 0,
    ensures
        part * along >= 0,
{
    assert(part * along >= 0) by (nonlinear_arith)
        requires
            part * one == along * strength,
            strength > 0,
            one > 0,
    ;
}

/// Bodies that move apart are not pushed, and neither does a weightless
/// character push: then the impulse is none, whatever the rest.
pub proof fn law_only_closing_bodies_are_pushed(character_mass: Scalar, push: Push)
    requires
        push.closing.at_most(Scalar { bits: 0 }) || character_mass.at_most(Scalar { bits: 0 }),
    ensures
        push_impulse(character_mass, push).null(),
{
    assert((Scalar { bits: 0 }).value() == 0);
    assert(crate::scalar::quanta(0) == 0);
    crate::scalar::lemma_quanta_increase(0, EPSILON as nat);
}

/// A push to be made at the end of a tick.
#[derive(Clone, Copy, Debug, PartialEq, Eq, Structural)]
pub struct Impulse {
    pub body: Entity,
    pub character: Entity,
    pub point: Vector,
    pub impulse: Vector,
}

/// An impulse is worth making: it has some length and is finite.
pub open spec fn worthwhile(impulse: Vector, length_squared: Scalar) -> bool {
    &&& !length_squared.at_most(Scalar { bits: EPSILON })
    &&& impulse.x.finite() && impulse.y.finite() && impulse.z.finite()
}

/// The impulses with one more, if it is worth making.
pub open spec fn noted(
    impulses: Seq<Impulse>,
    impulse: Impulse,
    length_squared: Scalar,
) -> Seq<Impulse> {
    if worthwhile(impulse.impulse, length_squared) {
        impulses.push(impulse)
    } else {
        impulses
    }
}

/// Notes an impulse if it is worth making.
pub fn note_impulse(impulses: &mut Vec<Impulse>, impulse: Impulse, length_squared: Scalar)
    ensures
        final(impulses)@ == (if worthwhile(impulse.impulse, length_squared) {
            old(impulses)@.push(impulse)
        } else {
            old(impulses)@
        }),
        final(impulses)@ == noted(old(impulses)@, impulse, length_squared),
{
    if !length_squared.le(Scalar::new(EPSILON)) && impulse.impulse.x.is_finite()
        && impulse.impulse.y.is_finite() && impulse.impulse.z.is_finite() {
        impulses.push(impulse);
    }
}

/// By body, then by character.
pub open spec fn precedes(a: Impulse, b: Impulse) -> bool {
    a.body.bits < b.body.bits || a.body.bits == b.body.bits && a.character.bits < b.character.bits
}

fn goes_first(a: &Impulse, b: &Impulse) -> (r: bool)
    ensures
        r == precedes(*a, *b),
{
    a.body.bits < b.body.bits || a.body.bits == b.body.bits && a.character.bits < b.character.bits
}

/// No impulse comes after one that it precedes.
pub open spec fn in_order(s: Seq<Impulse>) -> bool {
    forall|i: int, j: int| 0 <= i <= j < s.len() ==> !precedes(#[trigger] s[j], #[trigger] s[i])
}

/// The impulses with that body and that character.
pub open spec fn between(s: Seq<Impulse>, body: u64, character: u64) -> Seq<Impulse> {
    s.filter(|i: Impulse| i.body.bits == body && i.character.bits == character)
}

/// The impulses of `s` in order; those between the same two stay in the order
/// that they have there.
pub open spec fn settled(s: Seq<Impulse>, sorted: Seq<Impulse>) -> bool {
    &&& sorted.to_multiset() == s.to_multiset()
    &&& in_order(sorted)
    &&& forall|body: u64, character: u64| #[trigger]
        between(sorted, body, character) == between(s, body, character)
}

proof fn lemma_neighbours_swap(s: Seq<Impulse>, at: int, body: u64, character: u64)
    requires
        0 < at < s.len(),
        precedes(s[at], s[at - 1]),
    ensures
        between(s.update(at - 1, s[at]).update(at, s[at - 1]), body, character) == between(
            s,
            body,
            character,
        ),
{
    let pred = |i: Impulse| i.body.bits == body && i.character.bits == character;
    let (x, y) = (s[at - 1], s[at]);
    let t = s.update(at - 1, y).update(at, x);
    let (head, tail) = (s.take(at - 1), s.skip(at + 1));
    let (xy, yx) = (seq![x, y], seq![y, x]);
    assert(s =~= head + xy + tail);
    assert(t =~= head + yx + tail);
    Seq::filter_distributes_over_add(head + xy, tail, pred);
    Seq::filter_distributes_over_add(head, xy, pred);
    Seq::filter_distributes_over_add(head + yx, tail, pred);
    Seq::filter_distributes_over_add(head, yx, pred);
    assert(xy.filter(pred) == yx.filter(pred)) by {
        reveal_with_fuel(Seq::filter, 3);
        assert(xy.drop_last() =~= seq![x] && yx.drop_last() =~= seq![y]);
        assert(seq![x].drop_last() =~= Seq::<Impulse>::empty());
        assert(seq![y].drop_last() =~= Seq::<Impulse>::empty());
        assert(!(pred(x) && pred(y)));
    }
}

/// Puts the impulses in order, so that the outcome does not depend on the order
/// in which characters are visited.
pub fn sort_impulses(impulses: &mut Vec<Impulse>)
    ensures
        settled(old(impulses)@, final(impulses)@),
{
    let n: usize = impulses.len();
    let mut done: usize = 0;
    while done < n
        invariant
            done <= n,
            impulses@.len() == n,
            impulses@.to_multiset() == old(impulses)@.to_multiset(),
            in_order(impulses@.take(done as int)),
            forall|body: u64, character: u64| #[trigger]
                between(impulses@, body, character) == between(old(impulses)@, body, character),
        decreases n - done,
    {
        let mut at: usize = done;
        proof {
            let placed = impulses@.take(done as int);
            assert forall|i: int, j: int| 0 <= i <= j < done implies !precedes(
                #[trigger] impulses@[j],
                #[trigger] impulses@[i],
            ) by {
                assert(placed[i] == impulses@[i] && placed[j] == impulses@[j]);
            }
        }
        while at > 0 && goes_first(&impulses[at], &impulses[at - 1])
            invariant
                at <= done < n,
                impulses@.len() == n,
                impulses@.to_multiset() == old(impulses)@.to_multiset(),
                forall|body: u64, character: u64| #[trigger]
                    between(impulses@, body, character) == between(
                        old(impulses)@,
                        body,
                        character,
                    ),
                forall|i: int, j: int|
                    0 <= i <= j <= done && i != at && j != at ==> !precedes(
                        #[trigger] impulses@[j],
                        #[trigger] impulses@[i],
                    ),
                forall|j: int|
                    at < j <= done ==> !precedes(#[trigger] impulses@[j], impulses@[at as int]),
            decreases at,
        {
            let above = impulses[at - 1];
            let moved = impulses[at];
            let ghost before = impulses@;
            impulses.set(at - 1, moved);
            impulses.set(at, above);
            proof {
                crate::entity::lemma_swap_keeps(before, at - 1, at as int);
                assert forall|body: u64, character: u64| #[trigger]
                    between(impulses@, body, character) == between(
                        old(impulses)@,
                        body,
                        character,
                    ) by {
                    lemma_neighbours_swap(before, at as int, body, character);
                }
            }
            at = at - 1;
        }
        assert(in_order(impulses@.take(done + 1)));
        done = done + 1;
    }
    assert(impulses@.take(n as int) =~= impulses@);
}

/// The order of the impulses is settled by the bodies and the characters alone:
/// where no two impulses are between the same two, there is only one order, so
/// it does not matter in which order they were noted.
pub proof fn law_order_is_unique(s: Seq<Impulse>, t: Seq<Impulse>, a: Seq<Impulse>, b: Seq<Impulse>)
    requires
        s.to_multiset() == t.to_multiset(),
        settled(s, a),
        settled(t, b),
        forall|i: int, j: int|
            0 <= i < j < a.len() ==> (#[trigger] a[i]).body != (#[trigger] a[j]).body
                || a[i].character != a[j].character,
    ensures
        a == b,
{
    lemma_order_unique(a, b);
}

proof fn lemma_order_unique(a: Seq<Impulse>, b: Seq<Impulse>)
    requires
        a.to_multiset() == b.to_multiset(),
        in_order(a),
        in_order(b),
        forall|i: int, j: int|
            0 <= i < j < a.len() ==> (#[trigger] a[i]).body != (#[trigger] a[j]).body
                || a[i].character != a[j].character,
    ensures
        a == b,
    decreases a.len(),
{
    broadcast use vstd::seq_lib::group_to_multiset_ensures;

    assert(a.len() == b.len()) by {
        assert(a.to_multiset().len() == a.len() && b.to_multiset().len() == b.len());
    }
    if a.len() > 0 {
        let (x, y) = (a.last(), b.last());
        assert(b.contains(x)) by {
            assert(a.contains(x));
            assert(b.to_multiset().count(x) > 0);
        }
        assert(a.contains(y)) by {
            assert(b.contains(y));
            assert(a.to_multiset().count(y) > 0);
        }
        let (i, j) = (a.index_of(y), b.index_of(x));
        assert(!precedes(a[a.len() - 1], a[i]));
        assert(!precedes(b[b.len() - 1], b[j]));
        assert(x.body.bits == y.body.bits && x.character.bits == y.character.bits);
        assert(x.body == y.body && x.character == y.character);
        if i < a.len() - 1 {
            assert(a[i].body != a[a.len() - 1].body || a[i].character != a[a.len() - 1].character);
        }
        assert(x == y);
        let (p, q) = (a.drop_last(), b.drop_last());
        assert(a =~= p.push(x) && b =~= q.push(y));
        assert(p.to_multiset() =~= a.to_multiset().remove(x));
        assert(q.to_multiset() =~= b.to_multiset().remove(x));
        lemma_order_unique(p, q);
    }
}

/// Whatever responds is pushed: by a character with a finite mass above zero that
/// closes in on it, with the impulse that the push has. In all other cases there
/// is no push.
pub proof fn law_whatever_responds_is_pushed(character_mass: Scalar, push: Push)
    requires
        !push.closing.nan() && !push.inverse_effective_mass.nan(),
    ensures
        character_mass.finite() && character_mass.value() > 0 && push.closing.value() > (
        Scalar { bits: EPSILON }).value() && push.inverse_effective_mass.finite()
            && push.inverse_effective_mass.value() > (Scalar { bits: EPSILON }).value()
            ==> push_impulse(character_mass, push) == push.impulse,
        !character_mass.finite() ==> push_impulse(character_mass, push).null(),
        character_mass.finite() && character_mass.value() <= 0 ==> push_impulse(
            character_mass,
            push,
        ).null(),
        push.closing.value() <= (Scalar { bits: EPSILON }).value() ==> push_impulse(
            character_mass,
            push,
        ).null(),
        !push.inverse_effective_mass.finite() ==> push_impulse(character_mass, push).null(),
        push.inverse_effective_mass.value() <= (Scalar { bits: EPSILON }).value() ==> push_impulse(
            character_mass,
            push,
        ).null(),
        !push.closing.nan() && push.closing.value() >= 0 ==> not_below_zero(push.closing)
            == push.closing,
        push.closing.value() < 0 ==> not_below_zero(push.closing).value() == 0,
{
    assert((Scalar { bits: 0 }).value() == 0);
    assert(!(Scalar { bits: EPSILON }).nan());
    assert(crate::scalar::quanta(0) == 0);
    crate::scalar::lemma_quanta_increase(0, EPSILON as nat);
}

/// A push takes the closing speed away, no more and no less: along its direction,
/// its impulse times the inverse of the mass that it works on is the closing
/// speed, times the square of the direction's length, which is one for a
/// direction. In exact arithmetic.
pub proof fn law_push_takes_the_closing_speed(
    character_mass: Scalar,
    push: Push,
    sums: PushSums,
)
    requires
        sums.exact(push),
        character_mass.finite() && character_mass.value() > 0,
        !push.closing.nan() && push.closing.value() > (Scalar { bits: EPSILON }).value(),
        push.inverse_effective_mass.finite(),
        push.inverse_effective_mass.value() > (Scalar { bits: EPSILON }).value(),
    ensures
        crate::scalar::dot(push_impulse(character_mass, push), sums.direction)
            * push.inverse_effective_mass.value() == push.closing.value() * crate::scalar::square(
            sums.direction,
        ),
        push.inverse_effective_mass.value() == sums.character_inverse_mass.value()
            + sums.body_inverse_mass.value() + (if !sums.response.nan() && sums.response.value()
            > 0 {
            sums.response.value()
        } else {
            0
        }),
{
    law_whatever_responds_is_pushed(character_mass, push);
    assert((Scalar { bits: 0 }).value() == 0);
    assert(crate::scalar::quanta(0) == 0);
    crate::scalar::lemma_quanta_increase(0, EPSILON as nat);
    crate::scalar::lemma_unit();
    let u = crate::scalar::unit();
    let (s, w, c) = (
        sums.strength.value(),
        push.inverse_effective_mass.value(),
        push.closing.value(),
    );
    let (ix, iy, iz) = (
        push.impulse.x.value(),
        push.impulse.y.value(),
        push.impulse.z.value(),
    );
    let (dx, dy, dz) = (
        sums.direction.x.value(),
        sums.direction.y.value(),
        sums.direction.z.value(),
    );
    lemma_part_of_a_push(ix, dx, s, u);
    lemma_part_of_a_push(iy, dy, s, u);
    lemma_part_of_a_push(iz, dz, s, u);
    let (along, long) = (ix * dx + iy * dy + iz * dz, dx * dx + dy * dy + dz * dz);
    assert(along * u == (ix * dx) * u + (iy * dy) * u + (iz * dz) * u) by (nonlinear_arith)
        requires
            along == ix * dx + iy * dy + iz * dz,
    ;
    assert(long * s == (dx * dx) * s + (dy * dy) * s + (dz * dz) * s) by (nonlinear_arith)
        requires
            long == dx * dx + dy * dy + dz * dz,
    ;
    assert((along * w) * u == (c * long) * u) by (nonlinear_arith)
        requires
            along * u == long * s,
            s * w == c * u,
    ;
    assert(along * w == c * long) by (nonlinear_arith)
        requires
            (along * w) * u == (c * long) * u,
            u > 0,
    ;
}

proof fn lemma_part_of_a_push(part: int, along: int, strength: int, one: int)
    requires
        part * one == along * strength,
    ensures
        (part * along) * one == (along * along) * strength,
{
    assert((part * along) * one == (part * one) * along) by (nonlinear_arith);
    assert((along * strength) * along == (along * along) * strength) by (nonlinear_arith);
}

/// Impulses are noted where they have some length and are finite, at the end of
/// those already noted, and else not at all. Order goes by the body first.
pub proof fn law_impulses_that_are_noted(
    impulses: Seq<Impulse>,
    impulse: Impulse,
    length_squared: Scalar,
    other: Impulse,
)
    requires
        !length_squared.nan(),
    ensures
        ({
            let after = noted(impulses, impulse, length_squared);
            let whole = impulse.impulse.x.finite() && impulse.impulse.y.finite()
                && impulse.impulse.z.finite();
            let long = length_squared.value() > (Scalar { bits: EPSILON }).value();
            &&& whole && long ==> after == impulses.push(impulse)
            &&& !whole || !long ==> after == impulses
        }),
        impulse.body.bits < other.body.bits ==> precedes(impulse, other) && !precedes(
            other,
            impulse,
        ),
        impulse.body == other.body && impulse.character.bits < other.character.bits ==> precedes(
            impulse,
            other,
        ) && !precedes(other, impulse),
        impulse.body == other.body && impulse.character == other.character ==> !precedes(
            impulse,
            other,
        ),
{
    assert(!(Scalar { bits: EPSILON }).nan());
}

/// Sorting keeps each impulse, as often as it was noted, and puts lower bodies
/// first and for one body lower characters; those between the same two stay in
/// the order that they were noted in.
pub proof fn law_sorted_impulses(s: Seq<Impulse>, sorted: Seq<Impulse>)
    requires
        settled(s, sorted),
    ensures
        sorted.to_multiset() == s.to_multiset(),
        forall|i: int, j: int|
            0 <= i < j < sorted.len() ==> (#[trigger] sorted[i]).body.bits <= (
            #[trigger] sorted[j]).body.bits,
        forall|i: int, j: int|
            0 <= i < j < sorted.len() && (#[trigger] sorted[i]).body == (
            #[trigger] sorted[j]).body ==> sorted[i].character.bits <= sorted[j].character.bits,
        forall|body: Entity, character: Entity|
            sorted.filter(|i: Impulse| i.body.bits == body.bits && i.character.bits == character.bits)
                == #[trigger] between(s, body.bits, character.bits),
        forall|body: u64, character: u64| #[trigger]
            between(s, body, character) == s.filter(
                |i: Impulse| i.body.bits == body && i.character.bits == character,
            ),
{
    assert forall|i: int, j: int| 0 <= i < j < sorted.len() implies (
    #[trigger] sorted[i]).body.bits <= (#[trigger] sorted[j]).body.bits by {
        assert(!precedes(sorted[j], sorted[i]));
    }
    assert forall|i: int, j: int|
        0 <= i < j < sorted.len() && (#[trigger] sorted[i]).body == (
        #[trigger] sorted[j]).body implies sorted[i].character.bits
        <= sorted[j].character.bits by {
        assert(!precedes(sorted[j], sorted[i]));
    }
    assert forall|body: Entity, character: Entity|
        sorted.filter(|i: Impulse| i.body.bits == body.bits && i.character.bits == character.bits)
            == #[trigger] between(s, body.bits, character.bits) by {
        let (b, c) = (body.bits, character.bits);
        assert(between(sorted, b, c) == between(s, b, c));
        let p = |i: Impulse| i.body.bits == b && i.character.bits == c;
        let q = |i: Impulse| i.body.bits == body.bits && i.character.bits == character.bits;
        assert(p =~= q);
    }
}

/// A body is pushed through the first touch with it: each target's touch comes
/// before every other touch with the same body, and targets come in the order of
/// their touches. A body is touched exactly when one of the touches is with a
/// shape on it.
pub proof fn law_first_touch_pushes(links: Links, touches: Seq<TouchingEntity>, more: TouchingEntity)
    ensures
        push_targets(links, Seq::empty()).len() == 0,
        push_targets(links, touches) =~= push_targets(links, touches.push(more)).take(
            push_targets(links, touches).len() as int,
        ),
        push_targets(links, touches.push(more)).len() <= push_targets(links, touches).len() + 1,
        push_targets(links, touches.push(more)).len() > push_targets(links, touches).len() <==> ({
            &&& links.owner(more.entity) is Some
            &&& links.body(links.owner(more.entity)->0) is Some
            &&& forall|i: int|
                0 <= i < touches.len() ==> links.owner((#[trigger] touches[i]).entity)
                    != links.owner(more.entity)
        }),
        push_targets(links, touches.push(more)).len() > push_targets(links, touches).len() ==> ({
            let target = push_targets(links, touches.push(more)).last();
            &&& target.touch == more
            &&& Some(target.body_entity) == links.owner(more.entity)
            &&& Some(target.body) == links.body(target.body_entity)
        }),
        touched(links, touches.push(more), more.entity) <==> links.owner(more.entity) == Some(
            more.entity,
        ) || touched(links, touches, more.entity),
{
    let all = touches.push(more);
    assert(all.drop_last() =~= touches);
    assert(all.last() == more);
    if links.owner(more.entity) is Some {
        let owner = links.owner(more.entity)->0;
        if touched(links, touches, owner) {
            let i = choose|i: int|
                0 <= i < touches.len() && links.owner((#[trigger] touches[i]).entity) == Some(owner);
            assert(links.owner(touches[i].entity) == links.owner(more.entity));
        } else {
            assert forall|i: int| 0 <= i < touches.len() implies links.owner(
                (#[trigger] touches[i]).entity,
            ) != links.owner(more.entity) by {}
        }
    }
    let e = more.entity;
    if touched(links, touches, e) {
        let i = choose|i: int|
            0 <= i < touches.len() && links.owner((#[trigger] touches[i]).entity) == Some(e);
        assert(all[i] == touches[i]);
    }
    if links.owner(e) == Some(e) {
        assert(links.owner(all[touches.len() as int].entity) == Some(e));
    }
    if touched(links, all, e) {
        let i = choose|i: int|
            0 <= i < all.len() && links.owner((#[trigger] all[i]).entity) == Some(e);
        if i < touches.len() {
            assert(links.owner(touches[i].entity) == Some(e));
        }
    }
}

}
