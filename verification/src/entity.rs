//! Handles: the entities of the game world, and the bodies and shapes of the
//! physics world. Each is known by the 64 bits that its owner packs it into.

use vstd::prelude::*;

verus! {

/// An entity of the game world.
#[derive(Clone, Copy, Debug, PartialEq, Eq, Structural)]
pub struct Entity {
    pub bits: u64,
}

/// A body of the physics world.
#[derive(Clone, Copy, Debug, PartialEq, Eq, Structural)]
pub struct BodyId {
    pub bits: u64,
}

/// A shape of the physics world.
#[derive(Clone, Copy, Debug, PartialEq, Eq, Structural)]
pub struct ShapeId {
    pub bits: u64,
}

/// Native body handle of an entity.
#[derive(Clone, Copy, Debug, PartialEq, Eq, Structural)]
pub struct AhoyBox3dNativeBody {
    pub id: BodyId,
}

/// Native shape handle of an entity.
#[derive(Clone, Copy, Debug, PartialEq, Eq, Structural)]
pub struct AhoyBox3dShape {
    pub id: ShapeId,
}

/// In ascending order of their bits.
pub open spec fn ascending(s: Seq<Entity>) -> bool {
    forall|i: int, j: int| 0 <= i <= j < s.len() ==> #[trigger] s[i].bits <= #[trigger] s[j].bits
}

/// The entities of `s`, each as often as there, in ascending order.
pub open spec fn arranged(s: Seq<Entity>, sorted: Seq<Entity>) -> bool {
    ascending(sorted) && sorted.to_multiset() == s.to_multiset()
}

/// Two arrangements of the same entities are the same sequence.
pub proof fn lemma_arranged_unique(s: Seq<Entity>, a: Seq<Entity>, b: Seq<Entity>)
    requires
        arranged(s, a),
        arranged(s, b),
    ensures
        a == b,
    decreases a.len(),
{
    broadcast use vstd::seq_lib::group_to_multiset_ensures;

    assert(a.to_multiset().len() == b.to_multiset().len());
    if a.len() > 0 {
        let (x, y) = (a.last(), b.last());
        assert(b.contains(x)) by {
            assert(a.contains(x));
            assert(b.to_multiset().count(x) > 0);
        }
        assert(a.contains(y)) by {
            assert(b.contains(y));
            assert(a.to_multiset().count(y) > 0);
        }
        let (i, j) = (a.index_of(y), b.index_of(x));
        assert(a[i].bits <= x.bits && b[j].bits <= y.bits);
        assert(x == y);
        let (p, q) = (a.drop_last(), b.drop_last());
        assert(a =~= p.push(x) && b =~= q.push(y));
        assert(p.to_multiset() =~= a.to_multiset().remove(x));
        assert(q.to_multiset() =~= b.to_multiset().remove(x));
        lemma_arranged_unique(p, p, q);
    }
}

/// Swapping two elements keeps the elements.
pub proof fn lemma_swap_keeps<A>(s: Seq<A>, i: int, j: int)
    requires
        0 <= i < s.len(),
        0 <= j < s.len(),
    ensures
        s.update(i, s[j]).update(j, s[i]).to_multiset() == s.to_multiset(),
{
    broadcast use vstd::seq_lib::group_to_multiset_ensures;

    let t = s.update(i, s[j]);
    assert(t.len() == s.len());
    if i != j {
        assert(s.contains(s[i]));
        assert(t[j] == s[j]);
    }
    assert(t.update(j, s[i]).to_multiset() =~= s.to_multiset());
}

/// Sorts entities by their bits.
pub fn sort_entities(entities: &mut Vec<Entity>)
    ensures
        arranged(old(entities)@, final(entities)@),
{
    broadcast use vstd::seq_lib::group_to_multiset_ensures;

    let n: usize = entities.len();
    let mut done: usize = 0;
    while done < n
        invariant
            done <= n,
            entities@.len() == n,
            entities@.to_multiset() == old(entities)@.to_multiset(),
            ascending(entities@.take(done as int)),
        decreases n - done,
    {
        let mut at: usize = done;
        proof {
            let placed = entities@.take(done as int);
            assert forall|i: int, j: int| 0 <= i <= j < done implies #[trigger] entities@[i].bits
                <= #[trigger] entities@[j].bits by {
                assert(placed[i] == entities@[i] && placed[j] == entities@[j]);
            }
        }
        while at > 0 && entities[at].bits < entities[at - 1].bits
            invariant
                at <= done < n,
                entities@.len() == n,
                entities@.to_multiset() == old(entities)@.to_multiset(),
                forall|i: int, j: int|
                    0 <= i <= j <= done && i != at && j != at ==> #[trigger] entities@[i].bits
                        <= #[trigger] entities@[j].bits,
                forall|j: int| at < j <= done ==> entities@[at as int].bits <= (
                #[trigger] entities@[j]).bits,
            decreases at,
        {
            let above = entities[at - 1];
            let moved = entities[at];
            let ghost before = entities@;
            entities.set(at - 1, moved);
            entities.set(at, above);
            proof {
                lemma_swap_keeps(before, at - 1, at as int);
            }
            at = at - 1;
        }
        assert(ascending(entities@.take(done + 1)));
        done = done + 1;
    }
    assert(entities@.take(n as int) =~= entities@);
}

/// Sorted entities are in ascending order, each as often as before: none is
/// lost, none is added, and the lowest comes first.
pub proof fn law_sorted_entities(s: Seq<Entity>, sorted: Seq<Entity>)
    requires
        arranged(s, sorted),
    ensures
        sorted.len() == s.len(),
        forall|i: int, j: int|
            0 <= i < j < sorted.len() ==> #[trigger] sorted[i].bits <= #[trigger] sorted[j].bits,
        forall|e: Entity| #[trigger]
            s.to_multiset().count(e) == sorted.to_multiset().count(e),
        forall|e: Entity| #[trigger] s.contains(e) <==> sorted.contains(e),
        forall|e: Entity| #[trigger] s.contains(e) ==> sorted[0].bits <= e.bits,
{
    broadcast use vstd::seq_lib::group_to_multiset_ensures;

    assert(s.to_multiset().len() == sorted.to_multiset().len());
    assert forall|e: Entity| #[trigger] s.contains(e) <==> sorted.contains(e) by {
        assert(s.to_multiset().count(e) == sorted.to_multiset().count(e));
    }
    assert forall|e: Entity| #[trigger] s.contains(e) implies sorted[0].bits <= e.bits by {
        let i = sorted.index_of(e);
        assert(sorted[0].bits <= sorted[i].bits);
    }
}

}
