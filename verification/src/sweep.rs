//! The lifetime sweeper: removal of entities that leave their bounds, and
//! compaction of the registry.

use vstd::prelude::*;
use crate::components::Entity;
use crate::world::GameWorld;

verus! {

/// A bounded entity whose tracked depth coordinate has left the open
/// interval between its thresholds.
pub open spec fn out_of_bounds(e: Entity) -> bool {
    e.bounds matches Some(d) && (e.pos.z > d.max || e.pos.z < d.min)
}

/// The sweep phase: exactly the live bounded entities whose depth
/// coordinate has left its interval die; everything else stays as it was.
pub open spec fn sweep_rel(a: GameWorld, b: GameWorld) -> bool {
    &&& b.entities@.len() == a.entities@.len()
    &&& forall|i: int|
        0 <= i < a.entities@.len() ==> #[trigger] b.entities@[i] == (
        if a.entities@[i].alive && out_of_bounds(a.entities@[i]) {
            a.entities@[i].killed()
        } else {
            a.entities@[i]
        })
    &&& b == (GameWorld { entities: b.entities, ..a })
}

/// The compaction phase: the destroyed entries leave the registry, the
/// live ones keep their order, and everything else stays as it was.
pub open spec fn prune_rel(a: GameWorld, b: GameWorld) -> bool {
    &&& b.entities@ == a.entities@.filter(|e: Entity| e.alive)
    &&& b == (GameWorld { entities: b.entities, ..a })
}

/// Removes every live bounded entity whose depth coordinate has left its
/// interval — exactly those, and no entity still inside its bounds.
pub fn despawn_all(world: &mut GameWorld)
    requires
        old(world).wf(),
    ensures
        final(world).wf(),
        sweep_rel(*old(world), *final(world)),
{
    let n = world.entities.len();
    let mut i: usize = 0;
    while i < n
        invariant
            i <= n,
            n == world.entities@.len(),
            world.entities@.len() == old(world).entities@.len(),
            forall|k: int|
                0 <= k < i ==> #[trigger] world.entities@[k] == (
                if old(world).entities@[k].alive && out_of_bounds(old(world).entities@[k]) {
                    old(world).entities@[k].killed()
                } else {
                    old(world).entities@[k]
                }),
            forall|k: int| i <= k < n ==> #[trigger] world.entities@[k] == old(world).entities@[k],
            *world == (GameWorld { entities: world.entities, ..*old(world) }),
        decreases n - i,
    {
        let gone = match &world.entities[i].bounds {
            Some(d) => world.entities[i].pos.z > d.max || world.entities[i].pos.z < d.min,
            None => false,
        };
        if gone && world.entities[i].alive {
            let e = &mut world.entities[i];
            e.alive = false;
        }
        i = i + 1;
    }
    proof {
        assert forall|i: int| 0 <= i < world.entities@.len() implies (
        #[trigger] world.entities@[i]).wf() by {
            assert(old(world).entities@[i].wf());
        }
    }
}

/// Drops the destroyed entries from the registry, keeping the live ones
/// in order. This is the deferred application of every removal directive
/// issued during the frame.
pub fn prune_removed(world: &mut GameWorld)
    requires
        old(world).wf(),
    ensures
        final(world).wf(),
        prune_rel(*old(world), *final(world)),
{
    let ghost orig = old(world).entities@;
    let ghost pred = |e: Entity| e.alive;
    let mut i: usize = 0;
    let ghost mut j: int = 0;
    proof {
        reveal(Seq::filter);
        assert(orig.take(0).filter(pred) =~= Seq::<Entity>::empty());
        assert(world.entities@ =~= orig.take(0).filter(pred) + orig.skip(0));
    }
    while i < world.entities.len()
        invariant
            0 <= j <= orig.len(),
            i == orig.take(j).filter(pred).len(),
            world.entities@ == orig.take(j).filter(pred) + orig.skip(j),
            *world == (GameWorld { entities: world.entities, ..*old(world) }),
            orig == old(world).entities@,
            pred == (|e: Entity| e.alive),
        decreases orig.len() - j,
    {
        proof {
            assert(j < orig.len()) by {
                orig.take(j).lemma_filter_len(pred);
            }
            assert(world.entities@[i as int] == orig[j]) by {
                assert(orig.skip(j)[0] == orig[j]);
            }
            reveal(Seq::filter);
            assert(orig.take(j + 1).drop_last() =~= orig.take(j));
            assert(orig.take(j + 1).last() == orig[j]);
        }
        if world.entities[i].alive {
            proof {
                assert(orig.take(j + 1).filter(pred) == orig.take(j).filter(pred).push(orig[j]));
                assert(orig.take(j).filter(pred).push(orig[j]) + orig.skip(j + 1) =~= orig.take(
                    j,
                ).filter(pred) + orig.skip(j));
            }
            i = i + 1;
        } else {
            let _ = world.entities.remove(i);
            proof {
                assert(orig.take(j + 1).filter(pred) == orig.take(j).filter(pred));
                assert((orig.take(j).filter(pred) + orig.skip(j)).remove(i as int) =~= orig.take(
                    j,
                ).filter(pred) + orig.skip(j + 1));
            }
        }
        proof {
            j = j + 1;
        }
    }
    proof {
        assert(j == orig.len()) by {
            if j < orig.len() {
                assert(orig.skip(j).len() > 0);
            }
        }
        assert(orig.take(j) =~= orig);
        assert(world.entities@ =~= orig.filter(pred));
        lemma_filter_keeps_registry_wf(orig, old(world).next_id);
    }
}

/// Dropping the destroyed entries keeps the registry's invariants: every
/// kept entry already sat in the registry, so it stays well formed, its
/// id stays in range, and the ids stay pairwise distinct.
proof fn lemma_filter_keeps_registry_wf(s: Seq<Entity>, next_id: u64)
    requires
        forall|k: int| 0 <= k < s.len() ==> (#[trigger] s[k]).wf(),
        forall|k: int| 0 <= k < s.len() ==> 1 <= (#[trigger] s[k]).id < next_id,
        forall|k: int, l: int| 0 <= k < l < s.len() ==> (#[trigger] s[k]).id != (#[trigger] s[l]).id,
    ensures
        ({
            let f = s.filter(|e: Entity| e.alive);
            &&& forall|i: int| 0 <= i < f.len() ==> s.contains(#[trigger] f[i])
            &&& forall|i: int| 0 <= i < f.len() ==> (#[trigger] f[i]).wf()
            &&& forall|i: int| 0 <= i < f.len() ==> 1 <= (#[trigger] f[i]).id < next_id
            &&& forall|i: int, j: int|
                0 <= i < j < f.len() ==> (#[trigger] f[i]).id != (#[trigger] f[j]).id
        }),
    decreases s.len(),
{
    reveal(Seq::filter);
    let pred = |e: Entity| e.alive;
    let f = s.filter(pred);
    if s.len() > 0 {
        let prefix = s.drop_last();
        let fp = prefix.filter(pred);
        lemma_filter_keeps_registry_wf(prefix, next_id);
        assert forall|i: int| 0 <= i < fp.len() implies s.contains(#[trigger] fp[i]) by {
            assert(prefix.contains(fp[i]));
            let k = choose|k: int| 0 <= k < prefix.len() && prefix[k] == fp[i];
            assert(s[k] == fp[i]);
        }
        if pred(s.last()) {
            assert(f == fp.push(s.last()));
            assert(s.contains(s.last())) by {
                assert(s[s.len() - 1] == s.last());
            }
            assert forall|i: int, j: int|
                0 <= i < j < f.len() implies (#[trigger] f[i]).id != (#[trigger] f[j]).id by {
                if j == f.len() - 1 {
                    assert(f[j] == s.last());
                    assert(f[i] == fp[i]);
                    let k = choose|k: int| 0 <= k < prefix.len() && prefix[k] == fp[i];
                    assert(s[k].id != s[s.len() - 1].id);
                }
            }
        } else {
            assert(f == fp);
        }
    }
}

} // verus!
