//! Engine-wide laws, stated over the collision model and proved once for
//! every input.

use vstd::prelude::*;
use crate::collision::{
    collide_all, collide_step, find_laser_from, find_opponent_from, lemma_find_laser_range,
    lemma_find_opponent_range, CombatState,
};
use crate::world::SHIP_ID;

verus! {

/// A live registry entry carrying the opponent tag still has a hit to
/// absorb.
pub open spec fn armed_opponents(s: CombatState) -> bool {
    forall|k: int|
        0 <= k < s.entities.len() ==> (((#[trigger] s.entities[k]).alive && s.entities[k].opponent
            is Some) ==> s.entities[k].opponent->0.max_hits >= 1)
}

/// Destroying an entity that is already destroyed changes nothing: the
/// removal directive is idempotent, not an error.
pub proof fn lemma_destruction_idempotent(e: crate::components::Entity)
    ensures
        e.killed().killed() == e.killed(),
{
}

/// Every well-formed world enters collision resolution with its live
/// opponents armed, so the laws below apply to it.
pub proof fn lemma_wf_implies_armed(w: crate::world::GameWorld)
    requires
        w.wf(),
    ensures
        armed_opponents(crate::collision::combat_model(w)),
{
}

/// One resolved pair never raises a remaining-hit count, never revives an
/// entity, never changes an id or strips a tag, and keeps every live
/// opponent armed.
pub proof fn lemma_step_hits_monotonic(s: CombatState, a: u64, b: u64)
    requires
        armed_opponents(s),
    ensures
        armed_opponents(collide_step(s, a, b)),
        collide_step(s, a, b).entities.len() == s.entities.len(),
        forall|k: int|
            0 <= k < s.entities.len() ==> {
                let e0 = s.entities[k];
                let e1 = #[trigger] collide_step(s, a, b).entities[k];
                &&& e1.id == e0.id
                &&& (e1.opponent is Some <==> e0.opponent is Some)
                &&& (e0.opponent is Some ==> e1.opponent->0.max_hits <= e0.opponent->0.max_hits)
                &&& (e1.alive ==> e0.alive)
            },
{
    lemma_find_opponent_range(s.entities, a, b, 0);
    lemma_find_laser_range(s.entities, a, b, 0);
}

/// Over an opponent's whole lifetime its remaining-hit count never
/// increases, destruction is permanent, its identity and tags survive
/// resolution, and no live opponent is ever left at zero: it is destroyed
/// in the same step that spends its last hit.
pub proof fn lemma_remaining_hits_monotonic(s: CombatState, pairs: Seq<(u64, u64)>)
    requires
        armed_opponents(s),
    ensures
        armed_opponents(collide_all(s, pairs)),
        collide_all(s, pairs).entities.len() == s.entities.len(),
        forall|k: int|
            0 <= k < s.entities.len() ==> {
                let e0 = s.entities[k];
                let e1 = #[trigger] collide_all(s, pairs).entities[k];
                &&& e1.id == e0.id
                &&& (e1.opponent is Some <==> e0.opponent is Some)
                &&& (e0.opponent is Some ==> e1.opponent->0.max_hits <= e0.opponent->0.max_hits)
                &&& (e1.alive ==> e0.alive)
            },
    decreases pairs.len(),
{
    if pairs.len() > 0 {
        lemma_remaining_hits_monotonic(s, pairs.drop_last());
        lemma_step_hits_monotonic(
            collide_all(s, pairs.drop_last()),
            pairs.last().0,
            pairs.last().1,
        );
    }
}

/// A live opponent is destroyed by a pair exactly when the triage lands
/// on it and either the ship itself is the other party, or a qualifying
/// projectile spends its last remaining hit. No other pair touches its
/// liveness.
pub proof fn lemma_opponent_destruction_step(s: CombatState, a: u64, b: u64, i: int)
    requires
        0 <= i < s.entities.len(),
        s.entities[i].alive,
        s.entities[i].opponent is Some,
        s.entities[i].opponent->0.max_hits >= 1,
        s.entities[i].laser is None,
    ensures
        !collide_step(s, a, b).entities[i].alive <==> (find_opponent_from(s.entities, a, b, 0)
            == Some(i) && ((a == SHIP_ID || b == SHIP_ID) || (find_laser_from(s.entities, a, b, 0)
            matches Some(j) && s.entities[j].laser->0.player && s.entities[i].opponent->0.max_hits
            == 1))),
{
    lemma_find_opponent_range(s.entities, a, b, 0);
    lemma_find_laser_range(s.entities, a, b, 0);
}

} // verus!
