//! The level-progression state machine and the loss check.

use vstd::prelude::*;
use crate::components::{Entity, GameState, Ship, WinOrLostState};
use crate::events::RotateSkyboxEvent;
use crate::world::{GameWorld, CHANGE_LEVEL_HITS};

verus! {

/// Spawn period once the second level begins, in milliseconds.
pub const LEVEL2_SPAWN_PERIOD_MS: u64 = 100;

/// Spawn period once the third level begins, in milliseconds.
pub const LEVEL3_SPAWN_PERIOD_MS: u64 = 400;

/// The loss transition as a pure function: once the shields fall below
/// zero the verdict latches to `Lost` and gameplay updates halt. On any
/// other state the world is left untouched.
pub open spec fn lost_transition(w: GameWorld) -> GameWorld {
    if w.ship.shields < 0 {
        GameWorld {
            state: GameState::End,
            ship: Ship { win_or_lost: WinOrLostState::Lost, ..w.ship },
            ..w
        }
    } else {
        w
    }
}

/// Checks the ship's charge every frame and applies the loss transition.
pub fn test_shields(world: &mut GameWorld)
    requires
        old(world).wf(),
    ensures
        final(world).wf(),
        *final(world) == lost_transition(*old(world)),
{
    if world.ship.shields < 0 {
        world.state = GameState::End;
        world.ship.win_or_lost = WinOrLostState::Lost;
    }
}

/// Applying the loss transition a second time changes nothing: the
/// verdict latches exactly once and repeated checks have no further
/// effect.
pub proof fn lemma_lost_transition_idempotent(w: GameWorld)
    ensures
        lost_transition(lost_transition(w)) == lost_transition(w),
{
}

/// The progression phase: while the kill quota is unspent nothing moves;
/// once it is spent the quota refills, the counter steps up, and the
/// level entered runs its one-time side effects — the second level
/// removes every planet, the third every remaining opponent, each
/// emitting one rotation signal and resetting the spawn cadence.
pub open spec fn level_rel(a: GameWorld, b: GameWorld) -> bool {
    if a.ship.hits > 0 {
        b == a
    } else {
        let v = a.level.value + 1;
        &&& b.ship == (Ship { hits: CHANGE_LEVEL_HITS, ..a.ship })
        &&& b.level.value == v
        &&& b.entities@.len() == a.entities@.len()
        &&& forall|i: int|
            0 <= i < a.entities@.len() ==> #[trigger] b.entities@[i] == (
            if v == 2 && a.entities@[i].planet is Some {
                a.entities@[i].killed()
            } else if v == 3 && a.entities@[i].opponent is Some {
                a.entities@[i].killed()
            } else {
                a.entities@[i]
            })
        &&& b.rotate_queue@ == if v == 2 || v == 3 {
            a.rotate_queue@.push(RotateSkyboxEvent)
        } else {
            a.rotate_queue@
        }
        &&& b.spawn_timer == if v == 2 {
            crate::resources::SpawnTimer { elapsed_ms: 0, period_ms: LEVEL2_SPAWN_PERIOD_MS }
        } else if v == 3 {
            crate::resources::SpawnTimer { elapsed_ms: 0, period_ms: LEVEL3_SPAWN_PERIOD_MS }
        } else {
            a.spawn_timer
        }
        &&& b.ship_pos == a.ship_pos
        &&& b.ship_gun == a.ship_gun
        &&& b.state == a.state
        &&& b.next_id == a.next_id
        &&& b.effect_queue@ == a.effect_queue@
        &&& b.terrain_done == a.terrain_done
    }
}

/// Advances the level once the kill quota is spent: the quota refills,
/// the counter steps up, and the level entered runs its one-time side
/// effects. Entering the second level removes every planet, emits one
/// rotation signal, and tightens the spawn cadence; entering the third
/// removes every remaining opponent, emits one rotation signal, and sets
/// the terrain cadence. Beyond those, only the counter and quota change.
pub fn change_level(world: &mut GameWorld)
    requires
        old(world).wf(),
        old(world).level.value < u64::MAX,
    ensures
        final(world).wf(),
        level_rel(*old(world), *final(world)),
{
    if world.ship.hits <= 0 {
        world.ship.hits = CHANGE_LEVEL_HITS;
        world.level.value = world.level.value + 1;
        let v = world.level.value;
        if v == 2 {
            world.rotate_queue.push(RotateSkyboxEvent);
            kill_tagged(&mut world.entities, true);
            world.spawn_timer.set_period(LEVEL2_SPAWN_PERIOD_MS);
        } else if v == 3 {
            world.rotate_queue.push(RotateSkyboxEvent);
            kill_tagged(&mut world.entities, false);
            world.spawn_timer.set_period(LEVEL3_SPAWN_PERIOD_MS);
        }
    }
}

/// Clears the liveness of every entity carrying the selected tag: the
/// planet tag when `planets` is set, the opponent tag otherwise.
fn kill_tagged(entities: &mut Vec<Entity>, planets: bool)
    requires
        forall|i: int| 0 <= i < old(entities)@.len() ==> (#[trigger] old(entities)@[i]).wf(),
    ensures
        final(entities)@.len() == old(entities)@.len(),
        forall|i: int|
            0 <= i < old(entities)@.len() ==> #[trigger] final(entities)@[i] == (
            if planets && old(entities)@[i].planet is Some {
                old(entities)@[i].killed()
            } else if !planets && old(entities)@[i].opponent is Some {
                old(entities)@[i].killed()
            } else {
                old(entities)@[i]
            }),
        forall|i: int| 0 <= i < final(entities)@.len() ==> (#[trigger] final(entities)@[i]).wf(),
{
    let n = entities.len();
    let mut i: usize = 0;
    while i < n
        invariant
            i <= n,
            n == entities@.len(),
            entities@.len() == old(entities)@.len(),
            forall|k: int|
                0 <= k < i ==> #[trigger] entities@[k] == (
                if planets && old(entities)@[k].planet is Some {
                    old(entities)@[k].killed()
                } else if !planets && old(entities)@[k].opponent is Some {
                    old(entities)@[k].killed()
                } else {
                    old(entities)@[k]
                }),
            forall|k: int| i <= k < n ==> #[trigger] entities@[k] == old(entities)@[k],
            forall|k: int| 0 <= k < old(entities)@.len() ==> (#[trigger] old(entities)@[k]).wf(),
        decreases n - i,
    {
        let hit = if planets {
            entities[i].planet.is_some()
        } else {
            entities[i].opponent.is_some()
        };
        if hit {
            let e = &mut entities[i];
            e.alive = false;
        }
        i = i + 1;
    }
    proof {
        assert forall|i: int| 0 <= i < entities@.len() implies (#[trigger] entities@[i]).wf() by {
            assert(old(entities)@[i].wf());
        }
    }
}

} // verus!
