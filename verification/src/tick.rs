//! One simulation frame, in the fixed order of the design: fire-intent
//! resolution, projectile spawning, collision resolution, debris
//! creation, level progression, the loss check, the scheduled spawn, and
//! the lifetime sweep.

use vstd::prelude::*;
use crate::collision::{
    collide_all, collide_rel, combat_model, handle_collisions, lemma_collide_all_bounds,
    SHIP_OPPONENT_DAMAGE,
};
use crate::components::{GameState, WinOrLostState, MAX_FIRING_POINTS};
use crate::effects::{burst_rel, create_effect, decay_rel, remove_effect, DEBRIS_PER_EVENT};
use crate::progression::{change_level, level_rel, lost_transition, test_shields};
use crate::resources::MAX_DELTA_MS;
use crate::spawn::{scheduled_spawn_rel, spawn_opponent, TILE_COUNT};
use crate::sweep::{despawn_all, prune_removed, prune_rel, sweep_rel};
use crate::weapon::{fire_rel, gate_rel, laser_opponent, laser_player, spawn_laser, volley_rel};
use crate::world::GameWorld;

verus! {

/// The rest of a frame from the countdown decay on: the decay, then the
/// compaction of the registry.
pub open spec fn frame_from_decay(a: GameWorld, z: GameWorld, delta_ms: u64) -> bool {
    exists|w: GameWorld| #[trigger] decay_rel(a, w, delta_ms) && prune_rel(w, z)
}

/// The rest of a frame from the bounds sweep on.
pub open spec fn frame_from_sweep(a: GameWorld, z: GameWorld, delta_ms: u64) -> bool {
    exists|w: GameWorld| #[trigger] sweep_rel(a, w) && frame_from_decay(w, z, delta_ms)
}

/// The rest of a frame from the scheduled spawn on.
pub open spec fn frame_from_spawn(a: GameWorld, z: GameWorld, delta_ms: u64) -> bool {
    exists|w: GameWorld|
        #[trigger] scheduled_spawn_rel(a, w, delta_ms) && frame_from_sweep(w, z, delta_ms)
}

/// The rest of a frame from the level progression on: the progression,
/// then the loss check, then the remaining phases.
pub open spec fn frame_from_level(a: GameWorld, z: GameWorld, delta_ms: u64) -> bool {
    exists|w: GameWorld|
        #[trigger] level_rel(a, w) && frame_from_spawn(lost_transition(w), z, delta_ms)
}

/// The rest of a frame from the debris bursts on.
pub open spec fn frame_from_burst(a: GameWorld, z: GameWorld, delta_ms: u64) -> bool {
    exists|w: GameWorld| #[trigger] burst_rel(a, w) && frame_from_level(w, z, delta_ms)
}

/// The rest of a frame from the collision fold on.
pub open spec fn frame_from_collide(
    a: GameWorld,
    z: GameWorld,
    pairs: Seq<(u64, u64)>,
    delta_ms: u64,
) -> bool {
    exists|w: GameWorld| #[trigger] collide_rel(a, w, pairs) && frame_from_burst(w, z, delta_ms)
}

/// The rest of a frame from the volley release on.
pub open spec fn frame_from_volley(
    a: GameWorld,
    z: GameWorld,
    pairs: Seq<(u64, u64)>,
    delta_ms: u64,
) -> bool {
    exists|w: GameWorld|
        #[trigger] volley_rel(a, w, delta_ms) && frame_from_collide(w, z, pairs, delta_ms)
}

/// The rest of a frame from the opponent gating on.
pub open spec fn frame_from_gate(
    a: GameWorld,
    z: GameWorld,
    pairs: Seq<(u64, u64)>,
    delta_ms: u64,
) -> bool {
    exists|w: GameWorld| #[trigger] gate_rel(a, w) && frame_from_volley(w, z, pairs, delta_ms)
}

/// One whole running frame, phase by phase in the design's fixed order:
/// the fire-intent resolution, the opponent gating, the volley release,
/// the collision fold, the debris bursts, the level progression, the loss
/// check, the scheduled spawn, the bounds sweep, the countdown decay, and
/// the compaction of the registry.
pub open spec fn frame_rel(
    a: GameWorld,
    z: GameWorld,
    fire_intent: bool,
    pairs: Seq<(u64, u64)>,
    delta_ms: u64,
) -> bool {
    exists|w: GameWorld|
        #[trigger] fire_rel(a, w, fire_intent) && frame_from_gate(w, z, pairs, delta_ms)
}

/// Room the frame needs on the id counter: at worst one full volley per
/// mount, one debris burst per queued or newly raised effect request, and
/// the whole terrain pattern.
pub open spec fn tick_id_headroom(w: GameWorld, pairs: Seq<(u64, u64)>) -> int {
    MAX_FIRING_POINTS * (w.entities@.len() + 1) + DEBRIS_PER_EVENT * (w.effect_queue@.len()
        + pairs.len()) + TILE_COUNT
}

/// Advances the simulation by one frame. Once the terminal state has been
/// reached the frame is a no-op: the verdict stays latched and no side
/// effect re-fires. While running, the ship's charge never rises, the
/// level never falls, and a `Lost` verdict is never overwritten.
pub fn tick(world: &mut GameWorld, fire_intent: bool, pairs: &Vec<(u64, u64)>, delta_ms: u64)
    requires
        old(world).wf(),
        delta_ms <= MAX_DELTA_MS,
        old(world).level.value < u64::MAX,
        old(world).ship.shields - SHIP_OPPONENT_DAMAGE * pairs@.len() >= i64::MIN,
        old(world).ship.hits - pairs@.len() >= i64::MIN,
        old(world).next_id + tick_id_headroom(*old(world), pairs@) <= u64::MAX,
    ensures
        final(world).wf(),
        old(world).state is End ==> *final(world) == *old(world),
        old(world).state is Running ==> frame_rel(
            *old(world),
            *final(world),
            fire_intent,
            pairs@,
            delta_ms,
        ),
        final(world).ship.shields <= old(world).ship.shields,
        final(world).level.value >= old(world).level.value,
        old(world).ship.win_or_lost is Lost ==> final(world).ship.win_or_lost is Lost,
        // The terminal state is entered only through the loss check, and
        // exactly when the frame left the shields below zero.
        final(world).state is End ==> old(world).state is End || final(world).ship.win_or_lost
            is Lost,
        (old(world).state is Running && final(world).ship.shields >= 0) ==> final(world).state
            is Running,
        (old(world).state is Running && final(world).ship.shields < 0) ==> (final(world).state
            is End && final(world).ship.win_or_lost is Lost),
        // The verdict moves only to latch a loss.
        final(world).ship.win_or_lost == old(world).ship.win_or_lost || final(world).ship.win_or_lost is Lost,
{
    if world.state == GameState::End {
        return ;
    }
    laser_player(world, fire_intent);
    let ghost w1 = *world;
    laser_opponent(world);
    let ghost w2 = *world;
    spawn_laser(world, delta_ms);
    let ghost w3 = *world;
    proof {
        crate::weapon::lemma_all_shots_len(w2);
        assert(world.next_id <= old(world).next_id + MAX_FIRING_POINTS * (old(
            world,
        ).entities@.len() + 1));
    }
    handle_collisions(world, pairs);
    let ghost w4 = *world;
    proof {
        lemma_collide_all_bounds(combat_model(w3), pairs@);
        assert(combat_model(*world) == collide_all(combat_model(w3), pairs@));
        assert(world.effect_queue@.len() <= old(world).effect_queue@.len() + pairs@.len());
    }
    create_effect(world);
    let ghost w5 = *world;
    change_level(world);
    let ghost w6 = *world;
    test_shields(world);
    spawn_opponent(world, delta_ms);
    let ghost w7 = *world;
    despawn_all(world);
    let ghost w8 = *world;
    remove_effect(world, delta_ms);
    let ghost w9 = *world;
    prune_removed(world);
    proof {
        assert(decay_rel(w8, w9, delta_ms) && prune_rel(w9, *world));
        assert(frame_from_decay(w8, *world, delta_ms));
        assert(sweep_rel(w7, w8));
        assert(frame_from_sweep(w7, *world, delta_ms));
        assert(scheduled_spawn_rel(lost_transition(w6), w7, delta_ms));
        assert(frame_from_spawn(lost_transition(w6), *world, delta_ms));
        assert(level_rel(w5, w6));
        assert(frame_from_level(w5, *world, delta_ms));
        assert(burst_rel(w4, w5));
        assert(frame_from_burst(w4, *world, delta_ms));
        assert(collide_rel(w3, w4, pairs@));
        assert(frame_from_collide(w3, *world, pairs@, delta_ms));
        assert(volley_rel(w2, w3, delta_ms));
        assert(frame_from_volley(w2, *world, pairs@, delta_ms));
        assert(gate_rel(w1, w2));
        assert(frame_from_gate(w1, *world, pairs@, delta_ms));
        assert(fire_rel(*old(world), w1, fire_intent));
        assert(frame_rel(*old(world), *world, fire_intent, pairs@, delta_ms));
    }
}

} // verus!
