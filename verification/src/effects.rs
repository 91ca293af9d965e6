//! Visual-debris lifecycle: bursts spawned for each queued effect
//! request, and removal of debris whose countdown has run out.

use vstd::prelude::*;
use crate::components::{EffectTime, Entity, Vec3i};
use crate::rng::{fresh_rng, gen_range_i64};
use crate::world::GameWorld;

verus! {

/// Spacing of the debris grid, in thousandths.
pub const EFFECT_SIZE: i64 = 100;

/// Lifetime of a debris cube, in milliseconds.
pub const EFFECT_TIME_MS: u64 = 2_000;

/// Debris cubes per burst: a four-by-two-by-four grid.
pub const DEBRIS_PER_EVENT: usize = 32;

/// Largest magnitude of a debris velocity component, in thousandths per
/// second.
pub const DEBRIS_VEL_LIMIT: i64 = 100_000;

/// Grid offset of the `j`-th cube of a burst, scanning depth fastest,
/// then height, then breadth.
pub open spec fn debris_offset(j: int) -> Vec3i {
    Vec3i {
        x: ((j / 8 - 2) * EFFECT_SIZE) as i64,
        y: ((j / 4 % 2) * EFFECT_SIZE) as i64,
        z: ((j % 4 - 2) * EFFECT_SIZE) as i64,
    }
}

/// A debris cube of the burst at `origin`: placed on the grid, carrying
/// the full countdown, velocity inside the scatter window, and no other
/// component.
pub open spec fn is_debris(e: Entity, id: u64, origin: Vec3i, j: int) -> bool {
    &&& e.id == id
    &&& e.alive
    &&& e.pos == origin.plus_clamped(debris_offset(j))
    &&& -DEBRIS_VEL_LIMIT <= e.vel.x < DEBRIS_VEL_LIMIT
    &&& -DEBRIS_VEL_LIMIT <= e.vel.y < DEBRIS_VEL_LIMIT
    &&& -DEBRIS_VEL_LIMIT <= e.vel.z < DEBRIS_VEL_LIMIT
    &&& e.scale == 1_000
    &&& e.opponent is None
    &&& e.laser is None
    &&& e.planet is None
    &&& e.gun is None
    &&& e.bounds is None
    &&& e.effect == Some(EffectTime { remaining_ms: EFFECT_TIME_MS })
    &&& e.tile is None
}

/// The debris phase: the effect queue is drained, one full burst appears
/// per request in queue order with ids handed out in spawn order, and
/// everything else stays as it was.
pub open spec fn burst_rel(a: GameWorld, b: GameWorld) -> bool {
    &&& b.effect_queue@.len() == 0
    &&& b.entities@.len() == a.entities@.len() + DEBRIS_PER_EVENT * a.effect_queue@.len()
    &&& forall|i: int|
        0 <= i < a.entities@.len() ==> #[trigger] b.entities@[i] == a.entities@[i]
    &&& forall|k: int, j: int|
        0 <= k < a.effect_queue@.len() && 0 <= j < DEBRIS_PER_EVENT ==> is_debris(
            #[trigger] b.entities@[a.entities@.len() + k * DEBRIS_PER_EVENT + j],
            (a.next_id + k * DEBRIS_PER_EVENT + j) as u64,
            a.effect_queue@[k].0,
            j,
        )
    &&& b.next_id == a.next_id + DEBRIS_PER_EVENT * a.effect_queue@.len()
    &&& b.ship == a.ship
    &&& b.ship_pos == a.ship_pos
    &&& b.ship_gun == a.ship_gun
    &&& b.state == a.state
    &&& b.level == a.level
    &&& b.spawn_timer == a.spawn_timer
    &&& b.rotate_queue@ == a.rotate_queue@
    &&& b.terrain_done == a.terrain_done
}

/// Drains the effect queue and spawns one debris burst per request: a
/// grid of cubes around the requested position, each with a random
/// scatter velocity and the full countdown. Earlier requests spawn
/// earlier; ids are handed out in spawn order.
pub fn create_effect(world: &mut GameWorld)
    requires
        old(world).wf(),
        old(world).next_id + DEBRIS_PER_EVENT * old(world).effect_queue@.len() <= u64::MAX,
    ensures
        final(world).wf(),
        burst_rel(*old(world), *final(world)),
{
    let mut rng = fresh_rng();
    let n_events = world.effect_queue.len();
    let base_len = world.entities.len();
    let mut k: usize = 0;
    while k < n_events
        invariant
            k <= n_events,
            n_events == old(world).effect_queue@.len(),
            base_len == old(world).entities@.len(),
            world.wf(),
            world.effect_queue@ == old(world).effect_queue@,
            world.entities@.len() == base_len + DEBRIS_PER_EVENT * k,
            forall|i: int|
                0 <= i < base_len ==> #[trigger] world.entities@[i] == old(world).entities@[i],
            forall|k2: int, j: int|
                0 <= k2 < k && 0 <= j < DEBRIS_PER_EVENT ==> is_debris(
                    #[trigger] world.entities@[base_len + k2 * DEBRIS_PER_EVENT + j],
                    (old(world).next_id + k2 * DEBRIS_PER_EVENT + j) as u64,
                    old(world).effect_queue@[k2].0,
                    j,
                ),
            world.next_id == old(world).next_id + DEBRIS_PER_EVENT * k,
            old(world).next_id + DEBRIS_PER_EVENT * n_events <= u64::MAX,
            world.ship == old(world).ship,
            world.ship_pos == old(world).ship_pos,
            world.ship_gun == old(world).ship_gun,
            world.state == old(world).state,
            world.level == old(world).level,
            world.spawn_timer == old(world).spawn_timer,
            world.rotate_queue@ == old(world).rotate_queue@,
            world.terrain_done == old(world).terrain_done,
        decreases n_events - k,
    {
        let origin = world.effect_queue[k].0;
        let mut j: usize = 0;
        while j < DEBRIS_PER_EVENT
            invariant
                j <= DEBRIS_PER_EVENT,
                k < n_events,
                n_events == old(world).effect_queue@.len(),
                base_len == old(world).entities@.len(),
                origin == old(world).effect_queue@[k as int].0,
                origin.wf(),
                world.wf(),
                world.effect_queue@ == old(world).effect_queue@,
                world.entities@.len() == base_len + DEBRIS_PER_EVENT * k + j,
                forall|i: int|
                    0 <= i < base_len ==> #[trigger] world.entities@[i] == old(world).entities@[i],
                forall|k2: int, j2: int|
                    0 <= k2 < k && 0 <= j2 < DEBRIS_PER_EVENT ==> is_debris(
                        #[trigger] world.entities@[base_len + k2 * DEBRIS_PER_EVENT + j2],
                        (old(world).next_id + k2 * DEBRIS_PER_EVENT + j2) as u64,
                        old(world).effect_queue@[k2].0,
                        j2,
                    ),
                forall|j2: int|
                    0 <= j2 < j ==> is_debris(
                        #[trigger] world.entities@[base_len + k * DEBRIS_PER_EVENT + j2],
                        (old(world).next_id + k * DEBRIS_PER_EVENT + j2) as u64,
                        old(world).effect_queue@[k as int].0,
                        j2,
                    ),
                world.next_id == old(world).next_id + DEBRIS_PER_EVENT * k + j,
                old(world).next_id + DEBRIS_PER_EVENT * n_events <= u64::MAX,
                world.ship == old(world).ship,
                world.ship_pos == old(world).ship_pos,
                world.ship_gun == old(world).ship_gun,
                world.state == old(world).state,
                world.level == old(world).level,
                world.spawn_timer == old(world).spawn_timer,
                world.rotate_queue@ == old(world).rotate_queue@,
                world.terrain_done == old(world).terrain_done,
            decreases DEBRIS_PER_EVENT - j,
        {
            let ox = ((j / 8) as i64 - 2) * EFFECT_SIZE;
            let oy = ((j / 4 % 2) as i64) * EFFECT_SIZE;
            let oz = ((j % 4) as i64 - 2) * EFFECT_SIZE;
            let pos = origin.add_clamped(Vec3i { x: ox, y: oy, z: oz });
            let vel = Vec3i {
                x: gen_range_i64(&mut rng, -DEBRIS_VEL_LIMIT, DEBRIS_VEL_LIMIT),
                y: gen_range_i64(&mut rng, -DEBRIS_VEL_LIMIT, DEBRIS_VEL_LIMIT),
                z: gen_range_i64(&mut rng, -DEBRIS_VEL_LIMIT, DEBRIS_VEL_LIMIT),
            };
            let id = world.next_id;
            world.entities.push(Entity {
                id,
                alive: true,
                pos,
                vel,
                scale: 1_000,
                opponent: None,
                laser: None,
                planet: None,
                gun: None,
                bounds: None,
                effect: Some(EffectTime { remaining_ms: EFFECT_TIME_MS }),
                tile: None,
            });
            world.next_id = world.next_id + 1;
            j = j + 1;
        }
        k = k + 1;
    }
    world.effect_queue = Vec::new();
}

/// The countdown of a live debris entity advanced by one frame: the
/// remaining time shrinks by the elapsed time, and the entity dies the
/// moment it runs out.
pub open spec fn effect_ticked(e: Entity, delta_ms: u64) -> Entity {
    let rem = e.effect->0.remaining_ms;
    let left = if delta_ms >= rem {
        0u64
    } else {
        (rem - delta_ms) as u64
    };
    if left == 0 {
        Entity { alive: false, effect: Some(EffectTime { remaining_ms: 0 }), ..e }
    } else {
        Entity { effect: Some(EffectTime { remaining_ms: left }), ..e }
    }
}

/// The countdown phase: every live countdown advances by the frame's
/// elapsed time, exactly the entities whose countdown ran out die, and
/// everything else stays as it was.
pub open spec fn decay_rel(a: GameWorld, b: GameWorld, delta_ms: u64) -> bool {
    &&& b.entities@.len() == a.entities@.len()
    &&& forall|i: int|
        0 <= i < a.entities@.len() ==> #[trigger] b.entities@[i] == (
        if a.entities@[i].alive && a.entities@[i].effect is Some {
            effect_ticked(a.entities@[i], delta_ms)
        } else {
            a.entities@[i]
        })
    &&& b == (GameWorld { entities: b.entities, ..a })
}

/// Advances every live countdown by the frame's elapsed time and removes
/// exactly the entities whose countdown ran out this frame.
pub fn remove_effect(world: &mut GameWorld, delta_ms: u64)
    requires
        old(world).wf(),
    ensures
        final(world).wf(),
        decay_rel(*old(world), *final(world), delta_ms),
{
    let n = world.entities.len();
    let mut i: usize = 0;
    while i < n
        invariant
            i <= n,
            n == world.entities@.len(),
            world.entities@.len() == old(world).entities@.len(),
            forall|k: int|
                0 <= k < i ==> #[trigger] world.entities@[k] == (
                if old(world).entities@[k].alive && old(world).entities@[k].effect is Some {
                    effect_ticked(old(world).entities@[k], delta_ms)
                } else {
                    old(world).entities@[k]
                }),
            forall|k: int| i <= k < n ==> #[trigger] world.entities@[k] == old(world).entities@[k],
            *world == (GameWorld { entities: world.entities, ..*old(world) }),
        decreases n - i,
    {
        let live = world.entities[i].alive;
        let rem = match &world.entities[i].effect {
            Some(t) => Some(t.remaining_ms),
            None => None,
        };
        match rem {
            Some(r) if live => {
                let left = if delta_ms >= r {
                    0
                } else {
                    r - delta_ms
                };
                let e = &mut world.entities[i];
                e.effect = Some(EffectTime { remaining_ms: left });
                if left == 0 {
                    e.alive = false;
                }
            },
            _ => {},
        }
        i = i + 1;
    }
    proof {
        assert forall|i: int| 0 <= i < world.entities@.len() implies (
        #[trigger] world.entities@[i]).wf() by {
            assert(old(world).entities@[i].wf());
        }
    }
}

} // verus!
