//! The fire controller: intent resolution for the player and for
//! proximity-gated opponents, and cooldown-paced projectile spawning.

use vstd::prelude::*;
use crate::components::{Despawnable, Entity, Laser, LaserGun, Vec3i, MAX_FIRING_POINTS};
use crate::world::GameWorld;

verus! {

/// Projectile speed along the depth axis, in thousandths per second.
pub const LASER_SPEED: i64 = 600_000;

/// Half-width of the depth window inside which an opponent holds fire
/// open, in thousandths.
pub const OPPONENT_FIRE_WINDOW: i64 = 200_000;

/// Depth thresholds shared by every transient entity, in thousandths.
pub const DESPAWN_MIN: i64 = -1_000_000;

/// Upper depth threshold shared by every transient entity.
pub const DESPAWN_MAX: i64 = 0;

/// One projectile due to spawn: where its mount sits, the firing-point
/// offset, and the mount's allegiance.
#[derive(Clone, Copy, PartialEq, Eq, Structural, Debug)]
pub struct Shot {
    pub origin: Vec3i,
    pub offset: Vec3i,
    pub player: bool,
}

/// Both parts of a shot lie inside the working window.
pub open spec fn shot_wf(s: Shot) -> bool {
    s.origin.wf() && s.offset.wf()
}

/// A mount releases its volley exactly when fire is held and the
/// cooldown has run out.
pub open spec fn gun_fires_now(g: LaserGun) -> bool {
    g.fire && g.cooldown_ms == 0
}

/// The volley of one mount: one shot per firing point, in their order, or
/// none while the mount holds still or cools down.
pub open spec fn gun_shots(origin: Vec3i, g: LaserGun) -> Seq<Shot> {
    if gun_fires_now(g) {
        g.positions@.map_values(|off: Vec3i| Shot { origin, offset: off, player: g.player })
    } else {
        Seq::<Shot>::empty()
    }
}

/// The volley of one registry entry: live mount-bearing entities only.
pub open spec fn entity_shots(e: Entity) -> Seq<Shot> {
    if e.alive && e.gun is Some {
        gun_shots(e.pos, e.gun->0)
    } else {
        Seq::<Shot>::empty()
    }
}

/// The volleys of the whole registry, in registry order.
pub open spec fn shots_of(s: Seq<Entity>) -> Seq<Shot>
    decreases s.len(),
{
    if s.len() == 0 {
        Seq::<Shot>::empty()
    } else {
        shots_of(s.drop_last()) + entity_shots(s.last())
    }
}

/// Every projectile due this frame: the ship's volley first, then the
/// registry's in order.
pub open spec fn all_shots(w: GameWorld) -> Seq<Shot> {
    gun_shots(w.ship_pos, w.ship_gun) + shots_of(w.entities@)
}

/// A mount's cooldown advanced by one frame: a releasing mount reloads to
/// its full period; one held firing during cooldown counts the elapsed
/// time down, stopping at zero; an idle mount is untouched.
pub open spec fn gun_ticked(g: LaserGun, delta_ms: u64) -> LaserGun {
    if gun_fires_now(g) {
        LaserGun { cooldown_ms: g.std_cooldown_ms, ..g }
    } else if g.fire {
        LaserGun {
            cooldown_ms: if delta_ms >= g.cooldown_ms {
                0u64
            } else {
                (g.cooldown_ms - delta_ms) as u64
            },
            ..g
        }
    } else {
        g
    }
}

/// A registry entry after the fire controller's pass: only the mount's
/// cooldown state may change.
pub open spec fn entity_gun_ticked(e: Entity, delta_ms: u64) -> Entity {
    if e.alive && e.gun is Some {
        e.with_gun(gun_ticked(e.gun->0, delta_ms))
    } else {
        e
    }
}

/// The projectile entity realised from a shot: placed at the mount plus
/// its offset, heading forward for the player and backward for an
/// opponent, bounded on the depth axis, carrying only the projectile tag.
pub open spec fn is_laser_spawn(e: Entity, s: Shot, id: u64) -> bool {
    &&& e.id == id
    &&& e.alive
    &&& e.pos == s.origin.plus_clamped(s.offset)
    &&& e.vel == (Vec3i {
        x: 0,
        y: 0,
        z: if s.player {
            (-LASER_SPEED) as i64
        } else {
            LASER_SPEED
        },
    })
    &&& e.scale == 1_000
    &&& e.opponent is None
    &&& e.laser == Some(Laser { player: s.player })
    &&& e.planet is None
    &&& e.gun is None
    &&& e.bounds == Some(Despawnable { min: DESPAWN_MIN, max: DESPAWN_MAX })
    &&& e.effect is None
    &&& e.tile is None
}

/// The registry's volley has at most one full mount of shots per entry.
proof fn lemma_shots_of_len(s: Seq<Entity>)
    requires
        forall|i: int| 0 <= i < s.len() ==> (#[trigger] s[i]).wf(),
    ensures
        shots_of(s).len() <= MAX_FIRING_POINTS * s.len(),
    decreases s.len(),
{
    if s.len() > 0 {
        assert(forall|i: int| 0 <= i < s.drop_last().len() ==> (#[trigger] s.drop_last()[i]).wf());
        lemma_shots_of_len(s.drop_last());
        assert(s.last().wf()) by {
            assert(s[s.len() - 1].wf());
        }
    }
}

/// A frame's whole volley is bounded by one full mount per registry
/// entry plus the ship's.
pub proof fn lemma_all_shots_len(w: GameWorld)
    requires
        w.wf(),
    ensures
        all_shots(w).len() <= MAX_FIRING_POINTS * (w.entities@.len() + 1),
{
    lemma_shots_of_len(w.entities@);
}

/// The fire-intent phase: the player's mount mirrors the input signal,
/// with no edge latching, and nothing else moves.
pub open spec fn fire_rel(a: GameWorld, b: GameWorld, fire_intent: bool) -> bool {
    b == (GameWorld { ship_gun: LaserGun { fire: fire_intent, ..a.ship_gun }, ..a })
}

/// The gating phase: in the first level every live mount-bearing
/// opponent holds fire open exactly while its depth coordinate sits
/// inside the activation window; beyond the first level, and for every
/// other entity, nothing moves.
pub open spec fn gate_rel(a: GameWorld, b: GameWorld) -> bool {
    if a.level.value != 1 {
        b == a
    } else {
        &&& b.entities@.len() == a.entities@.len()
        &&& forall|i: int|
            0 <= i < a.entities@.len() ==> #[trigger] b.entities@[i] == ({
                let e = a.entities@[i];
                if e.alive && e.opponent is Some && e.gun is Some {
                    e.with_gun(
                        LaserGun {
                            fire: -OPPONENT_FIRE_WINDOW < e.pos.z < OPPONENT_FIRE_WINDOW,
                            ..e.gun->0
                        },
                    )
                } else {
                    e
                }
            })
        &&& b == (GameWorld { entities: b.entities, ..a })
    }
}

/// The volley phase: the registry grows by exactly the due shots — the
/// ship's volley first, then each live mount's in registry order — with
/// ids handed out in that same order, and every cooldown advances.
pub open spec fn volley_rel(a: GameWorld, b: GameWorld, delta_ms: u64) -> bool {
    &&& b.ship_gun == gun_ticked(a.ship_gun, delta_ms)
    &&& b.entities@.len() == a.entities@.len() + all_shots(a).len()
    &&& forall|i: int|
        0 <= i < a.entities@.len() ==> #[trigger] b.entities@[i] == entity_gun_ticked(
            a.entities@[i],
            delta_ms,
        )
    &&& forall|k: int|
        0 <= k < all_shots(a).len() ==> is_laser_spawn(
            #[trigger] b.entities@[a.entities@.len() + k],
            all_shots(a)[k],
            (a.next_id + k) as u64,
        )
    &&& b.next_id == a.next_id + all_shots(a).len()
    &&& b.ship == a.ship
    &&& b.ship_pos == a.ship_pos
    &&& b.state == a.state
    &&& b.level == a.level
    &&& b.spawn_timer == a.spawn_timer
    &&& b.effect_queue@ == a.effect_queue@
    &&& b.rotate_queue@ == a.rotate_queue@
    &&& b.terrain_done == a.terrain_done
}

/// The player's fire intent mirrors the input signal each frame, with no
/// edge latching.
pub fn laser_player(world: &mut GameWorld, fire_intent: bool)
    requires
        old(world).wf(),
    ensures
        final(world).wf(),
        fire_rel(*old(world), *final(world), fire_intent),
{
    world.ship_gun.fire = fire_intent;
}

/// Proximity gating for opponents, active in the first level only: a live
/// mount-bearing opponent holds fire open exactly while its depth
/// coordinate sits inside the activation window.
pub fn laser_opponent(world: &mut GameWorld)
    requires
        old(world).wf(),
    ensures
        final(world).wf(),
        gate_rel(*old(world), *final(world)),
{
    if world.level.value != 1 {
        return ;
    }
    let n = world.entities.len();
    let mut i: usize = 0;
    while i < n
        invariant
            i <= n,
            n == world.entities@.len(),
            world.entities@.len() == old(world).entities@.len(),
            forall|k: int|
                0 <= k < i ==> #[trigger] world.entities@[k] == ({
                    let e = old(world).entities@[k];
                    if e.alive && e.opponent is Some && e.gun is Some {
                        e.with_gun(
                            LaserGun {
                                fire: -OPPONENT_FIRE_WINDOW < e.pos.z < OPPONENT_FIRE_WINDOW,
                                ..e.gun->0
                            },
                        )
                    } else {
                        e
                    }
                }),
            forall|k: int| i <= k < n ==> #[trigger] world.entities@[k] == old(world).entities@[k],
            *world == (GameWorld { entities: world.entities, ..*old(world) }),
            old(world).wf(),
        decreases n - i,
    {
        let armed = world.entities[i].alive && world.entities[i].opponent.is_some();
        if armed {
            let z = world.entities[i].pos.z;
            let in_window = -OPPONENT_FIRE_WINDOW < z && z < OPPONENT_FIRE_WINDOW;
            let e = &mut world.entities[i];
            match &mut e.gun {
                Some(g) => {
                    g.fire = in_window;
                },
                None => {},
            }
        }
        proof {
            assert(old(world).entities@[i as int].wf());
        }
        i = i + 1;
    }
    proof {
        assert forall|i: int| 0 <= i < world.entities@.len() implies (
        #[trigger] world.entities@[i]).wf() by {
            assert(old(world).entities@[i].wf());
        }
    }
}

/// Releases every due volley and advances every cooldown: the registry
/// grows by exactly the due shots, realised in order — the ship's volley
/// first, then each live mount's in registry order — with ids handed out
/// in that same order.
pub fn spawn_laser(world: &mut GameWorld, delta_ms: u64)
    requires
        old(world).wf(),
        old(world).next_id + MAX_FIRING_POINTS * (old(world).entities@.len() + 1) <= u64::MAX,
    ensures
        final(world).wf(),
        volley_rel(*old(world), *final(world), delta_ms),
{
    let ghost pre = *old(world);
    let mut shots: Vec<Shot> = Vec::new();

    // The ship's mount first.
    if world.ship_gun.fire && world.ship_gun.cooldown_ms == 0 {
        let n_points = world.ship_gun.positions.len();
        let mut p: usize = 0;
        while p < n_points
            invariant
                p <= n_points,
                *world == pre,
                pre.wf(),
                n_points == pre.ship_gun.positions@.len(),
                gun_fires_now(pre.ship_gun),
                shots@ =~= gun_shots(pre.ship_pos, pre.ship_gun).take(p as int),
            decreases n_points - p,
        {
            let off = world.ship_gun.positions[p];
            shots.push(Shot { origin: world.ship_pos, offset: off, player: true });
            proof {
                assert(shots@ =~= gun_shots(pre.ship_pos, pre.ship_gun).take(p + 1));
            }
            p = p + 1;
        }
        world.ship_gun.cooldown_ms = world.ship_gun.std_cooldown_ms;
    } else if world.ship_gun.fire {
        let cd = world.ship_gun.cooldown_ms;
        world.ship_gun.cooldown_ms = if delta_ms >= cd {
            0
        } else {
            cd - delta_ms
        };
    }
    proof {
        assert(shots@ =~= gun_shots(pre.ship_pos, pre.ship_gun));
        assert(world.ship_gun == gun_ticked(pre.ship_gun, delta_ms));
        assert(shots_of(pre.entities@.take(0)) =~= Seq::<Shot>::empty());
    }

    // Then each live mount in the registry, collecting its volley before
    // advancing its cooldown.
    let n = world.entities.len();
    let mut i: usize = 0;
    while i < n
        invariant
            i <= n,
            n == pre.entities@.len(),
            pre.wf(),
            world.entities@.len() == n,
            forall|k: int|
                0 <= k < i ==> #[trigger] world.entities@[k] == entity_gun_ticked(
                    pre.entities@[k],
                    delta_ms,
                ),
            forall|k: int| i <= k < n ==> #[trigger] world.entities@[k] == pre.entities@[k],
            shots@ == gun_shots(pre.ship_pos, pre.ship_gun) + shots_of(
                pre.entities@.take(i as int),
            ),
            forall|k: int| 0 <= k < shots@.len() ==> shot_wf(#[trigger] shots@[k]),
            world.ship_gun == gun_ticked(pre.ship_gun, delta_ms),
            *world == (GameWorld {
                entities: world.entities,
                ship_gun: world.ship_gun,
                ..pre
            }),
        decreases n - i,
    {
        let ghost shots_before = shots@;
        let live = world.entities[i].alive;
        let has_gun = world.entities[i].gun.is_some();
        if live && has_gun {
            let (fire, cd, std_cd, player, n_points) = match &world.entities[i].gun {
                Some(g) => (g.fire, g.cooldown_ms, g.std_cooldown_ms, g.player, g.positions.len()),
                None => (false, 0, 0, false, 0),
            };
            if fire && cd == 0 {
                let origin = world.entities[i].pos;
                let ghost g0 = pre.entities@[i as int].gun->0;
                let mut p: usize = 0;
                while p < n_points
                    invariant
                        p <= n_points,
                        i < n,
                        n == pre.entities@.len(),
                        world.entities@.len() == n,
                        pre.wf(),
                        world.entities@[i as int] == pre.entities@[i as int],
                        g0 == pre.entities@[i as int].gun->0,
                        pre.entities@[i as int].alive,
                        pre.entities@[i as int].gun is Some,
                        gun_fires_now(g0),
                        origin == pre.entities@[i as int].pos,
                        player == g0.player,
                        n_points == g0.positions@.len(),
                        shots@ =~= shots_before + gun_shots(origin, g0).take(p as int),
                        forall|k: int| 0 <= k < shots_before.len() ==> shot_wf(#[trigger] shots_before[k]),
                    decreases n_points - p,
                {
                    let off = match &world.entities[i].gun {
                        Some(g) => g.positions[p],
                        None => Vec3i { x: 0, y: 0, z: 0 },
                    };
                    shots.push(Shot { origin, offset: off, player });
                    proof {
                        assert(shots@ =~= shots_before + gun_shots(origin, g0).take(p + 1));
                        assert(pre.entities@[i as int].wf());
                    }
                    p = p + 1;
                }
                let e = &mut world.entities[i];
                match &mut e.gun {
                    Some(g) => {
                        g.cooldown_ms = g.std_cooldown_ms;
                    },
                    None => {},
                }
            } else if fire {
                let left = if delta_ms >= cd {
                    0
                } else {
                    cd - delta_ms
                };
                let e = &mut world.entities[i];
                match &mut e.gun {
                    Some(g) => {
                        g.cooldown_ms = left;
                    },
                    None => {},
                }
            }
        }
        proof {
            assert(pre.entities@.take(i + 1).drop_last() =~= pre.entities@.take(i as int));
            assert(pre.entities@.take(i + 1).last() == pre.entities@[i as int]);
            assert(world.entities@[i as int] == entity_gun_ticked(pre.entities@[i as int], delta_ms));
            assert(shots@ =~= gun_shots(pre.ship_pos, pre.ship_gun) + shots_of(
                pre.entities@.take(i + 1),
            ));
            assert(pre.entities@[i as int].wf());
            assert forall|k: int| 0 <= k < shots@.len() implies shot_wf(#[trigger] shots@[k]) by {
                if k >= shots_before.len() {
                    assert(pre.entities@[i as int].gun->0.wf());
                }
            }
        }
        i = i + 1;
    }
    proof {
        assert(pre.entities@.take(n as int) =~= pre.entities@);
        assert(shots@ == all_shots(pre));
        lemma_shots_of_len(pre.entities@);
    }

    // Realise the collected volleys as projectile entities.
    let n_shots = shots.len();
    let base_len = world.entities.len();
    let mut k: usize = 0;
    while k < n_shots
        invariant
            k <= n_shots,
            n_shots == all_shots(pre).len(),
            shots@ == all_shots(pre),
            forall|q: int| 0 <= q < shots@.len() ==> shot_wf(#[trigger] shots@[q]),
            base_len == pre.entities@.len(),
            world.entities@.len() == base_len + k,
            forall|q: int|
                0 <= q < base_len ==> #[trigger] world.entities@[q] == entity_gun_ticked(
                    pre.entities@[q],
                    delta_ms,
                ),
            forall|q: int|
                0 <= q < k ==> is_laser_spawn(
                    #[trigger] world.entities@[base_len + q],
                    all_shots(pre)[q],
                    (pre.next_id + q) as u64,
                ),
            world.next_id == pre.next_id + k,
            pre.next_id + MAX_FIRING_POINTS * (base_len + 1) <= u64::MAX,
            n_shots <= MAX_FIRING_POINTS * (base_len + 1),
            world.ship_gun == gun_ticked(pre.ship_gun, delta_ms),
            pre.wf(),
            *world == (GameWorld {
                entities: world.entities,
                ship_gun: world.ship_gun,
                next_id: world.next_id,
                ..pre
            }),
        decreases n_shots - k,
    {
        let s = shots[k];
        let pos = s.origin.add_clamped(s.offset);
        let id = world.next_id;
        world.entities.push(Entity {
            id,
            alive: true,
            pos,
            vel: Vec3i {
                x: 0,
                y: 0,
                z: if s.player {
                    -LASER_SPEED
                } else {
                    LASER_SPEED
                },
            },
            scale: 1_000,
            opponent: None,
            laser: Some(Laser { player: s.player }),
            planet: None,
            gun: None,
            bounds: Some(Despawnable { min: DESPAWN_MIN, max: DESPAWN_MAX }),
            effect: None,
            tile: None,
        });
        world.next_id = world.next_id + 1;
        k = k + 1;
    }
    proof {
        let base = pre.entities@.len() as int;
        assert forall|i: int| 0 <= i < world.entities@.len() implies (
        #[trigger] world.entities@[i]).wf() by {
            if i < base {
                assert(pre.entities@[i].wf());
                assert(world.entities@[i] == entity_gun_ticked(pre.entities@[i], delta_ms));
            } else {
                assert(is_laser_spawn(
                    world.entities@[base + (i - base)],
                    all_shots(pre)[i - base],
                    (pre.next_id + (i - base)) as u64,
                ));
            }
        }
        assert forall|i: int| 0 <= i < world.entities@.len() implies 1 <= (
        #[trigger] world.entities@[i]).id < world.next_id by {
            if i < base {
                assert(1 <= pre.entities@[i].id < pre.next_id);
                assert(world.entities@[i] == entity_gun_ticked(pre.entities@[i], delta_ms));
            } else {
                assert(is_laser_spawn(
                    world.entities@[base + (i - base)],
                    all_shots(pre)[i - base],
                    (pre.next_id + (i - base)) as u64,
                ));
            }
        }
        assert forall|i: int, j: int|
            0 <= i < j < world.entities@.len() implies (#[trigger] world.entities@[i]).id != (
        #[trigger] world.entities@[j]).id by {
            if i < base && j < base {
                assert(pre.entities@[i].id != pre.entities@[j].id);
            } else if i < base {
                assert(pre.entities@[i].id < pre.next_id);
                assert(is_laser_spawn(
                    world.entities@[base + (j - base)],
                    all_shots(pre)[j - base],
                    (pre.next_id + (j - base)) as u64,
                ));
            } else {
                assert(is_laser_spawn(
                    world.entities@[base + (i - base)],
                    all_shots(pre)[i - base],
                    (pre.next_id + (i - base)) as u64,
                ));
                assert(is_laser_spawn(
                    world.entities@[base + (j - base)],
                    all_shots(pre)[j - base],
                    (pre.next_id + (j - base)) as u64,
                ));
            }
        }
    }
}

} // verus!
