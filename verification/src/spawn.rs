//! The spawn scheduler: on each timer expiry it instantiates entities
//! from the current level's template. Randomised parameters are drawn per
//! spawn; the contracts state the window each drawn value lies in and pin
//! everything else exactly.

use vstd::prelude::*;
use crate::components::{Despawnable, Entity, LaserGun, Opponent, TerrainTile, Vec3i};
use crate::resources::MAX_DELTA_MS;
use crate::rng::{fresh_rng, gen_range_i64};
use crate::weapon::{DESPAWN_MAX, DESPAWN_MIN};
use crate::world::GameWorld;

verus! {

/// Depth at which opponents enter the scene, in thousandths.
pub const SPAWN_Z: i64 = -300_000;

/// Half-width of the lateral entry rectangle, in thousandths.
pub const SPAWN_X_LIMIT: i64 = 15_000;

/// Half-height of the lateral entry rectangle, in thousandths.
pub const SPAWN_Y_LIMIT: i64 = 10_000;

/// Smallest forward speed drawn for an opponent, in thousandths per
/// second.
pub const SPAWN_SPEED_MIN: i64 = 40_000;

/// Upper bound of the drawn forward speed.
pub const SPAWN_SPEED_MAX: i64 = 80_000;

/// Smallest cooldown period drawn for a first-level opponent's mount, in
/// milliseconds.
pub const OPPONENT_COOLDOWN_MIN: i64 = 400;

/// Upper bound of the drawn cooldown period.
pub const OPPONENT_COOLDOWN_MAX: i64 = 2_000;

/// Hits a second-level opponent absorbs before it is destroyed.
pub const LEVEL2_HITS: i64 = 4;

/// Smallest uniform scale drawn for a second-level opponent, in
/// thousandths.
pub const LEVEL2_SCALE_MIN: i64 = 4_000;

/// Largest uniform scale drawn for a second-level opponent, inclusive.
pub const LEVEL2_SCALE_MAX: i64 = 28_000;

/// Number of terrain tiles in the third level's fixed pattern.
pub const TILE_COUNT: usize = 17;

/// Depth at which the terrain pattern sits, in thousandths.
pub const TILE_Z: i64 = -240_000;

/// Forward speed of every terrain tile, in thousandths per second.
pub const TILE_SPEED: i64 = 24_000;

/// Breadth position of the `k`-th tile of the staircase pattern.
pub open spec fn tile_x(k: int) -> i64 {
    if k == 0 {
        (-60_000) as i64
    } else if k == 1 {
        (-50_000) as i64
    } else if k == 2 {
        (-40_000) as i64
    } else if k == 3 {
        (-30_000) as i64
    } else if k == 4 {
        (-20_000) as i64
    } else if k == 5 || k == 6 {
        (-15_000) as i64
    } else if k == 7 {
        (-10_000) as i64
    } else if k == 8 {
        0
    } else if k == 9 {
        10_000
    } else if k == 10 || k == 11 {
        15_000
    } else if k == 12 {
        20_000
    } else if k == 13 {
        30_000
    } else if k == 14 {
        40_000
    } else if k == 15 {
        50_000
    } else {
        60_000
    }
}

/// Height of the `k`-th tile: level stretches at the top, two ramps, and
/// a trench floor in the middle.
pub open spec fn tile_y(k: int) -> i64 {
    if 0 <= k <= 4 || 12 <= k <= 16 {
        0
    } else if k == 5 || k == 11 {
        (-5_000) as i64
    } else if k == 6 || k == 10 {
        (-15_000) as i64
    } else {
        (-20_000) as i64
    }
}

/// Roll of the `k`-th tile in quarter turns: the ramps are tilted, the
/// rest lie flat.
pub open spec fn tile_rot(k: int) -> i64 {
    if k == 5 || k == 6 {
        1
    } else if k == 10 || k == 11 {
        (-1) as i64
    } else {
        0
    }
}

/// A first-level opponent: a single-hit fighter entering somewhere inside
/// the entry rectangle at a drawn forward speed, carrying a rear-facing
/// mount with a drawn cooldown period.
pub open spec fn is_level1_opponent(e: Entity, id: u64) -> bool {
    &&& e.id == id
    &&& e.alive
    &&& -SPAWN_X_LIMIT <= e.pos.x < SPAWN_X_LIMIT
    &&& -SPAWN_Y_LIMIT <= e.pos.y < SPAWN_Y_LIMIT
    &&& e.pos.z == SPAWN_Z
    &&& e.vel.x == 0 && e.vel.y == 0
    &&& SPAWN_SPEED_MIN <= e.vel.z < SPAWN_SPEED_MAX
    &&& e.scale == 1_000
    &&& e.opponent == Some(Opponent { max_hits: 1 })
    &&& e.laser is None
    &&& e.planet is None
    &&& e.gun matches Some(g) && {
        &&& g.positions@ == seq![Vec3i { x: 0i64, y: 0i64, z: 5_000i64 }]
        &&& !g.player
        &&& !g.fire
        &&& g.cooldown_ms == 0
        &&& OPPONENT_COOLDOWN_MIN <= g.std_cooldown_ms < OPPONENT_COOLDOWN_MAX
    }
    &&& e.bounds == Some(Despawnable { min: DESPAWN_MIN, max: DESPAWN_MAX })
    &&& e.effect is None
    &&& e.tile is None
}

/// A second-level opponent: a four-hit boulder entering inside the entry
/// rectangle at a drawn forward speed and a drawn uniform scale, with no
/// mount.
pub open spec fn is_level2_opponent(e: Entity, id: u64) -> bool {
    &&& e.id == id
    &&& e.alive
    &&& -SPAWN_X_LIMIT <= e.pos.x < SPAWN_X_LIMIT
    &&& -SPAWN_Y_LIMIT <= e.pos.y < SPAWN_Y_LIMIT
    &&& e.pos.z == SPAWN_Z
    &&& e.vel.x == 0 && e.vel.y == 0
    &&& SPAWN_SPEED_MIN <= e.vel.z < SPAWN_SPEED_MAX
    &&& LEVEL2_SCALE_MIN <= e.scale <= LEVEL2_SCALE_MAX
    &&& e.opponent == Some(Opponent { max_hits: LEVEL2_HITS })
    &&& e.laser is None
    &&& e.planet is None
    &&& e.gun is None
    &&& e.bounds == Some(Despawnable { min: DESPAWN_MIN, max: DESPAWN_MAX })
    &&& e.effect is None
    &&& e.tile is None
}

/// The `k`-th terrain tile of the pattern, textured with the level's
/// single drawn pick.
pub open spec fn is_tile(e: Entity, id: u64, k: int, texture: u64) -> bool {
    &&& e.id == id
    &&& e.alive
    &&& e.pos == (Vec3i { x: tile_x(k), y: tile_y(k), z: TILE_Z })
    &&& e.vel == (Vec3i { x: 0, y: 0, z: TILE_SPEED })
    &&& e.scale == 1_000
    &&& e.opponent is None
    &&& e.laser is None
    &&& e.planet is None
    &&& e.gun is None
    &&& e.bounds == Some(Despawnable { min: DESPAWN_MIN, max: DESPAWN_MAX })
    &&& e.effect is None
    &&& e.tile == Some(TerrainTile { texture, rot_quarter: tile_rot(k) })
}

/// The part of the world the scheduler leaves untouched.
pub open spec fn unchanged_outside_spawn(a: GameWorld, b: GameWorld) -> bool {
    &&& b.ship == a.ship
    &&& b.ship_pos == a.ship_pos
    &&& b.ship_gun == a.ship_gun
    &&& b.state == a.state
    &&& b.level == a.level
    &&& b.effect_queue@ == a.effect_queue@
    &&& b.rotate_queue@ == a.rotate_queue@
}

/// Looks up the breadth, height, and roll of one tile of the pattern.
fn tile_row(k: usize) -> (r: (i64, i64, i64))
    requires
        k < TILE_COUNT,
    ensures
        r.0 == tile_x(k as int),
        r.1 == tile_y(k as int),
        r.2 == tile_rot(k as int),
{
    let x = if k == 0 {
        -60_000
    } else if k == 1 {
        -50_000
    } else if k == 2 {
        -40_000
    } else if k == 3 {
        -30_000
    } else if k == 4 {
        -20_000
    } else if k == 5 || k == 6 {
        -15_000
    } else if k == 7 {
        -10_000
    } else if k == 8 {
        0
    } else if k == 9 {
        10_000
    } else if k == 10 || k == 11 {
        15_000
    } else if k == 12 {
        20_000
    } else if k == 13 {
        30_000
    } else if k == 14 {
        40_000
    } else if k == 15 {
        50_000
    } else {
        60_000
    };
    let y = if k <= 4 || 12 <= k {
        0
    } else if k == 5 || k == 11 {
        -5_000
    } else if k == 6 || k == 10 {
        -15_000
    } else {
        -20_000
    };
    let rot = if k == 5 || k == 6 {
        1
    } else if k == 10 || k == 11 {
        -1
    } else {
        0
    };
    (x, y, rot)
}

/// The scheduled-spawn phase: the timer advances and, on expiry, the
/// current level's template is instantiated — one fighter in the first
/// level, one boulder in the second, and, once only, the full terrain
/// pattern in the third. Beyond the third level, and once the pattern is
/// down, expiry spawns nothing; while the timer has not expired nothing
/// but the timer changes.
pub open spec fn scheduled_spawn_rel(a: GameWorld, b: GameWorld, delta_ms: u64) -> bool {
    let fired = a.spawn_timer.elapsed_ms + delta_ms >= a.spawn_timer.period_ms;
    let base = a.entities@.len() as int;
    &&& b.spawn_timer.period_ms == a.spawn_timer.period_ms
    &&& unchanged_outside_spawn(a, b)
    &&& b.spawn_timer.elapsed_ms == if fired {
        (a.spawn_timer.elapsed_ms + delta_ms) % (a.spawn_timer.period_ms as int)
    } else {
        a.spawn_timer.elapsed_ms + delta_ms
    }
    &&& !fired ==> b == (GameWorld { spawn_timer: b.spawn_timer, ..a })
    &&& forall|i: int| 0 <= i < base ==> #[trigger] b.entities@[i] == a.entities@[i]
    &&& (fired && a.level.value == 1) ==> {
        &&& b.entities@.len() == base + 1
        &&& is_level1_opponent(b.entities@[base], a.next_id)
        &&& b.next_id == a.next_id + 1
        &&& b.terrain_done == a.terrain_done
    }
    &&& (fired && a.level.value == 2) ==> {
        &&& b.entities@.len() == base + 1
        &&& is_level2_opponent(b.entities@[base], a.next_id)
        &&& b.next_id == a.next_id + 1
        &&& b.terrain_done == a.terrain_done
    }
    &&& (fired && a.level.value == 3 && !a.terrain_done) ==> {
        &&& b.entities@.len() == base + TILE_COUNT
        &&& forall|k: int|
            0 <= k < TILE_COUNT ==> is_tile(
                #[trigger] b.entities@[base + k],
                (a.next_id + k) as u64,
                k,
                b.entities@[base].tile->0.texture,
            )
        &&& 1 <= b.entities@[base].tile->0.texture <= 8
        &&& b.next_id == a.next_id + TILE_COUNT
        &&& b.terrain_done
    }
    &&& (fired && (a.level.value > 3 || (a.level.value == 3 && a.terrain_done))) ==> b == (
    GameWorld { spawn_timer: b.spawn_timer, ..a })
}

/// Advances the spawn timer and, on expiry, instantiates the current
/// level's template: one fighter in the first level, one boulder in the
/// second, and — once only — the full terrain pattern in the third.
/// Beyond the third level, and once the pattern is down, expiry spawns
/// nothing. While the timer has not expired nothing but the timer
/// changes.
pub fn spawn_opponent(world: &mut GameWorld, delta_ms: u64)
    requires
        old(world).wf(),
        delta_ms <= MAX_DELTA_MS,
        old(world).next_id + TILE_COUNT <= u64::MAX,
    ensures
        final(world).wf(),
        scheduled_spawn_rel(*old(world), *final(world), delta_ms),
{
    let fired = world.spawn_timer.tick(delta_ms);
    if !fired {
        return ;
    }
    let mut rng = fresh_rng();
    let level = world.level.value;
    if level == 1 {
        let dx = gen_range_i64(&mut rng, -SPAWN_X_LIMIT, SPAWN_X_LIMIT);
        let dy = gen_range_i64(&mut rng, -SPAWN_Y_LIMIT, SPAWN_Y_LIMIT);
        let vz = gen_range_i64(&mut rng, SPAWN_SPEED_MIN, SPAWN_SPEED_MAX);
        let cd = gen_range_i64(&mut rng, OPPONENT_COOLDOWN_MIN, OPPONENT_COOLDOWN_MAX);
        let mut gun_positions: Vec<Vec3i> = Vec::new();
        gun_positions.push(Vec3i { x: 0, y: 0, z: 5_000 });
        proof {
            assert(gun_positions@ =~= seq![Vec3i { x: 0i64, y: 0i64, z: 5_000i64 }]);
        }
        let id = world.next_id;
        world.entities.push(Entity {
            id,
            alive: true,
            pos: Vec3i { x: dx, y: dy, z: SPAWN_Z },
            vel: Vec3i { x: 0, y: 0, z: vz },
            scale: 1_000,
            opponent: Some(Opponent { max_hits: 1 }),
            laser: None,
            planet: None,
            gun: Some(LaserGun {
                positions: gun_positions,
                player: false,
                fire: false,
                cooldown_ms: 0,
                std_cooldown_ms: cd as u64,
            }),
            bounds: Some(Despawnable { min: DESPAWN_MIN, max: DESPAWN_MAX }),
            effect: None,
            tile: None,
        });
        world.next_id = world.next_id + 1;
        proof {
            registry_extended_wf(*old(world), *world);
        }
    } else if level == 2 {
        let dx = gen_range_i64(&mut rng, -SPAWN_X_LIMIT, SPAWN_X_LIMIT);
        let dy = gen_range_i64(&mut rng, -SPAWN_Y_LIMIT, SPAWN_Y_LIMIT);
        let vz = gen_range_i64(&mut rng, SPAWN_SPEED_MIN, SPAWN_SPEED_MAX);
        let factor = gen_range_i64(&mut rng, LEVEL2_SCALE_MIN, LEVEL2_SCALE_MAX + 1);
        let id = world.next_id;
        world.entities.push(Entity {
            id,
            alive: true,
            pos: Vec3i { x: dx, y: dy, z: SPAWN_Z },
            vel: Vec3i { x: 0, y: 0, z: vz },
            scale: factor,
            opponent: Some(Opponent { max_hits: LEVEL2_HITS }),
            laser: None,
            planet: None,
            gun: None,
            bounds: Some(Despawnable { min: DESPAWN_MIN, max: DESPAWN_MAX }),
            effect: None,
            tile: None,
        });
        world.next_id = world.next_id + 1;
        proof {
            registry_extended_wf(*old(world), *world);
        }
    } else if level == 3 && !world.terrain_done {
        let texture = gen_range_i64(&mut rng, 1, 9) as u64;
        let ghost pre = *world;
        let base_len = world.entities.len();
        let mut k: usize = 0;
        while k < TILE_COUNT
            invariant
                k <= TILE_COUNT,
                pre.wf(),
                base_len == pre.entities@.len(),
                1 <= texture <= 8,
                world.entities@.len() == base_len + k,
                forall|i: int|
                    0 <= i < base_len ==> #[trigger] world.entities@[i] == pre.entities@[i],
                forall|q: int|
                    0 <= q < k ==> is_tile(
                        #[trigger] world.entities@[base_len + q],
                        (pre.next_id + q) as u64,
                        q,
                        texture,
                    ),
                world.next_id == pre.next_id + k,
                pre.next_id + TILE_COUNT <= u64::MAX,
                *world == (GameWorld {
                    entities: world.entities,
                    next_id: world.next_id,
                    ..pre
                }),
            decreases TILE_COUNT - k,
        {
            let (x, y, rot) = tile_row(k);
            let id = world.next_id;
            world.entities.push(Entity {
                id,
                alive: true,
                pos: Vec3i { x, y, z: TILE_Z },
                vel: Vec3i { x: 0, y: 0, z: TILE_SPEED },
                scale: 1_000,
                opponent: None,
                laser: None,
                planet: None,
                gun: None,
                bounds: Some(Despawnable { min: DESPAWN_MIN, max: DESPAWN_MAX }),
                effect: None,
                tile: Some(TerrainTile { texture, rot_quarter: rot }),
            });
            world.next_id = world.next_id + 1;
            k = k + 1;
        }
        world.terrain_done = true;
        proof {
            let base = pre.entities@.len() as int;
            assert(is_tile(world.entities@[base + 0], (pre.next_id + 0) as u64, 0, texture));
            assert(world.entities@[base].tile->0.texture == texture);
            assert forall|i: int| 0 <= i < world.entities@.len() implies (
            #[trigger] world.entities@[i]).wf() by {
                if i < base {
                    assert(pre.entities@[i].wf());
                } else {
                    assert(is_tile(
                        world.entities@[base + (i - base)],
                        (pre.next_id + (i - base)) as u64,
                        i - base,
                        texture,
                    ));
                }
            }
            assert forall|i: int| 0 <= i < world.entities@.len() implies 1 <= (
            #[trigger] world.entities@[i]).id < world.next_id by {
                if i < base {
                    assert(1 <= pre.entities@[i].id < pre.next_id);
                } else {
                    assert(is_tile(
                        world.entities@[base + (i - base)],
                        (pre.next_id + (i - base)) as u64,
                        i - base,
                        texture,
                    ));
                }
            }
            assert forall|i: int, j: int|
                0 <= i < j < world.entities@.len() implies (#[trigger] world.entities@[i]).id != (
            #[trigger] world.entities@[j]).id by {
                if i < base && j < base {
                    assert(pre.entities@[i].id != pre.entities@[j].id);
                } else {
                    if i < base {
                        assert(1 <= pre.entities@[i].id < pre.next_id);
                    } else {
                        assert(is_tile(
                            world.entities@[base + (i - base)],
                            (pre.next_id + (i - base)) as u64,
                            i - base,
                            texture,
                        ));
                    }
                    assert(is_tile(
                        world.entities@[base + (j - base)],
                        (pre.next_id + (j - base)) as u64,
                        j - base,
                        texture,
                    ));
                }
            }
        }
    }
}

/// Appending one well-formed entity under a fresh id keeps the
/// registry's invariants.
proof fn registry_extended_wf(pre: GameWorld, post: GameWorld)
    requires
        pre.wf(),
        post.entities@.len() == pre.entities@.len() + 1,
        forall|i: int| 0 <= i < pre.entities@.len() ==> #[trigger] post.entities@[i] == pre.entities@[i],
        post.entities@.last().wf(),
        post.entities@.last().id == pre.next_id,
        pre.next_id < u64::MAX,
        post.next_id == pre.next_id + 1,
    ensures
        forall|i: int| 0 <= i < post.entities@.len() ==> (#[trigger] post.entities@[i]).wf(),
        forall|i: int|
            0 <= i < post.entities@.len() ==> 1 <= (#[trigger] post.entities@[i]).id
                < post.next_id,
        forall|i: int, j: int|
            0 <= i < j < post.entities@.len() ==> (#[trigger] post.entities@[i]).id != (
            #[trigger] post.entities@[j]).id,
{
    let base = pre.entities@.len() as int;
    assert(post.entities@[base] == post.entities@.last());
    assert forall|i: int| 0 <= i < post.entities@.len() implies (#[trigger] post.entities@[i]).wf()
        && 1 <= post.entities@[i].id < post.next_id by {
        if i < base {
            assert(post.entities@[i] == pre.entities@[i]);
            assert(pre.entities@[i].wf());
        }
    }
    assert forall|i: int, j: int|
        0 <= i < j < post.entities@.len() implies (#[trigger] post.entities@[i]).id != (
    #[trigger] post.entities@[j]).id by {
        if j < base {
            assert(pre.entities@[i].id != pre.entities@[j].id);
        } else {
            assert(pre.entities@[i].id < pre.next_id);
        }
    }
}

} // verus!
