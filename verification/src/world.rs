//! The simulation context: the ship singleton, the entity registry, the
//! level counter, the spawn timer, and the outgoing signal queues.

use vstd::prelude::*;
use crate::components::{
    Entity, GameState, LaserGun, Planet, Ship, Vec3i, WinOrLostState,
};
use crate::events::{CreateEffectEvent, RotateSkyboxEvent};
use crate::resources::{Level, SpawnTimer, BASE_SPAWN_PERIOD_MS};

verus! {

/// Shield charge of a freshly created ship, in hundredths.
pub const SHIELDS_FULL: i64 = 100;

/// Qualifying kills owed before the level advances.
pub const CHANGE_LEVEL_HITS: i64 = 40;

/// The entity id reserved for the ship singleton.
pub const SHIP_ID: u64 = 0;

/// Depth of the ship's resting position, in thousandths.
pub const SHIP_POS_Z: i64 = -25_000;

/// Cooldown period of the ship's weapon mount, in milliseconds.
pub const SHIP_COOLDOWN_MS: u64 = 200;

/// The whole simulation state threaded through every system call.
pub struct GameWorld {
    pub ship: Ship,
    pub ship_pos: Vec3i,
    pub ship_gun: LaserGun,
    pub state: GameState,
    pub level: Level,
    pub spawn_timer: SpawnTimer,
    pub entities: Vec<Entity>,
    pub next_id: u64,
    pub effect_queue: Vec<CreateEffectEvent>,
    pub rotate_queue: Vec<RotateSkyboxEvent>,
    pub terrain_done: bool,
}

impl GameWorld {
    /// Registry ids are positive, below the allocation cursor, and
    /// pairwise distinct; every entity and resource is well formed; the
    /// ship's charge and kill quota never exceed their starting values.
    pub open spec fn wf(self) -> bool {
        &&& self.ship.shields <= SHIELDS_FULL
        &&& self.ship.hits <= CHANGE_LEVEL_HITS
        &&& self.ship_pos.wf()
        &&& self.ship_gun.wf()
        &&& self.ship_gun.player
        &&& self.level.value >= 1
        &&& self.spawn_timer.wf()
        &&& self.next_id >= 1
        &&& forall|i: int|
            0 <= i < self.entities@.len() ==> (#[trigger] self.entities@[i]).wf()
        &&& forall|i: int|
            0 <= i < self.entities@.len() ==> 1 <= (#[trigger] self.entities@[i]).id
                < self.next_id
        &&& forall|i: int, j: int|
            0 <= i < j < self.entities@.len() ==> (#[trigger] self.entities@[i]).id != (
            #[trigger] self.entities@[j]).id
        &&& forall|k: int|
            0 <= k < self.effect_queue@.len() ==> (#[trigger] self.effect_queue@[k]).0.wf()
    }

    /// A fresh play-through: full shields, the full kill quota, the first
    /// level, the baseline spawn cadence, the ship's twin forward mounts,
    /// and the two background planets.
    pub fn setup() -> (w: GameWorld)
        ensures
            w.wf(),
            w.ship == (Ship {
                shields: SHIELDS_FULL,
                hits: CHANGE_LEVEL_HITS,
                win_or_lost: WinOrLostState::Neutral,
            }),
            w.ship_pos == (Vec3i { x: 0, y: 0, z: SHIP_POS_Z }),
            w.ship_gun.positions@ =~= seq![
                Vec3i { x: -1_000i64, y: 0i64, z: 0i64 },
                Vec3i { x: 1_000i64, y: 0i64, z: 0i64 },
            ],
            w.ship_gun.player,
            !w.ship_gun.fire,
            w.ship_gun.cooldown_ms == 0,
            w.ship_gun.std_cooldown_ms == SHIP_COOLDOWN_MS,
            w.state is Running,
            w.level.value == 1,
            w.spawn_timer.period_ms == BASE_SPAWN_PERIOD_MS,
            w.spawn_timer.elapsed_ms == 0,
            w.entities@.len() == 2,
            w.entities@[0].alive && w.entities@[0].planet is Some && w.entities@[0].id == 1,
            w.entities@[1].alive && w.entities@[1].planet is Some && w.entities@[1].id == 2,
            w.entities@[0].opponent is None && w.entities@[1].opponent is None,
            w.entities@[0].laser is None && w.entities@[1].laser is None,
            w.next_id == 3,
            w.effect_queue@.len() == 0,
            w.rotate_queue@.len() == 0,
            !w.terrain_done,
    {
        let mut positions: Vec<Vec3i> = Vec::new();
        positions.push(Vec3i { x: -1_000, y: 0, z: 0 });
        positions.push(Vec3i { x: 1_000, y: 0, z: 0 });
        let ship_gun = LaserGun {
            positions,
            player: true,
            fire: false,
            cooldown_ms: 0,
            std_cooldown_ms: SHIP_COOLDOWN_MS,
        };
        let mut entities: Vec<Entity> = Vec::new();
        entities.push(planet_entity(1, Vec3i { x: -80_000, y: 0, z: -320_000 }, 16_000));
        entities.push(planet_entity(2, Vec3i { x: 0, y: -180_000, z: -146_000 }, 128_000));
        GameWorld {
            ship: Ship {
                shields: SHIELDS_FULL,
                hits: CHANGE_LEVEL_HITS,
                win_or_lost: WinOrLostState::Neutral,
            },
            ship_pos: Vec3i { x: 0, y: 0, z: SHIP_POS_Z },
            ship_gun,
            state: GameState::Running,
            level: Level { value: 1 },
            spawn_timer: SpawnTimer { elapsed_ms: 0, period_ms: BASE_SPAWN_PERIOD_MS },
            entities,
            next_id: 3,
            effect_queue: Vec::new(),
            rotate_queue: Vec::new(),
            terrain_done: false,
        }
    }
}

impl GameWorld {
    /// Writes an externally integrated position back into the registry:
    /// the entity answering to `id` takes the new position, everything
    /// else stays as it was.
    pub fn apply_position(&mut self, id: u64, pos: Vec3i)
        requires
            old(self).wf(),
            pos.wf(),
        ensures
            final(self).wf(),
            final(self).entities@.len() == old(self).entities@.len(),
            forall|i: int|
                0 <= i < old(self).entities@.len() ==> #[trigger] final(self).entities@[i] == (
                if old(self).entities@[i].id == id {
                    Entity { pos, ..old(self).entities@[i] }
                } else {
                    old(self).entities@[i]
                }),
            *final(self) == (GameWorld { entities: final(self).entities, ..*old(self) }),
    {
        let n = self.entities.len();
        let mut i: usize = 0;
        while i < n
            invariant
                i <= n,
                n == self.entities@.len(),
                self.entities@.len() == old(self).entities@.len(),
                pos.wf(),
                forall|k: int|
                    0 <= k < i ==> #[trigger] self.entities@[k] == (
                    if old(self).entities@[k].id == id {
                        Entity { pos, ..old(self).entities@[k] }
                    } else {
                        old(self).entities@[k]
                    }),
                forall|k: int| i <= k < n ==> #[trigger] self.entities@[k] == old(self).entities@[k],
                *self == (GameWorld { entities: self.entities, ..*old(self) }),
            decreases n - i,
        {
            if self.entities[i].id == id {
                let e = &mut self.entities[i];
                e.pos = pos;
            }
            i = i + 1;
        }
        proof {
            assert forall|i: int| 0 <= i < self.entities@.len() implies (
            #[trigger] self.entities@[i]).wf() by {
                assert(old(self).entities@[i].wf());
            }
        }
    }

    /// Writes the ship's externally integrated position back.
    pub fn apply_ship_position(&mut self, pos: Vec3i)
        requires
            old(self).wf(),
            pos.wf(),
        ensures
            final(self).wf(),
            *final(self) == (GameWorld { ship_pos: pos, ..*old(self) }),
    {
        self.ship_pos = pos;
    }
}

/// A background planet: a static scenery entity that carries only the
/// planet tag.
fn planet_entity(id: u64, pos: Vec3i, scale: i64) -> (e: Entity)
    requires
        pos.wf(),
        1 <= scale <= 1_000_000,
    ensures
        e.wf(),
        e.id == id,
        e.alive,
        e.pos == pos,
        e.vel == (Vec3i { x: 0, y: 0, z: 0 }),
        e.scale == scale,
        e.planet is Some,
        e.opponent is None,
        e.laser is None,
        e.gun is None,
        e.bounds is None,
        e.effect is None,
        e.tile is None,
{
    Entity {
        id,
        alive: true,
        pos,
        vel: Vec3i { x: 0, y: 0, z: 0 },
        scale,
        opponent: None,
        laser: None,
        planet: Some(Planet),
        gun: None,
        bounds: None,
        effect: None,
        tile: None,
    }
}

} // verus!
