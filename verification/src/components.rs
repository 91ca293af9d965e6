//! Components attached to entities in the registry: tags, health, weapon
//! mounts, removal bounds, and effect countdowns.

use vstd::prelude::*;

verus! {

/// Largest magnitude a spatial coordinate may take, in thousandths of a
/// world unit. Keeping every coordinate inside this window leaves ample
/// headroom for sums of a position and a firing-point offset.
pub const POS_LIMIT: i64 = 2_000_000_000;

/// Largest magnitude of a firing-point offset, in thousandths.
pub const GUN_OFFSET_LIMIT: i64 = 100_000;

/// Most firing points a single weapon mount may carry.
pub const MAX_FIRING_POINTS: usize = 8;

/// Longest weapon cooldown period accepted, in milliseconds.
pub const MAX_COOLDOWN_MS: u64 = 10_000;

/// Longest effect countdown accepted, in milliseconds.
pub const MAX_EFFECT_MS: u64 = 1_000_000;

/// A point or direction in space, in thousandths of a world unit.
#[derive(Clone, Copy, PartialEq, Eq, Structural, Debug)]
pub struct Vec3i {
    pub x: i64,
    pub y: i64,
    pub z: i64,
}

/// A mathematical coordinate pulled back into the working window.
pub open spec fn clamp_coord(v: int) -> i64 {
    if v < -POS_LIMIT {
        (-POS_LIMIT) as i64
    } else if v > POS_LIMIT {
        POS_LIMIT
    } else {
        v as i64
    }
}

impl Vec3i {
    /// Every coordinate lies inside the working window.
    pub open spec fn wf(self) -> bool {
        &&& -POS_LIMIT <= self.x <= POS_LIMIT
        &&& -POS_LIMIT <= self.y <= POS_LIMIT
        &&& -POS_LIMIT <= self.z <= POS_LIMIT
    }

    /// Component-wise sum, clamped into the working window. Within normal
    /// play the operands sit far from the window's edge, so the clamp
    /// never binds there.
    pub open spec fn plus_clamped(self, o: Vec3i) -> Vec3i {
        Vec3i {
            x: clamp_coord(self.x + o.x),
            y: clamp_coord(self.y + o.y),
            z: clamp_coord(self.z + o.z),
        }
    }

    /// Adds two bounded vectors, clamping each coordinate back into the
    /// working window.
    pub fn add_clamped(self, o: Vec3i) -> (r: Vec3i)
        requires
            self.wf(),
            o.wf(),
        ensures
            r == self.plus_clamped(o),
            r.wf(),
    {
        Vec3i {
            x: clamp_i64(self.x + o.x),
            y: clamp_i64(self.y + o.y),
            z: clamp_i64(self.z + o.z),
        }
    }
}

/// Pulls a coordinate back into the working window.
fn clamp_i64(v: i64) -> (r: i64)
    ensures
        r == clamp_coord(v as int),
{
    if v < -POS_LIMIT {
        -POS_LIMIT
    } else if v > POS_LIMIT {
        POS_LIMIT
    } else {
        v
    }
}

/// Removal thresholds on the depth axis: the sweeper removes the carrying
/// entity once its depth coordinate exceeds `max` or falls below `min`.
#[derive(Clone, Copy, PartialEq, Eq, Structural, Debug)]
pub struct Despawnable {
    pub min: i64,
    pub max: i64,
}

/// Tag for the background planets that are removed when the second level
/// begins.
#[derive(Clone, Copy, PartialEq, Eq, Structural, Debug)]
pub struct Planet;

/// Terminal verdict of a play-through. `Win` is a defined terminal state
/// with no generating condition in the current design.
#[derive(Clone, Copy, PartialEq, Eq, Structural, Debug)]
pub enum WinOrLostState {
    Win,
    Lost,
    Neutral,
}

/// The player ship singleton: shield charge in hundredths, the count of
/// qualifying kills still owed before the next level, and the verdict.
#[derive(Clone, Copy, PartialEq, Eq, Structural, Debug)]
pub struct Ship {
    pub shields: i64,
    pub hits: i64,
    pub win_or_lost: WinOrLostState,
}

/// Hostile entity state: the number of qualifying projectile hits it can
/// still absorb.
#[derive(Clone, Copy, PartialEq, Eq, Structural, Debug)]
pub struct Opponent {
    pub max_hits: i64,
}

/// Projectile tag carrying its allegiance.
#[derive(Clone, Copy, PartialEq, Eq, Structural, Debug)]
pub struct Laser {
    pub player: bool,
}

/// Countdown attached to ephemeral visual debris, in milliseconds; the
/// carrying entity is removed when it runs out.
#[derive(Clone, Copy, PartialEq, Eq, Structural, Debug)]
pub struct EffectTime {
    pub remaining_ms: u64,
}

/// A terrain tile of the third level: its texture pick and its roll as a
/// count of quarter turns.
#[derive(Clone, Copy, PartialEq, Eq, Structural, Debug)]
pub struct TerrainTile {
    pub texture: u64,
    pub rot_quarter: i64,
}

/// A weapon mount owned by the ship or by an opponent: firing-point
/// offsets, allegiance, the held fire intent, and the cooldown state in
/// milliseconds.
pub struct LaserGun {
    pub positions: Vec<Vec3i>,
    pub player: bool,
    pub fire: bool,
    pub cooldown_ms: u64,
    pub std_cooldown_ms: u64,
}

impl LaserGun {
    /// Bounded offsets and cooldowns; the remaining cooldown never exceeds
    /// the configured period.
    pub open spec fn wf(self) -> bool {
        &&& self.positions@.len() <= MAX_FIRING_POINTS
        &&& forall|i: int|
            0 <= i < self.positions@.len() ==> {
                &&& -GUN_OFFSET_LIMIT <= #[trigger] self.positions@[i].x <= GUN_OFFSET_LIMIT
                &&& -GUN_OFFSET_LIMIT <= self.positions@[i].y <= GUN_OFFSET_LIMIT
                &&& -GUN_OFFSET_LIMIT <= self.positions@[i].z <= GUN_OFFSET_LIMIT
            }
        &&& 1 <= self.std_cooldown_ms <= MAX_COOLDOWN_MS
        &&& self.cooldown_ms <= self.std_cooldown_ms
    }
}

/// One entry of the entity registry. Component slots that an entity does
/// not carry hold `None`; a destroyed entity keeps its slot with `alive`
/// cleared until the sweeper drops it.
pub struct Entity {
    pub id: u64,
    pub alive: bool,
    pub pos: Vec3i,
    pub vel: Vec3i,
    pub scale: i64,
    pub opponent: Option<Opponent>,
    pub laser: Option<Laser>,
    pub planet: Option<Planet>,
    pub gun: Option<LaserGun>,
    pub bounds: Option<Despawnable>,
    pub effect: Option<EffectTime>,
    pub tile: Option<TerrainTile>,
}

impl Entity {
    /// Well-formed entity: bounded coordinates and scale, a well-formed
    /// mount if any, a live opponent always has at least one hit left, and
    /// a live effect countdown has not yet run out.
    pub open spec fn wf(self) -> bool {
        &&& self.pos.wf()
        &&& self.vel.wf()
        &&& 1 <= self.scale <= 1_000_000
        &&& !(self.opponent is Some && self.laser is Some)
        &&& self.opponent matches Some(o) ==> 0 <= o.max_hits <= 1_000
        &&& (self.alive && self.opponent is Some) ==> self.opponent->0.max_hits >= 1
        &&& self.gun matches Some(g) ==> g.wf()
        &&& self.effect matches Some(t) ==> t.remaining_ms <= MAX_EFFECT_MS
        &&& (self.alive && self.effect is Some) ==> self.effect->0.remaining_ms >= 1
        &&& self.tile matches Some(t) ==> 1 <= t.texture <= 8 && -1 <= t.rot_quarter <= 1
    }

    /// The same entity with its liveness cleared.
    pub open spec fn killed(self) -> Entity {
        Entity { alive: false, ..self }
    }

    /// The same entity with its remaining hit count replaced.
    pub open spec fn with_hits(self, h: i64) -> Entity {
        Entity { opponent: Some(Opponent { max_hits: h }), ..self }
    }

    /// The same entity with its weapon mount replaced.
    pub open spec fn with_gun(self, g: LaserGun) -> Entity {
        Entity { gun: Some(g), ..self }
    }
}

/// Whether the simulation still advances gameplay or only the status
/// display.
#[derive(Clone, Copy, PartialEq, Eq, Structural, Debug)]
pub enum GameState {
    Running,
    End,
}

} // verus!
