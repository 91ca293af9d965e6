//! Combat resolution and progression engine for an arcade space shooter.
//!
//! The library models the simulation state as plain data: a player ship
//! singleton, a registry of entities keyed by stable integer ids, a level
//! counter, a repeating spawn timer, and the event queues that outside
//! consumers drain. All quantities are integers in fixed sub-units: shield
//! charge in hundredths, durations in milliseconds, spatial coordinates in
//! thousandths of a world unit.

pub mod collision;
pub mod components;
pub mod effects;
pub mod events;
pub mod laws;
pub mod progression;
pub mod resources;
mod rng;
pub mod spawn;
pub mod sweep;
pub mod tick;
pub mod weapon;
pub mod world;
