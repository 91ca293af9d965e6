//! Signals the engine emits for outside consumers: effect requests drained
//! by the debris spawner, and rotation signals drained by the background
//! rotator.

use vstd::prelude::*;
use crate::components::Vec3i;

verus! {

/// Request for a burst of visual debris at a position.
#[derive(Clone, Copy, PartialEq, Eq, Structural, Debug)]
pub struct CreateEffectEvent(pub Vec3i);

/// Zero-payload signal asking the background to rotate once.
#[derive(Clone, Copy, PartialEq, Eq, Structural, Debug)]
pub struct RotateSkyboxEvent;

} // verus!
