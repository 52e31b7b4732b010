//! Intents queued by one pass and consumed by the spawn gateway on the
//! following tick.

use vstd::prelude::*;
use crate::components::{Position, Team, Velocity};

verus! {

/// A request, raised by the input pass, that a new missile be spawned
/// from the given ship state.
#[derive(Debug, Clone, Copy)]
pub struct SpawnMissileFromShip {
    pub position: Position,
    pub velocity: Velocity,
    pub team: Team,
}

/// A request, raised by the combat resolver, that an explosion be
/// spawned at the site of a destroyed entity.
#[derive(Debug, Clone, Copy)]
pub struct CreateExplosionEvent {
    pub position: Position,
    pub velocity: Velocity,
}

} // verus!
