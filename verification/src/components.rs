//! The components a simulated entity is made of: physical state
//! (position, velocity, mass, size), the self-propulsion engine, combat
//! allegiance, time-to-live, and the marker tags that give an entity its
//! roles.

use vstd::prelude::*;
use crate::math::Vec2;
use crate::math::SCALE;

verus! {

/// Marker for the UI text entity that shows the frame rate.
#[derive(Debug, Default, Clone, Copy)]
pub struct FPSCount;

/// Marker for the UI text entity that shows the live missile count.
#[derive(Debug, Default, Clone, Copy)]
pub struct MissileCount;

/// Where a body is, in milli-units.
#[derive(Debug, Clone, Copy, PartialEq, Eq, Structural)]
pub struct Position(pub Vec2);

impl Default for Position {
    fn default() -> (r: Position)
        ensures
            r == (Position(Vec2 { x: 0i64, y: 0i64 })),
    {
        Position(Vec2 { x: 0, y: 0 })
    }
}

/// How fast a body moves, in milli-units per second.
#[derive(Debug, Clone, Copy, PartialEq, Eq, Structural)]
pub struct Velocity(pub Vec2);

impl Default for Velocity {
    fn default() -> (r: Velocity)
        ensures
            r == (Velocity(Vec2 { x: 0i64, y: 0i64 })),
    {
        Velocity(Vec2 { x: 0, y: 0 })
    }
}

/// How heavy a body is, in kilograms.
#[derive(Debug, Clone, Copy, PartialEq, Eq, Structural)]
pub struct Mass(pub i64);

impl Default for Mass {
    /// Default mass of 1 kg.
    fn default() -> (r: Mass)
        ensures
            r == (Mass(1i64)),
    {
        Mass(1)
    }
}

/// Component for entities that can move themselves
/// (i.e. they have an engine to accelerate and decelerate).
/// Both fields are in milli-units.
#[derive(Debug, Clone, Copy, PartialEq, Eq, Structural)]
pub struct EnginePhysics {
    pub max_accel: i64,
    pub current_accel: i64,
}

impl Default for EnginePhysics {
    fn default() -> (r: EnginePhysics)
        ensures
            r == (EnginePhysics { max_accel: (10 * SCALE) as i64, current_accel: 0i64 }),
    {
        EnginePhysics { max_accel: 10 * SCALE, current_accel: 0 }
    }
}

/// Component for entities that are displayed at a certain sprite scale,
/// in milli-units; the collision radius of planets and ships derives
/// from it.
#[derive(Debug, Clone, Copy, PartialEq, Eq, Structural)]
pub struct Size(pub i64);

impl Default for Size {
    /// Default size of one whole unit.
    fn default() -> (r: Size)
        ensures
            r == (Size(SCALE as i64)),
    {
        Size(SCALE)
    }
}

/// Marker for player- or AI-controlled vessels.
#[derive(Debug, Default, Clone, Copy)]
pub struct Ship;

/// Marker for fired projectiles.
#[derive(Debug, Default, Clone, Copy)]
pub struct Missile;

/// Marker for detonation remnants.
#[derive(Debug, Default, Clone, Copy)]
pub struct Explosion;

/// Marker for the fixed central body.
#[derive(Debug, Default, Clone, Copy)]
pub struct Star;

/// Marker for orbiting massive bodies.
#[derive(Debug, Default, Clone, Copy)]
pub struct Planet;

/// Marker for bodies that exert gravitational pull (stars and planets);
/// assigned at creation and never toggled.
#[derive(Debug, Default, Clone, Copy)]
pub struct GravitySource;

/// Combat allegiance: `None` is neutral, and any two differing
/// identities (including neutral against a numbered team) are mutually
/// hostile.
#[derive(Debug, Clone, Copy)]
pub struct Team(pub Option<u32>);

impl Team {
    /// Whether two teams share the same identity; combat only triggers
    /// between teams that do not.
    pub fn same_as(&self, other: &Team) -> (r: bool)
        ensures
            r == (self.0 == other.0),
    {
        match (self.0, other.0) {
            (Option::None, Option::None) => true,
            (Option::Some(a), Option::Some(b)) => a == b,
            _ => false,
        }
    }
}

impl Default for Team {
    fn default() -> (r: Team)
        ensures
            r == (Team(Option::<u32>::None)),
    {
        Team(Option::None)
    }
}

/// A fixed time-to-live, in milliseconds since simulation start; the
/// entity is destroyed on the first tick whose clock exceeds
/// `created_on + lifespan`.
#[derive(Debug, Default, Clone, Copy, PartialEq, Eq, Structural)]
pub struct Lifespan {
    /// Milliseconds since simulation start at which this component was created.
    pub created_on: i64,
    /// Number of milliseconds for which this entity should be alive.
    pub lifespan: i64,
}

impl Lifespan {
    /// Expiry is a function of the clock alone, never of the tick length.
    pub open spec fn expired(self, now: int) -> bool {
        self.created_on + self.lifespan < now
    }
}

/// Marker for entities that play their animation once and are then
/// destroyed (explosions).
#[derive(Debug, Default, Clone, Copy)]
pub struct AnimateOnce;

/// Marker for the camera that follows the player ship.
#[derive(Debug, Default, Clone, Copy)]
pub struct ShipCamera;

/// Marker for the cosmetic trail entities; the renderer despawns and
/// redraws them each frame, outside the simulation core.
#[derive(Debug, Default, Clone, Copy)]
pub struct SnailTrailEntityMarker;

} // verus!
