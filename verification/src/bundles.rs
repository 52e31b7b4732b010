//! Groups of components handed to the world when an entity of a given
//! role is created.

use vstd::prelude::*;
use crate::components::{
    EnginePhysics, Explosion, GravitySource, Lifespan, Mass, Missile, Planet, Position, Ship,
    Size, Star, Team, Velocity,
};
use crate::math::Vec2;

verus! {

/// Everything a fixed central star is made of; stars never move.
#[derive(Debug)]
pub struct StarBundle {
    pub position: Position,
    pub mass: Mass,
    pub size: Size,
    pub star: Star,
    pub gravity_source: GravitySource,
}

impl Default for StarBundle {
    fn default() -> (r: StarBundle)
        ensures
            r.position == (Position(Vec2 { x: 0i64, y: 0i64 })),
            r.mass == (Mass(1i64)),
            r.size == (Size(1000i64)),
    {
        StarBundle {
            position: Position(Vec2 { x: 0, y: 0 }),
            mass: Mass(1),
            size: Size(1000),
            star: Star,
            gravity_source: GravitySource,
        }
    }
}

/// Everything an orbiting planet is made of.
#[derive(Debug)]
pub struct PlanetBundle {
    pub position: Position,
    pub velocity: Velocity,
    pub mass: Mass,
    pub size: Size,
    pub planet: Planet,
    pub gravity_source: GravitySource,
}

impl Default for PlanetBundle {
    fn default() -> (r: PlanetBundle)
        ensures
            r.position == (Position(Vec2 { x: 0i64, y: 0i64 })),
            r.velocity == (Velocity(Vec2 { x: 0i64, y: 0i64 })),
            r.mass == (Mass(1i64)),
            r.size == (Size(1000i64)),
    {
        PlanetBundle {
            position: Position(Vec2 { x: 0, y: 0 }),
            velocity: Velocity(Vec2 { x: 0, y: 0 }),
            mass: Mass(1),
            size: Size(1000),
            planet: Planet,
            gravity_source: GravitySource,
        }
    }
}

/// Everything a self-propelled vessel is made of.
#[derive(Debug)]
pub struct ShipBundle {
    pub position: Position,
    pub velocity: Velocity,
    pub mass: Mass,
    pub size: Size,
    pub engine: EnginePhysics,
    pub ship: Ship,
    pub team: Team,
}

impl Default for ShipBundle {
    fn default() -> (r: ShipBundle)
        ensures
            r.position == (Position(Vec2 { x: 0i64, y: 0i64 })),
            r.velocity == (Velocity(Vec2 { x: 0i64, y: 0i64 })),
            r.mass == (Mass(1i64)),
            r.size == (Size(1000i64)),
            r.engine == (EnginePhysics { max_accel: 10_000i64, current_accel: 0i64 }),
            r.team == (Team(Option::<u32>::None)),
    {
        ShipBundle {
            position: Position(Vec2 { x: 0, y: 0 }),
            velocity: Velocity(Vec2 { x: 0, y: 0 }),
            mass: Mass(1),
            size: Size(1000),
            engine: EnginePhysics { max_accel: 10_000, current_accel: 0 },
            ship: Ship,
            team: Team(Option::None),
        }
    }
}

/// Everything a fired projectile is made of; built only by the spawn
/// gateway from a queued fire intent.
#[derive(Debug)]
pub struct MissileBundle {
    pub position: Position,
    pub velocity: Velocity,
    pub size: Size,
    pub mass: Mass,
    pub lifespan: Lifespan,
    pub missile: Missile,
    pub team: Team,
}

/// Everything a detonation remnant is made of; built only by the spawn
/// gateway from a queued explosion intent.
#[derive(Debug)]
pub struct ExplosionBundle {
    pub explosion: Explosion,
    pub position: Position,
    pub velocity: Velocity,
    pub size: Size,
}

impl Default for ExplosionBundle {
    fn default() -> (r: ExplosionBundle)
        ensures
            r.position == (Position(Vec2 { x: 0i64, y: 0i64 })),
            r.velocity == (Velocity(Vec2 { x: 0i64, y: 0i64 })),
            r.size == (Size(250i64)),
    {
        ExplosionBundle {
            explosion: Explosion,
            position: Position(Vec2 { x: 0, y: 0 }),
            velocity: Velocity(Vec2 { x: 0, y: 0 }),
            size: Size(250),
        }
    }
}

} // verus!
