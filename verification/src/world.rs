//! The body store: one record per simulated entity, the queues of
//! pending spawn intents, and the well-formedness bounds every pass
//! preserves.

use vstd::prelude::*;
use crate::bundles::{PlanetBundle, ShipBundle, StarBundle};
use crate::components::{EnginePhysics, Lifespan, Team};
use crate::events::{CreateExplosionEvent, SpawnMissileFromShip};
use crate::math::{
    Vec2, MAX_COORD, MAX_ENGINE_ACCEL, MAX_ENTITIES, MAX_MASS, MAX_SIZE, MAX_TIME, MAX_VEL,
};

verus! {

/// The role a body plays for its whole lifetime: a body may carry
/// auxiliary components on top (engine, team, lifespan), but its kind,
/// and with it whether it exerts gravity, is assigned at creation and
/// never toggled.
#[derive(Debug, Clone, Copy, PartialEq, Eq, Structural)]
pub enum EntityKind {
    Star,
    Planet,
    Ship,
    Missile,
    Explosion,
}

/// Whether bodies of this kind exert gravitational pull on others.
pub open spec fn is_gravity_source(k: EntityKind) -> bool {
    k == EntityKind::Star || k == EntityKind::Planet
}

/// Whether bodies of this kind receive the non-source gravity pass
/// (ships, missiles and explosions; planets receive their own pass and
/// stars are fixed).
pub open spec fn is_gravity_target(k: EntityKind) -> bool {
    !is_gravity_source(k)
}

/// One simulated body and its attached components.
#[derive(Debug, Clone, Copy)]
pub struct Entity {
    pub kind: EntityKind,
    pub position: Vec2,
    pub velocity: Vec2,
    pub mass: i64,
    pub size: i64,
    pub engine: Option<EnginePhysics>,
    pub team: Team,
    pub lifespan: Option<Lifespan>,
}

/// Every scalar of an entity lies inside the world limits; stars are
/// fixed and therefore have no motion.
pub open spec fn wf_entity(e: Entity) -> bool {
    &&& -MAX_COORD <= e.position.x <= MAX_COORD
    &&& -MAX_COORD <= e.position.y <= MAX_COORD
    &&& -MAX_VEL <= e.velocity.x <= MAX_VEL
    &&& -MAX_VEL <= e.velocity.y <= MAX_VEL
    &&& 0 < e.mass <= MAX_MASS
    &&& 0 <= e.size <= MAX_SIZE
    &&& match e.engine {
        Option::Some(en) => -MAX_ENGINE_ACCEL <= en.current_accel <= MAX_ENGINE_ACCEL
            && 0 <= en.max_accel <= MAX_ENGINE_ACCEL,
        Option::None => true,
    }
    &&& match e.lifespan {
        Option::Some(l) => 0 <= l.created_on <= MAX_TIME && 0 <= l.lifespan <= MAX_TIME,
        Option::None => true,
    }
    &&& (e.kind == EntityKind::Star ==> e.velocity == (Vec2 { x: 0i64, y: 0i64 }))
}

/// The same entity with its velocity replaced.
pub open spec fn with_velocity(e: Entity, v: Vec2) -> Entity {
    Entity {
        kind: e.kind,
        position: e.position,
        velocity: v,
        mass: e.mass,
        size: e.size,
        engine: e.engine,
        team: e.team,
        lifespan: e.lifespan,
    }
}

/// The same entity with its position replaced.
pub open spec fn with_position(e: Entity, p: Vec2) -> Entity {
    Entity {
        kind: e.kind,
        position: p,
        velocity: e.velocity,
        mass: e.mass,
        size: e.size,
        engine: e.engine,
        team: e.team,
        lifespan: e.lifespan,
    }
}

/// A queued fire intent carries values that fit the world limits.
pub open spec fn wf_missile_intent(m: SpawnMissileFromShip) -> bool {
    &&& -MAX_COORD <= m.position.0.x <= MAX_COORD
    &&& -MAX_COORD <= m.position.0.y <= MAX_COORD
    &&& -MAX_VEL <= m.velocity.0.x <= MAX_VEL
    &&& -MAX_VEL <= m.velocity.0.y <= MAX_VEL
}

/// A queued explosion intent carries values that fit the world limits.
pub open spec fn wf_explosion_intent(ev: CreateExplosionEvent) -> bool {
    &&& -MAX_COORD <= ev.position.0.x <= MAX_COORD
    &&& -MAX_COORD <= ev.position.0.y <= MAX_COORD
    &&& -MAX_VEL <= ev.velocity.0.x <= MAX_VEL
    &&& -MAX_VEL <= ev.velocity.0.y <= MAX_VEL
}

/// The store of every live body, plus the spawn intents queued for the
/// next tick.
pub struct World {
    pub entities: Vec<Entity>,
    pub missile_intents: Vec<SpawnMissileFromShip>,
    pub explosion_intents: Vec<CreateExplosionEvent>,
}

/// The world invariant: every entity and every queued intent lies inside
/// the world limits, and the store never outgrows the entity cap.
pub open spec fn wf_world(w: World) -> bool {
    &&& w.entities@.len() <= MAX_ENTITIES
    &&& forall|i: int| 0 <= i < w.entities@.len() ==> wf_entity(#[trigger] w.entities@[i])
    &&& forall|i: int|
        0 <= i < w.missile_intents@.len() ==> wf_missile_intent(#[trigger] w.missile_intents@[i])
    &&& forall|i: int|
        0 <= i < w.explosion_intents@.len() ==> wf_explosion_intent(
            #[trigger] w.explosion_intents@[i],
        )
}

/// The number of entities of the given kind among the first `n`.
pub open spec fn count_kind_to(s: Seq<Entity>, k: EntityKind, n: int) -> int
    decreases n,
{
    if n <= 0 {
        0
    } else {
        count_kind_to(s, k, n - 1) + if s[n - 1].kind == k {
            1int
        } else {
            0int
        }
    }
}

/// The number of entities of the given kind.
pub open spec fn count_kind(s: Seq<Entity>, k: EntityKind) -> int {
    count_kind_to(s, k, s.len() as int)
}

/// The entity a star bundle creates.
pub open spec fn star_entity(b: StarBundle) -> Entity {
    Entity {
        kind: EntityKind::Star,
        position: b.position.0,
        velocity: Vec2 { x: 0i64, y: 0i64 },
        mass: b.mass.0,
        size: b.size.0,
        engine: Option::None,
        team: Team(Option::None),
        lifespan: Option::None,
    }
}

/// The entity a planet bundle creates.
pub open spec fn planet_entity(b: PlanetBundle) -> Entity {
    Entity {
        kind: EntityKind::Planet,
        position: b.position.0,
        velocity: b.velocity.0,
        mass: b.mass.0,
        size: b.size.0,
        engine: Option::None,
        team: Team(Option::None),
        lifespan: Option::None,
    }
}

/// The entity a ship bundle creates.
pub open spec fn ship_entity(b: ShipBundle) -> Entity {
    Entity {
        kind: EntityKind::Ship,
        position: b.position.0,
        velocity: b.velocity.0,
        mass: b.mass.0,
        size: b.size.0,
        engine: Option::Some(b.engine),
        team: b.team,
        lifespan: Option::None,
    }
}

pub open spec fn wf_star_bundle(b: StarBundle) -> bool {
    wf_entity(star_entity(b))
}

pub open spec fn wf_planet_bundle(b: PlanetBundle) -> bool {
    wf_entity(planet_entity(b))
}

pub open spec fn wf_ship_bundle(b: ShipBundle) -> bool {
    wf_entity(ship_entity(b))
}

impl World {
    /// An empty world: no bodies, no queued intents.
    pub fn new() -> (w: World)
        ensures
            w.entities@ == Seq::<Entity>::empty(),
            w.missile_intents@ == Seq::<SpawnMissileFromShip>::empty(),
            w.explosion_intents@ == Seq::<CreateExplosionEvent>::empty(),
            wf_world(w),
    {
        let w = World {
            entities: Vec::new(),
            missile_intents: Vec::new(),
            explosion_intents: Vec::new(),
        };
        proof {
            assert(w.entities@ =~= Seq::<Entity>::empty());
            assert(w.missile_intents@ =~= Seq::<SpawnMissileFromShip>::empty());
            assert(w.explosion_intents@ =~= Seq::<CreateExplosionEvent>::empty());
        }
        w
    }

    /// Creates a fixed star; stars exert gravity and never move.
    pub fn spawn_star(&mut self, b: StarBundle)
        requires
            wf_world(*old(self)),
            old(self).entities@.len() < MAX_ENTITIES,
            wf_star_bundle(b),
        ensures
            final(self).entities@ == old(self).entities@.push(star_entity(b)),
            final(self).missile_intents@ == old(self).missile_intents@,
            final(self).explosion_intents@ == old(self).explosion_intents@,
            wf_world(*final(self)),
    {
        let e = Entity {
            kind: EntityKind::Star,
            position: b.position.0,
            velocity: Vec2 { x: 0, y: 0 },
            mass: b.mass.0,
            size: b.size.0,
            engine: Option::None,
            team: Team(Option::None),
            lifespan: Option::None,
        };
        self.entities.push(e);
    }

    /// Creates an orbiting planet; planets exert gravity and move under
    /// the pull of the other sources.
    pub fn spawn_planet(&mut self, b: PlanetBundle)
        requires
            wf_world(*old(self)),
            old(self).entities@.len() < MAX_ENTITIES,
            wf_planet_bundle(b),
        ensures
            final(self).entities@ == old(self).entities@.push(planet_entity(b)),
            final(self).missile_intents@ == old(self).missile_intents@,
            final(self).explosion_intents@ == old(self).explosion_intents@,
            wf_world(*final(self)),
    {
        let e = Entity {
            kind: EntityKind::Planet,
            position: b.position.0,
            velocity: b.velocity.0,
            mass: b.mass.0,
            size: b.size.0,
            engine: Option::None,
            team: Team(Option::None),
            lifespan: Option::None,
        };
        self.entities.push(e);
    }

    /// Creates a self-propelled vessel.
    pub fn spawn_ship(&mut self, b: ShipBundle)
        requires
            wf_world(*old(self)),
            old(self).entities@.len() < MAX_ENTITIES,
            wf_ship_bundle(b),
        ensures
            final(self).entities@ == old(self).entities@.push(ship_entity(b)),
            final(self).missile_intents@ == old(self).missile_intents@,
            final(self).explosion_intents@ == old(self).explosion_intents@,
            wf_world(*final(self)),
    {
        let e = Entity {
            kind: EntityKind::Ship,
            position: b.position.0,
            velocity: b.velocity.0,
            mass: b.mass.0,
            size: b.size.0,
            engine: Option::Some(b.engine),
            team: b.team,
            lifespan: Option::None,
        };
        self.entities.push(e);
    }

    /// The derived, read-only missile count shown by the UI.
    pub fn missile_count(&self) -> (n: usize)
        ensures
            n as int == count_kind(self.entities@, EntityKind::Missile),
    {
        let mut n: usize = 0;
        let mut i: usize = 0;
        while i < self.entities.len()
            invariant
                i <= self.entities@.len(),
                n <= i,
                n as int == count_kind_to(self.entities@, EntityKind::Missile, i as int),
            decreases self.entities@.len() - i,
        {
            if matches!(self.entities[i].kind, EntityKind::Missile) {
                n = n + 1;
            }
            i = i + 1;
        }
        n
    }
}

} // verus!
