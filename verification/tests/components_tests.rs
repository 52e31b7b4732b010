use tactician::components::{
    EnginePhysics, Lifespan, Mass, Position, Size, Team, Velocity,
};
use tactician::bundles::ExplosionBundle;
use tactician::gateway::handle_spawn_missile_event;
use tactician::events::SpawnMissileFromShip;
use tactician::math::Vec2;
use tactician::world::{Entity, EntityKind, World};

#[test]
fn component_defaults_match_the_data_model() {
    assert_eq!(Mass::default().0, 1);
    assert_eq!(Size::default().0, 1000);
    let engine = EnginePhysics::default();
    assert_eq!(engine.max_accel, 10_000);
    assert_eq!(engine.current_accel, 0);
    assert_eq!(Team::default().0, None);
    assert_eq!(Position::default().0, Vec2 { x: 0, y: 0 });
    assert_eq!(Velocity::default().0, Vec2 { x: 0, y: 0 });
    let explosion = ExplosionBundle::default();
    assert_eq!(explosion.size.0, 250);
}

#[test]
fn teams_compare_by_identity() {
    assert!(Team(None).same_as(&Team(None)));
    assert!(Team(Some(1)).same_as(&Team(Some(1))));
    assert!(!Team(None).same_as(&Team(Some(1))));
    assert!(!Team(Some(1)).same_as(&Team(None)));
    assert!(!Team(Some(1)).same_as(&Team(Some(2))));
}

fn missile_at(px: i64) -> Entity {
    Entity {
        kind: EntityKind::Missile,
        position: Vec2 { x: px, y: 0 },
        velocity: Vec2 { x: 0, y: 0 },
        mass: 1,
        size: 170,
        engine: None,
        team: Team(None),
        lifespan: Some(Lifespan { created_on: 0, lifespan: 1000 }),
    }
}

#[test]
fn missile_count_counts_only_missiles() {
    let mut w = World::new();
    assert_eq!(w.missile_count(), 0);
    w.entities.push(missile_at(100));
    w.entities.push(missile_at(200));
    let mut ship = missile_at(300);
    ship.kind = EntityKind::Ship;
    w.entities.push(ship);
    assert_eq!(w.missile_count(), 2);
}

#[test]
fn spawn_queue_beyond_the_entity_cap_is_discarded() {
    // Fill the store to one slot below the cap, then hand the gateway
    // three fire intents: exactly one missile fits, the rest of the
    // queue is discarded, and the queue is left empty.
    let mut w = World::new();
    for i in 0..4095 {
        w.entities.push(missile_at(i));
    }
    let intent = SpawnMissileFromShip {
        position: Position(Vec2 { x: 9, y: 9 }),
        velocity: Velocity(Vec2 { x: 1, y: 1 }),
        team: Team(None),
    };
    w.missile_intents.push(intent);
    w.missile_intents.push(intent);
    w.missile_intents.push(intent);
    handle_spawn_missile_event(&mut w, 0);
    assert_eq!(w.entities.len(), 4096);
    assert_eq!(w.missile_intents.len(), 0);
    assert_eq!(w.entities[4095].position, Vec2 { x: 9, y: 9 });
}
