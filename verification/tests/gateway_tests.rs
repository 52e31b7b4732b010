use tactician::bundles::{PlanetBundle, ShipBundle, StarBundle};
use tactician::components::{EnginePhysics, Mass, Position, Size, Team, Velocity};
use tactician::gateway::ThrustIntent;
use tactician::lifecycle::Viewport;
use tactician::math::Vec2;
use tactician::tick::tick;
use tactician::world::{EntityKind, World};

fn wide_viewport() -> Viewport {
    Viewport {
        center: Vec2 { x: 0, y: 0 },
        half_width: 100_000_000_000,
        half_height: 100_000_000_000,
    }
}

fn ship_world(vx: i64, vy: i64, team: Option<u32>) -> World {
    let mut w = World::new();
    w.spawn_ship(
        ShipBundle {
            position: Position(Vec2 { x: 7000, y: -3000 }),
            velocity: Velocity(Vec2 { x: vx, y: vy }),
            mass: Mass(30),
            size: Size(300),
            engine: EnginePhysics { max_accel: 3000, current_accel: 0 },
            team: Team(team),
            ..Default::default()
        },
    );
    w
}

#[test]
fn fired_missile_gets_muzzle_boost_along_travel_direction() {
    // Ship velocity (3, 4) units/s has length 5; the muzzle boost adds
    // 45 * (0.6, 0.8), so the missile launches at exactly (30, 40).
    // The fire tick queues the intent; the next tick spawns the missile
    // and the count rises by exactly one.
    let mut w = ship_world(3000, 4000, Some(2));
    let vp = wide_viewport();
    assert_eq!(w.missile_count(), 0);

    tick(&mut w, 10, 0, &vp, ThrustIntent::Hold, true);
    assert_eq!(w.missile_intents.len(), 1);
    assert_eq!(w.missile_intents[0].velocity.0, Vec2 { x: 30_000, y: 40_000 });
    assert_eq!(w.missile_intents[0].team.0, Some(2));
    assert_eq!(w.missile_count(), 0);

    tick(&mut w, 10, 10, &vp, ThrustIntent::Hold, false);
    assert_eq!(w.missile_count(), 1);
    assert_eq!(w.missile_intents.len(), 0);
    let missile = w.entities.iter().find(|e| e.kind == EntityKind::Missile).unwrap();
    assert_eq!(missile.team.0, Some(2));
    assert_eq!(missile.lifespan.unwrap().lifespan, 150_000_000);
}

#[test]
fn fire_with_ship_at_rest_is_a_no_op() {
    // A resting ship has no direction of travel: the fire request is
    // dropped rather than producing an undefined launch direction.
    let mut w = ship_world(0, 0, None);
    let vp = wide_viewport();
    tick(&mut w, 10, 0, &vp, ThrustIntent::Hold, true);
    assert_eq!(w.missile_intents.len(), 0);
    tick(&mut w, 10, 10, &vp, ThrustIntent::Hold, false);
    assert_eq!(w.missile_count(), 0);
}

#[test]
fn fire_with_no_ship_is_a_no_op() {
    let mut w = World::new();
    w.spawn_star(StarBundle { mass: Mass(1_000_000), ..Default::default() });
    let vp = wide_viewport();
    tick(&mut w, 10, 0, &vp, ThrustIntent::Hold, true);
    assert_eq!(w.missile_intents.len(), 0);
    assert_eq!(w.entities.len(), 1);
}

#[test]
fn thrust_intent_sets_engine_and_scales_speed() {
    // Up sets +1.0, down sets -1.0, neither sets 0; the propulsion pass
    // then scales the velocity by the setting over the tick.
    let mut w = ship_world(10_000, 0, None);
    let vp = wide_viewport();
    tick(&mut w, 100, 0, &vp, ThrustIntent::Increase, false);
    assert_eq!(w.entities[0].engine.unwrap().current_accel, 1000);
    assert_eq!(w.entities[0].velocity.x, 11_000);

    tick(&mut w, 100, 100, &vp, ThrustIntent::Decrease, false);
    assert_eq!(w.entities[0].engine.unwrap().current_accel, -1000);
    assert_eq!(w.entities[0].velocity.x, 11_000 - 1100);

    tick(&mut w, 100, 200, &vp, ThrustIntent::Hold, false);
    assert_eq!(w.entities[0].engine.unwrap().current_accel, 0);
    assert_eq!(w.entities[0].velocity.x, 9900);
}

#[test]
fn spawned_bodies_carry_their_bundles() {
    let mut w = World::new();
    w.spawn_star(
        StarBundle {
            position: Position(Vec2 { x: 0, y: 0 }),
            mass: Mass(3_000_000_000_000_000),
            ..Default::default()
        },
    );
    w.spawn_planet(
        PlanetBundle {
            position: Position(Vec2 { x: 500_000, y: 0 }),
            velocity: Velocity(Vec2 { x: 0, y: 60_000 }),
            mass: Mass(1_000_000_000_000_000),
            size: Size(500),
            ..Default::default()
        },
    );
    assert_eq!(w.entities.len(), 2);
    assert_eq!(w.entities[0].kind, EntityKind::Star);
    assert_eq!(w.entities[0].mass, 3_000_000_000_000_000);
    assert_eq!(w.entities[1].kind, EntityKind::Planet);
    assert_eq!(w.entities[1].velocity, Vec2 { x: 0, y: 60_000 });
    assert_eq!(w.entities[1].size, 500);
    assert_eq!(w.missile_count(), 0);
}
