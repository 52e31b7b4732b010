use tactician::lifecycle::Viewport;
use tactician::math::Vec2;
use tactician::components::Team;
use tactician::gateway::ThrustIntent;
use tactician::physics::{
    apply_engine_acceleration, apply_gravity_among_planets, apply_gravity_from_planets_to_ships,
    move_objects,
};
use tactician::tick::tick;
use tactician::world::{Entity, EntityKind, World};
use tactician::components::EnginePhysics;

fn body(kind: EntityKind, px: i64, py: i64, vx: i64, vy: i64, mass: i64) -> Entity {
    Entity {
        kind,
        position: Vec2 { x: px, y: py },
        velocity: Vec2 { x: vx, y: vy },
        mass,
        size: 1000,
        engine: None,
        team: Team(None),
        lifespan: None,
    }
}

fn world_of(entities: Vec<Entity>) -> World {
    World { entities, missile_intents: Vec::new(), explosion_intents: Vec::new() }
}

fn wide_viewport() -> Viewport {
    Viewport {
        center: Vec2 { x: 0, y: 0 },
        half_width: 100_000_000_000,
        half_height: 100_000_000_000,
    }
}

#[test]
fn integrator_moves_by_velocity_times_dt() {
    let mut w = world_of(vec![body(EntityKind::Ship, 1000, 2000, 3000, -4000, 1)]);
    move_objects(&mut w, 500);
    assert_eq!(w.entities[0].position.x, 1000 + 3000 * 500 / 1000);
    assert_eq!(w.entities[0].position.y, 2000 - 4000 * 500 / 1000);
    assert_eq!(w.entities[0].position.x, 2500);
    assert_eq!(w.entities[0].position.y, 0);
    assert_eq!(w.entities[0].velocity.x, 3000);
    assert_eq!(w.entities[0].velocity.y, -4000);
}

#[test]
fn gravity_pulls_ship_towards_star_exactly() {
    // A star of 3e15 kg at the origin pulls a ship 500 units away with
    // 7.2 units/s^2: after one second the ship has velocity -7.2 units/s
    // and has moved by exactly that velocity.
    let star = body(EntityKind::Star, 0, 0, 0, 0, 3_000_000_000_000_000);
    let ship = body(EntityKind::Ship, 500_000, 0, 0, 0, 1);
    let mut w = world_of(vec![star, ship]);
    apply_gravity_from_planets_to_ships(&mut w, 1000);
    assert_eq!(w.entities[1].velocity.x, -7200);
    assert_eq!(w.entities[1].velocity.y, 0);
    move_objects(&mut w, 1000);
    assert_eq!(w.entities[1].position.x, 500_000 - 7200);
    // the star itself never moves
    assert_eq!(w.entities[0].position.x, 0);
    assert_eq!(w.entities[0].velocity.x, 0);
}

#[test]
fn coincident_sources_are_skipped_not_divided() {
    // Two planets at the same point: the pair is at zero distance, so it
    // is skipped rather than divided by zero, and nothing changes.
    let a = body(EntityKind::Planet, 700, 800, 0, 0, 1_000_000);
    let b = body(EntityKind::Planet, 700, 800, 0, 0, 1_000_000);
    let mut w = world_of(vec![a, b]);
    apply_gravity_among_planets(&mut w, 1000);
    move_objects(&mut w, 1000);
    assert_eq!(w.entities[0].position.x, 700);
    assert_eq!(w.entities[1].position.x, 700);
    assert_eq!(w.entities[0].velocity.y, 0);
}

#[test]
fn symmetric_planet_pair_stays_symmetric() {
    // Equal masses at mirrored positions with zero velocity: after many
    // ticks the positions remain exact mirror images, and the pair has
    // actually moved (attraction is nonzero).
    let a = body(EntityKind::Planet, 300_000, 50_000, 0, 0, 1_000_000_000_000_000);
    let b = body(EntityKind::Planet, -300_000, -50_000, 0, 0, 1_000_000_000_000_000);
    let mut w = world_of(vec![a, b]);
    let vp = wide_viewport();
    for i in 0..50 {
        tick(&mut w, 100, (i as i64) * 100, &vp, ThrustIntent::Hold, false);
        assert_eq!(w.entities[0].position.x + w.entities[1].position.x, 0);
        assert_eq!(w.entities[0].position.y + w.entities[1].position.y, 0);
        assert_eq!(w.entities[0].velocity.x + w.entities[1].velocity.x, 0);
        assert_eq!(w.entities[0].velocity.y + w.entities[1].velocity.y, 0);
    }
    assert!(w.entities[0].position.x < 300_000);
    assert!(w.entities[1].position.x > -300_000);
}

#[test]
fn circular_orbit_returns_after_one_period() {
    // A star of 3e15 kg at the origin and a planet 500 units out with
    // the circular-orbit speed of 60 units/s: after one full simulated
    // period the planet is back within a fraction of a unit of its
    // starting point.
    let star = body(EntityKind::Star, 0, 0, 0, 0, 3_000_000_000_000_000);
    let planet = body(EntityKind::Planet, 500_000, 0, 0, 60_000, 1_000);
    let mut w = world_of(vec![star, planet]);
    let vp = wide_viewport();

    tick(&mut w, 10, 0, &vp, ThrustIntent::Hold, false);
    // first tick, exactly: velocity gains 7.2 units/s^2 * 10 ms inward,
    // position advances by 60 units/s * 10 ms along the tangent
    assert_eq!(w.entities[1].velocity.x, -72);
    assert_eq!(w.entities[1].velocity.y, 60_000);
    assert_eq!(w.entities[1].position.y, 600);

    for i in 1..5359i64 {
        tick(&mut w, 10, i * 10, &vp, ThrustIntent::Hold, false);
    }
    let px = w.entities[1].position.x;
    let py = w.entities[1].position.y;
    assert!((px - 500_000).abs() <= 1000, "planet x after one period: {px}");
    assert!(py.abs() <= 1000, "planet y after one period: {py}");
}

#[test]
fn engine_scales_velocity_by_current_accel() {
    // Thrust multiplies the setting against the velocity itself:
    // +1.0 for 100 ms grows each axis by a tenth.
    let mut e = body(EntityKind::Ship, 0, 0, 10_000, -2000, 1);
    e.engine = Some(EnginePhysics { max_accel: 3000, current_accel: 1000 });
    let mut w = world_of(vec![e]);
    apply_engine_acceleration(&mut w, 100);
    assert_eq!(w.entities[0].velocity.x, 11_000);
    assert_eq!(w.entities[0].velocity.y, -2200);
}
