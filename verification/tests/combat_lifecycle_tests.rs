use tactician::components::{Lifespan, Team};
use tactician::gateway::ThrustIntent;
use tactician::lifecycle::Viewport;
use tactician::math::Vec2;
use tactician::tick::tick;
use tactician::world::{Entity, EntityKind, World};

fn plain(kind: EntityKind, px: i64, py: i64, size: i64) -> Entity {
    Entity {
        kind,
        position: Vec2 { x: px, y: py },
        velocity: Vec2 { x: 0, y: 0 },
        mass: 1,
        size,
        engine: None,
        team: Team(None),
        lifespan: None,
    }
}

fn world_of(entities: Vec<Entity>) -> World {
    World { entities, missile_intents: Vec::new(), explosion_intents: Vec::new() }
}

fn wide_viewport() -> Viewport {
    Viewport {
        center: Vec2 { x: 0, y: 0 },
        half_width: 100_000_000_000,
        half_height: 100_000_000_000,
    }
}

fn live_missile(px: i64, py: i64, team: Option<u32>) -> Entity {
    Entity {
        kind: EntityKind::Missile,
        position: Vec2 { x: px, y: py },
        velocity: Vec2 { x: 0, y: 0 },
        mass: 1,
        size: 170,
        engine: None,
        team: Team(team),
        lifespan: Some(Lifespan { created_on: 0, lifespan: 150_000_000 }),
    }
}

fn count_kind(w: &World, kind: EntityKind) -> usize {
    w.entities.iter().filter(|e| e.kind == kind).count()
}

#[test]
fn missile_at_exact_radius_does_not_detonate() {
    // A planet of size 1.0 has collision radius 25 units; a missile
    // exactly 25 units from its center survives (strict inequality),
    // one a thousandth of a unit closer detonates.
    let planet = plain(EntityKind::Planet, 0, 0, 1000);
    let missile = live_missile(25_000, 0, None);
    let mut w = world_of(vec![planet, missile]);
    let vp = wide_viewport();
    tick(&mut w, 0, 0, &vp, ThrustIntent::Hold, false);
    assert_eq!(count_kind(&w, EntityKind::Missile), 1);
    assert_eq!(w.explosion_intents.len(), 0);

    let planet = plain(EntityKind::Planet, 0, 0, 1000);
    let missile = live_missile(24_999, 0, None);
    let mut w = world_of(vec![planet, missile]);
    tick(&mut w, 0, 0, &vp, ThrustIntent::Hold, false);
    assert_eq!(count_kind(&w, EntityKind::Missile), 0);
    assert_eq!(w.explosion_intents.len(), 1);
}

#[test]
fn missile_striking_planet_leaves_one_explosion_at_its_position() {
    // The missile enters the planet's radius: within that tick it is
    // destroyed and exactly one explosion is queued at the missile's
    // pre-destruction position; the gateway spawns the explosion entity
    // on the following tick.
    let planet = plain(EntityKind::Planet, 0, 0, 1000);
    let missile = live_missile(20_000, 4_000, None);
    let mut w = world_of(vec![planet, missile]);
    let vp = wide_viewport();
    let destroyed = tick(&mut w, 0, 0, &vp, ThrustIntent::Hold, false);
    assert_eq!(count_kind(&w, EntityKind::Missile), 0);
    assert_eq!(destroyed.len(), 1);
    assert_eq!(destroyed[0].kind, EntityKind::Missile);
    assert_eq!(destroyed[0].position, Vec2 { x: 20_000, y: 4_000 });
    assert_eq!(w.explosion_intents.len(), 1);
    assert_eq!(w.explosion_intents[0].position.0, Vec2 { x: 20_000, y: 4_000 });

    tick(&mut w, 0, 10, &vp, ThrustIntent::Hold, false);
    assert_eq!(count_kind(&w, EntityKind::Explosion), 1);
    assert_eq!(w.explosion_intents.len(), 0);
    let explosion = w.entities.iter().find(|e| matches!(e.kind, EntityKind::Explosion)).unwrap();
    assert_eq!(explosion.position, Vec2 { x: 20_000, y: 4_000 });
}

#[test]
fn same_team_missile_never_kills_ship() {
    // Same team, distance zero: no destruction, no explosion.
    let mut ship = plain(EntityKind::Ship, 0, 0, 1000);
    ship.team = Team(Some(3));
    let missile = live_missile(0, 0, Some(3));
    let mut w = world_of(vec![ship, missile]);
    let vp = wide_viewport();
    tick(&mut w, 0, 0, &vp, ThrustIntent::Hold, false);
    assert_eq!(count_kind(&w, EntityKind::Ship), 1);
    assert_eq!(count_kind(&w, EntityKind::Missile), 1);
    assert_eq!(w.explosion_intents.len(), 0);
}

#[test]
fn hostile_missile_kills_ship_inside_radius() {
    // Differing teams (neutral counts as hostile to a numbered team):
    // both ship and missile are destroyed and one explosion is queued at
    // the ship's position.
    let mut ship = plain(EntityKind::Ship, 1000, 0, 1000);
    ship.team = Team(Some(3));
    let missile = live_missile(0, 0, None);
    let mut w = world_of(vec![ship, missile]);
    let vp = wide_viewport();
    let destroyed = tick(&mut w, 0, 0, &vp, ThrustIntent::Hold, false);
    assert_eq!(count_kind(&w, EntityKind::Ship), 0);
    assert_eq!(count_kind(&w, EntityKind::Missile), 0);
    assert_eq!(destroyed.len(), 2);
    assert_eq!(destroyed[0].kind, EntityKind::Ship);
    assert_eq!(destroyed[1].kind, EntityKind::Missile);
    assert_eq!(w.explosion_intents.len(), 1);
    assert_eq!(w.explosion_intents[0].position.0, Vec2 { x: 1000, y: 0 });
}

#[test]
fn lifespan_expiry_is_frame_rate_independent() {
    // Identical created_at and ttl: ten ticks of dt = 0.1 s and one tick
    // of dt = 1.0 s give the same destroy outcome at t = 1.0 s.
    let vp = wide_viewport();

    // ttl of 0.5 s: both pacings destroy the missile by t = 1.0 s.
    let mut fine = world_of(vec![live_short_missile(500)]);
    for i in 1..=10i64 {
        tick(&mut fine, 100, i * 100, &vp, ThrustIntent::Hold, false);
    }
    let mut coarse = world_of(vec![live_short_missile(500)]);
    tick(&mut coarse, 1000, 1000, &vp, ThrustIntent::Hold, false);
    assert_eq!(fine.entities.len(), 0);
    assert_eq!(coarse.entities.len(), 0);

    // ttl of exactly 1.0 s: `created_at + ttl` is never exceeded by
    // t = 1.0 s, so neither pacing destroys it.
    let mut fine = world_of(vec![live_short_missile(1000)]);
    for i in 1..=10i64 {
        tick(&mut fine, 100, i * 100, &vp, ThrustIntent::Hold, false);
    }
    let mut coarse = world_of(vec![live_short_missile(1000)]);
    tick(&mut coarse, 1000, 1000, &vp, ThrustIntent::Hold, false);
    assert_eq!(fine.entities.len(), 1);
    assert_eq!(coarse.entities.len(), 1);
}

fn live_short_missile(ttl: i64) -> Entity {
    Entity {
        kind: EntityKind::Missile,
        position: Vec2 { x: 0, y: 0 },
        velocity: Vec2 { x: 0, y: 0 },
        mass: 1,
        size: 170,
        engine: None,
        team: Team(None),
        lifespan: Some(Lifespan { created_on: 0, lifespan: ttl }),
    }
}

#[test]
fn out_of_bounds_missile_is_despawned() {
    // A missile outside the viewport on one axis is removed; a ship at
    // the same spot is not (only missiles are bounds-checked).
    let vp = Viewport { center: Vec2 { x: 0, y: 0 }, half_width: 40_000, half_height: 40_000 };
    let missile = live_missile(50_000, 0, None);
    let ship = plain(EntityKind::Ship, 50_000, 20_000, 300);
    let mut w = world_of(vec![missile, ship]);
    tick(&mut w, 0, 0, &vp, ThrustIntent::Hold, false);
    assert_eq!(count_kind(&w, EntityKind::Missile), 0);
    assert_eq!(count_kind(&w, EntityKind::Ship), 1);

    // exactly on the boundary counts as outside
    let missile = live_missile(40_000, 0, None);
    let mut w = world_of(vec![missile]);
    tick(&mut w, 0, 0, &vp, ThrustIntent::Hold, false);
    assert_eq!(count_kind(&w, EntityKind::Missile), 0);

    // strictly inside survives
    let missile = live_missile(39_999, -39_999, None);
    let mut w = world_of(vec![missile]);
    tick(&mut w, 0, 0, &vp, ThrustIntent::Hold, false);
    assert_eq!(count_kind(&w, EntityKind::Missile), 1);
}
