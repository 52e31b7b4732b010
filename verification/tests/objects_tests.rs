use tactician::math::{bound, isqrt_u128, Vec2};
use tactician::objects::{CelestialObject, ForceSource, PhysicsDetails, Ship, Simulator};

#[test]
fn it_works() {
    assert_eq!(2 + 2, 4);
}

#[test]
fn planet_gravity() {
    let sun = CelestialObject {
        phys: PhysicsDetails::new(1000000), // sun weighs 1mil kilos
        radius: 20000,
    };

    let ship = Ship {
        phys: PhysicsDetails {
            pos: Vec2 { x: 0, y: 10000 },
            mass: 30,
            velocity: Vec2 { x: -5000, y: 0 },
        }, // ship weighs 30 kilos
        current_accel: 0,
        max_accel: 3000,
    };

    let simulator = Simulator { sun: sun, planets: vec![], ships: vec![ship] };
    let _ = simulator;
}

#[test]
fn simulator_update_pulls_ship_towards_sun() {
    // Sun of 1e9 kg at the origin, ship 100 units out at rest:
    // F = G * m1 * m2 / d^2 pulls the ship inward; with the half-step
    // correction the ship's velocity and position change by the exact
    // fixed-point amounts.
    let sun = CelestialObject { phys: PhysicsDetails::new(1_000_000_000), radius: 20_000 };
    let ship = Ship {
        phys: PhysicsDetails {
            pos: Vec2 { x: 100_000, y: 0 },
            mass: 1000,
            velocity: Vec2 { x: 0, y: 0 },
        },
        current_accel: 0,
        max_accel: 3000,
    };
    let mut sim = Simulator { sun, planets: vec![], ships: vec![ship] };
    sim.update(1000);
    // force: 6 * 1e9 * 1000 * (-100000) / (10 * 100000^3) = -60 milli-N
    // accel: -60 / 1000 mass = 0 (truncated towards zero) -- the pull is
    // below the fixed-point resolution for this ship, so nothing moves.
    assert_eq!(sim.ships[0].phys.velocity.x, 0);
    assert_eq!(sim.ships[0].phys.pos.x, 100_000);

    // A lighter ship at the same spot is measurably accelerated.
    let sun = CelestialObject { phys: PhysicsDetails::new(1_000_000_000), radius: 20_000 };
    let ship = Ship {
        phys: PhysicsDetails {
            pos: Vec2 { x: 10_000, y: 0 },
            mass: 1,
            velocity: Vec2 { x: 0, y: 0 },
        },
        current_accel: 0,
        max_accel: 3000,
    };
    let mut sim = Simulator { sun, planets: vec![], ships: vec![ship] };
    sim.update(1000);
    // force: 6 * 1e9 * 1 * (-10000) / (10 * 10000^3) = -6 milli-N;
    // accel -6 milli/s^2; dv = -6 * 1000 / 2000 = -3 (half-step);
    // the ship then drifts by -3 milli over the second.
    assert_eq!(sim.ships[0].phys.velocity.x, -3);
    assert_eq!(sim.ships[0].phys.pos.x, 10_000 - 3);
    // the sun stays fixed
    assert_eq!(sim.sun.phys.pos, Vec2 { x: 0, y: 0 });
}

#[test]
fn ship_thrust_force_points_along_travel() {
    // velocity (3, 4) units/s, |v| = 5 units: the thrust force is
    // mass * bounded accel along (0.6, 0.8), exactly in fixed point.
    let ship = Ship {
        phys: PhysicsDetails {
            pos: Vec2 { x: 0, y: 0 },
            mass: 10,
            velocity: Vec2 { x: 3000, y: 4000 },
        },
        current_accel: 2000,
        max_accel: 3000,
    };
    let target = PhysicsDetails::new(1);
    let f = ship.calculate_force_applied_to_object(&target);
    // 10 kg * 2.0 accel * (0.6, 0.8) = (12, 16) in milli-newtons:
    // trunc(10 * 2000 * 3000 / 5000) = 12000, trunc(10 * 2000 * 4000 / 5000) = 16000
    assert_eq!(f, (12_000, 16_000));

    // the acceleration setting is bounded by the engine's maximum
    let hot = Ship { current_accel: 9000, ..ship };
    let f = hot.calculate_force_applied_to_object(&target);
    assert_eq!(f, (18_000, 24_000));

    // a resting ship exerts no thrust
    let resting = Ship {
        phys: PhysicsDetails::new(10),
        current_accel: 2000,
        max_accel: 3000,
    };
    let f = resting.calculate_force_applied_to_object(&target);
    assert_eq!(f, (0, 0));
}

#[test]
fn bound_clamps_between_the_two_bounds() {
    assert_eq!(bound(-3, 10, 3), 3);
    assert_eq!(bound(-3, -10, 3), -3);
    assert_eq!(bound(-3, 2, 3), 2);
    // the lower bound wins where the bounds cross
    assert_eq!(bound(5, 10, 2), 5);
}

#[test]
fn integer_square_root_rounds_down() {
    assert_eq!(isqrt_u128(0), 0);
    assert_eq!(isqrt_u128(1), 1);
    assert_eq!(isqrt_u128(3), 1);
    assert_eq!(isqrt_u128(4), 2);
    assert_eq!(isqrt_u128(24), 4);
    assert_eq!(isqrt_u128(25), 5);
    assert_eq!(isqrt_u128(2_000_000_000_000_000_000), 1_414_213_562);
}
