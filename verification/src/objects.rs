//! A self-contained force-based simulator over the same fixed-point
//! scalars: celestial objects pull with `G * m1 * m2 / d^2` and ships
//! thrust along their own travel direction, forces are summed per body
//! from a consistent snapshot, and each body is integrated with a
//! half-step velocity correction.
//!
//! Masses here are bounded tighter than in the main body store, because
//! a pairwise force carries the product of two masses through the
//! fixed-point formula.

use vstd::prelude::*;
use crate::math::{
    bound, bound_spec, clamp_i128, clamp_int, cube, div_i128, div_towards_zero, isqrt_u128,
    lemma_div_towards_zero_le, lemma_mul_bounds, lemma_square_nonneg, sqrt_floor, Vec2,
    MAX_COORD, MAX_DT, MAX_ENGINE_ACCEL, MAX_VEL, SCALE,
};
use crate::physics::{pos_after_vel, G_NUM, GRAV_MILLI_DEN};

verus! {

/// Largest mass of a body in this simulator, in kilograms.
pub const MAX_SIM_MASS: i64 = 1_000_000_000;

/// Largest number of attracting bodies (sun included).
pub const MAX_SIM_BODIES: usize = 64;

/// The physical state of one simulated body.
#[derive(Debug, Clone, Copy)]
pub struct PhysicsDetails {
    pub pos: Vec2,
    pub mass: i64,
    pub velocity: Vec2,
}

impl PhysicsDetails {
    /// A body of the given mass, at rest at the origin.
    pub fn new(mass: i64) -> (r: PhysicsDetails)
        ensures
            r == (PhysicsDetails {
                pos: Vec2 { x: 0i64, y: 0i64 },
                mass,
                velocity: Vec2 { x: 0i64, y: 0i64 },
            }),
    {
        PhysicsDetails { pos: Vec2 { x: 0, y: 0 }, mass, velocity: Vec2 { x: 0, y: 0 } }
    }
}

/// A body's scalars lie inside this simulator's limits.
pub open spec fn wf_phys(p: PhysicsDetails) -> bool {
    &&& -MAX_COORD <= p.pos.x <= MAX_COORD
    &&& -MAX_COORD <= p.pos.y <= MAX_COORD
    &&& -MAX_VEL <= p.velocity.x <= MAX_VEL
    &&& -MAX_VEL <= p.velocity.y <= MAX_VEL
    &&& 0 < p.mass <= MAX_SIM_MASS
}

/// The largest magnitude a single force component can reach inside the
/// limits.
pub open spec fn sim_force_bound() -> int {
    (G_NUM as int) * (MAX_SIM_MASS as int) * (MAX_SIM_MASS as int) * (2 * (MAX_COORD as int))
}

/// The largest magnitude a summed force component can reach.
pub open spec fn sim_force_sum_bound() -> int {
    (MAX_SIM_BODIES as int) * sim_force_bound()
}

/// The numeric values of the two force bounds.
pub proof fn lemma_sim_bound_values()
    ensures
        sim_force_bound() == 1_200_000_000_000_000_000_000_000_000_000int,
        sim_force_sum_bound() == 76_800_000_000_000_000_000_000_000_000_000int,
{
    assert(6int * 1_000_000_000int == 6_000_000_000int);
    assert(6_000_000_000int * 1_000_000_000int == 6_000_000_000_000_000_000int);
    assert(6_000_000_000_000_000_000int * 200_000_000_000int
        == 1_200_000_000_000_000_000_000_000_000_000int);
    assert(64int * 1_200_000_000_000_000_000_000_000_000_000int
        == 76_800_000_000_000_000_000_000_000_000_000int);
}

/// A source of force on simulated bodies.
pub trait ForceSource {
    /// The inputs for which this source's force is specified.
    spec fn wf(&self) -> bool;

    /// The force this source exerts on a body in the given state, per
    /// axis, in milli-newtons.
    spec fn force_on(&self, details: PhysicsDetails) -> (int, int);

    /// Computes the force applied to an object in the given physical
    /// state.
    fn calculate_force_applied_to_object(&self, details: &PhysicsDetails) -> (r: (i128, i128))
        requires
            self.wf(),
            wf_phys(*details),
        ensures
            r.0 as int == self.force_on(*details).0,
            r.1 as int == self.force_on(*details).1,
            -sim_force_bound() <= r.0 as int <= sim_force_bound(),
            -sim_force_bound() <= r.1 as int <= sim_force_bound(),
    ;
}

/// A projectile of this simulator: physical state, detonation radius
/// and a time-to-live.
#[derive(Debug, Clone, Copy)]
pub struct Missile {
    pub phys: PhysicsDetails,
    pub det_radius: i64,
    pub lifetime: i64,
    pub created_on: i64,
}

/// A self-propelled vessel: its thrust force points along its own
/// direction of travel, scaled by the bounded acceleration setting.
#[derive(Debug, Clone, Copy)]
pub struct Ship {
    pub phys: PhysicsDetails,
    pub max_accel: i64,
    pub current_accel: i64,
}

/// A star or planet: a body whose mass pulls every other body.
#[derive(Debug, Clone, Copy)]
pub struct CelestialObject {
    pub phys: PhysicsDetails,
    pub radius: i64,
}

/// One axis of the gravitational force between masses `m_src` and
/// `m_obj` across the separation `delta` (this axis) with squared
/// distance `d2`; a pair at zero distance is skipped rather than divided
/// by zero.
pub open spec fn grav_force_axis(delta: int, d2: int, m_src: int, m_obj: int) -> int {
    if d2 == 0 {
        0
    } else {
        div_towards_zero(
            G_NUM * m_src * m_obj * delta,
            GRAV_MILLI_DEN * cube(sqrt_floor(d2)),
        )
    }
}

impl ForceSource for CelestialObject {
    open spec fn wf(&self) -> bool {
        wf_phys(self.phys)
    }

    /// The pairwise Newtonian pull towards this body.
    open spec fn force_on(&self, details: PhysicsDetails) -> (int, int) {
        let dx = self.phys.pos.x - details.pos.x;
        let dy = self.phys.pos.y - details.pos.y;
        let d2 = dx * dx + dy * dy;
        (
            grav_force_axis(dx, d2, self.phys.mass as int, details.mass as int),
            grav_force_axis(dy, d2, self.phys.mass as int, details.mass as int),
        )
    }

    fn calculate_force_applied_to_object(&self, details: &PhysicsDetails) -> (r: (i128, i128)) {
        let dx: i64 = self.phys.pos.x - details.pos.x;
        let dy: i64 = self.phys.pos.y - details.pos.y;
        proof {
            lemma_mul_bounds(dx as int, 200_000_000_000, dx as int, 200_000_000_000);
            lemma_mul_bounds(dy as int, 200_000_000_000, dy as int, 200_000_000_000);
            lemma_square_nonneg(dx as int);
            lemma_square_nonneg(dy as int);
        }
        let d2: i128 = (dx as i128) * (dx as i128) + (dy as i128) * (dy as i128);
        if d2 == 0 {
            proof {
                lemma_sim_bound_values();
            }
            (0, 0)
        } else {
            let d_u: u128 = isqrt_u128(d2 as u128);
            proof {
                assert(1 <= d_u as int && d_u as int <= 300_000_000_000) by (nonlinear_arith)
                    requires
                        0 <= d_u as int,
                        (d_u as int) * (d_u as int) <= d2 as int,
                        (d2 as int) < ((d_u as int) + 1) * ((d_u as int) + 1),
                        1 <= d2 as int,
                        d2 as int <= 80_000_000_000_000_000_000_000,
                ;
                lemma_mul_bounds(d_u as int, 300_000_000_000, d_u as int, 300_000_000_000);
                lemma_mul_bounds(
                    (d_u as int) * (d_u as int),
                    90_000_000_000_000_000_000_000,
                    d_u as int,
                    300_000_000_000,
                );
                assert(1 <= (d_u as int) * (d_u as int) * (d_u as int)) by (nonlinear_arith)
                    requires
                        1 <= d_u as int,
                ;
            }
            let d: i128 = d_u as i128;
            let d3: i128 = d * d * d;
            proof {
                lemma_mul_bounds(
                    GRAV_MILLI_DEN as int,
                    10,
                    d3 as int,
                    27_000_000_000_000_000_000_000_000_000_000_000,
                );
                assert((GRAV_MILLI_DEN as int) * (d3 as int) >= 10) by (nonlinear_arith)
                    requires
                        GRAV_MILLI_DEN as int == 10,
                        1 <= d3 as int,
                ;
            }
            let den: i128 = (GRAV_MILLI_DEN as i128) * d3;
            proof {
                lemma_mul_bounds(G_NUM as int, 6, self.phys.mass as int, 1_000_000_000);
                lemma_mul_bounds(
                    (G_NUM as int) * (self.phys.mass as int),
                    6_000_000_000,
                    details.mass as int,
                    1_000_000_000,
                );
                lemma_mul_bounds(
                    (G_NUM as int) * (self.phys.mass as int) * (details.mass as int),
                    6_000_000_000_000_000_000,
                    dx as int,
                    200_000_000_000,
                );
                lemma_mul_bounds(
                    (G_NUM as int) * (self.phys.mass as int) * (details.mass as int),
                    6_000_000_000_000_000_000,
                    dy as int,
                    200_000_000_000,
                );
            }
            let num_x: i128 = (G_NUM as i128) * (self.phys.mass as i128) * (details.mass as i128)
                * (dx as i128);
            let num_y: i128 = (G_NUM as i128) * (self.phys.mass as i128) * (details.mass as i128)
                * (dy as i128);
            let fx: i128 = div_i128(num_x, den);
            let fy: i128 = div_i128(num_y, den);
            proof {
                lemma_div_towards_zero_le(num_x as int, den as int);
                lemma_div_towards_zero_le(num_y as int, den as int);
                lemma_sim_bound_values();
                assert(cube(sqrt_floor(d2 as int)) == d3);
            }
            (fx, fy)
        }
    }
}

impl ForceSource for Ship {
    open spec fn wf(&self) -> bool {
        &&& wf_phys(self.phys)
        &&& 0 <= self.max_accel <= MAX_ENGINE_ACCEL
        &&& -MAX_ENGINE_ACCEL <= self.current_accel <= MAX_ENGINE_ACCEL
    }

    /// The self-thrust force: the acceleration setting, bounded by the
    /// engine's maximum, along the ship's own unit direction of travel,
    /// times its mass. A ship at rest has no direction of travel and
    /// exerts no thrust, a deliberate guard in place of the undefined
    /// normalization.
    open spec fn force_on(&self, details: PhysicsDetails) -> (int, int) {
        let v = self.phys.velocity;
        if v == (Vec2 { x: 0i64, y: 0i64 }) {
            (0int, 0int)
        } else {
            let a = bound_spec(-self.max_accel as int, self.current_accel as int, self.max_accel as int);
            let m = sqrt_floor(v.x * v.x + v.y * v.y);
            (
                div_towards_zero((self.phys.mass as int) * a * v.x, m),
                div_towards_zero((self.phys.mass as int) * a * v.y, m),
            )
        }
    }

    fn calculate_force_applied_to_object(&self, details: &PhysicsDetails) -> (r: (i128, i128)) {
        let v: Vec2 = self.phys.velocity;
        if v.x == 0 && v.y == 0 {
            proof {
                lemma_sim_bound_values();
            }
            (0, 0)
        } else {
            let a: i64 = bound(-self.max_accel, self.current_accel, self.max_accel);
            proof {
                lemma_mul_bounds(v.x as int, 1_000_000_000, v.x as int, 1_000_000_000);
                lemma_mul_bounds(v.y as int, 1_000_000_000, v.y as int, 1_000_000_000);
                lemma_square_nonneg(v.x as int);
                lemma_square_nonneg(v.y as int);
                assert(v.x != 0 ==> (v.x as int) * (v.x as int) >= 1) by (nonlinear_arith);
                assert(v.y != 0 ==> (v.y as int) * (v.y as int) >= 1) by (nonlinear_arith);
            }
            let s2: i128 = (v.x as i128) * (v.x as i128) + (v.y as i128) * (v.y as i128);
            let m_u: u128 = isqrt_u128(s2 as u128);
            proof {
                assert(1 <= m_u as int && m_u as int <= 2_000_000_000) by (nonlinear_arith)
                    requires
                        0 <= m_u as int,
                        (m_u as int) * (m_u as int) <= s2 as int,
                        (s2 as int) < ((m_u as int) + 1) * ((m_u as int) + 1),
                        1 <= s2 as int,
                        s2 as int <= 2_000_000_000_000_000_000,
                ;
                lemma_mul_bounds(self.phys.mass as int, 1_000_000_000, a as int, 1_000_000);
                lemma_mul_bounds(
                    (self.phys.mass as int) * (a as int),
                    1_000_000_000_000_000,
                    v.x as int,
                    1_000_000_000,
                );
                lemma_mul_bounds(
                    (self.phys.mass as int) * (a as int),
                    1_000_000_000_000_000,
                    v.y as int,
                    1_000_000_000,
                );
            }
            let m_i: i128 = m_u as i128;
            let fx: i128 = div_i128((self.phys.mass as i128) * (a as i128) * (v.x as i128), m_i);
            let fy: i128 = div_i128((self.phys.mass as i128) * (a as i128) * (v.y as i128), m_i);
            proof {
                lemma_div_towards_zero_le(
                    ((self.phys.mass as i128) * (a as i128) * (v.x as i128)) as int,
                    m_i as int,
                );
                lemma_div_towards_zero_le(
                    ((self.phys.mass as i128) * (a as i128) * (v.y as i128)) as int,
                    m_i as int,
                );
                lemma_sim_bound_values();
            }
            (fx, fy)
        }
    }
}

/// The whole simulated scene: one fixed sun, the planets, the ships.
pub struct Simulator {
    pub sun: CelestialObject,
    pub planets: Vec<CelestialObject>,
    pub ships: Vec<Ship>,
}

/// Every body lies inside the simulator limits, and there are few enough
/// attracting bodies for the force sums to stay exact.
pub open spec fn wf_simulator(s: Simulator) -> bool {
    &&& s.sun.wf()
    &&& s.planets@.len() < MAX_SIM_BODIES
    &&& forall|i: int| 0 <= i < s.planets@.len() ==> (#[trigger] s.planets@[i]).wf()
    &&& forall|i: int| 0 <= i < s.ships@.len() ==> (#[trigger] s.ships@[i]).wf()
}

/// The summed force the first `n` planets exert on a body, skipping the
/// planet at `excl` (a body never attracts itself).
pub open spec fn planets_force_to(
    planets: Seq<CelestialObject>,
    ph: PhysicsDetails,
    excl: int,
    n: int,
) -> (int, int)
    decreases n,
{
    if n <= 0 {
        (0int, 0int)
    } else {
        let rest = planets_force_to(planets, ph, excl, n - 1);
        if n - 1 == excl {
            rest
        } else {
            let f = planets[n - 1].force_on(ph);
            (rest.0 + f.0, rest.1 + f.1)
        }
    }
}

/// The aggregate force on a body: every planet but `excl`, plus the sun,
/// all at once from one snapshot.
pub open spec fn total_force(
    planets: Seq<CelestialObject>,
    sun: CelestialObject,
    ph: PhysicsDetails,
    excl: int,
) -> (int, int) {
    let p = planets_force_to(planets, ph, excl, planets.len() as int);
    let fs = sun.force_on(ph);
    (p.0 + fs.0, p.1 + fs.1)
}

/// One velocity axis after the aggregate force acts for `dt`
/// milliseconds: the velocity change `F / m * dt` is halved, because the
/// change built up linearly over the interval rather than arriving at
/// once, and the result is pulled into the velocity limits.
pub open spec fn sim_vel_axis(v: int, f: int, mass: int, dt: int) -> int {
    clamp_int(
        v + div_towards_zero(div_towards_zero(f, mass) * dt, 2 * (SCALE as int)),
        -(MAX_VEL as int),
        MAX_VEL as int,
    )
}

/// A body integrated over one interval under the aggregate force:
/// velocity first, position from the updated velocity.
pub open spec fn sim_updated_phys(ph: PhysicsDetails, f: (int, int), dt: int) -> PhysicsDetails {
    let vx = sim_vel_axis(ph.velocity.x as int, f.0, ph.mass as int, dt);
    let vy = sim_vel_axis(ph.velocity.y as int, f.1, ph.mass as int, dt);
    PhysicsDetails {
        pos: Vec2 {
            x: pos_after_vel(ph.pos.x as int, vx, dt) as i64,
            y: pos_after_vel(ph.pos.y as int, vy, dt) as i64,
        },
        mass: ph.mass,
        velocity: Vec2 { x: vx as i64, y: vy as i64 },
    }
}

/// Every ship after one interval under the pull of all planets and the
/// sun (`excl` set past the planets: ships exclude nothing).
pub open spec fn spec_updated_ships(
    planets: Seq<CelestialObject>,
    sun: CelestialObject,
    ships: Seq<Ship>,
    dt: int,
) -> Seq<Ship> {
    Seq::new(
        ships.len(),
        |i: int|
            Ship {
                phys: sim_updated_phys(
                    ships[i].phys,
                    total_force(planets, sun, ships[i].phys, planets.len() as int),
                    dt,
                ),
                max_accel: ships[i].max_accel,
                current_accel: ships[i].current_accel,
            },
    )
}

/// Every planet after one interval under the pull of its fellow planets
/// and the sun, all forces taken from the pre-step snapshot.
pub open spec fn spec_updated_planets(
    planets: Seq<CelestialObject>,
    sun: CelestialObject,
    dt: int,
) -> Seq<CelestialObject> {
    Seq::new(
        planets.len(),
        |i: int|
            CelestialObject {
                phys: sim_updated_phys(
                    planets[i].phys,
                    total_force(planets, sun, planets[i].phys, i),
                    dt,
                ),
                radius: planets[i].radius,
            },
    )
}

/// The aggregate force on one body, summed over a read-only snapshot.
fn aggregate_force(
    planets: &Vec<CelestialObject>,
    sun: &CelestialObject,
    ph: &PhysicsDetails,
    excl: usize,
) -> (f: (i128, i128))
    requires
        planets@.len() < MAX_SIM_BODIES,
        forall|i: int| 0 <= i < planets@.len() ==> (#[trigger] planets@[i]).wf(),
        sun.wf(),
        wf_phys(*ph),
    ensures
        f.0 as int == total_force(planets@, *sun, *ph, excl as int).0,
        f.1 as int == total_force(planets@, *sun, *ph, excl as int).1,
        -sim_force_sum_bound() <= f.0 as int <= sim_force_sum_bound(),
        -sim_force_sum_bound() <= f.1 as int <= sim_force_sum_bound(),
{
    let n: usize = planets.len();
    let mut fx: i128 = 0;
    let mut fy: i128 = 0;
    let mut j: usize = 0;
    while j < n
        invariant
            n == planets@.len(),
            n < MAX_SIM_BODIES,
            j <= n,
            forall|i: int| 0 <= i < planets@.len() ==> (#[trigger] planets@[i]).wf(),
            wf_phys(*ph),
            fx as int == planets_force_to(planets@, *ph, excl as int, j as int).0,
            fy as int == planets_force_to(planets@, *ph, excl as int, j as int).1,
            -((j as int) * sim_force_bound()) <= fx as int <= (j as int) * sim_force_bound(),
            -((j as int) * sim_force_bound()) <= fy as int <= (j as int) * sim_force_bound(),
        decreases n - j,
    {
        proof {
            lemma_sim_bound_values();
        }
        if j != excl {
            let pl: CelestialObject = planets[j];
            let f = pl.calculate_force_applied_to_object(ph);
            fx = fx + f.0;
            fy = fy + f.1;
        }
        j = j + 1;
    }
    let fs = sun.calculate_force_applied_to_object(ph);
    proof {
        lemma_sim_bound_values();
    }
    (fx + fs.0, fy + fs.1)
}

/// One body integrated under its aggregate force.
fn sim_step_body(ph: &PhysicsDetails, f: (i128, i128), dt: i64) -> (r: PhysicsDetails)
    requires
        wf_phys(*ph),
        0 <= dt <= MAX_DT,
        -sim_force_sum_bound() <= f.0 as int <= sim_force_sum_bound(),
        -sim_force_sum_bound() <= f.1 as int <= sim_force_sum_bound(),
    ensures
        r == sim_updated_phys(*ph, (f.0 as int, f.1 as int), dt as int),
        wf_phys(r),
{
    proof {
        lemma_sim_bound_values();
        lemma_div_towards_zero_le(f.0 as int, ph.mass as int);
        lemma_div_towards_zero_le(f.1 as int, ph.mass as int);
    }
    let ax: i128 = div_i128(f.0, ph.mass as i128);
    let ay: i128 = div_i128(f.1, ph.mass as i128);
    proof {
        lemma_mul_bounds(
            ax as int,
            76_800_000_000_000_000_000_000_000_000_000,
            dt as int,
            1_000_000,
        );
        lemma_mul_bounds(
            ay as int,
            76_800_000_000_000_000_000_000_000_000_000,
            dt as int,
            1_000_000,
        );
    }
    let dvx: i128 = div_i128(ax * (dt as i128), 2 * (SCALE as i128));
    let dvy: i128 = div_i128(ay * (dt as i128), 2 * (SCALE as i128));
    proof {
        lemma_div_towards_zero_le((ax * (dt as i128)) as int, 2 * (SCALE as int));
        lemma_div_towards_zero_le((ay * (dt as i128)) as int, 2 * (SCALE as int));
    }
    let vx: i64 = clamp_i128((ph.velocity.x as i128) + dvx, -MAX_VEL, MAX_VEL);
    let vy: i64 = clamp_i128((ph.velocity.y as i128) + dvy, -MAX_VEL, MAX_VEL);
    proof {
        lemma_mul_bounds(vx as int, 1_000_000_000, dt as int, 1_000_000);
        lemma_mul_bounds(vy as int, 1_000_000_000, dt as int, 1_000_000);
    }
    let dpx: i128 = div_i128((vx as i128) * (dt as i128), SCALE as i128);
    let dpy: i128 = div_i128((vy as i128) * (dt as i128), SCALE as i128);
    proof {
        lemma_div_towards_zero_le(((vx as i128) * (dt as i128)) as int, SCALE as int);
        lemma_div_towards_zero_le(((vy as i128) * (dt as i128)) as int, SCALE as int);
    }
    let px: i64 = clamp_i128((ph.pos.x as i128) + dpx, -MAX_COORD, MAX_COORD);
    let py: i64 = clamp_i128((ph.pos.y as i128) + dpy, -MAX_COORD, MAX_COORD);
    PhysicsDetails { pos: Vec2 { x: px, y: py }, mass: ph.mass, velocity: Vec2 { x: vx, y: vy } }
}

impl Simulator {
    /// Advances the scene by `interval` milliseconds: first every ship,
    /// under the pull of every planet and the sun; then every planet,
    /// under the pull of its fellow planets and the sun. All planet
    /// forces are computed from the start-of-step snapshot into a scratch
    /// buffer before any planet is written, so no body ever sees a
    /// half-updated step. The sun is fixed.
    pub fn update(&mut self, interval: i64)
        requires
            wf_simulator(*old(self)),
            0 <= interval <= MAX_DT,
        ensures
            final(self).sun == old(self).sun,
            final(self).ships@ == spec_updated_ships(
                old(self).planets@,
                old(self).sun,
                old(self).ships@,
                interval as int,
            ),
            final(self).planets@ == spec_updated_planets(
                old(self).planets@,
                old(self).sun,
                interval as int,
            ),
            wf_simulator(*final(self)),
    {
        let ghost planets0 = self.planets@;
        let ghost ships0 = self.ships@;
        let ghost sun0 = self.sun;

        let nship: usize = self.ships.len();
        let mut new_ships: Vec<Ship> = Vec::new();
        let mut i: usize = 0;
        while i < nship
            invariant
                *self == *old(self),
                wf_simulator(*self),
                planets0 == self.planets@,
                ships0 == self.ships@,
                sun0 == self.sun,
                nship == ships0.len(),
                i <= nship,
                0 <= interval <= MAX_DT,
                new_ships@.len() == i as int,
                forall|k: int|
                    0 <= k < i as int ==> #[trigger] new_ships@[k] == spec_updated_ships(
                        planets0,
                        sun0,
                        ships0,
                        interval as int,
                    )[k],
                forall|k: int| 0 <= k < i as int ==> (#[trigger] new_ships@[k]).wf(),
            decreases nship - i,
        {
            let sh: Ship = self.ships[i];
            let np: usize = self.planets.len();
            let f = aggregate_force(&self.planets, &self.sun, &sh.phys, np);
            let nphys = sim_step_body(&sh.phys, f, interval);
            let ns = Ship { phys: nphys, max_accel: sh.max_accel, current_accel: sh.current_accel };
            new_ships.push(ns);
            proof {
                assert(ns == spec_updated_ships(planets0, sun0, ships0, interval as int)[i as int]);
            }
            i = i + 1;
        }
        self.ships = new_ships;
        proof {
            assert(self.ships@ =~= spec_updated_ships(planets0, sun0, ships0, interval as int));
        }

        let npl: usize = self.planets.len();
        let mut forces: Vec<(i128, i128)> = Vec::new();
        let mut i: usize = 0;
        while i < npl
            invariant
                planets0 == self.planets@,
                planets0 == old(self).planets@,
                sun0 == self.sun,
                sun0 == old(self).sun,
                wf_simulator(*old(self)),
                npl == planets0.len(),
                i <= npl,
                forces@.len() == i as int,
                forall|k: int|
                    0 <= k < i as int ==> (#[trigger] forces@[k]).0 as int == total_force(
                        planets0,
                        sun0,
                        planets0[k].phys,
                        k,
                    ).0 && forces@[k].1 as int == total_force(planets0, sun0, planets0[k].phys, k).1,
                forall|k: int|
                    0 <= k < i as int ==> -sim_force_sum_bound() <= (#[trigger] forces@[k]).0 as int
                        <= sim_force_sum_bound() && -sim_force_sum_bound() <= forces@[k].1 as int
                        <= sim_force_sum_bound(),
            decreases npl - i,
        {
            let pl: CelestialObject = self.planets[i];
            let f = aggregate_force(&self.planets, &self.sun, &pl.phys, i);
            forces.push(f);
            i = i + 1;
        }
        let mut new_planets: Vec<CelestialObject> = Vec::new();
        let mut i: usize = 0;
        while i < npl
            invariant
                planets0 == self.planets@,
                planets0 == old(self).planets@,
                sun0 == self.sun,
                sun0 == old(self).sun,
                wf_simulator(*old(self)),
                npl == planets0.len(),
                i <= npl,
                0 <= interval <= MAX_DT,
                forces@.len() == npl as int,
                forall|k: int|
                    0 <= k < npl as int ==> (#[trigger] forces@[k]).0 as int == total_force(
                        planets0,
                        sun0,
                        planets0[k].phys,
                        k,
                    ).0 && forces@[k].1 as int == total_force(planets0, sun0, planets0[k].phys, k).1,
                forall|k: int|
                    0 <= k < npl as int ==> -sim_force_sum_bound() <= (#[trigger] forces@[k]).0
                        as int <= sim_force_sum_bound() && -sim_force_sum_bound() <= forces@[k].1
                        as int <= sim_force_sum_bound(),
                new_planets@.len() == i as int,
                forall|k: int|
                    0 <= k < i as int ==> #[trigger] new_planets@[k] == spec_updated_planets(
                        planets0,
                        sun0,
                        interval as int,
                    )[k],
                forall|k: int| 0 <= k < i as int ==> (#[trigger] new_planets@[k]).wf(),
            decreases npl - i,
        {
            let pl: CelestialObject = self.planets[i];
            let f: (i128, i128) = forces[i];
            proof {
                assert(wf_phys(planets0[i as int].phys));
            }
            let nphys = sim_step_body(&pl.phys, f, interval);
            let np = CelestialObject { phys: nphys, radius: pl.radius };
            new_planets.push(np);
            proof {
                assert(np == spec_updated_planets(planets0, sun0, interval as int)[i as int]);
            }
            i = i + 1;
        }
        self.planets = new_planets;
        proof {
            assert(self.planets@ =~= spec_updated_planets(planets0, sun0, interval as int));
        }
    }
}

} // verus!
