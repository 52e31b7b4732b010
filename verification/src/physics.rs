//! The physics passes of a tick: the gravity solver, the propulsion
//! system and the integrator.
//!
//! Gravity follows the pairwise law `a = G * m_src / d^2` towards each
//! source, written per axis over milli-unit fixed-point values as
//! `a_axis = G_NUM * m * delta_axis / (GRAV_MILLI_DEN * d^3)`, with
//! `GRAV_MILLI_DEN = G_DEN / SCALE^3`. Pairs at zero distance are
//! skipped, a deliberate guard in place of the singular division. Each
//! pass is two-phase: a read-only pass computes accelerations from a
//! consistent snapshot, and a separate pass applies the buffered deltas,
//! so no body ever observes a partially updated tick.

use vstd::prelude::*;
use crate::math::{
    clamp_i128, clamp_int, cube, div_i128, div_towards_zero, isqrt_u128,
    lemma_div_towards_zero_le, lemma_mul_bounds, lemma_square_nonneg, sqrt_floor, Vec2,
    MAX_COORD, MAX_DT, MAX_ENTITIES, MAX_MASS, MAX_VEL, SCALE,
};
use crate::world::{
    is_gravity_source, is_gravity_target, wf_entity, wf_world, with_position, with_velocity,
    Entity, EntityKind, World,
};

verus! {

/// Gravitational constant numerator: `G = G_NUM / G_DEN`, about 6e-10,
/// tunable.
pub const G_NUM: i64 = 6;

/// Gravitational constant denominator.
pub const G_DEN: i64 = 10_000_000_000;

/// Denominator of the per-axis acceleration formula over milli-unit
/// values: `G_DEN / SCALE^3`, so that
/// `G_NUM * m * delta / (GRAV_MILLI_DEN * d^3)` is the milli-unit
/// acceleration along one axis.
pub const GRAV_MILLI_DEN: i64 = 10;

/// The squared distance between two points, in squared milli-units.
pub open spec fn dist2(a: Vec2, b: Vec2) -> int {
    (b.x - a.x) * (b.x - a.x) + (b.y - a.y) * (b.y - a.y)
}

/// One axis of the acceleration a source of mass `m` exerts across the
/// separation `delta` (this axis) with squared distance `d2`; a pair at
/// zero distance is skipped rather than divided by zero.
pub open spec fn pair_accel_axis(delta: int, d2: int, m: int) -> int {
    if d2 == 0 {
        0
    } else {
        div_towards_zero(G_NUM * m * delta, GRAV_MILLI_DEN * cube(sqrt_floor(d2)))
    }
}

/// The x-axis acceleration `src` exerts on `target`, in milli-units per
/// second squared.
pub open spec fn pair_accel_x(target: Entity, src: Entity) -> int {
    pair_accel_axis(
        src.position.x - target.position.x,
        dist2(target.position, src.position),
        src.mass as int,
    )
}

/// The y-axis acceleration `src` exerts on `target`.
pub open spec fn pair_accel_y(target: Entity, src: Entity) -> int {
    pair_accel_axis(
        src.position.y - target.position.y,
        dist2(target.position, src.position),
        src.mass as int,
    )
}

/// Whether entity `j` contributes gravity to entity `i`: a body never
/// attracts itself, and only gravity sources attract at all.
pub open spec fn is_source_for(s: Seq<Entity>, i: int, j: int) -> bool {
    j != i && is_gravity_source(s[j].kind)
}

/// The x-axis sum of the accelerations the first `n` entities exert on
/// entity `i`.
pub open spec fn grav_sum_x_to(s: Seq<Entity>, i: int, n: int) -> int
    decreases n,
{
    if n <= 0 {
        0
    } else {
        grav_sum_x_to(s, i, n - 1) + if is_source_for(s, i, n - 1) {
            pair_accel_x(s[i], s[n - 1])
        } else {
            0int
        }
    }
}

/// The y-axis sum of the accelerations the first `n` entities exert on
/// entity `i`.
pub open spec fn grav_sum_y_to(s: Seq<Entity>, i: int, n: int) -> int
    decreases n,
{
    if n <= 0 {
        0
    } else {
        grav_sum_y_to(s, i, n - 1) + if is_source_for(s, i, n - 1) {
            pair_accel_y(s[i], s[n - 1])
        } else {
            0int
        }
    }
}

/// The net x-axis acceleration on entity `i` from every source at once.
pub open spec fn grav_sum_x(s: Seq<Entity>, i: int) -> int {
    grav_sum_x_to(s, i, s.len() as int)
}

/// The net y-axis acceleration on entity `i` from every source at once.
pub open spec fn grav_sum_y(s: Seq<Entity>, i: int) -> int {
    grav_sum_y_to(s, i, s.len() as int)
}

/// The largest magnitude one pair's acceleration can reach inside the
/// world limits.
pub open spec fn pair_bound() -> int {
    (G_NUM as int) * (MAX_MASS as int) * (2 * (MAX_COORD as int))
}

/// The largest magnitude a net acceleration can reach.
pub open spec fn sum_bound() -> int {
    (MAX_ENTITIES as int) * pair_bound()
}

/// The numeric values of the two acceleration bounds.
pub proof fn lemma_bound_values()
    ensures
        pair_bound() == 12_000_000_000_000_000_000_000_000_000int,
        sum_bound() == 49_152_000_000_000_000_000_000_000_000_000int,
{
    assert(6int * 10_000_000_000_000_000int == 60_000_000_000_000_000int);
    assert(60_000_000_000_000_000int * 200_000_000_000int
        == 12_000_000_000_000_000_000_000_000_000int);
    assert(4096int * 12_000_000_000_000_000_000_000_000_000int
        == 49_152_000_000_000_000_000_000_000_000_000int);
}

/// A velocity axis after one acceleration application:
/// `v + a * dt / SCALE`, pulled into the velocity limits.
pub open spec fn vel_after_accel(v: int, a_sum: int, dt: int) -> int {
    clamp_int(v + div_towards_zero(a_sum * dt, SCALE as int), -(MAX_VEL as int), MAX_VEL as int)
}

/// Entity `i` with the whole tick's gravitational pull applied to its
/// velocity.
pub open spec fn gravity_updated(s: Seq<Entity>, i: int, dt: int) -> Entity {
    with_velocity(
        s[i],
        Vec2 {
            x: vel_after_accel(s[i].velocity.x as int, grav_sum_x(s, i), dt) as i64,
            y: vel_after_accel(s[i].velocity.y as int, grav_sum_y(s, i), dt) as i64,
        },
    )
}

/// Whether this gravity pass updates bodies of the given kind: one pass
/// covers the non-source bodies, the other the planets (stars are fixed
/// and get no velocity update).
pub open spec fn grav_pass_applies(k: EntityKind, planets_only: bool) -> bool {
    if planets_only {
        k == EntityKind::Planet
    } else {
        is_gravity_target(k)
    }
}

/// The whole store after one gravity pass: every covered body gets the
/// net pull of all sources, computed from the same pre-tick snapshot.
pub open spec fn spec_gravity_pass(s: Seq<Entity>, dt: int, planets_only: bool) -> Seq<Entity> {
    Seq::new(
        s.len(),
        |i: int|
            if grav_pass_applies(s[i].kind, planets_only) {
                gravity_updated(s, i, dt)
            } else {
                s[i]
            },
    )
}

/// The store after gravity is applied to every non-source body.
pub open spec fn spec_gravity_to_targets(s: Seq<Entity>, dt: int) -> Seq<Entity> {
    spec_gravity_pass(s, dt, false)
}

/// The store after gravity is applied among the planets.
pub open spec fn spec_gravity_among_planets(s: Seq<Entity>, dt: int) -> Seq<Entity> {
    spec_gravity_pass(s, dt, true)
}

/// The acceleration `src` exerts on `target`, exactly per axis.
fn pair_accel(target: &Entity, src: &Entity) -> (a: (i128, i128))
    requires
        wf_entity(*target),
        wf_entity(*src),
    ensures
        a.0 as int == pair_accel_x(*target, *src),
        a.1 as int == pair_accel_y(*target, *src),
        -pair_bound() <= a.0 as int <= pair_bound(),
        -pair_bound() <= a.1 as int <= pair_bound(),
{
    let dx: i64 = src.position.x - target.position.x;
    let dy: i64 = src.position.y - target.position.y;
    proof {
        lemma_mul_bounds(dx as int, 200_000_000_000, dx as int, 200_000_000_000);
        lemma_mul_bounds(dy as int, 200_000_000_000, dy as int, 200_000_000_000);
        lemma_square_nonneg(dx as int);
        lemma_square_nonneg(dy as int);
    }
    let dx2: i128 = (dx as i128) * (dx as i128);
    let dy2: i128 = (dy as i128) * (dy as i128);
    let d2: i128 = dx2 + dy2;
    if d2 == 0 {
        proof {
            lemma_bound_values();
        }
        (0, 0)
    } else {
        let d_u: u128 = isqrt_u128(d2 as u128);
        proof {
            assert(1 <= d_u as int && d_u as int <= 300_000_000_000) by (nonlinear_arith)
                requires
                    0 <= d_u as int,
                    (d_u as int) * (d_u as int) <= d2 as int,
                    (d2 as int) < ((d_u as int) + 1) * ((d_u as int) + 1),
                    1 <= d2 as int,
                    d2 as int <= 80_000_000_000_000_000_000_000,
            ;
            lemma_mul_bounds(d_u as int, 300_000_000_000, d_u as int, 300_000_000_000);
            lemma_mul_bounds(
                (d_u as int) * (d_u as int),
                90_000_000_000_000_000_000_000,
                d_u as int,
                300_000_000_000,
            );
            assert(1 <= (d_u as int) * (d_u as int) * (d_u as int)) by (nonlinear_arith)
                requires
                    1 <= d_u as int,
            ;
        }
        let d: i128 = d_u as i128;
        let d3: i128 = d * d * d;
        proof {
            lemma_mul_bounds(
                GRAV_MILLI_DEN as int,
                10,
                d3 as int,
                27_000_000_000_000_000_000_000_000_000_000_000,
            );
            assert((GRAV_MILLI_DEN as int) * (d3 as int) >= 10) by (nonlinear_arith)
                requires
                    GRAV_MILLI_DEN as int == 10,
                    1 <= d3 as int,
            ;
        }
        let den: i128 = (GRAV_MILLI_DEN as i128) * d3;
        proof {
            lemma_mul_bounds(G_NUM as int, 6, src.mass as int, 10_000_000_000_000_000);
            lemma_mul_bounds(
                (G_NUM as int) * (src.mass as int),
                60_000_000_000_000_000,
                dx as int,
                200_000_000_000,
            );
            lemma_mul_bounds(
                (G_NUM as int) * (src.mass as int),
                60_000_000_000_000_000,
                dy as int,
                200_000_000_000,
            );
        }
        let num_x: i128 = (G_NUM as i128) * (src.mass as i128) * (dx as i128);
        let num_y: i128 = (G_NUM as i128) * (src.mass as i128) * (dy as i128);
        let ax: i128 = div_i128(num_x, den);
        let ay: i128 = div_i128(num_y, den);
        proof {
            lemma_div_towards_zero_le(num_x as int, den as int);
            lemma_div_towards_zero_le(num_y as int, den as int);
            lemma_bound_values();
            assert(cube(sqrt_floor(d2 as int)) == d3);
        }
        (ax, ay)
    }
}

/// The net acceleration on entity `i` from every gravity source, summed
/// over a read-only snapshot of the store.
fn net_accel(entities: &Vec<Entity>, i: usize) -> (a: (i128, i128))
    requires
        entities@.len() <= MAX_ENTITIES,
        forall|k: int| 0 <= k < entities@.len() ==> wf_entity(#[trigger] entities@[k]),
        i < entities@.len(),
    ensures
        a.0 as int == grav_sum_x(entities@, i as int),
        a.1 as int == grav_sum_y(entities@, i as int),
        -sum_bound() <= a.0 as int <= sum_bound(),
        -sum_bound() <= a.1 as int <= sum_bound(),
{
    let n: usize = entities.len();
    let mut ax: i128 = 0;
    let mut ay: i128 = 0;
    let mut j: usize = 0;
    while j < n
        invariant
            n == entities@.len(),
            n <= MAX_ENTITIES,
            i < n,
            j <= n,
            forall|k: int| 0 <= k < entities@.len() ==> wf_entity(#[trigger] entities@[k]),
            ax as int == grav_sum_x_to(entities@, i as int, j as int),
            ay as int == grav_sum_y_to(entities@, i as int, j as int),
            -((j as int) * pair_bound()) <= ax as int <= (j as int) * pair_bound(),
            -((j as int) * pair_bound()) <= ay as int <= (j as int) * pair_bound(),
        decreases n - j,
    {
        proof {
            lemma_bound_values();
        }
        if j != i && matches!(entities[j].kind, EntityKind::Star | EntityKind::Planet) {
            let ti: Entity = entities[i];
            let sj: Entity = entities[j];
            let p = pair_accel(&ti, &sj);
            ax = ax + p.0;
            ay = ay + p.1;
        }
        j = j + 1;
    }
    proof {
        lemma_bound_values();
    }
    (ax, ay)
}

/// One buffered gravity pass over the store: a read-only pass computes
/// each covered body's net acceleration into a scratch buffer, then a
/// write pass applies every buffered delta at once.
fn gravity_pass(w: &mut World, dt: i64, planets_only: bool)
    requires
        wf_world(*old(w)),
        0 <= dt <= MAX_DT,
    ensures
        final(w).entities@ == spec_gravity_pass(old(w).entities@, dt as int, planets_only),
        final(w).missile_intents@ == old(w).missile_intents@,
        final(w).explosion_intents@ == old(w).explosion_intents@,
        wf_world(*final(w)),
{
    let n: usize = w.entities.len();
    let mut deltas: Vec<(i128, i128)> = Vec::new();
    let mut i: usize = 0;
    while i < n
        invariant
            *w == *old(w),
            wf_world(*w),
            n == w.entities@.len(),
            i <= n,
            deltas@.len() == i as int,
            forall|k: int|
                0 <= k < i as int ==> (#[trigger] deltas@[k]).0 as int == grav_sum_x(
                    w.entities@,
                    k,
                ) && deltas@[k].1 as int == grav_sum_y(w.entities@, k),
            forall|k: int|
                0 <= k < i as int ==> -sum_bound() <= (#[trigger] deltas@[k]).0 as int
                    <= sum_bound() && -sum_bound() <= deltas@[k].1 as int <= sum_bound(),
        decreases n - i,
    {
        let a = net_accel(&w.entities, i);
        deltas.push(a);
        i = i + 1;
    }
    let ghost s = w.entities@;
    let mut out: Vec<Entity> = Vec::new();
    let mut i: usize = 0;
    while i < n
        invariant
            *w == *old(w),
            wf_world(*w),
            s == w.entities@,
            n == w.entities@.len(),
            i <= n,
            deltas@.len() == n as int,
            forall|k: int|
                0 <= k < n as int ==> (#[trigger] deltas@[k]).0 as int == grav_sum_x(s, k)
                    && deltas@[k].1 as int == grav_sum_y(s, k),
            forall|k: int|
                0 <= k < n as int ==> -sum_bound() <= (#[trigger] deltas@[k]).0 as int
                    <= sum_bound() && -sum_bound() <= deltas@[k].1 as int <= sum_bound(),
            out@.len() == i as int,
            forall|k: int|
                0 <= k < i as int ==> #[trigger] out@[k] == spec_gravity_pass(
                    s,
                    dt as int,
                    planets_only,
                )[k],
            forall|k: int| 0 <= k < i as int ==> wf_entity(#[trigger] out@[k]),
            0 <= dt <= MAX_DT,
        decreases n - i,
    {
        let e: Entity = w.entities[i];
        let applies: bool = if planets_only {
            matches!(e.kind, EntityKind::Planet)
        } else {
            matches!(e.kind, EntityKind::Ship | EntityKind::Missile | EntityKind::Explosion)
        };
        if applies {
            let a: (i128, i128) = deltas[i];
            proof {
                lemma_bound_values();
                lemma_mul_bounds(
                    a.0 as int,
                    49_152_000_000_000_000_000_000_000_000_000,
                    dt as int,
                    1_000_000,
                );
                lemma_mul_bounds(
                    a.1 as int,
                    49_152_000_000_000_000_000_000_000_000_000,
                    dt as int,
                    1_000_000,
                );
            }
            let dvx: i128 = div_i128(a.0 * (dt as i128), SCALE as i128);
            let dvy: i128 = div_i128(a.1 * (dt as i128), SCALE as i128);
            proof {
                lemma_div_towards_zero_le((a.0 * (dt as i128)) as int, SCALE as int);
                lemma_div_towards_zero_le((a.1 * (dt as i128)) as int, SCALE as int);
            }
            let vx: i64 = clamp_i128((e.velocity.x as i128) + dvx, -MAX_VEL, MAX_VEL);
            let vy: i64 = clamp_i128((e.velocity.y as i128) + dvy, -MAX_VEL, MAX_VEL);
            let ne = Entity {
                kind: e.kind,
                position: e.position,
                velocity: Vec2 { x: vx, y: vy },
                mass: e.mass,
                size: e.size,
                engine: e.engine,
                team: e.team,
                lifespan: e.lifespan,
            };
            proof {
                assert(ne == gravity_updated(s, i as int, dt as int));
            }
            out.push(ne);
        } else {
            out.push(e);
        }
        i = i + 1;
    }
    w.entities = out;
    proof {
        assert(w.entities@ =~= spec_gravity_pass(s, dt as int, planets_only));
    }
}

/// Computes, from a read-only snapshot, the net gravitational
/// acceleration every non-source body (ship, missile, explosion)
/// receives from every gravity source at once, and applies the buffered
/// velocity deltas in a separate write pass.
pub fn apply_gravity_from_planets_to_ships(w: &mut World, dt: i64)
    requires
        wf_world(*old(w)),
        0 <= dt <= MAX_DT,
    ensures
        final(w).entities@ == spec_gravity_to_targets(old(w).entities@, dt as int),
        final(w).missile_intents@ == old(w).missile_intents@,
        final(w).explosion_intents@ == old(w).explosion_intents@,
        wf_world(*final(w)),
{
    gravity_pass(w, dt, false);
}

/// Computes, from a read-only snapshot, the net gravitational
/// acceleration every planet receives from its fellow planets and the
/// stars (never from itself), and applies the buffered velocity deltas
/// in a separate write pass; stars stay fixed.
pub fn apply_gravity_among_planets(w: &mut World, dt: i64)
    requires
        wf_world(*old(w)),
        0 <= dt <= MAX_DT,
    ensures
        final(w).entities@ == spec_gravity_among_planets(old(w).entities@, dt as int),
        final(w).missile_intents@ == old(w).missile_intents@,
        final(w).explosion_intents@ == old(w).explosion_intents@,
        wf_world(*final(w)),
{
    gravity_pass(w, dt, true);
}

/// A velocity axis after one tick of self-thrust: the engine setting
/// scales the current velocity itself, `v + cur * v * dt / SCALE^2`,
/// pulled into the velocity limits.
pub open spec fn engine_vel_axis(v: int, cur: int, dt: int) -> int {
    clamp_int(
        v + div_towards_zero(cur * v * dt, (SCALE as int) * (SCALE as int)),
        -(MAX_VEL as int),
        MAX_VEL as int,
    )
}

/// An entity after one tick of its own engine; bodies without an engine
/// are untouched.
pub open spec fn engine_updated(e: Entity, dt: int) -> Entity {
    match e.engine {
        Option::Some(en) => with_velocity(
            e,
            Vec2 {
                x: engine_vel_axis(e.velocity.x as int, en.current_accel as int, dt) as i64,
                y: engine_vel_axis(e.velocity.y as int, en.current_accel as int, dt) as i64,
            },
        ),
        Option::None => e,
    }
}

/// The store after the propulsion pass.
pub open spec fn spec_apply_engine(s: Seq<Entity>, dt: int) -> Seq<Entity> {
    Seq::new(s.len(), |i: int| engine_updated(s[i], dt))
}

/// For every body with an engine, combines the current acceleration
/// intent with the body's own velocity into a self-thrust delta:
/// `velocity += current_accel * velocity * dt`, additive with and
/// independent of the gravity passes of the same tick.
pub fn apply_engine_acceleration(w: &mut World, dt: i64)
    requires
        wf_world(*old(w)),
        0 <= dt <= MAX_DT,
    ensures
        final(w).entities@ == spec_apply_engine(old(w).entities@, dt as int),
        final(w).missile_intents@ == old(w).missile_intents@,
        final(w).explosion_intents@ == old(w).explosion_intents@,
        wf_world(*final(w)),
{
    let n: usize = w.entities.len();
    let ghost s = w.entities@;
    let mut out: Vec<Entity> = Vec::new();
    let mut i: usize = 0;
    while i < n
        invariant
            *w == *old(w),
            wf_world(*w),
            s == w.entities@,
            n == w.entities@.len(),
            i <= n,
            out@.len() == i as int,
            forall|k: int|
                0 <= k < i as int ==> #[trigger] out@[k] == spec_apply_engine(s, dt as int)[k],
            forall|k: int| 0 <= k < i as int ==> wf_entity(#[trigger] out@[k]),
            0 <= dt <= MAX_DT,
        decreases n - i,
    {
        let e: Entity = w.entities[i];
        match e.engine {
            Option::Some(en) => {
                proof {
                    lemma_mul_bounds(
                        en.current_accel as int,
                        1_000_000,
                        e.velocity.x as int,
                        1_000_000_000,
                    );
                    lemma_mul_bounds(
                        en.current_accel as int,
                        1_000_000,
                        e.velocity.y as int,
                        1_000_000_000,
                    );
                    lemma_mul_bounds(
                        (en.current_accel as int) * (e.velocity.x as int),
                        1_000_000_000_000_000,
                        dt as int,
                        1_000_000,
                    );
                    lemma_mul_bounds(
                        (en.current_accel as int) * (e.velocity.y as int),
                        1_000_000_000_000_000,
                        dt as int,
                        1_000_000,
                    );
                    assert((SCALE as int) * (SCALE as int) == 1_000_000) by {
                        assert(1000int * 1000int == 1_000_000int);
                    }
                }
                let dvx: i128 = div_i128(
                    (en.current_accel as i128) * (e.velocity.x as i128) * (dt as i128),
                    (SCALE as i128) * (SCALE as i128),
                );
                let dvy: i128 = div_i128(
                    (en.current_accel as i128) * (e.velocity.y as i128) * (dt as i128),
                    (SCALE as i128) * (SCALE as i128),
                );
                proof {
                    lemma_div_towards_zero_le(
                        ((en.current_accel as i128) * (e.velocity.x as i128) * (dt as i128)) as int,
                        (SCALE as int) * (SCALE as int),
                    );
                    lemma_div_towards_zero_le(
                        ((en.current_accel as i128) * (e.velocity.y as i128) * (dt as i128)) as int,
                        (SCALE as int) * (SCALE as int),
                    );
                }
                let vx: i64 = clamp_i128((e.velocity.x as i128) + dvx, -MAX_VEL, MAX_VEL);
                let vy: i64 = clamp_i128((e.velocity.y as i128) + dvy, -MAX_VEL, MAX_VEL);
                let ne = Entity {
                    kind: e.kind,
                    position: e.position,
                    velocity: Vec2 { x: vx, y: vy },
                    mass: e.mass,
                    size: e.size,
                    engine: e.engine,
                    team: e.team,
                    lifespan: e.lifespan,
                };
                proof {
                    assert(ne == engine_updated(s[i as int], dt as int));
                }
                out.push(ne);
            },
            Option::None => {
                out.push(e);
            },
        }
        i = i + 1;
    }
    w.entities = out;
    proof {
        assert(w.entities@ =~= spec_apply_engine(s, dt as int));
    }
}

/// A position axis after one tick of drift: `p + v * dt / SCALE`,
/// pulled into the world edge.
pub open spec fn pos_after_vel(p: int, v: int, dt: int) -> int {
    clamp_int(
        p + div_towards_zero(v * dt, SCALE as int),
        -(MAX_COORD as int),
        MAX_COORD as int,
    )
}

/// An entity carried by its own velocity for one tick.
pub open spec fn moved_entity(e: Entity, dt: int) -> Entity {
    with_position(
        e,
        Vec2 {
            x: pos_after_vel(e.position.x as int, e.velocity.x as int, dt) as i64,
            y: pos_after_vel(e.position.y as int, e.velocity.y as int, dt) as i64,
        },
    )
}

/// The store after the integrator pass.
pub open spec fn spec_move_objects(s: Seq<Entity>, dt: int) -> Seq<Entity> {
    Seq::new(s.len(), |i: int| moved_entity(s[i], dt))
}

/// The integrator: strictly after all velocity updates of the tick, for
/// every body, `position += velocity * dt` (stars hold velocity zero and
/// so never move).
pub fn move_objects(w: &mut World, dt: i64)
    requires
        wf_world(*old(w)),
        0 <= dt <= MAX_DT,
    ensures
        final(w).entities@ == spec_move_objects(old(w).entities@, dt as int),
        final(w).missile_intents@ == old(w).missile_intents@,
        final(w).explosion_intents@ == old(w).explosion_intents@,
        wf_world(*final(w)),
{
    let n: usize = w.entities.len();
    let ghost s = w.entities@;
    let mut out: Vec<Entity> = Vec::new();
    let mut i: usize = 0;
    while i < n
        invariant
            *w == *old(w),
            wf_world(*w),
            s == w.entities@,
            n == w.entities@.len(),
            i <= n,
            out@.len() == i as int,
            forall|k: int|
                0 <= k < i as int ==> #[trigger] out@[k] == spec_move_objects(s, dt as int)[k],
            forall|k: int| 0 <= k < i as int ==> wf_entity(#[trigger] out@[k]),
            0 <= dt <= MAX_DT,
        decreases n - i,
    {
        let e: Entity = w.entities[i];
        proof {
            lemma_mul_bounds(e.velocity.x as int, 1_000_000_000, dt as int, 1_000_000);
            lemma_mul_bounds(e.velocity.y as int, 1_000_000_000, dt as int, 1_000_000);
        }
        let dpx: i128 = div_i128((e.velocity.x as i128) * (dt as i128), SCALE as i128);
        let dpy: i128 = div_i128((e.velocity.y as i128) * (dt as i128), SCALE as i128);
        proof {
            lemma_div_towards_zero_le(((e.velocity.x as i128) * (dt as i128)) as int, SCALE as int);
            lemma_div_towards_zero_le(((e.velocity.y as i128) * (dt as i128)) as int, SCALE as int);
        }
        let px: i64 = clamp_i128((e.position.x as i128) + dpx, -MAX_COORD, MAX_COORD);
        let py: i64 = clamp_i128((e.position.y as i128) + dpy, -MAX_COORD, MAX_COORD);
        let ne = Entity {
            kind: e.kind,
            position: Vec2 { x: px, y: py },
            velocity: e.velocity,
            mass: e.mass,
            size: e.size,
            engine: e.engine,
            team: e.team,
            lifespan: e.lifespan,
        };
        proof {
            assert(ne == moved_entity(s[i as int], dt as int));
        }
        out.push(ne);
        i = i + 1;
    }
    w.entities = out;
    proof {
        assert(w.entities@ =~= spec_move_objects(s, dt as int));
    }
}

} // verus!
