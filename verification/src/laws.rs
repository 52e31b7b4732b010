//! Global laws of the simulation, stated over the same spec functions
//! the passes' contracts use, and proved once and for all inputs.

use vstd::prelude::*;
use crate::combat::{
    missile_hit_by_source, missile_hits_some_ship, missile_planet_hit, radius_of,
    ship_hit_by_missile, ship_missile_hit, within_radius,
};
use crate::components::{EnginePhysics, Lifespan};
use crate::events::{CreateExplosionEvent, SpawnMissileFromShip};
use crate::gateway::{
    despawn_filter, despawn_removed, first_engine_from, has_engine, spec_set_thrust, ThrustIntent,
};
use crate::lifecycle::{entity_expired, Viewport};
use crate::tick::{spec_tick_entities, tick_after_physics, tick_after_spawns, tick_doomed};
use crate::math::{
    div_towards_zero, lemma_div_towards_zero_odd, lemma_sqrt_floor_exists, lemma_square_nonneg,
    sqrt_floor, Vec2, MAX_COORD, MAX_DT, SCALE,
};
use crate::physics::{
    dist2, grav_sum_x, grav_sum_x_to, grav_sum_y, grav_sum_y_to, gravity_updated, moved_entity,
    pair_accel_axis, pair_accel_x, pair_accel_y, pos_after_vel, spec_apply_engine,
    spec_gravity_among_planets, spec_gravity_to_targets, spec_move_objects, vel_after_accel,
    G_NUM,
};
use crate::tick::spec_physics;
use crate::world::{is_gravity_source, wf_entity, wf_world, Entity, EntityKind, World};

verus! {

/// One integrator step changes nothing but the position, and moves it by
/// exactly `velocity * dt / SCALE` whenever the result stays inside the
/// world edge: fixed-point integration is exact, with no hidden rounding
/// beyond the stated division towards zero.
pub proof fn lemma_integrator_exact(e: Entity, dt: int)
    requires
        wf_entity(e),
        0 <= dt <= MAX_DT,
        -(MAX_COORD as int) <= e.position.x + div_towards_zero(e.velocity.x * dt, SCALE as int)
            <= MAX_COORD as int,
        -(MAX_COORD as int) <= e.position.y + div_towards_zero(e.velocity.y * dt, SCALE as int)
            <= MAX_COORD as int,
    ensures
        moved_entity(e, dt).position.x as int == e.position.x + div_towards_zero(
            e.velocity.x * dt,
            SCALE as int,
        ),
        moved_entity(e, dt).position.y as int == e.position.y + div_towards_zero(
            e.velocity.y * dt,
            SCALE as int,
        ),
        moved_entity(e, dt).velocity == e.velocity,
        moved_entity(e, dt).kind == e.kind,
        moved_entity(e, dt).mass == e.mass,
{
}

/// Lifespan expiry is independent of the frame rate: over any sequence
/// of tick clocks that ends at `t_final`, some tick observes the expiry
/// if and only if a single tick at `t_final` would, because expiry is a
/// monotone function of the clock alone.
pub proof fn lemma_expiry_frame_rate_independent(l: Lifespan, times: Seq<int>, t_final: int)
    requires
        forall|i: int| 0 <= i < times.len() ==> #[trigger] times[i] <= t_final,
        exists|i: int| 0 <= i < times.len() && #[trigger] times[i] == t_final,
    ensures
        (exists|i: int| 0 <= i < times.len() && l.expired(#[trigger] times[i])) <==> l.expired(
            t_final,
        ),
{
    if exists|i: int| 0 <= i < times.len() && l.expired(#[trigger] times[i]) {
        let i = choose|i: int| 0 <= i < times.len() && l.expired(#[trigger] times[i]);
        assert(times[i] <= t_final);
    }
    if l.expired(t_final) {
        let i = choose|i: int| 0 <= i < times.len() && #[trigger] times[i] == t_final;
        assert(l.expired(times[i]));
    }
}

/// A missile never triggers a destroy event against a ship of its own
/// team, whatever their relative positions, a distance of zero included.
pub proof fn lemma_same_team_never_destroys(s: Seq<Entity>, si: int, mi: int)
    requires
        0 <= si < s.len(),
        0 <= mi < s.len(),
        s[si].team.0 == s[mi].team.0,
    ensures
        !ship_missile_hit(s, si, mi),
{
}

/// Detonation against a gravity source is strict: a missile exactly at
/// the collision radius (squared distance equal to the squared radius)
/// does not detonate, and any missile strictly inside it does.
pub proof fn lemma_detonation_strictly_inside(s: Seq<Entity>, mi: int, j: int)
    requires
        0 <= mi < s.len(),
        0 <= j < s.len(),
        s[mi].kind == EntityKind::Missile,
        is_gravity_source(s[j].kind),
    ensures
        dist2(s[mi].position, s[j].position) == radius_of(s[j].size as int) * radius_of(
            s[j].size as int,
        ) ==> !missile_planet_hit(s, mi, j),
        dist2(s[mi].position, s[j].position) < radius_of(s[j].size as int) * radius_of(
            s[j].size as int,
        ) ==> missile_planet_hit(s, mi, j) && missile_hit_by_source(s, mi),
{
    if dist2(s[mi].position, s[j].position) < radius_of(s[j].size as int) * radius_of(
        s[j].size as int,
    ) {
        assert(missile_planet_hit(s, mi, j));
    }
}

/// Two entities' positions and velocities are exact opposites.
pub open spec fn opposite_vec(a: Vec2, b: Vec2) -> bool {
    a.x + b.x == 0 && a.y + b.y == 0
}

/// A pair of equal-mass planets placed point-symmetrically about the
/// origin, with opposite (for instance zero) velocities and no engines.
pub open spec fn mirrored_pair(s: Seq<Entity>) -> bool {
    &&& s.len() == 2
    &&& s[0].kind == EntityKind::Planet
    &&& s[1].kind == EntityKind::Planet
    &&& s[0].mass == s[1].mass
    &&& opposite_vec(s[0].position, s[1].position)
    &&& opposite_vec(s[0].velocity, s[1].velocity)
    &&& s[0].engine == Option::<EnginePhysics>::None
    &&& s[1].engine == Option::<EnginePhysics>::None
}

/// One axis of the pair acceleration is odd in the separation: flipping
/// the separation flips the pull exactly, with no rounding asymmetry,
/// because division rounds towards zero.
proof fn lemma_pair_accel_axis_odd(delta: int, d2: int, m: int)
    requires
        0 <= d2,
    ensures
        pair_accel_axis(-delta, d2, m) == -pair_accel_axis(delta, d2, m),
{
    if d2 != 0 {
        lemma_sqrt_floor_exists(d2);
        let r = sqrt_floor(d2);
        assert(1 <= r) by (nonlinear_arith)
            requires
                0 <= r,
                r * r <= d2,
                d2 < (r + 1) * (r + 1),
                1 <= d2,
        ;
        assert(1 <= r * r * r) by (nonlinear_arith)
            requires
                1 <= r,
        ;
        assert(G_NUM * m * (-delta) == -(G_NUM * m * delta)) by (nonlinear_arith);
        lemma_div_towards_zero_odd(G_NUM * m * delta, 10 * (r * r * r));
    }
}

/// For a mirrored pair, the net pulls on the two bodies are exact
/// opposites: mutual attraction is exactly equal and opposite.
proof fn lemma_pair_grav_sums_opposite(s: Seq<Entity>)
    requires
        mirrored_pair(s),
    ensures
        grav_sum_x(s, 1) == -grav_sum_x(s, 0),
        grav_sum_y(s, 1) == -grav_sum_y(s, 0),
{
    let dx = s[1].position.x - s[0].position.x;
    let dy = s[1].position.y - s[0].position.y;
    let d2 = dist2(s[0].position, s[1].position);
    lemma_square_nonneg(dx as int);
    lemma_square_nonneg(dy as int);
    assert(dist2(s[1].position, s[0].position) == d2) by (nonlinear_arith)
        requires
            d2 == (s[1].position.x - s[0].position.x) * (s[1].position.x - s[0].position.x) + (
            s[1].position.y - s[0].position.y) * (s[1].position.y - s[0].position.y),
    ;
    lemma_pair_accel_axis_odd(dx as int, d2, s[1].mass as int);
    lemma_pair_accel_axis_odd(dy as int, d2, s[1].mass as int);
    assert(pair_accel_x(s[1], s[0]) == pair_accel_axis(-(dx as int), d2, s[0].mass as int));
    assert(pair_accel_y(s[1], s[0]) == pair_accel_axis(-(dy as int), d2, s[0].mass as int));
    assert(grav_sum_x_to(s, 0, 0) == 0);
    assert(grav_sum_x_to(s, 0, 1) == 0);
    assert(grav_sum_x(s, 0) == pair_accel_x(s[0], s[1]));
    assert(grav_sum_x_to(s, 1, 0) == 0);
    assert(grav_sum_x_to(s, 1, 1) == pair_accel_x(s[1], s[0]));
    assert(grav_sum_x(s, 1) == pair_accel_x(s[1], s[0]));
    assert(grav_sum_y_to(s, 0, 0) == 0);
    assert(grav_sum_y_to(s, 0, 1) == 0);
    assert(grav_sum_y(s, 0) == pair_accel_y(s[0], s[1]));
    assert(grav_sum_y_to(s, 1, 0) == 0);
    assert(grav_sum_y_to(s, 1, 1) == pair_accel_y(s[1], s[0]));
    assert(grav_sum_y(s, 1) == pair_accel_y(s[1], s[0]));
}

/// One tick's velocity update is odd: opposite velocities under opposite
/// pulls stay opposite.
proof fn lemma_vel_after_accel_odd(v: int, a: int, dt: int)
    ensures
        vel_after_accel(-v, -a, dt) == -vel_after_accel(v, a, dt),
{
    assert((-a) * dt == -(a * dt)) by (nonlinear_arith);
    lemma_div_towards_zero_odd(a * dt, SCALE as int);
}

/// One tick's position update is odd: opposite positions under opposite
/// velocities stay opposite.
proof fn lemma_pos_after_vel_odd(p: int, v: int, dt: int)
    ensures
        pos_after_vel(-p, -v, dt) == -pos_after_vel(p, v, dt),
{
    assert((-v) * dt == -(v * dt)) by (nonlinear_arith);
    lemma_div_towards_zero_odd(v * dt, SCALE as int);
}

/// One full physics tick (both gravity passes, propulsion, integrator)
/// carries a mirrored pair to a mirrored pair, well-formedness included.
proof fn lemma_physics_tick_mirrored(s: Seq<Entity>, dt: int)
    requires
        mirrored_pair(s),
        wf_entity(s[0]),
        wf_entity(s[1]),
        0 <= dt <= MAX_DT,
    ensures
        mirrored_pair(spec_physics(s, dt)),
        wf_entity(spec_physics(s, dt)[0]),
        wf_entity(spec_physics(s, dt)[1]),
{
    let s1 = spec_gravity_to_targets(s, dt);
    assert(s1 =~= s);
    let s2 = spec_gravity_among_planets(s, dt);
    assert(s2[0] == gravity_updated(s, 0, dt));
    assert(s2[1] == gravity_updated(s, 1, dt));
    lemma_pair_grav_sums_opposite(s);
    lemma_vel_after_accel_odd(s[0].velocity.x as int, grav_sum_x(s, 0), dt);
    lemma_vel_after_accel_odd(s[0].velocity.y as int, grav_sum_y(s, 0), dt);
    assert(mirrored_pair(s2));
    assert(wf_entity(s2[0]) && wf_entity(s2[1]));
    let s3 = spec_apply_engine(s2, dt);
    assert(s3 =~= s2);
    let s4 = spec_move_objects(s2, dt);
    assert(s4[0] == moved_entity(s2[0], dt));
    assert(s4[1] == moved_entity(s2[1], dt));
    lemma_pos_after_vel_odd(s2[0].position.x as int, s2[0].velocity.x as int, dt);
    lemma_pos_after_vel_odd(s2[0].position.y as int, s2[0].velocity.y as int, dt);
    assert(mirrored_pair(s4));
    assert(wf_entity(s4[0]) && wf_entity(s4[1]));
    assert(spec_physics(s, dt) == s4);
}

/// The physics pipeline iterated over `n` ticks.
pub open spec fn iterate_physics(s: Seq<Entity>, dt: int, n: nat) -> Seq<Entity>
    decreases n,
{
    if n == 0 {
        s
    } else {
        spec_physics(iterate_physics(s, dt, (n - 1) as nat), dt)
    }
}

/// For every pair of equal-mass gravity sources placed symmetrically
/// about the origin with opposite (for instance zero) velocities, after
/// any number of ticks their positions remain symmetric about the
/// origin: the mutual attraction is exactly equal and opposite, and the
/// fixed-point updates preserve the symmetry exactly.
pub proof fn lemma_symmetric_pair_stays_symmetric(s: Seq<Entity>, dt: int, n: nat)
    requires
        mirrored_pair(s),
        wf_entity(s[0]),
        wf_entity(s[1]),
        0 <= dt <= MAX_DT,
    ensures
        mirrored_pair(iterate_physics(s, dt, n)),
        iterate_physics(s, dt, n)[0].position.x + iterate_physics(s, dt, n)[1].position.x == 0,
        iterate_physics(s, dt, n)[0].position.y + iterate_physics(s, dt, n)[1].position.y == 0,
        wf_entity(iterate_physics(s, dt, n)[0]),
        wf_entity(iterate_physics(s, dt, n)[1]),
    decreases n,
{
    if n > 0 {
        lemma_symmetric_pair_stays_symmetric(s, dt, (n - 1) as nat);
        lemma_physics_tick_mirrored(iterate_physics(s, dt, (n - 1) as nat), dt);
    }
}

/// Proximity is symmetric in the two bodies: the squared distance does
/// not depend on the order of its endpoints.
pub proof fn lemma_within_radius_symmetric(a: Vec2, b: Vec2, radius: int)
    ensures
        within_radius(a, b, radius) == within_radius(b, a, radius),
{
    assert(dist2(a, b) == dist2(b, a)) by (nonlinear_arith)
        requires
            dist2(a, b) == (b.x - a.x) * (b.x - a.x) + (b.y - a.y) * (b.y - a.y),
            dist2(b, a) == (a.x - b.x) * (a.x - b.x) + (a.y - b.y) * (a.y - b.y),
    ;
}

/// Filtering with no flag set keeps the first `n` entities as they are,
/// and removes none.
proof fn lemma_despawn_none(s: Seq<Entity>, doomed: Seq<bool>, n: int)
    requires
        0 <= n <= s.len(),
        forall|k: int| 0 <= k < n ==> !doomed[k],
    ensures
        despawn_filter(s, doomed, n) =~= s.take(n),
        despawn_removed(s, doomed, n) =~= Seq::<Entity>::empty(),
    decreases n,
{
    if n > 0 {
        lemma_despawn_none(s, doomed, n - 1);
        assert(s.take(n) =~= s.take(n - 1) + seq![s[n - 1]]);
    }
}

/// On a mirrored pair of immortal planets with nothing queued, one full
/// public tick is exactly one physics step: the gateway, input, combat
/// and lifecycle passes have nothing to do, so the symmetry law carries
/// over to `tick` itself.
pub proof fn lemma_symmetric_pair_tick(
    w: World,
    dt: i64,
    now: i64,
    vp: Viewport,
    thrust: ThrustIntent,
)
    requires
        wf_world(w),
        mirrored_pair(w.entities@),
        w.entities@[0].lifespan == Option::<Lifespan>::None,
        w.entities@[1].lifespan == Option::<Lifespan>::None,
        w.missile_intents@ == Seq::<SpawnMissileFromShip>::empty(),
        w.explosion_intents@ == Seq::<CreateExplosionEvent>::empty(),
        0 <= dt <= MAX_DT,
    ensures
        spec_tick_entities(w, dt, now, vp, thrust) == spec_physics(w.entities@, dt as int),
        mirrored_pair(spec_tick_entities(w, dt, now, vp, thrust)),
        spec_tick_entities(w, dt, now, vp, thrust)[0].position.x + spec_tick_entities(
            w,
            dt,
            now,
            vp,
            thrust,
        )[1].position.x == 0,
        spec_tick_entities(w, dt, now, vp, thrust)[0].position.y + spec_tick_entities(
            w,
            dt,
            now,
            vp,
            thrust,
        )[1].position.y == 0,
{
    let s = w.entities@;
    assert(wf_entity(s[0]) && wf_entity(s[1]));

    let spawned = tick_after_spawns(w, now);
    assert(spawned =~= s);

    assert(!has_engine(s[0]) && !has_engine(s[1]));
    assert(first_engine_from(s, 2) == 2);
    assert(first_engine_from(s, 1) == 2);
    assert(first_engine_from(s, 0) == 2);
    assert(spec_set_thrust(s, thrust) == s);

    let s4 = tick_after_physics(w, dt, now, thrust);
    assert(s4 == spec_physics(s, dt as int));

    let s1 = spec_gravity_to_targets(s, dt as int);
    assert(s1 =~= s);
    let s2 = spec_gravity_among_planets(s, dt as int);
    assert(s2[0] == gravity_updated(s, 0, dt as int));
    assert(s2[1] == gravity_updated(s, 1, dt as int));
    let s3 = spec_apply_engine(s2, dt as int);
    assert(s3 =~= s2);
    assert(s4 == spec_move_objects(s2, dt as int));
    assert(s4[0] == moved_entity(s2[0], dt as int));
    assert(s4[1] == moved_entity(s2[1], dt as int));
    assert(s4.len() == 2);
    assert(s4[0].kind == EntityKind::Planet && s4[1].kind == EntityKind::Planet);
    assert(s4[0].lifespan == Option::<Lifespan>::None);
    assert(s4[1].lifespan == Option::<Lifespan>::None);

    let d = tick_doomed(s4, now, vp);
    assert forall|k: int| 0 <= k < 2 implies !d[k] by {
        assert(!missile_hit_by_source(s4, k));
        if ship_hit_by_missile(s4, k) {
            let mi = choose|mi: int| ship_missile_hit(s4, k, mi);
            assert(false);
        }
        if missile_hits_some_ship(s4, k) {
            let si = choose|si: int| ship_missile_hit(s4, si, k);
            assert(false);
        }
        assert(!entity_expired(s4[k], now as int));
    }
    lemma_despawn_none(s4, d, 2);
    assert(s4.take(2) =~= s4);
    assert(spec_tick_entities(w, dt, now, vp, thrust) == s4);

    lemma_physics_tick_mirrored(s, dt as int);
}

} // verus!
