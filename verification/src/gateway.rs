//! The event/spawn gateway and the despawn apply pass.
//!
//! Fire and explosion intents are queued messages consumed on the tick
//! after they were raised (one-tick latency by design). Every accepted
//! intent yields exactly one new entity, in queue order; an intent is
//! accepted as long as the entity cap has room, and the remainder of an
//! overfull queue is discarded, which keeps entity growth bounded.

use vstd::prelude::*;
use crate::components::{EnginePhysics, Lifespan, Position, Team, Velocity};
use crate::events::{CreateExplosionEvent, SpawnMissileFromShip};
use crate::math::{
    clamp_i128, clamp_int, div_i128, div_towards_zero, isqrt_u128, lemma_div_towards_zero_le,
    lemma_mul_bounds, lemma_square_nonneg, sqrt_floor, Vec2, MAX_ENTITIES, MAX_VEL,
};
use crate::world::{
    wf_entity, wf_explosion_intent, wf_missile_intent, wf_world, Entity, EntityKind, World,
};

verus! {

/// Sprite scale of a fired missile, in milli-units.
pub const MISSILE_SIZE: i64 = 170;

/// Time-to-live of a fired missile, in milliseconds: a long default,
/// effectively "until out of bounds".
pub const MISSILE_LIFESPAN_MS: i64 = 150_000_000;

/// Sprite scale of an explosion, in milli-units.
pub const EXPLOSION_SIZE: i64 = 250;

/// Time-to-live of an explosion, in milliseconds: the short fixed
/// lifetime of its one-shot animation.
pub const EXPLOSION_LIFESPAN_MS: i64 = 1_000;

/// Muzzle-velocity boost of a fired missile along the ship's direction
/// of travel, in milli-units per second.
pub const MUZZLE_SPEED: i64 = 45_000;

/// The store with every marked entity removed, in one pass, order kept.
pub open spec fn despawn_filter(s: Seq<Entity>, doomed: Seq<bool>, n: int) -> Seq<Entity>
    decreases n,
{
    if n <= 0 {
        Seq::empty()
    } else {
        despawn_filter(s, doomed, n - 1) + if doomed[n - 1] {
            Seq::<Entity>::empty()
        } else {
            seq![s[n - 1]]
        }
    }
}

/// The entities a despawn pass removes, in store order: the destruction
/// events handed to animation, score and sound.
pub open spec fn despawn_removed(s: Seq<Entity>, doomed: Seq<bool>, n: int) -> Seq<Entity>
    decreases n,
{
    if n <= 0 {
        Seq::empty()
    } else {
        despawn_removed(s, doomed, n - 1) + if doomed[n - 1] {
            seq![s[n - 1]]
        } else {
            Seq::<Entity>::empty()
        }
    }
}

/// Removes every entity the detection passes marked, after all detection
/// has completed; each marked entity is destroyed exactly once,
/// immediately and unconditionally, and is reported back as a
/// destruction event.
pub fn apply_despawns(w: &mut World, doomed: &Vec<bool>) -> (destroyed: Vec<Entity>)
    requires
        wf_world(*old(w)),
        doomed@.len() == old(w).entities@.len(),
    ensures
        final(w).entities@ == despawn_filter(
            old(w).entities@,
            doomed@,
            old(w).entities@.len() as int,
        ),
        destroyed@ == despawn_removed(old(w).entities@, doomed@, old(w).entities@.len() as int),
        final(w).missile_intents@ == old(w).missile_intents@,
        final(w).explosion_intents@ == old(w).explosion_intents@,
        wf_world(*final(w)),
{
    let ghost s = w.entities@;
    let n: usize = w.entities.len();
    let mut out: Vec<Entity> = Vec::new();
    let mut gone: Vec<Entity> = Vec::new();
    let mut i: usize = 0;
    while i < n
        invariant
            wf_world(*old(w)),
            *w == *old(w),
            s == w.entities@,
            doomed@.len() == n as int,
            n == s.len(),
            i <= n,
            out@.len() <= i as int,
            out@ == despawn_filter(s, doomed@, i as int),
            gone@ == despawn_removed(s, doomed@, i as int),
            forall|k: int| 0 <= k < out@.len() ==> wf_entity(#[trigger] out@[k]),
        decreases n - i,
    {
        let e: Entity = w.entities[i];
        if !doomed[i] {
            out.push(e);
        } else {
            gone.push(e);
        }
        proof {
            assert(out@ =~= despawn_filter(s, doomed@, i as int + 1));
            assert(gone@ =~= despawn_removed(s, doomed@, i as int + 1));
        }
        i = i + 1;
    }
    w.entities = out;
    gone
}

/// The missile a fire intent creates: the intent's position, velocity
/// and team, default mass, missile sprite scale, and the fixed long
/// lifespan starting at the current clock.
pub open spec fn missile_entity(intent: SpawnMissileFromShip, now: i64) -> Entity {
    Entity {
        kind: EntityKind::Missile,
        position: intent.position.0,
        velocity: intent.velocity.0,
        mass: 1i64,
        size: MISSILE_SIZE,
        engine: Option::None,
        team: intent.team,
        lifespan: Option::Some(Lifespan { created_on: now, lifespan: MISSILE_LIFESPAN_MS }),
    }
}

/// The explosion an explosion intent creates: at the intent's position
/// and velocity, neutral, with the short fixed lifespan starting at the
/// current clock.
pub open spec fn explosion_entity(ev: CreateExplosionEvent, now: i64) -> Entity {
    Entity {
        kind: EntityKind::Explosion,
        position: ev.position.0,
        velocity: ev.velocity.0,
        mass: 1i64,
        size: EXPLOSION_SIZE,
        engine: Option::None,
        team: Team(Option::None),
        lifespan: Option::Some(Lifespan { created_on: now, lifespan: EXPLOSION_LIFESPAN_MS }),
    }
}

/// How many of `m` queued intents the entity cap leaves room for.
pub open spec fn spawn_room(s: Seq<Entity>, m: int) -> int {
    if s.len() + m <= MAX_ENTITIES {
        m
    } else {
        MAX_ENTITIES - s.len()
    }
}

/// The first `k` queued fire intents turned into missiles, in queue
/// order.
pub open spec fn spawned_missiles(q: Seq<SpawnMissileFromShip>, now: i64, k: int) -> Seq<Entity> {
    Seq::new(k as nat, |j: int| missile_entity(q[j], now))
}

/// The first `k` queued explosion intents turned into explosions, in
/// queue order.
pub open spec fn spawned_explosions(q: Seq<CreateExplosionEvent>, now: i64, k: int) -> Seq<
    Entity,
> {
    Seq::new(k as nat, |j: int| explosion_entity(q[j], now))
}

/// Consumes the queued fire intents of the previous tick: each creates
/// exactly one new missile, in queue order, as long as the entity cap
/// has room.
pub fn handle_spawn_missile_event(w: &mut World, now: i64)
    requires
        wf_world(*old(w)),
        0 <= now <= crate::math::MAX_TIME,
    ensures
        final(w).entities@ == old(w).entities@ + spawned_missiles(
            old(w).missile_intents@,
            now,
            spawn_room(old(w).entities@, old(w).missile_intents@.len() as int),
        ),
        final(w).missile_intents@ == Seq::<SpawnMissileFromShip>::empty(),
        final(w).explosion_intents@ == old(w).explosion_intents@,
        wf_world(*final(w)),
{
    let ghost s0 = w.entities@;
    let ghost q = w.missile_intents@;
    let ghost k = spawn_room(s0, q.len() as int);
    let m: usize = w.missile_intents.len();
    let mut j: usize = 0;
    while j < m
        invariant
            wf_world(*old(w)),
            w.missile_intents@ == old(w).missile_intents@,
            w.explosion_intents@ == old(w).explosion_intents@,
            s0 == old(w).entities@,
            q == old(w).missile_intents@,
            k == spawn_room(s0, q.len() as int),
            0 <= now <= crate::math::MAX_TIME,
            m == q.len(),
            j <= m,
            wf_world(*w),
            j as int <= k ==> w.entities@ == s0 + spawned_missiles(q, now, j as int),
            j as int > k ==> w.entities@ == s0 + spawned_missiles(q, now, k) && w.entities@.len()
                == MAX_ENTITIES,
        decreases m - j,
    {
        let intent: SpawnMissileFromShip = w.missile_intents[j];
        if w.entities.len() < MAX_ENTITIES {
            proof {
                assert(wf_missile_intent(q[j as int]));
            }
            let e = Entity {
                kind: EntityKind::Missile,
                position: intent.position.0,
                velocity: intent.velocity.0,
                mass: 1,
                size: MISSILE_SIZE,
                engine: Option::None,
                team: intent.team,
                lifespan: Option::Some(
                    Lifespan { created_on: now, lifespan: MISSILE_LIFESPAN_MS },
                ),
            };
            w.entities.push(e);
            proof {
                assert(e == missile_entity(q[j as int], now));
                if j as int + 1 <= k {
                    assert(w.entities@ =~= s0 + spawned_missiles(q, now, j as int + 1));
                }
            }
        }
        j = j + 1;
    }
    w.missile_intents.clear();
    proof {
        if m as int <= k {
            assert(k == m as int);
        }
        assert(w.entities@ =~= s0 + spawned_missiles(q, now, k));
    }
}

/// Consumes the queued explosion intents of the previous tick: each
/// creates exactly one new explosion, in queue order, as long as the
/// entity cap has room.
pub fn create_explosion(w: &mut World, now: i64)
    requires
        wf_world(*old(w)),
        0 <= now <= crate::math::MAX_TIME,
    ensures
        final(w).entities@ == old(w).entities@ + spawned_explosions(
            old(w).explosion_intents@,
            now,
            spawn_room(old(w).entities@, old(w).explosion_intents@.len() as int),
        ),
        final(w).explosion_intents@ == Seq::<CreateExplosionEvent>::empty(),
        final(w).missile_intents@ == old(w).missile_intents@,
        wf_world(*final(w)),
{
    let ghost s0 = w.entities@;
    let ghost q = w.explosion_intents@;
    let ghost k = spawn_room(s0, q.len() as int);
    let m: usize = w.explosion_intents.len();
    let mut j: usize = 0;
    while j < m
        invariant
            wf_world(*old(w)),
            w.explosion_intents@ == old(w).explosion_intents@,
            w.missile_intents@ == old(w).missile_intents@,
            s0 == old(w).entities@,
            q == old(w).explosion_intents@,
            k == spawn_room(s0, q.len() as int),
            0 <= now <= crate::math::MAX_TIME,
            m == q.len(),
            j <= m,
            wf_world(*w),
            j as int <= k ==> w.entities@ == s0 + spawned_explosions(q, now, j as int),
            j as int > k ==> w.entities@ == s0 + spawned_explosions(q, now, k)
                && w.entities@.len() == MAX_ENTITIES,
        decreases m - j,
    {
        let ev: CreateExplosionEvent = w.explosion_intents[j];
        if w.entities.len() < MAX_ENTITIES {
            proof {
                assert(wf_explosion_intent(q[j as int]));
            }
            let e = Entity {
                kind: EntityKind::Explosion,
                position: ev.position.0,
                velocity: ev.velocity.0,
                mass: 1,
                size: EXPLOSION_SIZE,
                engine: Option::None,
                team: Team(Option::None),
                lifespan: Option::Some(
                    Lifespan { created_on: now, lifespan: EXPLOSION_LIFESPAN_MS },
                ),
            };
            w.entities.push(e);
            proof {
                assert(e == explosion_entity(q[j as int], now));
                if j as int + 1 <= k {
                    assert(w.entities@ =~= s0 + spawned_explosions(q, now, j as int + 1));
                }
            }
        }
        j = j + 1;
    }
    w.explosion_intents.clear();
    proof {
        if m as int <= k {
            assert(k == m as int);
        }
        assert(w.entities@ =~= s0 + spawned_explosions(q, now, k));
    }
}

/// The thrust intent resulting from input polling, one per tick.
#[derive(Debug, Clone, Copy, PartialEq, Eq, Structural)]
pub enum ThrustIntent {
    Increase,
    Decrease,
    Hold,
}

/// The engine setting each thrust intent selects, in milli-units:
/// up is `+1`, down is `-1`, neither is `0`.
pub open spec fn thrust_value(t: ThrustIntent) -> i64 {
    match t {
        ThrustIntent::Increase => 1000i64,
        ThrustIntent::Decrease => -1000i64,
        ThrustIntent::Hold => 0i64,
    }
}

pub open spec fn has_engine(e: Entity) -> bool {
    match e.engine {
        Option::Some(_) => true,
        Option::None => false,
    }
}

/// The index of the first entity at or after `i` with an engine, or the
/// store length when there is none.
pub open spec fn first_engine_from(s: Seq<Entity>, i: int) -> int
    decreases s.len() - i,
{
    if i < 0 || i >= s.len() {
        s.len() as int
    } else if has_engine(s[i]) {
        i
    } else {
        first_engine_from(s, i + 1)
    }
}

/// The index of the first ship at or after `i`, or the store length when
/// there is none.
pub open spec fn first_ship_from(s: Seq<Entity>, i: int) -> int
    decreases s.len() - i,
{
    if i < 0 || i >= s.len() {
        s.len() as int
    } else if s[i].kind == EntityKind::Ship {
        i
    } else {
        first_ship_from(s, i + 1)
    }
}

/// The same entity with its engine's acceleration intent replaced.
pub open spec fn with_current_accel(e: Entity, v: i64) -> Entity {
    match e.engine {
        Option::Some(en) => Entity {
            kind: e.kind,
            position: e.position,
            velocity: e.velocity,
            mass: e.mass,
            size: e.size,
            engine: Option::Some(EnginePhysics { max_accel: en.max_accel, current_accel: v }),
            team: e.team,
            lifespan: e.lifespan,
        },
        Option::None => e,
    }
}

/// The store after the input pass: the first entity with an engine (the
/// controlled ship) takes the tick's thrust intent; with no such entity
/// the tick is a no-op.
pub open spec fn spec_set_thrust(s: Seq<Entity>, t: ThrustIntent) -> Seq<Entity> {
    let i = first_engine_from(s, 0);
    if i < s.len() {
        s.update(i, with_current_accel(s[i], thrust_value(t)))
    } else {
        s
    }
}

/// The squared speed of a velocity, in squared milli-units per second.
pub open spec fn speed2(v: Vec2) -> int {
    v.x * v.x + v.y * v.y
}

/// A fired missile's initial velocity: the ship's velocity plus the
/// muzzle boost along the ship's unit direction of travel, pulled into
/// the velocity limits. Meaningful only for a moving ship.
pub open spec fn missile_spawn_velocity(v: Vec2) -> Vec2 {
    let m = sqrt_floor(speed2(v));
    Vec2 {
        x: clamp_int(
            v.x + div_towards_zero((MUZZLE_SPEED as int) * v.x, m),
            -(MAX_VEL as int),
            MAX_VEL as int,
        ) as i64,
        y: clamp_int(
            v.y + div_towards_zero((MUZZLE_SPEED as int) * v.y, m),
            -(MAX_VEL as int),
            MAX_VEL as int,
        ) as i64,
    }
}

/// The fire intent a ship raises: its own position and team, and the
/// boosted missile velocity.
pub open spec fn fire_intent_of(e: Entity) -> SpawnMissileFromShip {
    SpawnMissileFromShip {
        position: Position(e.position),
        velocity: Velocity(missile_spawn_velocity(e.velocity)),
        team: e.team,
    }
}

/// The fire queue after the input pass: a fire request from the first
/// ship queues exactly one intent; with no ship present, or a ship at
/// rest (whose direction of travel is undefined), the request is a
/// no-op.
pub open spec fn spec_fire(
    s: Seq<Entity>,
    q: Seq<SpawnMissileFromShip>,
    fire: bool,
) -> Seq<SpawnMissileFromShip> {
    let si = first_ship_from(s, 0);
    if fire && si < s.len() && s[si].velocity != (Vec2 { x: 0i64, y: 0i64 }) {
        q.push(fire_intent_of(s[si]))
    } else {
        q
    }
}

/// The index of the first entity with an engine, or the length when
/// there is none.
fn find_first_engine(entities: &Vec<Entity>) -> (r: usize)
    ensures
        r as int == first_engine_from(entities@, 0),
        r <= entities@.len(),
        r < entities@.len() ==> has_engine(entities@[r as int]),
{
    let n: usize = entities.len();
    let mut j: usize = 0;
    while j < n
        invariant
            n == entities@.len(),
            j <= n,
            first_engine_from(entities@, 0) == first_engine_from(entities@, j as int),
        decreases n - j,
    {
        let e: Entity = entities[j];
        if matches!(e.engine, Option::Some(_)) {
            return j;
        }
        j = j + 1;
    }
    n
}

/// The index of the first ship, or the length when there is none.
fn find_first_ship(entities: &Vec<Entity>) -> (r: usize)
    ensures
        r as int == first_ship_from(entities@, 0),
        r <= entities@.len(),
        r < entities@.len() ==> entities@[r as int].kind == EntityKind::Ship,
{
    let n: usize = entities.len();
    let mut j: usize = 0;
    while j < n
        invariant
            n == entities@.len(),
            j <= n,
            first_ship_from(entities@, 0) == first_ship_from(entities@, j as int),
        decreases n - j,
    {
        let e: Entity = entities[j];
        if matches!(e.kind, EntityKind::Ship) {
            return j;
        }
        j = j + 1;
    }
    n
}

/// Applies the tick's input intents: the first entity with an engine
/// takes the thrust setting (up `+1`, down `-1`, neither `0`), and a
/// fire request queues one missile intent from the first ship's
/// position, velocity and team, consumed by the gateway next tick.
pub fn connect_ship_acceleration_to_user_input(w: &mut World, thrust: ThrustIntent, fire: bool)
    requires
        wf_world(*old(w)),
    ensures
        final(w).entities@ == spec_set_thrust(old(w).entities@, thrust),
        final(w).missile_intents@ == spec_fire(
            old(w).entities@,
            old(w).missile_intents@,
            fire,
        ),
        final(w).explosion_intents@ == old(w).explosion_intents@,
        wf_world(*final(w)),
{
    let ghost s = w.entities@;
    let n: usize = w.entities.len();

    if fire {
        let ghost s1 = w.entities@;
        let si: usize = find_first_ship(&w.entities);
        if si < n {
            let e: Entity = w.entities[si];
            proof {
                assert(first_ship_from(s1, 0) == si as int);
                assert(wf_entity(s1[si as int]));
            }
            if e.velocity.x != 0 || e.velocity.y != 0 {
                proof {
                    lemma_mul_bounds(e.velocity.x as int, 1_000_000_000, e.velocity.x as int, 1_000_000_000);
                    lemma_mul_bounds(e.velocity.y as int, 1_000_000_000, e.velocity.y as int, 1_000_000_000);
                    lemma_square_nonneg(e.velocity.x as int);
                    lemma_square_nonneg(e.velocity.y as int);
                    assert(e.velocity.x != 0 ==> (e.velocity.x as int) * (e.velocity.x as int)
                        >= 1) by (nonlinear_arith);
                    assert(e.velocity.y != 0 ==> (e.velocity.y as int) * (e.velocity.y as int)
                        >= 1) by (nonlinear_arith);
                }
                let s2: i128 = (e.velocity.x as i128) * (e.velocity.x as i128) + (e.velocity.y
                    as i128) * (e.velocity.y as i128);
                let m_u: u128 = isqrt_u128(s2 as u128);
                proof {
                    assert(1 <= m_u as int && m_u as int <= 2_000_000_000) by (nonlinear_arith)
                        requires
                            0 <= m_u as int,
                            (m_u as int) * (m_u as int) <= s2 as int,
                            (s2 as int) < ((m_u as int) + 1) * ((m_u as int) + 1),
                            1 <= s2 as int,
                            s2 as int <= 2_000_000_000_000_000_000,
                    ;
                    lemma_mul_bounds(MUZZLE_SPEED as int, 45_000, e.velocity.x as int, 1_000_000_000);
                    lemma_mul_bounds(MUZZLE_SPEED as int, 45_000, e.velocity.y as int, 1_000_000_000);
                }
                let m_i: i128 = m_u as i128;
                let bx: i128 = div_i128((MUZZLE_SPEED as i128) * (e.velocity.x as i128), m_i);
                let by: i128 = div_i128((MUZZLE_SPEED as i128) * (e.velocity.y as i128), m_i);
                proof {
                    lemma_div_towards_zero_le(
                        ((MUZZLE_SPEED as i128) * (e.velocity.x as i128)) as int,
                        m_i as int,
                    );
                    lemma_div_towards_zero_le(
                        ((MUZZLE_SPEED as i128) * (e.velocity.y as i128)) as int,
                        m_i as int,
                    );
                }
                let nvx: i64 = clamp_i128((e.velocity.x as i128) + bx, -MAX_VEL, MAX_VEL);
                let nvy: i64 = clamp_i128((e.velocity.y as i128) + by, -MAX_VEL, MAX_VEL);
                let intent = SpawnMissileFromShip {
                    position: Position(e.position),
                    velocity: Velocity(Vec2 { x: nvx, y: nvy }),
                    team: e.team,
                };
                w.missile_intents.push(intent);
                proof {
                    assert(intent == fire_intent_of(s1[si as int]));
                }
            }
        }
    }

    let i: usize = find_first_engine(&w.entities);

    if i < n {
        let val: i64 = match thrust {
            ThrustIntent::Increase => 1000,
            ThrustIntent::Decrease => -1000,
            ThrustIntent::Hold => 0,
        };
        let e: Entity = w.entities[i];
        match e.engine {
            Option::Some(en) => {
                let ne = Entity {
                    kind: e.kind,
                    position: e.position,
                    velocity: e.velocity,
                    mass: e.mass,
                    size: e.size,
                    engine: Option::Some(
                        EnginePhysics { max_accel: en.max_accel, current_accel: val },
                    ),
                    team: e.team,
                    lifespan: e.lifespan,
                };
                let slot = vstd::std_specs::vec::vec_index_mut(&mut w.entities, i);
                *slot = ne;
                proof {
                    assert(first_engine_from(s, 0) == i as int);
                    assert(ne == with_current_accel(s[i as int], thrust_value(thrust)));
                }
            },
            Option::None => {
                proof {
                    assert(has_engine(s[i as int]));
                    assert(false);
                }
            },
        }
    }

}

} // verus!
