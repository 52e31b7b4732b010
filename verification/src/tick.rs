//! One simulation tick: a synchronous, ordered pipeline of passes.
//!
//! Order of a tick: the gateway consumes last tick's queued intents
//! (missiles, then explosions), the input intents are applied, the
//! gravity passes and the propulsion pass update velocities from a
//! consistent snapshot, the integrator then moves every body, the combat
//! resolver tests this tick's final positions, the lifecycle manager
//! expires and bounds-checks what is left unmarked, and one apply pass
//! performs every despawn at once.

use vstd::prelude::*;
use crate::combat::{
    check_if_missile_should_kill_ship, explode_missiles_near_planets, planet_hit_events,
    ship_hit_events, spec_doom_planet_hits, spec_doom_ship_hits,
};
use crate::events::{CreateExplosionEvent, SpawnMissileFromShip};
use crate::gateway::{
    apply_despawns, connect_ship_acceleration_to_user_input, create_explosion, despawn_filter,
    despawn_removed, handle_spawn_missile_event, spawn_room, spawned_explosions,
    spawned_missiles, spec_fire, spec_set_thrust, ThrustIntent,
};
use crate::lifecycle::{
    kill_expired_objects, kill_out_of_bounds_missiles, spec_doom_expired,
    spec_doom_out_of_bounds, wf_viewport, Viewport,
};
use crate::math::{MAX_DT, MAX_TIME};
use crate::physics::{
    apply_engine_acceleration, apply_gravity_among_planets, apply_gravity_from_planets_to_ships,
    move_objects, spec_apply_engine, spec_gravity_among_planets, spec_gravity_to_targets,
    spec_move_objects,
};
use crate::world::{wf_world, Entity, World};

verus! {

/// The store once the gateway has spawned last tick's queued missiles
/// and explosions, in that order, as far as the entity cap has room.
pub open spec fn tick_after_spawns(w: World, now: i64) -> Seq<Entity> {
    let s1 = w.entities@ + spawned_missiles(
        w.missile_intents@,
        now,
        spawn_room(w.entities@, w.missile_intents@.len() as int),
    );
    s1 + spawned_explosions(
        w.explosion_intents@,
        now,
        spawn_room(s1, w.explosion_intents@.len() as int),
    )
}

/// The store after the velocity passes and the integrator: gravity to
/// the non-source bodies, gravity among the planets, self-thrust, then
/// `position += velocity * dt` for every body.
pub open spec fn spec_physics(s: Seq<Entity>, dt: int) -> Seq<Entity> {
    spec_move_objects(
        spec_apply_engine(
            spec_gravity_among_planets(spec_gravity_to_targets(s, dt), dt),
            dt,
        ),
        dt,
    )
}

/// The store of one tick just after the integrator, before any despawn.
pub open spec fn tick_after_physics(
    w: World,
    dt: i64,
    now: i64,
    thrust: ThrustIntent,
) -> Seq<Entity> {
    spec_physics(spec_set_thrust(tick_after_spawns(w, now), thrust), dt as int)
}

/// Every doom flag one tick raises against its post-integrator store:
/// missiles striking sources, hostile ship-missile pairs, expiry, and
/// missiles out of the viewport.
pub open spec fn tick_doomed(s: Seq<Entity>, now: i64, vp: Viewport) -> Seq<bool> {
    spec_doom_out_of_bounds(
        s,
        spec_doom_expired(
            s,
            spec_doom_ship_hits(s, spec_doom_planet_hits(s, Seq::new(s.len(), |i: int| false))),
            now as int,
        ),
        vp,
    )
}

/// The live store a tick leaves behind.
pub open spec fn spec_tick_entities(
    w: World,
    dt: i64,
    now: i64,
    vp: Viewport,
    thrust: ThrustIntent,
) -> Seq<Entity> {
    let s = tick_after_physics(w, dt, now, thrust);
    despawn_filter(s, tick_doomed(s, now, vp), s.len() as int)
}

/// The fire-intent queue a tick leaves for the next one.
pub open spec fn spec_tick_missile_intents(w: World, now: i64, fire: bool) -> Seq<
    SpawnMissileFromShip,
> {
    spec_fire(tick_after_spawns(w, now), Seq::empty(), fire)
}

/// The destruction events one tick reports: every despawned entity, in
/// store order, for animation, score and sound.
pub open spec fn spec_tick_destroyed(
    w: World,
    dt: i64,
    now: i64,
    vp: Viewport,
    thrust: ThrustIntent,
) -> Seq<Entity> {
    let s = tick_after_physics(w, dt, now, thrust);
    despawn_removed(s, tick_doomed(s, now, vp), s.len() as int)
}

/// The explosion-intent queue a tick leaves for the next one: one intent
/// per missile that struck a source, then one per colliding hostile
/// ship-missile pair.
pub open spec fn spec_tick_explosion_intents(
    w: World,
    dt: i64,
    now: i64,
    thrust: ThrustIntent,
) -> Seq<CreateExplosionEvent> {
    let s = tick_after_physics(w, dt, now, thrust);
    planet_hit_events(s) + ship_hit_events(s)
}

/// Advances the world by one tick of `dt` milliseconds at clock `now`,
/// under the tick's input intents and viewport, and reports every entity
/// the tick destroyed.
pub fn tick(
    w: &mut World,
    dt: i64,
    now: i64,
    viewport: &Viewport,
    thrust: ThrustIntent,
    fire: bool,
) -> (destroyed: Vec<Entity>)
    requires
        wf_world(*old(w)),
        0 <= dt <= MAX_DT,
        0 <= now <= MAX_TIME,
        wf_viewport(*viewport),
    ensures
        final(w).entities@ == spec_tick_entities(*old(w), dt, now, *viewport, thrust),
        final(w).missile_intents@ == spec_tick_missile_intents(*old(w), now, fire),
        final(w).explosion_intents@ == spec_tick_explosion_intents(*old(w), dt, now, thrust),
        destroyed@ == spec_tick_destroyed(*old(w), dt, now, *viewport, thrust),
        wf_world(*final(w)),
{
    handle_spawn_missile_event(w, now);
    create_explosion(w, now);
    proof {
        assert(w.entities@ == tick_after_spawns(*old(w), now));
        assert(w.explosion_intents@ =~= Seq::<CreateExplosionEvent>::empty());
        assert(w.missile_intents@ =~= Seq::<SpawnMissileFromShip>::empty());
    }
    connect_ship_acceleration_to_user_input(w, thrust, fire);
    apply_gravity_from_planets_to_ships(w, dt);
    apply_gravity_among_planets(w, dt);
    apply_engine_acceleration(w, dt);
    move_objects(w, dt);
    proof {
        assert(w.entities@ == tick_after_physics(*old(w), dt, now, thrust));
    }
    let n: usize = w.entities.len();
    let mut doomed: Vec<bool> = Vec::new();
    let mut i: usize = 0;
    while i < n
        invariant
            i <= n,
            doomed@.len() == i as int,
            forall|k: int| 0 <= k < i as int ==> #[trigger] doomed@[k] == false,
        decreases n - i,
    {
        doomed.push(false);
        i = i + 1;
    }
    proof {
        assert(doomed@ =~= Seq::new(w.entities@.len(), |k: int| false));
    }
    explode_missiles_near_planets(w, &mut doomed);
    check_if_missile_should_kill_ship(w, &mut doomed);
    kill_expired_objects(w, &mut doomed, now);
    kill_out_of_bounds_missiles(w, &mut doomed, viewport);
    proof {
        assert(doomed@ == tick_doomed(tick_after_physics(*old(w), dt, now, thrust), now, *viewport));
    }
    apply_despawns(w, &doomed)
}

} // verus!
