//! The combat resolver: proximity-triggered destruction, recomputed
//! fresh each tick after the integrator has produced the tick's final
//! positions.
//!
//! Detection never mutates the store. Each pass marks victims in a
//! shared scratch buffer of doom flags and queues explosion intents; a
//! separate apply pass performs every despawn after detection completes,
//! so the store is never mutated while it is iterated.

use vstd::prelude::*;
use crate::components::{Position, Velocity};
use crate::events::CreateExplosionEvent;
use crate::math::{
    clamp_i128, clamp_int, lemma_mul_bounds, lemma_square_nonneg, Vec2, MAX_VEL,
};
use crate::physics::dist2;
use crate::world::{is_gravity_source, wf_world, Entity, EntityKind, World};

verus! {

/// Collision radius per milli-unit of sprite size: sprites are 50 units
/// wide, so the radius is half of `50 * size`.
pub const RADIUS_PER_SIZE: i64 = 25;

/// The collision radius, in milli-units, of a body of the given size.
pub open spec fn radius_of(size: int) -> int {
    (RADIUS_PER_SIZE as int) * size
}

/// Strictly closer than `radius`: a body exactly at the radius is not
/// within it.
pub open spec fn within_radius(a: Vec2, b: Vec2, radius: int) -> bool {
    dist2(a, b) < radius * radius
}

/// Entity `j` is a gravity source whose radius missile `mi` has entered.
pub open spec fn missile_planet_hit(s: Seq<Entity>, mi: int, j: int) -> bool {
    &&& 0 <= j < s.len()
    &&& is_gravity_source(s[j].kind)
    &&& within_radius(s[mi].position, s[j].position, radius_of(s[j].size as int))
}

/// Entity `mi` is a missile inside some gravity source's radius.
pub open spec fn missile_hit_by_source(s: Seq<Entity>, mi: int) -> bool {
    &&& s[mi].kind == EntityKind::Missile
    &&& exists|j: int| missile_planet_hit(s, mi, j)
}

/// Ship `si` and missile `mi` are a hostile pair in collision: differing
/// teams, and the missile strictly inside the ship's radius.
pub open spec fn ship_missile_hit(s: Seq<Entity>, si: int, mi: int) -> bool {
    &&& 0 <= si < s.len()
    &&& 0 <= mi < s.len()
    &&& s[si].kind == EntityKind::Ship
    &&& s[mi].kind == EntityKind::Missile
    &&& s[si].team.0 != s[mi].team.0
    &&& within_radius(s[mi].position, s[si].position, radius_of(s[si].size as int))
}

/// Some hostile missile is inside ship `si`'s radius.
pub open spec fn ship_hit_by_missile(s: Seq<Entity>, si: int) -> bool {
    exists|mi: int| ship_missile_hit(s, si, mi)
}

/// Missile `mi` is inside some hostile ship's radius.
pub open spec fn missile_hits_some_ship(s: Seq<Entity>, mi: int) -> bool {
    exists|si: int| ship_missile_hit(s, si, mi)
}

/// The explosion intent a destroyed missile leaves behind: its own
/// position and velocity at the moment of destruction.
pub open spec fn explosion_event_for(e: Entity) -> CreateExplosionEvent {
    CreateExplosionEvent { position: Position(e.position), velocity: Velocity(e.velocity) }
}

/// The explosion intents of the missile-versus-source pass over the
/// first `n` entities, one per struck missile, in index order.
pub open spec fn planet_hit_events_to(s: Seq<Entity>, n: int) -> Seq<CreateExplosionEvent>
    decreases n,
{
    if n <= 0 {
        Seq::empty()
    } else {
        planet_hit_events_to(s, n - 1) + if missile_hit_by_source(s, n - 1) {
            seq![explosion_event_for(s[n - 1])]
        } else {
            Seq::<CreateExplosionEvent>::empty()
        }
    }
}

/// The explosion intents of the missile-versus-source pass.
pub open spec fn planet_hit_events(s: Seq<Entity>) -> Seq<CreateExplosionEvent> {
    planet_hit_events_to(s, s.len() as int)
}

/// The doom flags after the missile-versus-source pass: every struck
/// missile is marked, everything already marked stays marked.
pub open spec fn spec_doom_planet_hits(s: Seq<Entity>, doomed: Seq<bool>) -> Seq<bool> {
    Seq::new(doomed.len(), |i: int| doomed[i] || missile_hit_by_source(s, i))
}

/// The explosion intent of a ship-versus-missile collision: at the ship
/// position, with the sum of both velocities (pulled into the velocity
/// limits).
pub open spec fn ship_hit_event(s: Seq<Entity>, si: int, mi: int) -> CreateExplosionEvent {
    CreateExplosionEvent {
        position: Position(s[si].position),
        velocity: Velocity(
            Vec2 {
                x: clamp_int(
                    s[si].velocity.x + s[mi].velocity.x,
                    -(MAX_VEL as int),
                    MAX_VEL as int,
                ) as i64,
                y: clamp_int(
                    s[si].velocity.y + s[mi].velocity.y,
                    -(MAX_VEL as int),
                    MAX_VEL as int,
                ) as i64,
            },
        ),
    }
}

/// The explosion intents entity `si` produces against the first `m`
/// missiles, in missile index order.
pub open spec fn ship_row_events_to(s: Seq<Entity>, si: int, m: int) -> Seq<CreateExplosionEvent>
    decreases m,
{
    if m <= 0 {
        Seq::empty()
    } else {
        ship_row_events_to(s, si, m - 1) + if ship_missile_hit(s, si, m - 1) {
            seq![ship_hit_event(s, si, m - 1)]
        } else {
            Seq::<CreateExplosionEvent>::empty()
        }
    }
}

/// The explosion intents of the ship-versus-missile pass over the first
/// `n` candidate ships, one intent per colliding pair, in pair order.
pub open spec fn ship_hit_events_to(s: Seq<Entity>, n: int) -> Seq<CreateExplosionEvent>
    decreases n,
{
    if n <= 0 {
        Seq::empty()
    } else {
        ship_hit_events_to(s, n - 1) + ship_row_events_to(s, n - 1, s.len() as int)
    }
}

/// The explosion intents of the ship-versus-missile pass.
pub open spec fn ship_hit_events(s: Seq<Entity>) -> Seq<CreateExplosionEvent> {
    ship_hit_events_to(s, s.len() as int)
}

/// The doom flags after the ship-versus-missile pass: every ship hit by
/// a hostile missile and every missile that hit a ship are marked.
pub open spec fn spec_doom_ship_hits(s: Seq<Entity>, doomed: Seq<bool>) -> Seq<bool> {
    Seq::new(
        doomed.len(),
        |i: int| doomed[i] || ship_hit_by_missile(s, i) || missile_hits_some_ship(s, i),
    )
}

/// Whether `b` lies strictly within `radius` of `a`, by comparing
/// squared distances exactly.
fn within_radius_ex(a: Vec2, b: Vec2, radius: i64) -> (r: bool)
    requires
        -200_000_000_000 <= a.x - b.x <= 200_000_000_000,
        -200_000_000_000 <= a.y - b.y <= 200_000_000_000,
        0 <= radius <= 100_000_000,
    ensures
        r == within_radius(a, b, radius as int),
{
    let dx: i64 = b.x - a.x;
    let dy: i64 = b.y - a.y;
    proof {
        lemma_mul_bounds(dx as int, 200_000_000_000, dx as int, 200_000_000_000);
        lemma_mul_bounds(dy as int, 200_000_000_000, dy as int, 200_000_000_000);
        lemma_mul_bounds(radius as int, 100_000_000, radius as int, 100_000_000);
        lemma_square_nonneg(dx as int);
        lemma_square_nonneg(dy as int);
    }
    let d2: i128 = (dx as i128) * (dx as i128) + (dy as i128) * (dy as i128);
    let r2: i128 = (radius as i128) * (radius as i128);
    d2 < r2
}

/// Whether some gravity source's radius contains entity `mi`'s position.
fn find_source_hit(entities: &Vec<Entity>, mi: usize) -> (r: bool)
    requires
        forall|k: int| 0 <= k < entities@.len() ==> wf_entity_lite(#[trigger] entities@[k]),
        mi < entities@.len(),
    ensures
        r == exists|j: int| missile_planet_hit(entities@, mi as int, j),
{
    let n: usize = entities.len();
    let mut j: usize = 0;
    while j < n
        invariant
            n == entities@.len(),
            j <= n,
            mi < n,
            forall|k: int| 0 <= k < entities@.len() ==> wf_entity_lite(#[trigger] entities@[k]),
            forall|k: int| 0 <= k < j as int ==> !missile_planet_hit(entities@, mi as int, k),
        decreases n - j,
    {
        let e: Entity = entities[j];
        if matches!(e.kind, EntityKind::Star | EntityKind::Planet) {
            let m: Entity = entities[mi];
            proof {
                lemma_mul_bounds(RADIUS_PER_SIZE as int, 25, e.size as int, 1_000_000);
                assert((RADIUS_PER_SIZE as int) * (e.size as int) >= 0) by (nonlinear_arith)
                    requires
                        RADIUS_PER_SIZE as int == 25,
                        0 <= e.size as int,
                ;
            }
            let radius: i64 = RADIUS_PER_SIZE * e.size;
            if within_radius_ex(m.position, e.position, radius) {
                proof {
                    assert(missile_planet_hit(entities@, mi as int, j as int));
                }
                return true;
            }
        }
        j = j + 1;
    }
    false
}

/// The bounds `within_radius_ex` and the radius product need of an
/// entity.
pub open spec fn wf_entity_lite(e: Entity) -> bool {
    &&& -100_000_000_000 <= e.position.x <= 100_000_000_000
    &&& -100_000_000_000 <= e.position.y <= 100_000_000_000
    &&& -1_000_000_000 <= e.velocity.x <= 1_000_000_000
    &&& -1_000_000_000 <= e.velocity.y <= 1_000_000_000
    &&& 0 <= e.size <= 1_000_000
}

/// A well-formed world is bounded enough for the proximity tests.
pub proof fn lemma_wf_world_lite(w: World)
    requires
        wf_world(w),
    ensures
        forall|k: int| 0 <= k < w.entities@.len() ==> wf_entity_lite(#[trigger] w.entities@[k]),
{
    assert forall|k: int| 0 <= k < w.entities@.len() implies wf_entity_lite(
        #[trigger] w.entities@[k],
    ) by {
        assert(crate::world::wf_entity(w.entities@[k]));
    }
}

/// Tests every missile against every gravity source (first hit wins):
/// a struck missile is marked for destruction and queues exactly one
/// explosion intent at its own position and velocity. Detection reads
/// the store only; the despawns happen in the later apply pass.
pub fn explode_missiles_near_planets(w: &mut World, doomed: &mut Vec<bool>)
    requires
        wf_world(*old(w)),
        old(doomed)@.len() == old(w).entities@.len(),
    ensures
        final(w).entities@ == old(w).entities@,
        final(w).missile_intents@ == old(w).missile_intents@,
        final(w).explosion_intents@ == old(w).explosion_intents@ + planet_hit_events(
            old(w).entities@,
        ),
        final(doomed)@ == spec_doom_planet_hits(old(w).entities@, old(doomed)@),
        wf_world(*final(w)),
{
    let ghost s = w.entities@;
    let ghost d0 = doomed@;
    proof {
        lemma_wf_world_lite(*w);
    }
    let n: usize = w.entities.len();
    let mut i: usize = 0;
    while i < n
        invariant
            w.entities@ == old(w).entities@,
            w.missile_intents@ == old(w).missile_intents@,
            s == w.entities@,
            wf_world(*old(w)),
            n == s.len(),
            i <= n,
            doomed@.len() == n as int,
            forall|k: int| 0 <= k < s.len() ==> wf_entity_lite(#[trigger] s[k]),
            w.explosion_intents@ == old(w).explosion_intents@ + planet_hit_events_to(s, i as int),
            forall|k: int|
                0 <= k < i as int ==> doomed@[k] == (d0[k] || missile_hit_by_source(s, k)),
            forall|k: int| i as int <= k < n as int ==> doomed@[k] == d0[k],
            forall|k: int|
                0 <= k < w.explosion_intents@.len() ==> crate::world::wf_explosion_intent(
                    #[trigger] w.explosion_intents@[k],
                ),
        decreases n - i,
    {
        let e: Entity = w.entities[i];
        if matches!(e.kind, EntityKind::Missile) {
            if find_source_hit(&w.entities, i) {
                let flag = vstd::std_specs::vec::vec_index_mut(doomed, i);
                *flag = true;
                w.explosion_intents.push(
                    CreateExplosionEvent {
                        position: Position(e.position),
                        velocity: Velocity(e.velocity),
                    },
                );
                proof {
                    assert(crate::world::wf_entity(s[i as int]));
                }
            }
        }
        proof {
            assert(w.explosion_intents@ =~= old(w).explosion_intents@ + planet_hit_events_to(
                s,
                i as int + 1,
            ));
        }
        i = i + 1;
    }
    proof {
        assert(doomed@ =~= spec_doom_planet_hits(s, d0));
        assert(w.explosion_intents@ == old(w).explosion_intents@ + planet_hit_events(s));
    }
}

/// Tests every ship against every missile of a differing team: each
/// colliding pair marks both for destruction and queues one explosion
/// intent at the ship position with the summed velocities. The resolver
/// does not deduplicate simultaneous hits; the apply pass destroys each
/// marked entity once.
pub fn check_if_missile_should_kill_ship(w: &mut World, doomed: &mut Vec<bool>)
    requires
        wf_world(*old(w)),
        old(doomed)@.len() == old(w).entities@.len(),
    ensures
        final(w).entities@ == old(w).entities@,
        final(w).missile_intents@ == old(w).missile_intents@,
        final(w).explosion_intents@ == old(w).explosion_intents@ + ship_hit_events(
            old(w).entities@,
        ),
        final(doomed)@ == spec_doom_ship_hits(old(w).entities@, old(doomed)@),
        wf_world(*final(w)),
{
    let ghost s = w.entities@;
    let ghost d0 = doomed@;
    proof {
        lemma_wf_world_lite(*w);
    }
    let n: usize = w.entities.len();
    let mut i: usize = 0;
    while i < n
        invariant
            w.entities@ == old(w).entities@,
            w.missile_intents@ == old(w).missile_intents@,
            s == w.entities@,
            wf_world(*old(w)),
            n == s.len(),
            i <= n,
            doomed@.len() == n as int,
            forall|k: int| 0 <= k < s.len() ==> wf_entity_lite(#[trigger] s[k]),
            w.explosion_intents@ == old(w).explosion_intents@ + ship_hit_events_to(s, i as int),
            forall|k: int|
                0 <= k < n as int ==> doomed@[k] == doomed_after_rows(s, d0, k, i as int),
            forall|k: int|
                0 <= k < w.explosion_intents@.len() ==> crate::world::wf_explosion_intent(
                    #[trigger] w.explosion_intents@[k],
                ),
        decreases n - i,
    {
        let si: Entity = w.entities[i];
        if matches!(si.kind, EntityKind::Ship) {
            proof {
                assert(w.explosion_intents@ =~= old(w).explosion_intents@ + ship_hit_events_to(
                    s,
                    i as int,
                ) + ship_row_events_to(s, i as int, 0));
            }
            let mut j: usize = 0;
            while j < n
                invariant
                    w.entities@ == old(w).entities@,
                    w.missile_intents@ == old(w).missile_intents@,
                    s == w.entities@,
                    wf_world(*old(w)),
                    n == s.len(),
                    i < n,
                    j <= n,
                    si == s[i as int],
                    si.kind == EntityKind::Ship,
                    doomed@.len() == n as int,
                    forall|k: int| 0 <= k < s.len() ==> wf_entity_lite(#[trigger] s[k]),
                    w.explosion_intents@ == old(w).explosion_intents@ + ship_hit_events_to(
                        s,
                        i as int,
                    ) + ship_row_events_to(s, i as int, j as int),
                    forall|k: int|
                        0 <= k < n as int ==> doomed@[k] == doomed_mid_row(
                            s,
                            d0,
                            k,
                            i as int,
                            j as int,
                        ),
                    forall|k: int|
                        0 <= k < w.explosion_intents@.len() ==> crate::world::wf_explosion_intent(
                            #[trigger] w.explosion_intents@[k],
                        ),
                decreases n - j,
            {
                let mj: Entity = w.entities[j];
                if matches!(mj.kind, EntityKind::Missile) && !si.team.same_as(&mj.team) {
                    proof {
                        lemma_mul_bounds(RADIUS_PER_SIZE as int, 25, si.size as int, 1_000_000);
                        assert((RADIUS_PER_SIZE as int) * (si.size as int) >= 0)
                            by (nonlinear_arith)
                            requires
                                RADIUS_PER_SIZE as int == 25,
                                0 <= si.size as int,
                        ;
                    }
                    let radius: i64 = RADIUS_PER_SIZE * si.size;
                    if within_radius_ex(mj.position, si.position, radius) {
                        let flag_ship = vstd::std_specs::vec::vec_index_mut(doomed, i);
                        *flag_ship = true;
                        let flag_missile = vstd::std_specs::vec::vec_index_mut(doomed, j);
                        *flag_missile = true;
                        let vx: i64 = clamp_i128(
                            (si.velocity.x as i128) + (mj.velocity.x as i128),
                            -MAX_VEL,
                            MAX_VEL,
                        );
                        let vy: i64 = clamp_i128(
                            (si.velocity.y as i128) + (mj.velocity.y as i128),
                            -MAX_VEL,
                            MAX_VEL,
                        );
                        w.explosion_intents.push(
                            CreateExplosionEvent {
                                position: Position(si.position),
                                velocity: Velocity(Vec2 { x: vx, y: vy }),
                            },
                        );
                        proof {
                            assert(ship_missile_hit(s, i as int, j as int));
                        }
                    }
                }
                proof {
                    assert forall|k: int| 0 <= k < n as int implies doomed@[k] == doomed_mid_row(
                        s,
                        d0,
                        k,
                        i as int,
                        j as int + 1,
                    ) by {
                        lemma_mid_row_step(s, d0, k, i as int, j as int);
                    }
                    assert(w.explosion_intents@ =~= old(w).explosion_intents@
                        + ship_hit_events_to(s, i as int) + ship_row_events_to(
                        s,
                        i as int,
                        j as int + 1,
                    ));
                }
                j = j + 1;
            }
            proof {
                assert forall|k: int| 0 <= k < n as int implies doomed@[k] == doomed_after_rows(
                    s,
                    d0,
                    k,
                    i as int + 1,
                ) by {
                    lemma_row_end(s, d0, k, i as int);
                }
                assert(w.explosion_intents@ =~= old(w).explosion_intents@ + ship_hit_events_to(
                    s,
                    i as int + 1,
                ));
            }
        } else {
            proof {
                lemma_row_empty_for_non_ship(s, i as int, n as int);
                assert forall|k: int| 0 <= k < n as int implies doomed@[k] == doomed_after_rows(
                    s,
                    d0,
                    k,
                    i as int + 1,
                ) by {
                    lemma_row_skip(s, d0, k, i as int);
                    assert(doomed_mid_row(s, d0, k, i as int, 0) == doomed_after_rows(
                        s,
                        d0,
                        k,
                        i as int,
                    ));
                }
                assert(w.explosion_intents@ =~= old(w).explosion_intents@ + ship_hit_events_to(
                    s,
                    i as int + 1,
                ));
            }
        }
        i = i + 1;
    }
    proof {
        assert forall|k: int| 0 <= k < n as int implies doomed@[k] == (d0[k] || ship_hit_by_missile(
            s,
            k,
        ) || missile_hits_some_ship(s, k)) by {
            lemma_rows_complete(s, d0, k);
        }
        assert(doomed@ =~= spec_doom_ship_hits(s, d0));
        assert(w.explosion_intents@ == old(w).explosion_intents@ + ship_hit_events(s));
    }
}

/// The doom flag of entity `k` once the ship-versus-missile pass has
/// processed every candidate ship below `i`.
pub open spec fn doomed_after_rows(s: Seq<Entity>, d0: Seq<bool>, k: int, i: int) -> bool {
    ||| d0[k]
    ||| (k < i && ship_hit_by_missile(s, k))
    ||| exists|si: int| 0 <= si < i && ship_missile_hit(s, si, k)
}

/// The doom flag of entity `k` while ship `i`'s row has processed the
/// missiles below `j`.
pub open spec fn doomed_mid_row(s: Seq<Entity>, d0: Seq<bool>, k: int, i: int, j: int) -> bool {
    ||| doomed_after_rows(s, d0, k, i)
    ||| (k == i && exists|mi: int| 0 <= mi < j && ship_missile_hit(s, i, mi))
    ||| (k < j && ship_missile_hit(s, i, k))
}

/// Starting ship `i`'s row changes no flag.
proof fn lemma_row_skip(s: Seq<Entity>, d0: Seq<bool>, k: int, i: int)
    requires
        0 <= i < s.len(),
        s[i].kind != EntityKind::Ship,
    ensures
        doomed_after_rows(s, d0, k, i) == doomed_after_rows(s, d0, k, i + 1),
{
    if doomed_after_rows(s, d0, k, i + 1) && !doomed_after_rows(s, d0, k, i) {
        if k < i + 1 && ship_hit_by_missile(s, k) {
            assert(k < i || k == i);
            assert(k == i);
            let mi = choose|mi: int| ship_missile_hit(s, k, mi);
            assert(s[k].kind == EntityKind::Ship);
            assert(false);
        } else {
            let si = choose|si: int| 0 <= si < i + 1 && ship_missile_hit(s, si, k);
            assert(0 <= si < i || si == i);
            if si == i {
                assert(s[i].kind == EntityKind::Ship);
            }
            assert(false);
        }
    }
}

/// One inner step of a ship's row: processing missile candidate `j`
/// extends the flags by exactly the pair `(i, j)`.
proof fn lemma_mid_row_step(s: Seq<Entity>, d0: Seq<bool>, k: int, i: int, j: int)
    requires
        0 <= i < s.len(),
        0 <= j < s.len(),
    ensures
        doomed_mid_row(s, d0, k, i, j + 1) == (doomed_mid_row(s, d0, k, i, j) || (ship_missile_hit(
            s,
            i,
            j,
        ) && (k == i || k == j))),
{
    if doomed_mid_row(s, d0, k, i, j + 1) {
        if !doomed_mid_row(s, d0, k, i, j) {
            if k == i && exists|mi: int| 0 <= mi < j + 1 && ship_missile_hit(s, i, mi) {
                let mi = choose|mi: int| 0 <= mi < j + 1 && ship_missile_hit(s, i, mi);
                if mi < j {
                    assert(doomed_mid_row(s, d0, k, i, j));
                } else {
                    assert(mi == j);
                }
            }
        }
    }
    if ship_missile_hit(s, i, j) && k == i {
        assert(0 <= j < j + 1 && ship_missile_hit(s, i, j));
        assert(doomed_mid_row(s, d0, k, i, j + 1));
    }
    if ship_missile_hit(s, i, j) && k == j {
        assert(doomed_mid_row(s, d0, k, i, j + 1));
    }
}

/// Finishing ship `i`'s row leaves exactly the flags of the pass having
/// processed every ship below `i + 1`.
proof fn lemma_row_end(s: Seq<Entity>, d0: Seq<bool>, k: int, i: int)
    requires
        0 <= i < s.len(),
    ensures
        doomed_mid_row(s, d0, k, i, s.len() as int) == doomed_after_rows(s, d0, k, i + 1),
{
    let n = s.len() as int;
    if doomed_mid_row(s, d0, k, i, n) {
        if k == i && exists|mi: int| 0 <= mi < n && ship_missile_hit(s, i, mi) {
            let mi = choose|mi: int| 0 <= mi < n && ship_missile_hit(s, i, mi);
            assert(ship_hit_by_missile(s, k));
            assert(doomed_after_rows(s, d0, k, i + 1));
        }
        if k < n && ship_missile_hit(s, i, k) {
            assert(0 <= i < i + 1 && ship_missile_hit(s, i, k));
            assert(doomed_after_rows(s, d0, k, i + 1));
        }
    }
    if doomed_after_rows(s, d0, k, i + 1) && !doomed_after_rows(s, d0, k, i) {
        if k < i + 1 && ship_hit_by_missile(s, k) {
            if k == i {
                let mi = choose|mi: int| ship_missile_hit(s, k, mi);
                assert(0 <= mi < n && ship_missile_hit(s, i, mi));
                assert(doomed_mid_row(s, d0, k, i, n));
            }
        } else {
            let si = choose|si: int| 0 <= si < i + 1 && ship_missile_hit(s, si, k);
            if si == i {
                assert(0 <= k < n);
                assert(doomed_mid_row(s, d0, k, i, n));
            }
        }
    }
}

/// A non-ship entity's row produces no events.
proof fn lemma_row_empty_for_non_ship(s: Seq<Entity>, i: int, m: int)
    requires
        0 <= i < s.len(),
        0 <= m <= s.len(),
        s[i].kind != EntityKind::Ship,
    ensures
        ship_row_events_to(s, i, m) == Seq::<CreateExplosionEvent>::empty(),
    decreases m,
{
    if m > 0 {
        lemma_row_empty_for_non_ship(s, i, m - 1);
        assert(!ship_missile_hit(s, i, m - 1));
        assert(ship_row_events_to(s, i, m) =~= Seq::<CreateExplosionEvent>::empty());
    } else {
        assert(ship_row_events_to(s, i, m) =~= Seq::<CreateExplosionEvent>::empty());
    }
}

/// After the last row, the flags are exactly the pass's contract.
proof fn lemma_rows_complete(s: Seq<Entity>, d0: Seq<bool>, k: int)
    ensures
        doomed_after_rows(s, d0, k, s.len() as int) == (d0[k] || (0 <= k < s.len()
            && ship_hit_by_missile(s, k)) || missile_hits_some_ship(s, k)),
{
    let n = s.len() as int;
    if missile_hits_some_ship(s, k) {
        let si = choose|si: int| ship_missile_hit(s, si, k);
        assert(0 <= si < n && ship_missile_hit(s, si, k));
        assert(doomed_after_rows(s, d0, k, n));
    }
    if doomed_after_rows(s, d0, k, n) && !d0[k] && !(0 <= k < n && ship_hit_by_missile(s, k)) {
        let si = choose|si: int| 0 <= si < n && ship_missile_hit(s, si, k);
        assert(missile_hits_some_ship(s, k));
    }
}

} // verus!

