//! The lifecycle manager: expiry by time-to-live, and the out-of-bounds
//! check for missiles against the camera viewport. Both passes only mark
//! doom flags; the apply pass performs the despawns, and an entity
//! already marked this tick is not re-tested.

use vstd::prelude::*;
use crate::math::{Vec2, MAX_COORD};
use crate::world::{wf_entity, wf_world, Entity, EntityKind, World};

verus! {

/// The camera-visible rectangle, supplied once per tick by the windowing
/// layer: centered on the player ship and scaled by zoom.
#[derive(Debug, Clone, Copy)]
pub struct Viewport {
    pub center: Vec2,
    pub half_width: i64,
    pub half_height: i64,
}

/// A viewport whose numbers fit the world limits.
pub open spec fn wf_viewport(v: Viewport) -> bool {
    &&& -MAX_COORD <= v.center.x <= MAX_COORD
    &&& -MAX_COORD <= v.center.y <= MAX_COORD
    &&& 0 <= v.half_width <= MAX_COORD
    &&& 0 <= v.half_height <= MAX_COORD
}

/// Whether an entity's time-to-live has run out at clock `now`; an
/// entity without a lifespan never expires.
pub open spec fn entity_expired(e: Entity, now: int) -> bool {
    match e.lifespan {
        Option::Some(l) => l.expired(now),
        Option::None => false,
    }
}

/// The doom flags after the expiry pass.
pub open spec fn spec_doom_expired(s: Seq<Entity>, doomed: Seq<bool>, now: int) -> Seq<bool> {
    Seq::new(doomed.len(), |i: int| doomed[i] || entity_expired(s[i], now))
}

/// `p` lies outside the viewport on some axis (the boundary itself
/// counts as outside).
pub open spec fn out_of_bounds(p: Vec2, v: Viewport) -> bool {
    !(-v.half_width < p.x - v.center.x && p.x - v.center.x < v.half_width && -v.half_height
        < p.y - v.center.y && p.y - v.center.y < v.half_height)
}

/// The doom flags after the out-of-bounds pass: only missiles are
/// despawned for leaving the viewport.
pub open spec fn spec_doom_out_of_bounds(
    s: Seq<Entity>,
    doomed: Seq<bool>,
    v: Viewport,
) -> Seq<bool> {
    Seq::new(
        doomed.len(),
        |i: int| doomed[i] || (s[i].kind == EntityKind::Missile && out_of_bounds(s[i].position, v)),
    )
}

/// Marks every entity whose `created_at + ttl` the clock has passed;
/// expiry is evaluated once per tick against the supplied clock, so it
/// depends on `now` alone and never on the tick length. Entities already
/// marked this tick are not re-tested.
pub fn kill_expired_objects(w: &World, doomed: &mut Vec<bool>, now: i64)
    requires
        wf_world(*w),
        old(doomed)@.len() == w.entities@.len(),
    ensures
        final(doomed)@ == spec_doom_expired(w.entities@, old(doomed)@, now as int),
{
    let ghost s = w.entities@;
    let ghost d0 = doomed@;
    let n: usize = w.entities.len();
    let mut out: Vec<bool> = Vec::new();
    let mut i: usize = 0;
    while i < n
        invariant
            wf_world(*w),
            s == w.entities@,
            d0 == doomed@,
            d0.len() == n as int,
            n == s.len(),
            i <= n,
            out@.len() == i as int,
            forall|k: int|
                0 <= k < i as int ==> out@[k] == (d0[k] || entity_expired(s[k], now as int)),
        decreases n - i,
    {
        let was: bool = doomed[i];
        if was {
            out.push(true);
        } else {
            let e: Entity = w.entities[i];
            proof {
                assert(wf_entity(s[i as int]));
            }
            let expired_now: bool = match e.lifespan {
                Option::Some(l) => l.created_on + l.lifespan < now,
                Option::None => false,
            };
            out.push(expired_now);
        }
        i = i + 1;
    }
    *doomed = out;
    proof {
        assert(doomed@ =~= spec_doom_expired(s, d0, now as int));
    }
}

/// Despawns any missile whose position lies outside the camera viewport
/// on any axis. Entities already marked this tick are not re-tested.
pub fn kill_out_of_bounds_missiles(w: &World, doomed: &mut Vec<bool>, viewport: &Viewport)
    requires
        wf_world(*w),
        wf_viewport(*viewport),
        old(doomed)@.len() == w.entities@.len(),
    ensures
        final(doomed)@ == spec_doom_out_of_bounds(w.entities@, old(doomed)@, *viewport),
{
    let ghost s = w.entities@;
    let ghost d0 = doomed@;
    let n: usize = w.entities.len();
    let mut out: Vec<bool> = Vec::new();
    let mut i: usize = 0;
    while i < n
        invariant
            wf_world(*w),
            wf_viewport(*viewport),
            s == w.entities@,
            d0 == doomed@,
            d0.len() == n as int,
            n == s.len(),
            i <= n,
            out@.len() == i as int,
            forall|k: int|
                0 <= k < i as int ==> out@[k] == (d0[k] || (s[k].kind == EntityKind::Missile
                    && out_of_bounds(s[k].position, *viewport))),
        decreases n - i,
    {
        let was: bool = doomed[i];
        if was {
            out.push(true);
        } else {
            let e: Entity = w.entities[i];
            if matches!(e.kind, EntityKind::Missile) {
                proof {
                    assert(wf_entity(s[i as int]));
                }
                let rx: i64 = e.position.x - viewport.center.x;
                let ry: i64 = e.position.y - viewport.center.y;
                let inside: bool = -viewport.half_width < rx && rx < viewport.half_width
                    && -viewport.half_height < ry && ry < viewport.half_height;
                out.push(!inside);
            } else {
                out.push(false);
            }
        }
        i = i + 1;
    }
    *doomed = out;
    proof {
        assert(doomed@ =~= spec_doom_out_of_bounds(s, d0, *viewport));
    }
}

} // verus!
