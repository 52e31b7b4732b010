//! Fixed-point scalar and vector arithmetic for the simulation.
//!
//! Every length, velocity and engine setting is an `i64` count of
//! milli-units (`SCALE` subdivisions per world unit), timestamps and
//! durations are milliseconds, and masses are whole kilograms. All
//! intermediate products are taken in `i128`, so the world limits below
//! are chosen to keep every product of the gravity formula inside `i128`.

use vstd::prelude::*;
use vstd::arithmetic::div_mod::{lemma_div_nonincreasing, lemma_div_pos_is_pos};

verus! {

/// Fixed-point subdivisions per world unit.
pub const SCALE: i64 = 1000;

/// Largest coordinate magnitude per axis, in milli-units (the world edge).
pub const MAX_COORD: i64 = 100_000_000_000;

/// Largest velocity magnitude per axis, in milli-units per second.
pub const MAX_VEL: i64 = 1_000_000_000;

/// Largest mass of a body, in kilograms.
pub const MAX_MASS: i64 = 10_000_000_000_000_000;

/// Largest display size of a body, in milli-units of sprite scale.
pub const MAX_SIZE: i64 = 1_000_000;

/// Largest engine acceleration setting, in milli-units.
pub const MAX_ENGINE_ACCEL: i64 = 1_000_000;

/// Largest timestamp and largest lifespan duration, in milliseconds.
pub const MAX_TIME: i64 = 1_000_000_000_000_000;

/// Largest single tick, in milliseconds.
pub const MAX_DT: i64 = 1_000_000;

/// Largest number of simultaneously live entities.
pub const MAX_ENTITIES: usize = 4096;

/// A 2D vector of fixed-point milli-unit coordinates.
#[derive(Clone, Copy, Debug, PartialEq, Eq, Structural)]
pub struct Vec2 {
    pub x: i64,
    pub y: i64,
}

impl Vec2 {
    pub fn new(x: i64, y: i64) -> (v: Vec2)
        ensures
            v == (Vec2 { x, y }),
    {
        Vec2 { x, y }
    }

    pub fn zero() -> (v: Vec2)
        ensures
            v == (Vec2 { x: 0i64, y: 0i64 }),
    {
        Vec2 { x: 0, y: 0 }
    }
}

/// `x` pulled into the band `[lo, hi]`.
pub open spec fn clamp_int(x: int, lo: int, hi: int) -> int {
    if x < lo {
        lo
    } else if x > hi {
        hi
    } else {
        x
    }
}

/// Division rounding towards zero (the semantics of hardware division),
/// defined for positive divisors. Rounding towards zero keeps the
/// operation odd in its dividend, which the symmetry law of the gravity
/// solver depends on.
pub open spec fn div_towards_zero(a: int, b: int) -> int {
    if a >= 0 {
        a / b
    } else {
        -((-a) / b)
    }
}

/// `r` is the integer square root of `n`, rounded down.
pub open spec fn is_sqrt_floor(n: int, r: int) -> bool {
    0 <= r && r * r <= n && n < (r + 1) * (r + 1)
}

/// The integer square root of `n`, rounded down.
pub open spec fn sqrt_floor(n: int) -> int {
    choose|r: int| is_sqrt_floor(n, r)
}

pub open spec fn cube(x: int) -> int {
    x * x * x
}

/// Two integers that both satisfy the square-root bracketing are equal,
/// so anything bracketed is the `sqrt_floor`.
pub proof fn lemma_sqrt_floor_unique(n: int, r: int)
    requires
        is_sqrt_floor(n, r),
    ensures
        sqrt_floor(n) == r,
{
    assert(is_sqrt_floor(n, sqrt_floor(n)));
    let c = sqrt_floor(n);
    if c < r {
        assert((c + 1) * (c + 1) <= r * r) by (nonlinear_arith)
            requires
                0 <= c + 1 <= r,
        ;
    }
    if r < c {
        assert((r + 1) * (r + 1) <= c * c) by (nonlinear_arith)
            requires
                0 <= r + 1 <= c,
        ;
    }
}

/// Every nonnegative integer has an integer square root, so
/// `sqrt_floor` is bracketed on every nonnegative argument.
pub proof fn lemma_sqrt_floor_exists(n: int)
    requires
        0 <= n,
    ensures
        is_sqrt_floor(n, sqrt_floor(n)),
    decreases n,
{
    if n == 0 {
        assert(is_sqrt_floor(0, 0));
    } else {
        lemma_sqrt_floor_exists(n - 1);
        let r = sqrt_floor(n - 1);
        if n < (r + 1) * (r + 1) {
            assert(is_sqrt_floor(n, r));
        } else {
            assert(is_sqrt_floor(n, r + 1)) by (nonlinear_arith)
                requires
                    is_sqrt_floor(n - 1, r),
                    (r + 1) * (r + 1) <= n,
            ;
        }
    }
}

/// The product of two bounded factors is bounded by the product of the
/// bounds.
pub proof fn lemma_mul_bounds(a: int, amax: int, b: int, bmax: int) by (nonlinear_arith)
    requires
        0 <= amax,
        0 <= bmax,
        -amax <= a <= amax,
        -bmax <= b <= bmax,
    ensures
        -(amax * bmax) <= a * b <= amax * bmax,
{
}

/// A square is never negative.
pub proof fn lemma_square_nonneg(a: int) by (nonlinear_arith)
    ensures
        0 <= a * a,
{
}

/// Division towards zero never grows the magnitude of the dividend.
pub proof fn lemma_div_towards_zero_le(a: int, b: int)
    requires
        0 < b,
    ensures
        -a <= div_towards_zero(a, b) <= a || a <= div_towards_zero(a, b) <= -a,
        a >= 0 ==> 0 <= div_towards_zero(a, b) <= a,
        a < 0 ==> a <= div_towards_zero(a, b) <= 0,
{
    if a >= 0 {
        lemma_div_nonincreasing(a, b);
        lemma_div_pos_is_pos(a, b);
    } else {
        lemma_div_nonincreasing(-a, b);
        lemma_div_pos_is_pos(-a, b);
    }
}

/// Division towards zero is odd in its dividend.
pub proof fn lemma_div_towards_zero_odd(a: int, b: int)
    requires
        0 < b,
    ensures
        div_towards_zero(-a, b) == -div_towards_zero(a, b),
{
    if a == 0 {
        assert(div_towards_zero(0, b) == 0) by {
            lemma_div_pos_is_pos(0, b);
            lemma_div_nonincreasing(0, b);
        }
    }
}

/// `x` pulled into the band `[lo, hi]`.
pub fn clamp_i128(x: i128, lo: i64, hi: i64) -> (r: i64)
    requires
        lo <= hi,
    ensures
        r as int == clamp_int(x as int, lo as int, hi as int),
{
    if x < lo as i128 {
        lo
    } else if x > hi as i128 {
        hi
    } else {
        x as i64
    }
}

/// Hardware-style division of `i128` values, rounding towards zero.
pub fn div_i128(a: i128, b: i128) -> (r: i128)
    requires
        0 < b,
        i128::MIN < a,
    ensures
        r as int == div_towards_zero(a as int, b as int),
{
    if a >= 0 {
        let q: u128 = (a as u128) / (b as u128);
        proof {
            lemma_div_nonincreasing(a as int, b as int);
            lemma_div_pos_is_pos(a as int, b as int);
        }
        q as i128
    } else {
        let m: u128 = (-a) as u128;
        let q: u128 = m / (b as u128);
        proof {
            lemma_div_nonincreasing(m as int, b as int);
            lemma_div_pos_is_pos(m as int, b as int);
        }
        -(q as i128)
    }
}

/// The integer square root of `n`, rounded down, by bisection.
pub fn isqrt_u128(n: u128) -> (r: u128)
    ensures
        is_sqrt_floor(n as int, r as int),
        r as int == sqrt_floor(n as int),
{
    let mut lo: u128 = 0;
    let mut hi: u128 = 0x1_0000_0000_0000_0000;
    proof {
        assert((hi as int) * (hi as int) > n as int) by (nonlinear_arith)
            requires
                hi as int == 0x1_0000_0000_0000_0000int,
                n as int <= u128::MAX as int,
        ;
    }
    while lo + 1 < hi
        invariant
            lo < hi,
            hi <= 0x1_0000_0000_0000_0000,
            (lo as int) * (lo as int) <= n as int,
            (n as int) < (hi as int) * (hi as int),
        decreases hi - lo,
    {
        let mid: u128 = lo + (hi - lo) / 2;
        proof {
            assert((mid as int) * (mid as int) <= 0xffff_ffff_ffff_ffff_0000_0000_0000_0000int)
                by (nonlinear_arith)
                requires
                    0 <= mid as int <= 0xffff_ffff_ffff_ffffint,
            ;
        }
        let sq: u128 = mid * mid;
        if sq <= n {
            lo = mid;
        } else {
            hi = mid;
        }
    }
    proof {
        lemma_sqrt_floor_unique(n as int, lo as int);
    }
    lo
}

/// The lower bound wins over the upper where they cross:
/// `lower.max(upper.min(x))`.
pub open spec fn bound_spec(lower: int, x: int, upper: int) -> int {
    let m = if x < upper {
        x
    } else {
        upper
    };
    if m < lower {
        lower
    } else {
        m
    }
}

/// Pulls `num_to_bound` into the band between the two bounds, the lower
/// bound winning where they cross.
pub fn bound(lower_bound: i64, num_to_bound: i64, upper_bound: i64) -> (r: i64)
    ensures
        r as int == bound_spec(lower_bound as int, num_to_bound as int, upper_bound as int),
{
    let m: i64 = if num_to_bound < upper_bound {
        num_to_bound
    } else {
        upper_bound
    };
    if m < lower_bound {
        lower_bound
    } else {
        m
    }
}

} // verus!

