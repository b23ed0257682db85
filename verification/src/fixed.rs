//! Fixed-point scalars for the world model.
//!
//! Distances and velocities are `i64` values scaled by [`UNIT`] per world
//! unit; angles are `i64` values scaled by 1,000,000 per radian, so that
//! [`HALF_TURN`] stands for pi. All helpers here are total over their stated
//! input ranges and come with exact contracts.

use vstd::prelude::*;

verus! {

use vstd::arithmetic::div_mod::{
    lemma_fundamental_div_mod,
    lemma_fundamental_div_mod_converse,
    lemma_div_is_ordered,
    lemma_div_multiples_vanish,
    lemma_div_nonincreasing,
    lemma_div_pos_is_pos,
    lemma_mod_bound,
};
use vstd::arithmetic::mul::lemma_mul_is_commutative;

/// Fixed-point scale: 1000 per world unit (also per unit of velocity and of
/// the trigonometric samples fed to the controller).
pub const UNIT: i64 = 1000;

/// Angle scale: pi in micro-radians.
pub const HALF_TURN: i64 = 3_141_593;

/// A full turn in micro-radians (exactly `2 * HALF_TURN`).
pub const FULL_TURN: i64 = 6_283_186;

/// Largest coordinate magnitude the world model admits (one million world
/// units).
pub const POS_LIMIT: i64 = 1_000_000_000;

/// Truncating division (rounds toward zero), the rounding of Rust's `/` on
/// signed integers; Verus's spec `/` is Euclidean, so the negative case is
/// spelled out.
pub open spec fn tdiv(a: int, b: int) -> int {
    if a >= 0 {
        a / b
    } else {
        -((-a) / b)
    }
}

/// Clamp `v` into `[lo, hi]`.
pub open spec fn clamp_spec(v: int, lo: int, hi: int) -> int {
    if v < lo {
        lo
    } else if v > hi {
        hi
    } else {
        v
    }
}

/// Truncating division on machine words, for a positive divisor. The result
/// never grows in magnitude, which downstream overflow reasoning leans on.
pub fn tdiv64(a: i64, b: i64) -> (q: i64)
    requires
        b > 0,
        a > i64::MIN,
    ensures
        q == tdiv(a as int, b as int),
        a >= 0 ==> 0 <= q <= a,
        a < 0 ==> a <= q <= 0,
{
    if a >= 0 {
        let q = (a as u64) / (b as u64);
        proof {
            lemma_div_nonincreasing(a as int, b as int);
            lemma_div_pos_is_pos(a as int, b as int);
        }
        q as i64
    } else {
        let na = (-a) as u64;
        let q = na / (b as u64);
        proof {
            lemma_div_nonincreasing(na as int, b as int);
            lemma_div_pos_is_pos(na as int, b as int);
        }
        -(q as i64)
    }
}

/// Floor division on machine words, for a positive divisor; matches Verus's
/// spec `/` (Euclidean division), which floors for positive divisors.
pub fn fdiv64(a: i64, b: i64) -> (q: i64)
    requires
        b > 0,
        i64::MIN + b < a,
    ensures
        q == a as int / b as int,
        a >= 0 ==> 0 <= q <= a,
        a < 0 ==> a <= q <= 0,
{
    if a >= 0 {
        let q = (a as u64) / (b as u64);
        proof {
            lemma_div_nonincreasing(a as int, b as int);
            lemma_div_pos_is_pos(a as int, b as int);
        }
        q as i64
    } else {
        let na = (-a) as u64;
        let bu = b as u64;
        let qc = (na + bu - 1) / bu;
        proof {
            let ai = a as int;
            let bi = b as int;
            lemma_fundamental_div_mod(ai, bi);
            lemma_mod_bound(ai, bi);
            let q = ai / bi;
            let r = ai % bi;
            // a == b*q + r with 0 <= r < b; hence -a + b - 1 == (-q)*b + (b-1-r)
            // with the remainder again in range, so the adjusted quotient is -q.
            assert((-ai + bi - 1 == (-q) * bi + (bi - 1 - r)) && -q <= -ai + bi - 1)
                by (nonlinear_arith)
                requires
                    ai == bi * q + r,
                    0 <= r < bi,
                    ai < 0,
                    bi > 0,
            ;
            lemma_fundamental_div_mod_converse(-ai + bi - 1, bi, -q, bi - 1 - r);
            lemma_div_nonincreasing((na + bu - 1) as int, bi);
            // The adjusted quotient never exceeds -a, so the result stays
            // within [a, 0].
            lemma_fundamental_div_mod_converse((na as int) * bi + bi - 1, bi, na as int, bi - 1);
            assert(-ai + bi - 1 <= (na as int) * bi + bi - 1) by (nonlinear_arith)
                requires
                    na == -ai,
                    na >= 0,
                    bi >= 1,
            ;
            lemma_div_is_ordered(-ai + bi - 1, (na as int) * bi + bi - 1, bi);
            lemma_div_pos_is_pos(-ai + bi - 1, bi);
        }
        -(qc as i64)
    }
}

/// Dividing by `b` shrinks a bound of the form `m * b` to `m`.
pub proof fn lemma_tdiv_shrinks(a: int, b: int, m: int)
    requires
        b > 0,
        0 <= m,
        -(m * b) <= a <= m * b,
    ensures
        -m <= tdiv(a, b) <= m,
{
    lemma_mul_is_commutative(m, b);
    lemma_div_multiples_vanish(m, b);
    if a >= 0 {
        lemma_div_is_ordered(a, m * b, b);
        lemma_div_pos_is_pos(a, b);
    } else {
        lemma_div_is_ordered(-a, m * b, b);
        lemma_div_pos_is_pos(-a, b);
    }
}

/// Clamp on machine words.
pub fn clamp64(v: i64, lo: i64, hi: i64) -> (r: i64)
    requires
        lo <= hi,
    ensures
        r == clamp_spec(v as int, lo as int, hi as int),
{
    if v < lo {
        lo
    } else if v > hi {
        hi
    } else {
        v
    }
}

/// The wrap of an angle into the principal range `(-HALF_TURN, HALF_TURN]`.
pub open spec fn wrapped(a: int) -> int {
    let m = a % (FULL_TURN as int);
    if m > HALF_TURN {
        m - FULL_TURN
    } else {
        m
    }
}

/// The wrap of any angle lies in the principal range and differs from the
/// input by a whole number of turns.
pub proof fn lemma_wrapped_congruent(a: int)
    ensures
        -(HALF_TURN as int) < wrapped(a) <= HALF_TURN as int,
        (a - wrapped(a)) % (FULL_TURN as int) == 0,
{
    let f = FULL_TURN as int;
    let m = a % f;
    lemma_fundamental_div_mod(a, f);
    let k = a / f;
    if m > HALF_TURN {
        lemma_fundamental_div_mod_converse(a - wrapped(a), f, k + 1, 0);
    } else {
        lemma_fundamental_div_mod_converse(a - wrapped(a), f, k, 0);
    }
}

/// An angle already in the principal range wraps to itself.
pub proof fn lemma_wrapped_identity(a: int)
    requires
        -HALF_TURN < a <= HALF_TURN,
    ensures
        wrapped(a) == a,
{
    let f = FULL_TURN as int;
    if a >= 0 {
        lemma_fundamental_div_mod_converse(a, f, 0, a);
    } else {
        lemma_fundamental_div_mod_converse(a, f, -1, a + f);
    }
}

/// Truncating division of zero is zero.
pub proof fn lemma_tdiv_zero(b: int)
    requires
        b > 0,
    ensures
        tdiv(0, b) == 0,
{
    lemma_fundamental_div_mod_converse(0, b, 0, 0);
}

/// Wrap an angle into the principal range `(-HALF_TURN, HALF_TURN]`, keeping
/// it congruent to the input modulo a full turn.
pub fn wrap_angle(a: i64) -> (r: i64)
    requires
        a > i64::MIN,
    ensures
        r == wrapped(a as int),
        -HALF_TURN < r <= HALF_TURN,
        (a - r) % (FULL_TURN as int) == 0,
{
    let f = FULL_TURN as u64;
    let m: i64 = if a >= 0 {
        ((a as u64) % f) as i64
    } else {
        let rm = ((-a) as u64) % f;
        proof {
            let n = (-a) as int;
            lemma_fundamental_div_mod(n, f as int);
            let q = n / (f as int);
            if rm == 0 {
                lemma_fundamental_div_mod_converse(a as int, f as int, -q, 0);
            } else {
                lemma_fundamental_div_mod_converse(
                    a as int,
                    f as int,
                    -q - 1,
                    (f - rm) as int,
                );
            }
        }
        if rm == 0 {
            0
        } else {
            (f - rm) as i64
        }
    };
    proof {
        lemma_wrapped_congruent(a as int);
    }
    if m > HALF_TURN {
        m - FULL_TURN
    } else {
        m
    }
}

/// A world-space point or displacement, each coordinate in fixed point.
#[derive(Clone, Copy, Debug, PartialEq, Eq, Structural)]
pub struct Vec3 {
    pub x: i64,
    pub y: i64,
    pub z: i64,
}

impl Vec3 {
    /// All coordinates within the representable world.
    pub open spec fn in_world(self) -> bool {
        &&& -POS_LIMIT <= self.x <= POS_LIMIT
        &&& -POS_LIMIT <= self.y <= POS_LIMIT
        &&& -POS_LIMIT <= self.z <= POS_LIMIT
    }
}

} // verus!
