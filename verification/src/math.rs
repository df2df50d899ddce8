//! Fixed-point parameters and the integer arithmetic the controller rests on:
//! a floor square root and a few facts about floor and ceiling division.

use vstd::prelude::*;

verus! {

/// Number of fixed-point units in one whole unit of time, length or speed.
pub const SCALE: i64 = 1_000_000;

/// Largest admissible frame duration, in fixed-point units.
pub const TIME_BOUND: i64 = 1_000_000_000;

/// Largest admissible magnitude of a velocity or acceleration coordinate,
/// in fixed-point units.
pub const COMP_BOUND: i64 = 1_000_000_000;

/// Largest admissible particle radius, in fixed-point units.
pub const RADIUS_BOUND: i64 = 1_000_000_000_000;

/// Largest magnitude a look-ahead velocity coordinate can reach:
/// `COMP_BOUND * SCALE + COMP_BOUND * TIME_BOUND`.
pub const LOOK_MAX: i64 = 1_001_000_000_000_000_000;

/// Floor of the square root of `n` (zero for negative `n`), defined by
/// stepping the argument down one at a time.
pub open spec fn sqrt_floor(n: int) -> int
    decreases n,
{
    if n <= 0 {
        0
    } else {
        let r = sqrt_floor(n - 1);
        if (r + 1) * (r + 1) <= n {
            r + 1
        } else {
            r
        }
    }
}

/// The floor square root is characterized by the two square bounds.
pub proof fn lemma_sqrt_floor(n: int)
    requires
        n >= 0,
    ensures
        0 <= sqrt_floor(n),
        sqrt_floor(n) * sqrt_floor(n) <= n,
        n < (sqrt_floor(n) + 1) * (sqrt_floor(n) + 1),
    decreases n,
{
    if n > 0 {
        lemma_sqrt_floor(n - 1);
        let r = sqrt_floor(n - 1);
        if (r + 1) * (r + 1) <= n {
            assert((r + 1) * (r + 1) < (r + 2) * (r + 2)) by (nonlinear_arith)
                requires
                    r >= 0,
            ;
        }
    }
}

/// Any value meeting the two square bounds is the floor square root.
pub proof fn lemma_sqrt_floor_unique(n: int, r: int)
    requires
        0 <= n,
        0 <= r,
        r * r <= n,
        n < (r + 1) * (r + 1),
    ensures
        r == sqrt_floor(n),
{
    lemma_sqrt_floor(n);
    let s = sqrt_floor(n);
    if r < s {
        assert((r + 1) * (r + 1) <= s * s) by (nonlinear_arith)
            requires
                0 <= r,
                r < s,
        ;
    }
    if s < r {
        assert((s + 1) * (s + 1) <= r * r) by (nonlinear_arith)
            requires
                0 <= s,
                s < r,
        ;
    }
}

/// Floor of the square root of `n`, by bisection on the root.
pub fn isqrt(n: u128) -> (r: u64)
    ensures
        r == sqrt_floor(n as int),
{
    if n == 0 {
        return 0;
    }
    let mut lo: u128 = 0;
    let mut hi: u128 = 18_446_744_073_709_551_616;
    proof {
        assert(n < hi * hi) by (nonlinear_arith)
            requires
                n <= u128::MAX,
                hi == 18_446_744_073_709_551_616,
        ;
    }
    while lo + 1 < hi
        invariant
            lo < hi <= 18_446_744_073_709_551_616,
            lo * lo <= n,
            n < hi * hi,
        decreases hi - lo,
    {
        let mid: u128 = lo + (hi - lo) / 2;
        proof {
            assert(mid * mid <= u128::MAX) by (nonlinear_arith)
                requires
                    mid < 18_446_744_073_709_551_616,
            ;
        }
        if mid * mid <= n {
            lo = mid;
        } else {
            hi = mid;
        }
    }
    proof {
        lemma_sqrt_floor_unique(n as int, lo as int);
    }
    lo as u64
}

/// Ceiling division `(t + m - 1) / m` stays between 1 and `t` for a positive
/// budget, and `m` of its steps cover the whole of `t`.
pub proof fn lemma_ceil_div(t: int, m: int)
    requires
        t >= 0,
        m >= 1,
    ensures
        0 <= (t + m - 1) / m,
        (t + m - 1) / m <= t,
        ((t + m - 1) / m) * m >= t,
        t >= 1 ==> (t + m - 1) / m >= 1,
{
    let q = (t + m - 1) / m;
    vstd::arithmetic::div_mod::lemma_fundamental_div_mod(t + m - 1, m);
    let rem = (t + m - 1) % m;
    vstd::arithmetic::div_mod::lemma_mod_bound(t + m - 1, m);
    assert(t + m - 1 == m * q + rem);
    assert(q >= 0) by (nonlinear_arith)
        requires
            t + m - 1 == m * q + rem,
            t >= 0,
            m >= 1,
            0 <= rem < m,
    ;
    assert(q * m >= t) by (nonlinear_arith)
        requires
            t + m - 1 == m * q + rem,
            0 <= rem < m,
    ;
    assert(q <= t) by (nonlinear_arith)
        requires
            t + m - 1 == m * q + rem,
            t >= 0,
            m >= 1,
            0 <= rem < m,
            q >= 0,
    ;
    if t >= 1 {
        assert(q >= 1) by (nonlinear_arith)
            requires
                t + m - 1 == m * q + rem,
                t >= 1,
                m >= 1,
                0 <= rem < m,
        ;
    }
}

/// Floor division of a nonnegative value by a positive one stays between 0
/// and the dividend.
pub proof fn lemma_floor_div(t: int, m: int)
    requires
        t >= 0,
        m >= 1,
    ensures
        0 <= t / m,
        t / m <= t,
        (t / m) * m <= t,
{
    vstd::arithmetic::div_mod::lemma_fundamental_div_mod(t, m);
    vstd::arithmetic::div_mod::lemma_mod_bound(t, m);
    let q = t / m;
    let rem = t % m;
    assert(q >= 0) by (nonlinear_arith)
        requires
            t == m * q + rem,
            t >= 0,
            m >= 1,
            0 <= rem < m,
    ;
    assert(q * m <= t) by (nonlinear_arith)
        requires
            t == m * q + rem,
            0 <= rem,
    ;
    assert(q <= t) by (nonlinear_arith)
        requires
            t == m * q + rem,
            t >= 0,
            m >= 1,
            0 <= rem < m,
            q >= 0,
    ;
}

} // verus!
