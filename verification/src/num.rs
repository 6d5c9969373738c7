//! Small integer helpers shared by the physics and the compositor.

use vstd::arithmetic::div_mod::{lemma_fundamental_div_mod, lemma_mod_multiples_basic};
use vstd::prelude::*;

verus! {

/// The sign of `v`: -1, 0 or 1.
pub open spec fn signum(v: int) -> int {
    if v > 0 {
        1
    } else if v < 0 {
        -1
    } else {
        0
    }
}

/// The absolute value of `v`.
pub open spec fn abs(v: int) -> int {
    if v < 0 {
        -v
    } else {
        v
    }
}

/// `v` forced into `[lo, hi]`: raised to `lo` first, then lowered to `hi`.
pub open spec fn clamp(v: int, lo: int, hi: int) -> int {
    if v < lo {
        if lo < hi {
            lo
        } else {
            hi
        }
    } else if v > hi {
        hi
    } else {
        v
    }
}

/// The sign of `v`.
pub fn signum_of(v: isize) -> (r: isize)
    ensures
        r == signum(v as int),
{
    if v > 0 {
        1
    } else if v < 0 {
        -1
    } else {
        0
    }
}

/// The absolute value of `v`.
pub fn abs_of(v: isize) -> (r: isize)
    requires
        v > isize::MIN,
    ensures
        r == abs(v as int),
{
    if v < 0 {
        -v
    } else {
        v
    }
}

/// `v` forced into `[lo, hi]`.
pub fn clamp_of(v: isize, lo: isize, hi: isize) -> (r: isize)
    ensures
        r == clamp(v as int, lo as int, hi as int),
{
    let raised = if v < lo {
        lo
    } else {
        v
    };
    if raised > hi {
        hi
    } else {
        raised
    }
}

/// Divisibility does not depend on the sign of the dividend.
proof fn multiple_either_sign(a: int, d: int)
    requires
        d > 0,
    ensures
        (a % d == 0) == ((-a) % d == 0),
{
    lemma_fundamental_div_mod(a, d);
    lemma_fundamental_div_mod(-a, d);
    if a % d == 0 {
        let q = a / d;
        assert(-a == (-q) * d) by (nonlinear_arith)
            requires
                a == d * q,
        ;
        lemma_mod_multiples_basic(-q, d);
    }
    if (-a) % d == 0 {
        let q = (-a) / d;
        assert(a == (-q) * d) by (nonlinear_arith)
            requires
                -a == d * q,
        ;
        lemma_mod_multiples_basic(-q, d);
    }
}

/// Whether `a` is a multiple of the positive step `d`.
pub fn divides(d: isize, a: isize) -> (r: bool)
    requires
        d > 0,
    ensures
        r == (a % d == 0),
{
    let m = a % d;
    proof {
        multiple_either_sign(a as int, d as int);
    }
    m == 0
}

} // verus!
