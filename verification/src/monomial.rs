//! Monomials in the two curve parameters and the coordinates of three points.
//!
//! A polynomial identity in these eight variables is proved by writing both
//! sides as sums of monomials. The product of two monomials is the monomial
//! whose exponents are the sums of theirs.

use crate::ring::lemma_mul_swap;
use vstd::arithmetic::power::{lemma_pow0, lemma_pow1, lemma_pow_adds, pow};
use vstd::prelude::*;

verus! {

/// The eight variables: the parameters `a` and `d`, and the coordinates of
/// three points.
pub struct Vars {
    pub a: int,
    pub d: int,
    pub x1: int,
    pub y1: int,
    pub x2: int,
    pub y2: int,
    pub x3: int,
    pub y3: int,
}

/// The monomial `x1^e1 * y1^f1 * x2^e2 * y2^f2 * x3^e3 * y3^f3` in the
/// coordinates alone.
pub open spec fn mono_xy(v: Vars, e1: nat, f1: nat, e2: nat, f2: nat, e3: nat, f3: nat) -> int {
    (pow(v.x1, e1) * pow(v.y1, f1)) * ((pow(v.x2, e2) * pow(v.y2, f2)) * (pow(v.x3, e3) * pow(
        v.y3,
        f3,
    )))
}

/// The monomial `a^ea * d^ed * x1^e1 * y1^f1 * x2^e2 * y2^f2 * x3^e3 * y3^f3`.
pub open spec fn mono(
    v: Vars,
    ea: nat,
    ed: nat,
    e1: nat,
    f1: nat,
    e2: nat,
    f2: nat,
    e3: nat,
    f3: nat,
) -> int {
    (pow(v.a, ea) * pow(v.d, ed)) * mono_xy(v, e1, f1, e2, f2, e3, f3)
}

/// The product of two powers of two numbers each.
proof fn lemma_pair_mul(x: int, y: int, e: nat, f: nat, g: nat, h: nat)
    ensures
        (pow(x, e) * pow(y, f)) * (pow(x, g) * pow(y, h)) == pow(x, e + g) * pow(y, f + h),
{
    lemma_mul_swap(pow(x, e), pow(y, f), pow(x, g), pow(y, h));
    lemma_pow_adds(x, e, g);
    lemma_pow_adds(y, f, h);
}

/// The product of two monomials in the coordinates.
proof fn lemma_mono_xy_mul(
    v: Vars,
    e1: nat,
    f1: nat,
    e2: nat,
    f2: nat,
    e3: nat,
    f3: nat,
    g1: nat,
    h1: nat,
    g2: nat,
    h2: nat,
    g3: nat,
    h3: nat,
)
    ensures
        mono_xy(v, e1, f1, e2, f2, e3, f3) * mono_xy(v, g1, h1, g2, h2, g3, h3) == mono_xy(
            v,
            e1 + g1,
            f1 + h1,
            e2 + g2,
            f2 + h2,
            e3 + g3,
            f3 + h3,
        ),
{
    let u1 = pow(v.x1, e1) * pow(v.y1, f1);
    let u2 = pow(v.x2, e2) * pow(v.y2, f2);
    let u3 = pow(v.x3, e3) * pow(v.y3, f3);
    let w1 = pow(v.x1, g1) * pow(v.y1, h1);
    let w2 = pow(v.x2, g2) * pow(v.y2, h2);
    let w3 = pow(v.x3, g3) * pow(v.y3, h3);
    lemma_mul_swap(u1, u2 * u3, w1, w2 * w3);
    lemma_mul_swap(u2, u3, w2, w3);
    lemma_pair_mul(v.x1, v.y1, e1, f1, g1, h1);
    lemma_pair_mul(v.x2, v.y2, e2, f2, g2, h2);
    lemma_pair_mul(v.x3, v.y3, e3, f3, g3, h3);
}

/// The product of two monomials: the exponents add up.
pub proof fn lemma_mono_mul(
    v: Vars,
    ea: nat,
    ed: nat,
    e1: nat,
    f1: nat,
    e2: nat,
    f2: nat,
    e3: nat,
    f3: nat,
    ga: nat,
    gd: nat,
    g1: nat,
    h1: nat,
    g2: nat,
    h2: nat,
    g3: nat,
    h3: nat,
)
    ensures
        mono(v, ea, ed, e1, f1, e2, f2, e3, f3) * mono(v, ga, gd, g1, h1, g2, h2, g3, h3) == mono(
            v,
            ea + ga,
            ed + gd,
            e1 + g1,
            f1 + h1,
            e2 + g2,
            f2 + h2,
            e3 + g3,
            f3 + h3,
        ),
{
    let c = pow(v.a, ea) * pow(v.d, ed);
    let k = pow(v.a, ga) * pow(v.d, gd);
    let m = mono_xy(v, e1, f1, e2, f2, e3, f3);
    let n = mono_xy(v, g1, h1, g2, h2, g3, h3);
    lemma_mul_swap(c, m, k, n);
    lemma_pair_mul(v.a, v.d, ea, ed, ga, gd);
    lemma_mono_xy_mul(v, e1, f1, e2, f2, e3, f3, g1, h1, g2, h2, g3, h3);
}

/// The monomials of degree zero and one are the number one and the eight
/// variables.
pub proof fn lemma_mono_units(v: Vars)
    ensures
        mono(v, 0, 0, 0, 0, 0, 0, 0, 0) == 1,
        mono(v, 1, 0, 0, 0, 0, 0, 0, 0) == v.a,
        mono(v, 0, 1, 0, 0, 0, 0, 0, 0) == v.d,
        mono(v, 0, 0, 1, 0, 0, 0, 0, 0) == v.x1,
        mono(v, 0, 0, 0, 1, 0, 0, 0, 0) == v.y1,
        mono(v, 0, 0, 0, 0, 1, 0, 0, 0) == v.x2,
        mono(v, 0, 0, 0, 0, 0, 1, 0, 0) == v.y2,
        mono(v, 0, 0, 0, 0, 0, 0, 1, 0) == v.x3,
        mono(v, 0, 0, 0, 0, 0, 0, 0, 1) == v.y3,
{
    lemma_pow0(v.a);
    lemma_pow0(v.d);
    lemma_pow0(v.x1);
    lemma_pow0(v.y1);
    lemma_pow0(v.x2);
    lemma_pow0(v.y2);
    lemma_pow0(v.x3);
    lemma_pow0(v.y3);
    lemma_pow1(v.a);
    lemma_pow1(v.d);
    lemma_pow1(v.x1);
    lemma_pow1(v.y1);
    lemma_pow1(v.x2);
    lemma_pow1(v.y2);
    lemma_pow1(v.x3);
    lemma_pow1(v.y3);
    assert(1int * 1int == 1);
}

} // verus!
