//! The sum of three points `P = (x1, y1)`, `Q = (x2, y2)` and `R = (x3, y3)`,
//! taken in both orders, as polynomials in the six coordinates.
//!
//! Each coordinate of `(P + Q) + R` and of `P + (Q + R)` is a quotient of
//! two polynomials. They are given here as they arise from the addition law,
//! and each is written out as a sum of monomials.

use crate::monomial::{lemma_mono_mul, lemma_mono_units, mono, Vars};
use crate::ring::lemma_expand_differences;
use crate::sums::{lemma_sum_left_2, lemma_sum_right_2};
use vstd::prelude::*;

verus! {

/// `x1*y2 + y1*x2`: the numerator of the first coordinate of `P + Q`.
pub open spec fn n12x(v: Vars) -> int {
    v.x1 * v.y2 + v.y1 * v.x2
}

/// `n12x` as a sum of monomials.
pub proof fn lemma_n12x_sum(v: Vars)
    ensures
        n12x(v) == mono(v, 0, 0, 0, 1, 1, 0, 0, 0) + mono(v, 0, 0, 1, 0, 0, 1, 0, 0),
{
    lemma_mono_units(v);
    let m0 = mono(v, 0, 0, 1, 0, 0, 0, 0, 0);
    let m1 = mono(v, 0, 0, 0, 0, 0, 1, 0, 0);
    let m2 = mono(v, 0, 0, 1, 0, 0, 1, 0, 0);
    let m3 = mono(v, 0, 0, 0, 1, 0, 0, 0, 0);
    let m4 = mono(v, 0, 0, 0, 0, 1, 0, 0, 0);
    let m5 = mono(v, 0, 0, 0, 1, 1, 0, 0, 0);
    lemma_expand_differences(m0, 0, m1, 0);
    lemma_mono_mul(v, 0, 0, 1, 0, 0, 0, 0, 0, 0, 0, 0, 0, 0, 1, 0, 0);
    assert(v.x1 * v.y2 == m2);
    lemma_expand_differences(m3, 0, m4, 0);
    lemma_mono_mul(v, 0, 0, 0, 1, 0, 0, 0, 0, 0, 0, 0, 0, 1, 0, 0, 0);
    assert(v.y1 * v.x2 == m5);
    assert(v.x1 * v.y2 + v.y1 * v.x2 == m5 + m2);
}

/// `y1*y2 - a*x1*x2`: the numerator of the second coordinate of `P + Q`.
pub open spec fn n12y(v: Vars) -> int {
    v.y1 * v.y2 - v.a * (v.x1 * v.x2)
}

/// `n12y` as a sum of monomials.
pub proof fn lemma_n12y_sum(v: Vars)
    ensures
        n12y(v) == (mono(v, 0, 0, 0, 1, 0, 1, 0, 0)) - (mono(v, 1, 0, 1, 0, 1, 0, 0, 0)),
{
    lemma_mono_units(v);
    let m0 = mono(v, 0, 0, 0, 1, 0, 0, 0, 0);
    let m1 = mono(v, 0, 0, 0, 0, 0, 1, 0, 0);
    let m2 = mono(v, 0, 0, 0, 1, 0, 1, 0, 0);
    let m3 = mono(v, 0, 0, 1, 0, 0, 0, 0, 0);
    let m4 = mono(v, 0, 0, 0, 0, 1, 0, 0, 0);
    let m5 = mono(v, 0, 0, 1, 0, 1, 0, 0, 0);
    let m6 = mono(v, 1, 0, 0, 0, 0, 0, 0, 0);
    let m7 = mono(v, 1, 0, 1, 0, 1, 0, 0, 0);
    lemma_expand_differences(m0, 0, m1, 0);
    lemma_mono_mul(v, 0, 0, 0, 1, 0, 0, 0, 0, 0, 0, 0, 0, 0, 1, 0, 0);
    assert(v.y1 * v.y2 == m2);
    lemma_expand_differences(m3, 0, m4, 0);
    lemma_mono_mul(v, 0, 0, 1, 0, 0, 0, 0, 0, 0, 0, 0, 0, 1, 0, 0, 0);
    assert(v.x1 * v.x2 == m5);
    lemma_expand_differences(m6, 0, m5, 0);
    lemma_mono_mul(v, 1, 0, 0, 0, 0, 0, 0, 0, 0, 0, 1, 0, 1, 0, 0, 0);
    assert(v.a * (v.x1 * v.x2) == m7);
    assert(v.y1 * v.y2 - v.a * (v.x1 * v.x2) == (m2) - (m7));
}

/// `x1*y2*y1*x2`: the product of the four coordinates of `P` and `Q`.
pub open spec fn t12(v: Vars) -> int {
    (v.x1 * v.y2) * (v.y1 * v.x2)
}

/// `t12` as a sum of monomials.
pub proof fn lemma_t12_sum(v: Vars)
    ensures
        t12(v) == mono(v, 0, 0, 1, 1, 1, 1, 0, 0),
{
    lemma_mono_units(v);
    let m0 = mono(v, 0, 0, 1, 0, 0, 0, 0, 0);
    let m1 = mono(v, 0, 0, 0, 0, 0, 1, 0, 0);
    let m2 = mono(v, 0, 0, 1, 0, 0, 1, 0, 0);
    let m3 = mono(v, 0, 0, 0, 1, 0, 0, 0, 0);
    let m4 = mono(v, 0, 0, 0, 0, 1, 0, 0, 0);
    let m5 = mono(v, 0, 0, 0, 1, 1, 0, 0, 0);
    let m6 = mono(v, 0, 0, 1, 1, 1, 1, 0, 0);
    lemma_expand_differences(m0, 0, m1, 0);
    lemma_mono_mul(v, 0, 0, 1, 0, 0, 0, 0, 0, 0, 0, 0, 0, 0, 1, 0, 0);
    assert(v.x1 * v.y2 == m2);
    lemma_expand_differences(m3, 0, m4, 0);
    lemma_mono_mul(v, 0, 0, 0, 1, 0, 0, 0, 0, 0, 0, 0, 0, 1, 0, 0, 0);
    assert(v.y1 * v.x2 == m5);
    lemma_expand_differences(m2, 0, m5, 0);
    lemma_mono_mul(v, 0, 0, 1, 0, 0, 1, 0, 0, 0, 0, 0, 1, 1, 0, 0, 0);
    assert((v.x1 * v.y2) * (v.y1 * v.x2) == m6);
}

/// `1 + d*t`: the denominator of the first coordinate of `P + Q`.
pub open spec fn dx12(v: Vars) -> int {
    1 + v.d * t12(v)
}

/// `dx12` as a sum of monomials.
pub proof fn lemma_dx12_sum(v: Vars)
    ensures
        dx12(v) == mono(v, 0, 0, 0, 0, 0, 0, 0, 0) + mono(v, 0, 1, 1, 1, 1, 1, 0, 0),
{
    lemma_mono_units(v);
    lemma_t12_sum(v);
    let m0 = mono(v, 0, 1, 0, 0, 0, 0, 0, 0);
    let m1 = mono(v, 0, 0, 1, 1, 1, 1, 0, 0);
    let m2 = mono(v, 0, 1, 1, 1, 1, 1, 0, 0);
    let m3 = mono(v, 0, 0, 0, 0, 0, 0, 0, 0);
    lemma_expand_differences(m0, 0, m1, 0);
    lemma_mono_mul(v, 0, 1, 0, 0, 0, 0, 0, 0, 0, 0, 1, 1, 1, 1, 0, 0);
    assert(v.d * t12(v) == m2);
    assert(1 + v.d * t12(v) == m3 + m2);
}

/// `1 - d*t`: the denominator of the second coordinate of `P + Q`.
pub open spec fn dy12(v: Vars) -> int {
    1 - v.d * t12(v)
}

/// `dy12` as a sum of monomials.
pub proof fn lemma_dy12_sum(v: Vars)
    ensures
        dy12(v) == (mono(v, 0, 0, 0, 0, 0, 0, 0, 0)) - (mono(v, 0, 1, 1, 1, 1, 1, 0, 0)),
{
    lemma_mono_units(v);
    lemma_t12_sum(v);
    let m0 = mono(v, 0, 1, 0, 0, 0, 0, 0, 0);
    let m1 = mono(v, 0, 0, 1, 1, 1, 1, 0, 0);
    let m2 = mono(v, 0, 1, 1, 1, 1, 1, 0, 0);
    let m3 = mono(v, 0, 0, 0, 0, 0, 0, 0, 0);
    lemma_expand_differences(m0, 0, m1, 0);
    lemma_mono_mul(v, 0, 1, 0, 0, 0, 0, 0, 0, 0, 0, 1, 1, 1, 1, 0, 0);
    assert(v.d * t12(v) == m2);
    assert(1 - v.d * t12(v) == (m3) - (m2));
}

/// `x2*y3 + y2*x3`: the numerator of the first coordinate of `Q + R`.
pub open spec fn n23x(v: Vars) -> int {
    v.x2 * v.y3 + v.y2 * v.x3
}

/// `n23x` as a sum of monomials.
pub proof fn lemma_n23x_sum(v: Vars)
    ensures
        n23x(v) == mono(v, 0, 0, 0, 0, 0, 1, 1, 0) + mono(v, 0, 0, 0, 0, 1, 0, 0, 1),
{
    lemma_mono_units(v);
    let m0 = mono(v, 0, 0, 0, 0, 1, 0, 0, 0);
    let m1 = mono(v, 0, 0, 0, 0, 0, 0, 0, 1);
    let m2 = mono(v, 0, 0, 0, 0, 1, 0, 0, 1);
    let m3 = mono(v, 0, 0, 0, 0, 0, 1, 0, 0);
    let m4 = mono(v, 0, 0, 0, 0, 0, 0, 1, 0);
    let m5 = mono(v, 0, 0, 0, 0, 0, 1, 1, 0);
    lemma_expand_differences(m0, 0, m1, 0);
    lemma_mono_mul(v, 0, 0, 0, 0, 1, 0, 0, 0, 0, 0, 0, 0, 0, 0, 0, 1);
    assert(v.x2 * v.y3 == m2);
    lemma_expand_differences(m3, 0, m4, 0);
    lemma_mono_mul(v, 0, 0, 0, 0, 0, 1, 0, 0, 0, 0, 0, 0, 0, 0, 1, 0);
    assert(v.y2 * v.x3 == m5);
    assert(v.x2 * v.y3 + v.y2 * v.x3 == m5 + m2);
}

/// `y2*y3 - a*x2*x3`: the numerator of the second coordinate of `Q + R`.
pub open spec fn n23y(v: Vars) -> int {
    v.y2 * v.y3 - v.a * (v.x2 * v.x3)
}

/// `n23y` as a sum of monomials.
pub proof fn lemma_n23y_sum(v: Vars)
    ensures
        n23y(v) == (mono(v, 0, 0, 0, 0, 0, 1, 0, 1)) - (mono(v, 1, 0, 0, 0, 1, 0, 1, 0)),
{
    lemma_mono_units(v);
    let m0 = mono(v, 0, 0, 0, 0, 0, 1, 0, 0);
    let m1 = mono(v, 0, 0, 0, 0, 0, 0, 0, 1);
    let m2 = mono(v, 0, 0, 0, 0, 0, 1, 0, 1);
    let m3 = mono(v, 0, 0, 0, 0, 1, 0, 0, 0);
    let m4 = mono(v, 0, 0, 0, 0, 0, 0, 1, 0);
    let m5 = mono(v, 0, 0, 0, 0, 1, 0, 1, 0);
    let m6 = mono(v, 1, 0, 0, 0, 0, 0, 0, 0);
    let m7 = mono(v, 1, 0, 0, 0, 1, 0, 1, 0);
    lemma_expand_differences(m0, 0, m1, 0);
    lemma_mono_mul(v, 0, 0, 0, 0, 0, 1, 0, 0, 0, 0, 0, 0, 0, 0, 0, 1);
    assert(v.y2 * v.y3 == m2);
    lemma_expand_differences(m3, 0, m4, 0);
    lemma_mono_mul(v, 0, 0, 0, 0, 1, 0, 0, 0, 0, 0, 0, 0, 0, 0, 1, 0);
    assert(v.x2 * v.x3 == m5);
    lemma_expand_differences(m6, 0, m5, 0);
    lemma_mono_mul(v, 1, 0, 0, 0, 0, 0, 0, 0, 0, 0, 0, 0, 1, 0, 1, 0);
    assert(v.a * (v.x2 * v.x3) == m7);
    assert(v.y2 * v.y3 - v.a * (v.x2 * v.x3) == (m2) - (m7));
}

/// `x2*y3*y2*x3`: the product of the four coordinates of `Q` and `R`.
pub open spec fn t23(v: Vars) -> int {
    (v.x2 * v.y3) * (v.y2 * v.x3)
}

/// `t23` as a sum of monomials.
pub proof fn lemma_t23_sum(v: Vars)
    ensures
        t23(v) == mono(v, 0, 0, 0, 0, 1, 1, 1, 1),
{
    lemma_mono_units(v);
    let m0 = mono(v, 0, 0, 0, 0, 1, 0, 0, 0);
    let m1 = mono(v, 0, 0, 0, 0, 0, 0, 0, 1);
    let m2 = mono(v, 0, 0, 0, 0, 1, 0, 0, 1);
    let m3 = mono(v, 0, 0, 0, 0, 0, 1, 0, 0);
    let m4 = mono(v, 0, 0, 0, 0, 0, 0, 1, 0);
    let m5 = mono(v, 0, 0, 0, 0, 0, 1, 1, 0);
    let m6 = mono(v, 0, 0, 0, 0, 1, 1, 1, 1);
    lemma_expand_differences(m0, 0, m1, 0);
    lemma_mono_mul(v, 0, 0, 0, 0, 1, 0, 0, 0, 0, 0, 0, 0, 0, 0, 0, 1);
    assert(v.x2 * v.y3 == m2);
    lemma_expand_differences(m3, 0, m4, 0);
    lemma_mono_mul(v, 0, 0, 0, 0, 0, 1, 0, 0, 0, 0, 0, 0, 0, 0, 1, 0);
    assert(v.y2 * v.x3 == m5);
    lemma_expand_differences(m2, 0, m5, 0);
    lemma_mono_mul(v, 0, 0, 0, 0, 1, 0, 0, 1, 0, 0, 0, 0, 0, 1, 1, 0);
    assert((v.x2 * v.y3) * (v.y2 * v.x3) == m6);
}

/// `1 + d*t`: the denominator of the first coordinate of `Q + R`.
pub open spec fn dx23(v: Vars) -> int {
    1 + v.d * t23(v)
}

/// `dx23` as a sum of monomials.
pub proof fn lemma_dx23_sum(v: Vars)
    ensures
        dx23(v) == mono(v, 0, 0, 0, 0, 0, 0, 0, 0) + mono(v, 0, 1, 0, 0, 1, 1, 1, 1),
{
    lemma_mono_units(v);
    lemma_t23_sum(v);
    let m0 = mono(v, 0, 1, 0, 0, 0, 0, 0, 0);
    let m1 = mono(v, 0, 0, 0, 0, 1, 1, 1, 1);
    let m2 = mono(v, 0, 1, 0, 0, 1, 1, 1, 1);
    let m3 = mono(v, 0, 0, 0, 0, 0, 0, 0, 0);
    lemma_expand_differences(m0, 0, m1, 0);
    lemma_mono_mul(v, 0, 1, 0, 0, 0, 0, 0, 0, 0, 0, 0, 0, 1, 1, 1, 1);
    assert(v.d * t23(v) == m2);
    assert(1 + v.d * t23(v) == m3 + m2);
}

/// `1 - d*t`: the denominator of the second coordinate of `Q + R`.
pub open spec fn dy23(v: Vars) -> int {
    1 - v.d * t23(v)
}

/// `dy23` as a sum of monomials.
pub proof fn lemma_dy23_sum(v: Vars)
    ensures
        dy23(v) == (mono(v, 0, 0, 0, 0, 0, 0, 0, 0)) - (mono(v, 0, 1, 0, 0, 1, 1, 1, 1)),
{
    lemma_mono_units(v);
    lemma_t23_sum(v);
    let m0 = mono(v, 0, 1, 0, 0, 0, 0, 0, 0);
    let m1 = mono(v, 0, 0, 0, 0, 1, 1, 1, 1);
    let m2 = mono(v, 0, 1, 0, 0, 1, 1, 1, 1);
    let m3 = mono(v, 0, 0, 0, 0, 0, 0, 0, 0);
    lemma_expand_differences(m0, 0, m1, 0);
    lemma_mono_mul(v, 0, 1, 0, 0, 0, 0, 0, 0, 0, 0, 0, 0, 1, 1, 1, 1);
    assert(v.d * t23(v) == m2);
    assert(1 - v.d * t23(v) == (m3) - (m2));
}

/// The first coordinate of `(P + Q) + R` is `num_left_x / den_left_x`.
pub open spec fn num_left_x(v: Vars) -> int {
    (n12x(v) * dy12(v)) * v.y3 + (n12y(v) * dx12(v)) * v.x3
}

/// `num_left_x` as a sum of monomials.
pub proof fn lemma_num_left_x_sum(v: Vars)
    ensures
        num_left_x(v) == (mono(v, 0, 0, 0, 1, 0, 1, 1, 0) + mono(v, 0, 0, 0, 1, 1, 0, 0, 1)
            + mono(v, 0, 0, 1, 0, 0, 1, 0, 1)
            + mono(v, 0, 1, 1, 2, 1, 2, 1, 0)) - (mono(v, 0, 1, 1, 2, 2, 1, 0, 1)
            + mono(v, 0, 1, 2, 1, 1, 2, 0, 1) + mono(v, 1, 0, 1, 0, 1, 0, 1, 0)
            + mono(v, 1, 1, 2, 1, 2, 1, 1, 0)),
{
    lemma_mono_units(v);
    lemma_n12x_sum(v);
    lemma_n12y_sum(v);
    lemma_dx12_sum(v);
    lemma_dy12_sum(v);
    let m0 = mono(v, 0, 0, 0, 1, 1, 0, 0, 0);
    let m1 = mono(v, 0, 0, 1, 0, 0, 1, 0, 0);
    let m2 = mono(v, 0, 0, 0, 0, 0, 0, 0, 0);
    let m3 = mono(v, 0, 1, 1, 1, 1, 1, 0, 0);
    let m4 = mono(v, 0, 1, 1, 2, 2, 1, 0, 0);
    let m5 = mono(v, 0, 1, 2, 1, 1, 2, 0, 0);
    let m6 = mono(v, 0, 0, 0, 0, 0, 0, 0, 1);
    let m7 = mono(v, 0, 0, 0, 1, 1, 0, 0, 1);
    let m8 = mono(v, 0, 0, 1, 0, 0, 1, 0, 1);
    let m9 = mono(v, 0, 1, 1, 2, 2, 1, 0, 1);
    let m10 = mono(v, 0, 1, 2, 1, 1, 2, 0, 1);
    let m11 = mono(v, 0, 0, 0, 1, 0, 1, 0, 0);
    let m12 = mono(v, 1, 0, 1, 0, 1, 0, 0, 0);
    let m13 = mono(v, 0, 1, 1, 2, 1, 2, 0, 0);
    let m14 = mono(v, 1, 1, 2, 1, 2, 1, 0, 0);
    let m15 = mono(v, 0, 0, 0, 0, 0, 0, 1, 0);
    let m16 = mono(v, 0, 0, 0, 1, 0, 1, 1, 0);
    let m17 = mono(v, 0, 1, 1, 2, 1, 2, 1, 0);
    let m18 = mono(v, 1, 0, 1, 0, 1, 0, 1, 0);
    let m19 = mono(v, 1, 1, 2, 1, 2, 1, 1, 0);
    lemma_expand_differences(m0 + m1, 0, m2, m3);
    lemma_sum_left_2(m0, m1, m2);
    lemma_sum_left_2(m0, m1, m3);
    lemma_mono_mul(v, 0, 0, 0, 1, 1, 0, 0, 0, 0, 0, 0, 0, 0, 0, 0, 0);
    lemma_mono_mul(v, 0, 0, 0, 1, 1, 0, 0, 0, 0, 1, 1, 1, 1, 1, 0, 0);
    lemma_mono_mul(v, 0, 0, 1, 0, 0, 1, 0, 0, 0, 0, 0, 0, 0, 0, 0, 0);
    lemma_mono_mul(v, 0, 0, 1, 0, 0, 1, 0, 0, 0, 1, 1, 1, 1, 1, 0, 0);
    assert(n12x(v) * dy12(v) == (m0 + m1) - (m4 + m5));
    lemma_expand_differences(m0 + m1, m4 + m5, m6, 0);
    lemma_sum_left_2(m0, m1, m6);
    lemma_sum_left_2(m4, m5, m6);
    lemma_mono_mul(v, 0, 0, 0, 1, 1, 0, 0, 0, 0, 0, 0, 0, 0, 0, 0, 1);
    lemma_mono_mul(v, 0, 0, 1, 0, 0, 1, 0, 0, 0, 0, 0, 0, 0, 0, 0, 1);
    lemma_mono_mul(v, 0, 1, 1, 2, 2, 1, 0, 0, 0, 0, 0, 0, 0, 0, 0, 1);
    lemma_mono_mul(v, 0, 1, 2, 1, 1, 2, 0, 0, 0, 0, 0, 0, 0, 0, 0, 1);
    assert((n12x(v) * dy12(v)) * v.y3 == (m7 + m8) - (m9 + m10));
    lemma_expand_differences(m11, m12, m2 + m3, 0);
    lemma_sum_right_2(m11, m2, m3);
    lemma_sum_right_2(m12, m2, m3);
    lemma_mono_mul(v, 0, 0, 0, 1, 0, 1, 0, 0, 0, 0, 0, 0, 0, 0, 0, 0);
    lemma_mono_mul(v, 0, 0, 0, 1, 0, 1, 0, 0, 0, 1, 1, 1, 1, 1, 0, 0);
    lemma_mono_mul(v, 1, 0, 1, 0, 1, 0, 0, 0, 0, 0, 0, 0, 0, 0, 0, 0);
    lemma_mono_mul(v, 1, 0, 1, 0, 1, 0, 0, 0, 0, 1, 1, 1, 1, 1, 0, 0);
    assert(n12y(v) * dx12(v) == (m11 + m13) - (m12 + m14));
    lemma_expand_differences(m11 + m13, m12 + m14, m15, 0);
    lemma_sum_left_2(m11, m13, m15);
    lemma_sum_left_2(m12, m14, m15);
    lemma_mono_mul(v, 0, 0, 0, 1, 0, 1, 0, 0, 0, 0, 0, 0, 0, 0, 1, 0);
    lemma_mono_mul(v, 0, 1, 1, 2, 1, 2, 0, 0, 0, 0, 0, 0, 0, 0, 1, 0);
    lemma_mono_mul(v, 1, 0, 1, 0, 1, 0, 0, 0, 0, 0, 0, 0, 0, 0, 1, 0);
    lemma_mono_mul(v, 1, 1, 2, 1, 2, 1, 0, 0, 0, 0, 0, 0, 0, 0, 1, 0);
    assert((n12y(v) * dx12(v)) * v.x3 == (m16 + m17) - (m18 + m19));
    assert((n12x(v) * dy12(v)) * v.y3 + (n12y(v) * dx12(v)) * v.x3 == (m16 + m7 + m8 + m17) - (m9
        + m10 + m18 + m19));
}

/// The denominator that belongs to `num_left_x`.
pub open spec fn den_left_x(v: Vars) -> int {
    dx12(v) * dy12(v) + v.d * ((n12x(v) * n12y(v)) * (v.x3 * v.y3))
}

/// `den_left_x` as a sum of monomials.
pub proof fn lemma_den_left_x_sum(v: Vars)
    ensures
        den_left_x(v) == (mono(v, 0, 0, 0, 0, 0, 0, 0, 0) + mono(v, 0, 1, 0, 2, 1, 1, 1, 1)
            + mono(v, 0, 1, 1, 1, 0, 2, 1, 1)) - (mono(v, 0, 2, 2, 2, 2, 2, 0, 0)
            + mono(v, 1, 1, 1, 1, 2, 0, 1, 1) + mono(v, 1, 1, 2, 0, 1, 1, 1, 1)),
{
    lemma_mono_units(v);
    lemma_n12x_sum(v);
    lemma_n12y_sum(v);
    lemma_dx12_sum(v);
    lemma_dy12_sum(v);
    let m0 = mono(v, 0, 0, 0, 0, 0, 0, 0, 0);
    let m1 = mono(v, 0, 1, 1, 1, 1, 1, 0, 0);
    let m2 = mono(v, 0, 2, 2, 2, 2, 2, 0, 0);
    let m3 = mono(v, 0, 0, 0, 1, 1, 0, 0, 0);
    let m4 = mono(v, 0, 0, 1, 0, 0, 1, 0, 0);
    let m5 = mono(v, 0, 0, 0, 1, 0, 1, 0, 0);
    let m6 = mono(v, 1, 0, 1, 0, 1, 0, 0, 0);
    let m7 = mono(v, 0, 0, 0, 2, 1, 1, 0, 0);
    let m8 = mono(v, 1, 0, 1, 1, 2, 0, 0, 0);
    let m9 = mono(v, 0, 0, 1, 1, 0, 2, 0, 0);
    let m10 = mono(v, 1, 0, 2, 0, 1, 1, 0, 0);
    let m11 = mono(v, 0, 0, 0, 0, 0, 0, 1, 0);
    let m12 = mono(v, 0, 0, 0, 0, 0, 0, 0, 1);
    let m13 = mono(v, 0, 0, 0, 0, 0, 0, 1, 1);
    let m14 = mono(v, 0, 0, 0, 2, 1, 1, 1, 1);
    let m15 = mono(v, 0, 0, 1, 1, 0, 2, 1, 1);
    let m16 = mono(v, 1, 0, 1, 1, 2, 0, 1, 1);
    let m17 = mono(v, 1, 0, 2, 0, 1, 1, 1, 1);
    let m18 = mono(v, 0, 1, 0, 0, 0, 0, 0, 0);
    let m19 = mono(v, 0, 1, 0, 2, 1, 1, 1, 1);
    let m20 = mono(v, 0, 1, 1, 1, 0, 2, 1, 1);
    let m21 = mono(v, 1, 1, 1, 1, 2, 0, 1, 1);
    let m22 = mono(v, 1, 1, 2, 0, 1, 1, 1, 1);
    lemma_expand_differences(m0 + m1, 0, m0, m1);
    lemma_sum_left_2(m0, m1, m0);
    lemma_sum_left_2(m0, m1, m1);
    lemma_mono_mul(v, 0, 0, 0, 0, 0, 0, 0, 0, 0, 0, 0, 0, 0, 0, 0, 0);
    lemma_mono_mul(v, 0, 0, 0, 0, 0, 0, 0, 0, 0, 1, 1, 1, 1, 1, 0, 0);
    lemma_mono_mul(v, 0, 1, 1, 1, 1, 1, 0, 0, 0, 0, 0, 0, 0, 0, 0, 0);
    lemma_mono_mul(v, 0, 1, 1, 1, 1, 1, 0, 0, 0, 1, 1, 1, 1, 1, 0, 0);
    assert(dx12(v) * dy12(v) == (m0) - (m2));
    lemma_expand_differences(m3 + m4, 0, m5, m6);
    lemma_sum_left_2(m3, m4, m5);
    lemma_sum_left_2(m3, m4, m6);
    lemma_mono_mul(v, 0, 0, 0, 1, 1, 0, 0, 0, 0, 0, 0, 1, 0, 1, 0, 0);
    lemma_mono_mul(v, 0, 0, 0, 1, 1, 0, 0, 0, 1, 0, 1, 0, 1, 0, 0, 0);
    lemma_mono_mul(v, 0, 0, 1, 0, 0, 1, 0, 0, 0, 0, 0, 1, 0, 1, 0, 0);
    lemma_mono_mul(v, 0, 0, 1, 0, 0, 1, 0, 0, 1, 0, 1, 0, 1, 0, 0, 0);
    assert(n12x(v) * n12y(v) == (m7 + m9) - (m8 + m10));
    lemma_expand_differences(m11, 0, m12, 0);
    lemma_mono_mul(v, 0, 0, 0, 0, 0, 0, 1, 0, 0, 0, 0, 0, 0, 0, 0, 1);
    assert(v.x3 * v.y3 == m13);
    lemma_expand_differences(m7 + m9, m8 + m10, m13, 0);
    lemma_sum_left_2(m7, m9, m13);
    lemma_sum_left_2(m8, m10, m13);
    lemma_mono_mul(v, 0, 0, 0, 2, 1, 1, 0, 0, 0, 0, 0, 0, 0, 0, 1, 1);
    lemma_mono_mul(v, 0, 0, 1, 1, 0, 2, 0, 0, 0, 0, 0, 0, 0, 0, 1, 1);
    lemma_mono_mul(v, 1, 0, 1, 1, 2, 0, 0, 0, 0, 0, 0, 0, 0, 0, 1, 1);
    lemma_mono_mul(v, 1, 0, 2, 0, 1, 1, 0, 0, 0, 0, 0, 0, 0, 0, 1, 1);
    assert((n12x(v) * n12y(v)) * (v.x3 * v.y3) == (m14 + m15) - (m16 + m17));
    lemma_expand_differences(m18, 0, m14 + m15, m16 + m17);
    lemma_sum_right_2(m18, m14, m15);
    lemma_sum_right_2(m18, m16, m17);
    lemma_mono_mul(v, 0, 1, 0, 0, 0, 0, 0, 0, 0, 0, 0, 2, 1, 1, 1, 1);
    lemma_mono_mul(v, 0, 1, 0, 0, 0, 0, 0, 0, 0, 0, 1, 1, 0, 2, 1, 1);
    lemma_mono_mul(v, 0, 1, 0, 0, 0, 0, 0, 0, 1, 0, 1, 1, 2, 0, 1, 1);
    lemma_mono_mul(v, 0, 1, 0, 0, 0, 0, 0, 0, 1, 0, 2, 0, 1, 1, 1, 1);
    assert(v.d * ((n12x(v) * n12y(v)) * (v.x3 * v.y3)) == (m19 + m20) - (m21 + m22));
    assert(dx12(v) * dy12(v) + v.d * ((n12x(v) * n12y(v)) * (v.x3 * v.y3)) == (m0 + m19
        + m20) - (m2 + m21 + m22));
}

/// The second coordinate of `(P + Q) + R` is `num_left_y / den_left_y`.
pub open spec fn num_left_y(v: Vars) -> int {
    (n12y(v) * dx12(v)) * v.y3 - v.a * ((n12x(v) * dy12(v)) * v.x3)
}

/// `num_left_y` as a sum of monomials.
pub proof fn lemma_num_left_y_sum(v: Vars)
    ensures
        num_left_y(v) == (mono(v, 0, 0, 0, 1, 0, 1, 0, 1) + mono(v, 0, 1, 1, 2, 1, 2, 0, 1)
            + mono(v, 1, 1, 1, 2, 2, 1, 1, 0)
            + mono(v, 1, 1, 2, 1, 1, 2, 1, 0)) - (mono(v, 1, 0, 0, 1, 1, 0, 1, 0)
            + mono(v, 1, 0, 1, 0, 0, 1, 1, 0) + mono(v, 1, 0, 1, 0, 1, 0, 0, 1)
            + mono(v, 1, 1, 2, 1, 2, 1, 0, 1)),
{
    lemma_mono_units(v);
    lemma_n12x_sum(v);
    lemma_n12y_sum(v);
    lemma_dx12_sum(v);
    lemma_dy12_sum(v);
    let m0 = mono(v, 0, 0, 0, 1, 0, 1, 0, 0);
    let m1 = mono(v, 1, 0, 1, 0, 1, 0, 0, 0);
    let m2 = mono(v, 0, 0, 0, 0, 0, 0, 0, 0);
    let m3 = mono(v, 0, 1, 1, 1, 1, 1, 0, 0);
    let m4 = mono(v, 0, 1, 1, 2, 1, 2, 0, 0);
    let m5 = mono(v, 1, 1, 2, 1, 2, 1, 0, 0);
    let m6 = mono(v, 0, 0, 0, 0, 0, 0, 0, 1);
    let m7 = mono(v, 0, 0, 0, 1, 0, 1, 0, 1);
    let m8 = mono(v, 0, 1, 1, 2, 1, 2, 0, 1);
    let m9 = mono(v, 1, 0, 1, 0, 1, 0, 0, 1);
    let m10 = mono(v, 1, 1, 2, 1, 2, 1, 0, 1);
    let m11 = mono(v, 0, 0, 0, 1, 1, 0, 0, 0);
    let m12 = mono(v, 0, 0, 1, 0, 0, 1, 0, 0);
    let m13 = mono(v, 0, 1, 1, 2, 2, 1, 0, 0);
    let m14 = mono(v, 0, 1, 2, 1, 1, 2, 0, 0);
    let m15 = mono(v, 0, 0, 0, 0, 0, 0, 1, 0);
    let m16 = mono(v, 0, 0, 0, 1, 1, 0, 1, 0);
    let m17 = mono(v, 0, 0, 1, 0, 0, 1, 1, 0);
    let m18 = mono(v, 0, 1, 1, 2, 2, 1, 1, 0);
    let m19 = mono(v, 0, 1, 2, 1, 1, 2, 1, 0);
    let m20 = mono(v, 1, 0, 0, 0, 0, 0, 0, 0);
    let m21 = mono(v, 1, 0, 0, 1, 1, 0, 1, 0);
    let m22 = mono(v, 1, 0, 1, 0, 0, 1, 1, 0);
    let m23 = mono(v, 1, 1, 1, 2, 2, 1, 1, 0);
    let m24 = mono(v, 1, 1, 2, 1, 1, 2, 1, 0);
    lemma_expand_differences(m0, m1, m2 + m3, 0);
    lemma_sum_right_2(m0, m2, m3);
    lemma_sum_right_2(m1, m2, m3);
    lemma_mono_mul(v, 0, 0, 0, 1, 0, 1, 0, 0, 0, 0, 0, 0, 0, 0, 0, 0);
    lemma_mono_mul(v, 0, 0, 0, 1, 0, 1, 0, 0, 0, 1, 1, 1, 1, 1, 0, 0);
    lemma_mono_mul(v, 1, 0, 1, 0, 1, 0, 0, 0, 0, 0, 0, 0, 0, 0, 0, 0);
    lemma_mono_mul(v, 1, 0, 1, 0, 1, 0, 0, 0, 0, 1, 1, 1, 1, 1, 0, 0);
    assert(n12y(v) * dx12(v) == (m0 + m4) - (m1 + m5));
    lemma_expand_differences(m0 + m4, m1 + m5, m6, 0);
    lemma_sum_left_2(m0, m4, m6);
    lemma_sum_left_2(m1, m5, m6);
    lemma_mono_mul(v, 0, 0, 0, 1, 0, 1, 0, 0, 0, 0, 0, 0, 0, 0, 0, 1);
    lemma_mono_mul(v, 0, 1, 1, 2, 1, 2, 0, 0, 0, 0, 0, 0, 0, 0, 0, 1);
    lemma_mono_mul(v, 1, 0, 1, 0, 1, 0, 0, 0, 0, 0, 0, 0, 0, 0, 0, 1);
    lemma_mono_mul(v, 1, 1, 2, 1, 2, 1, 0, 0, 0, 0, 0, 0, 0, 0, 0, 1);
    assert((n12y(v) * dx12(v)) * v.y3 == (m7 + m8) - (m9 + m10));
    lemma_expand_differences(m11 + m12, 0, m2, m3);
    lemma_sum_left_2(m11, m12, m2);
    lemma_sum_left_2(m11, m12, m3);
    lemma_mono_mul(v, 0, 0, 0, 1, 1, 0, 0, 0, 0, 0, 0, 0, 0, 0, 0, 0);
    lemma_mono_mul(v, 0, 0, 0, 1, 1, 0, 0, 0, 0, 1, 1, 1, 1, 1, 0, 0);
    lemma_mono_mul(v, 0, 0, 1, 0, 0, 1, 0, 0, 0, 0, 0, 0, 0, 0, 0, 0);
    lemma_mono_mul(v, 0, 0, 1, 0, 0, 1, 0, 0, 0, 1, 1, 1, 1, 1, 0, 0);
    assert(n12x(v) * dy12(v) == (m11 + m12) - (m13 + m14));
    lemma_expand_differences(m11 + m12, m13 + m14, m15, 0);
    lemma_sum_left_2(m11, m12, m15);
    lemma_sum_left_2(m13, m14, m15);
    lemma_mono_mul(v, 0, 0, 0, 1, 1, 0, 0, 0, 0, 0, 0, 0, 0, 0, 1, 0);
    lemma_mono_mul(v, 0, 0, 1, 0, 0, 1, 0, 0, 0, 0, 0, 0, 0, 0, 1, 0);
    lemma_mono_mul(v, 0, 1, 1, 2, 2, 1, 0, 0, 0, 0, 0, 0, 0, 0, 1, 0);
    lemma_mono_mul(v, 0, 1, 2, 1, 1, 2, 0, 0, 0, 0, 0, 0, 0, 0, 1, 0);
    assert((n12x(v) * dy12(v)) * v.x3 == (m16 + m17) - (m18 + m19));
    lemma_expand_differences(m20, 0, m16 + m17, m18 + m19);
    lemma_sum_right_2(m20, m16, m17);
    lemma_sum_right_2(m20, m18, m19);
    lemma_mono_mul(v, 1, 0, 0, 0, 0, 0, 0, 0, 0, 0, 0, 1, 1, 0, 1, 0);
    lemma_mono_mul(v, 1, 0, 0, 0, 0, 0, 0, 0, 0, 0, 1, 0, 0, 1, 1, 0);
    lemma_mono_mul(v, 1, 0, 0, 0, 0, 0, 0, 0, 0, 1, 1, 2, 2, 1, 1, 0);
    lemma_mono_mul(v, 1, 0, 0, 0, 0, 0, 0, 0, 0, 1, 2, 1, 1, 2, 1, 0);
    assert(v.a * ((n12x(v) * dy12(v)) * v.x3) == (m21 + m22) - (m23 + m24));
    assert((n12y(v) * dx12(v)) * v.y3 - v.a * ((n12x(v) * dy12(v)) * v.x3) == (m7 + m8 + m23
        + m24) - (m21 + m22 + m9 + m10));
}

/// The denominator that belongs to `num_left_y`.
pub open spec fn den_left_y(v: Vars) -> int {
    dx12(v) * dy12(v) - v.d * ((n12x(v) * n12y(v)) * (v.x3 * v.y3))
}

/// `den_left_y` as a sum of monomials.
pub proof fn lemma_den_left_y_sum(v: Vars)
    ensures
        den_left_y(v) == (mono(v, 0, 0, 0, 0, 0, 0, 0, 0) + mono(v, 1, 1, 1, 1, 2, 0, 1, 1)
            + mono(v, 1, 1, 2, 0, 1, 1, 1, 1)) - (mono(v, 0, 1, 0, 2, 1, 1, 1, 1)
            + mono(v, 0, 1, 1, 1, 0, 2, 1, 1) + mono(v, 0, 2, 2, 2, 2, 2, 0, 0)),
{
    lemma_mono_units(v);
    lemma_n12x_sum(v);
    lemma_n12y_sum(v);
    lemma_dx12_sum(v);
    lemma_dy12_sum(v);
    let m0 = mono(v, 0, 0, 0, 0, 0, 0, 0, 0);
    let m1 = mono(v, 0, 1, 1, 1, 1, 1, 0, 0);
    let m2 = mono(v, 0, 2, 2, 2, 2, 2, 0, 0);
    let m3 = mono(v, 0, 0, 0, 1, 1, 0, 0, 0);
    let m4 = mono(v, 0, 0, 1, 0, 0, 1, 0, 0);
    let m5 = mono(v, 0, 0, 0, 1, 0, 1, 0, 0);
    let m6 = mono(v, 1, 0, 1, 0, 1, 0, 0, 0);
    let m7 = mono(v, 0, 0, 0, 2, 1, 1, 0, 0);
    let m8 = mono(v, 1, 0, 1, 1, 2, 0, 0, 0);
    let m9 = mono(v, 0, 0, 1, 1, 0, 2, 0, 0);
    let m10 = mono(v, 1, 0, 2, 0, 1, 1, 0, 0);
    let m11 = mono(v, 0, 0, 0, 0, 0, 0, 1, 0);
    let m12 = mono(v, 0, 0, 0, 0, 0, 0, 0, 1);
    let m13 = mono(v, 0, 0, 0, 0, 0, 0, 1, 1);
    let m14 = mono(v, 0, 0, 0, 2, 1, 1, 1, 1);
    let m15 = mono(v, 0, 0, 1, 1, 0, 2, 1, 1);
    let m16 = mono(v, 1, 0, 1, 1, 2, 0, 1, 1);
    let m17 = mono(v, 1, 0, 2, 0, 1, 1, 1, 1);
    let m18 = mono(v, 0, 1, 0, 0, 0, 0, 0, 0);
    let m19 = mono(v, 0, 1, 0, 2, 1, 1, 1, 1);
    let m20 = mono(v, 0, 1, 1, 1, 0, 2, 1, 1);
    let m21 = mono(v, 1, 1, 1, 1, 2, 0, 1, 1);
    let m22 = mono(v, 1, 1, 2, 0, 1, 1, 1, 1);
    lemma_expand_differences(m0 + m1, 0, m0, m1);
    lemma_sum_left_2(m0, m1, m0);
    lemma_sum_left_2(m0, m1, m1);
    lemma_mono_mul(v, 0, 0, 0, 0, 0, 0, 0, 0, 0, 0, 0, 0, 0, 0, 0, 0);
    lemma_mono_mul(v, 0, 0, 0, 0, 0, 0, 0, 0, 0, 1, 1, 1, 1, 1, 0, 0);
    lemma_mono_mul(v, 0, 1, 1, 1, 1, 1, 0, 0, 0, 0, 0, 0, 0, 0, 0, 0);
    lemma_mono_mul(v, 0, 1, 1, 1, 1, 1, 0, 0, 0, 1, 1, 1, 1, 1, 0, 0);
    assert(dx12(v) * dy12(v) == (m0) - (m2));
    lemma_expand_differences(m3 + m4, 0, m5, m6);
    lemma_sum_left_2(m3, m4, m5);
    lemma_sum_left_2(m3, m4, m6);
    lemma_mono_mul(v, 0, 0, 0, 1, 1, 0, 0, 0, 0, 0, 0, 1, 0, 1, 0, 0);
    lemma_mono_mul(v, 0, 0, 0, 1, 1, 0, 0, 0, 1, 0, 1, 0, 1, 0, 0, 0);
    lemma_mono_mul(v, 0, 0, 1, 0, 0, 1, 0, 0, 0, 0, 0, 1, 0, 1, 0, 0);
    lemma_mono_mul(v, 0, 0, 1, 0, 0, 1, 0, 0, 1, 0, 1, 0, 1, 0, 0, 0);
    assert(n12x(v) * n12y(v) == (m7 + m9) - (m8 + m10));
    lemma_expand_differences(m11, 0, m12, 0);
    lemma_mono_mul(v, 0, 0, 0, 0, 0, 0, 1, 0, 0, 0, 0, 0, 0, 0, 0, 1);
    assert(v.x3 * v.y3 == m13);
    lemma_expand_differences(m7 + m9, m8 + m10, m13, 0);
    lemma_sum_left_2(m7, m9, m13);
    lemma_sum_left_2(m8, m10, m13);
    lemma_mono_mul(v, 0, 0, 0, 2, 1, 1, 0, 0, 0, 0, 0, 0, 0, 0, 1, 1);
    lemma_mono_mul(v, 0, 0, 1, 1, 0, 2, 0, 0, 0, 0, 0, 0, 0, 0, 1, 1);
    lemma_mono_mul(v, 1, 0, 1, 1, 2, 0, 0, 0, 0, 0, 0, 0, 0, 0, 1, 1);
    lemma_mono_mul(v, 1, 0, 2, 0, 1, 1, 0, 0, 0, 0, 0, 0, 0, 0, 1, 1);
    assert((n12x(v) * n12y(v)) * (v.x3 * v.y3) == (m14 + m15) - (m16 + m17));
    lemma_expand_differences(m18, 0, m14 + m15, m16 + m17);
    lemma_sum_right_2(m18, m14, m15);
    lemma_sum_right_2(m18, m16, m17);
    lemma_mono_mul(v, 0, 1, 0, 0, 0, 0, 0, 0, 0, 0, 0, 2, 1, 1, 1, 1);
    lemma_mono_mul(v, 0, 1, 0, 0, 0, 0, 0, 0, 0, 0, 1, 1, 0, 2, 1, 1);
    lemma_mono_mul(v, 0, 1, 0, 0, 0, 0, 0, 0, 1, 0, 1, 1, 2, 0, 1, 1);
    lemma_mono_mul(v, 0, 1, 0, 0, 0, 0, 0, 0, 1, 0, 2, 0, 1, 1, 1, 1);
    assert(v.d * ((n12x(v) * n12y(v)) * (v.x3 * v.y3)) == (m19 + m20) - (m21 + m22));
    assert(dx12(v) * dy12(v) - v.d * ((n12x(v) * n12y(v)) * (v.x3 * v.y3)) == (m0 + m21
        + m22) - (m19 + m20 + m2));
}

/// The first coordinate of `P + (Q + R)` is `num_right_x / den_right_x`.
pub open spec fn num_right_x(v: Vars) -> int {
    v.x1 * (n23y(v) * dx23(v)) + v.y1 * (n23x(v) * dy23(v))
}

/// `num_right_x` as a sum of monomials.
pub proof fn lemma_num_right_x_sum(v: Vars)
    ensures
        num_right_x(v) == (mono(v, 0, 0, 0, 1, 0, 1, 1, 0) + mono(v, 0, 0, 0, 1, 1, 0, 0, 1)
            + mono(v, 0, 0, 1, 0, 0, 1, 0, 1)
            + mono(v, 0, 1, 1, 0, 1, 2, 1, 2)) - (mono(v, 0, 1, 0, 1, 1, 2, 2, 1)
            + mono(v, 0, 1, 0, 1, 2, 1, 1, 2) + mono(v, 1, 0, 1, 0, 1, 0, 1, 0)
            + mono(v, 1, 1, 1, 0, 2, 1, 2, 1)),
{
    lemma_mono_units(v);
    lemma_n23x_sum(v);
    lemma_n23y_sum(v);
    lemma_dx23_sum(v);
    lemma_dy23_sum(v);
    let m0 = mono(v, 0, 0, 0, 0, 0, 1, 0, 1);
    let m1 = mono(v, 1, 0, 0, 0, 1, 0, 1, 0);
    let m2 = mono(v, 0, 0, 0, 0, 0, 0, 0, 0);
    let m3 = mono(v, 0, 1, 0, 0, 1, 1, 1, 1);
    let m4 = mono(v, 0, 1, 0, 0, 1, 2, 1, 2);
    let m5 = mono(v, 1, 1, 0, 0, 2, 1, 2, 1);
    let m6 = mono(v, 0, 0, 1, 0, 0, 0, 0, 0);
    let m7 = mono(v, 0, 0, 1, 0, 0, 1, 0, 1);
    let m8 = mono(v, 0, 1, 1, 0, 1, 2, 1, 2);
    let m9 = mono(v, 1, 0, 1, 0, 1, 0, 1, 0);
    let m10 = mono(v, 1, 1, 1, 0, 2, 1, 2, 1);
    let m11 = mono(v, 0, 0, 0, 0, 0, 1, 1, 0);
    let m12 = mono(v, 0, 0, 0, 0, 1, 0, 0, 1);
    let m13 = mono(v, 0, 1, 0, 0, 1, 2, 2, 1);
    let m14 = mono(v, 0, 1, 0, 0, 2, 1, 1, 2);
    let m15 = mono(v, 0, 0, 0, 1, 0, 0, 0, 0);
    let m16 = mono(v, 0, 0, 0, 1, 0, 1, 1, 0);
    let m17 = mono(v, 0, 0, 0, 1, 1, 0, 0, 1);
    let m18 = mono(v, 0, 1, 0, 1, 1, 2, 2, 1);
    let m19 = mono(v, 0, 1, 0, 1, 2, 1, 1, 2);
    lemma_expand_differences(m0, m1, m2 + m3, 0);
    lemma_sum_right_2(m0, m2, m3);
    lemma_sum_right_2(m1, m2, m3);
    lemma_mono_mul(v, 0, 0, 0, 0, 0, 1, 0, 1, 0, 0, 0, 0, 0, 0, 0, 0);
    lemma_mono_mul(v, 0, 0, 0, 0, 0, 1, 0, 1, 0, 1, 0, 0, 1, 1, 1, 1);
    lemma_mono_mul(v, 1, 0, 0, 0, 1, 0, 1, 0, 0, 0, 0, 0, 0, 0, 0, 0);
    lemma_mono_mul(v, 1, 0, 0, 0, 1, 0, 1, 0, 0, 1, 0, 0, 1, 1, 1, 1);
    assert(n23y(v) * dx23(v) == (m0 + m4) - (m1 + m5));
    lemma_expand_differences(m6, 0, m0 + m4, m1 + m5);
    lemma_sum_right_2(m6, m0, m4);
    lemma_sum_right_2(m6, m1, m5);
    lemma_mono_mul(v, 0, 0, 1, 0, 0, 0, 0, 0, 0, 0, 0, 0, 0, 1, 0, 1);
    lemma_mono_mul(v, 0, 0, 1, 0, 0, 0, 0, 0, 0, 1, 0, 0, 1, 2, 1, 2);
    lemma_mono_mul(v, 0, 0, 1, 0, 0, 0, 0, 0, 1, 0, 0, 0, 1, 0, 1, 0);
    lemma_mono_mul(v, 0, 0, 1, 0, 0, 0, 0, 0, 1, 1, 0, 0, 2, 1, 2, 1);
    assert(v.x1 * (n23y(v) * dx23(v)) == (m7 + m8) - (m9 + m10));
    lemma_expand_differences(m11 + m12, 0, m2, m3);
    lemma_sum_left_2(m11, m12, m2);
    lemma_sum_left_2(m11, m12, m3);
    lemma_mono_mul(v, 0, 0, 0, 0, 0, 1, 1, 0, 0, 0, 0, 0, 0, 0, 0, 0);
    lemma_mono_mul(v, 0, 0, 0, 0, 0, 1, 1, 0, 0, 1, 0, 0, 1, 1, 1, 1);
    lemma_mono_mul(v, 0, 0, 0, 0, 1, 0, 0, 1, 0, 0, 0, 0, 0, 0, 0, 0);
    lemma_mono_mul(v, 0, 0, 0, 0, 1, 0, 0, 1, 0, 1, 0, 0, 1, 1, 1, 1);
    assert(n23x(v) * dy23(v) == (m11 + m12) - (m13 + m14));
    lemma_expand_differences(m15, 0, m11 + m12, m13 + m14);
    lemma_sum_right_2(m15, m11, m12);
    lemma_sum_right_2(m15, m13, m14);
    lemma_mono_mul(v, 0, 0, 0, 1, 0, 0, 0, 0, 0, 0, 0, 0, 0, 1, 1, 0);
    lemma_mono_mul(v, 0, 0, 0, 1, 0, 0, 0, 0, 0, 0, 0, 0, 1, 0, 0, 1);
    lemma_mono_mul(v, 0, 0, 0, 1, 0, 0, 0, 0, 0, 1, 0, 0, 1, 2, 2, 1);
    lemma_mono_mul(v, 0, 0, 0, 1, 0, 0, 0, 0, 0, 1, 0, 0, 2, 1, 1, 2);
    assert(v.y1 * (n23x(v) * dy23(v)) == (m16 + m17) - (m18 + m19));
    assert(v.x1 * (n23y(v) * dx23(v)) + v.y1 * (n23x(v) * dy23(v)) == (m16 + m17 + m7 + m8) - (m18
        + m19 + m9 + m10));
}

/// The denominator that belongs to `num_right_x`.
pub open spec fn den_right_x(v: Vars) -> int {
    dx23(v) * dy23(v) + v.d * ((v.x1 * v.y1) * (n23x(v) * n23y(v)))
}

/// `den_right_x` as a sum of monomials.
pub proof fn lemma_den_right_x_sum(v: Vars)
    ensures
        den_right_x(v) == (mono(v, 0, 0, 0, 0, 0, 0, 0, 0) + mono(v, 0, 1, 1, 1, 0, 2, 1, 1)
            + mono(v, 0, 1, 1, 1, 1, 1, 0, 2)) - (mono(v, 0, 2, 0, 0, 2, 2, 2, 2)
            + mono(v, 1, 1, 1, 1, 1, 1, 2, 0) + mono(v, 1, 1, 1, 1, 2, 0, 1, 1)),
{
    lemma_mono_units(v);
    lemma_n23x_sum(v);
    lemma_n23y_sum(v);
    lemma_dx23_sum(v);
    lemma_dy23_sum(v);
    let m0 = mono(v, 0, 0, 0, 0, 0, 0, 0, 0);
    let m1 = mono(v, 0, 1, 0, 0, 1, 1, 1, 1);
    let m2 = mono(v, 0, 2, 0, 0, 2, 2, 2, 2);
    let m3 = mono(v, 0, 0, 1, 0, 0, 0, 0, 0);
    let m4 = mono(v, 0, 0, 0, 1, 0, 0, 0, 0);
    let m5 = mono(v, 0, 0, 1, 1, 0, 0, 0, 0);
    let m6 = mono(v, 0, 0, 0, 0, 0, 1, 1, 0);
    let m7 = mono(v, 0, 0, 0, 0, 1, 0, 0, 1);
    let m8 = mono(v, 0, 0, 0, 0, 0, 1, 0, 1);
    let m9 = mono(v, 1, 0, 0, 0, 1, 0, 1, 0);
    let m10 = mono(v, 0, 0, 0, 0, 0, 2, 1, 1);
    let m11 = mono(v, 1, 0, 0, 0, 1, 1, 2, 0);
    let m12 = mono(v, 0, 0, 0, 0, 1, 1, 0, 2);
    let m13 = mono(v, 1, 0, 0, 0, 2, 0, 1, 1);
    let m14 = mono(v, 0, 0, 1, 1, 0, 2, 1, 1);
    let m15 = mono(v, 0, 0, 1, 1, 1, 1, 0, 2);
    let m16 = mono(v, 1, 0, 1, 1, 1, 1, 2, 0);
    let m17 = mono(v, 1, 0, 1, 1, 2, 0, 1, 1);
    let m18 = mono(v, 0, 1, 0, 0, 0, 0, 0, 0);
    let m19 = mono(v, 0, 1, 1, 1, 0, 2, 1, 1);
    let m20 = mono(v, 0, 1, 1, 1, 1, 1, 0, 2);
    let m21 = mono(v, 1, 1, 1, 1, 1, 1, 2, 0);
    let m22 = mono(v, 1, 1, 1, 1, 2, 0, 1, 1);
    lemma_expand_differences(m0 + m1, 0, m0, m1);
    lemma_sum_left_2(m0, m1, m0);
    lemma_sum_left_2(m0, m1, m1);
    lemma_mono_mul(v, 0, 0, 0, 0, 0, 0, 0, 0, 0, 0, 0, 0, 0, 0, 0, 0);
    lemma_mono_mul(v, 0, 0, 0, 0, 0, 0, 0, 0, 0, 1, 0, 0, 1, 1, 1, 1);
    lemma_mono_mul(v, 0, 1, 0, 0, 1, 1, 1, 1, 0, 0, 0, 0, 0, 0, 0, 0);
    lemma_mono_mul(v, 0, 1, 0, 0, 1, 1, 1, 1, 0, 1, 0, 0, 1, 1, 1, 1);
    assert(dx23(v) * dy23(v) == (m0) - (m2));
    lemma_expand_differences(m3, 0, m4, 0);
    lemma_mono_mul(v, 0, 0, 1, 0, 0, 0, 0, 0, 0, 0, 0, 1, 0, 0, 0, 0);
    assert(v.x1 * v.y1 == m5);
    lemma_expand_differences(m6 + m7, 0, m8, m9);
    lemma_sum_left_2(m6, m7, m8);
    lemma_sum_left_2(m6, m7, m9);
    lemma_mono_mul(v, 0, 0, 0, 0, 0, 1, 1, 0, 0, 0, 0, 0, 0, 1, 0, 1);
    lemma_mono_mul(v, 0, 0, 0, 0, 0, 1, 1, 0, 1, 0, 0, 0, 1, 0, 1, 0);
    lemma_mono_mul(v, 0, 0, 0, 0, 1, 0, 0, 1, 0, 0, 0, 0, 0, 1, 0, 1);
    lemma_mono_mul(v, 0, 0, 0, 0, 1, 0, 0, 1, 1, 0, 0, 0, 1, 0, 1, 0);
    assert(n23x(v) * n23y(v) == (m10 + m12) - (m11 + m13));
    lemma_expand_differences(m5, 0, m10 + m12, m11 + m13);
    lemma_sum_right_2(m5, m10, m12);
    lemma_sum_right_2(m5, m11, m13);
    lemma_mono_mul(v, 0, 0, 1, 1, 0, 0, 0, 0, 0, 0, 0, 0, 0, 2, 1, 1);
    lemma_mono_mul(v, 0, 0, 1, 1, 0, 0, 0, 0, 0, 0, 0, 0, 1, 1, 0, 2);
    lemma_mono_mul(v, 0, 0, 1, 1, 0, 0, 0, 0, 1, 0, 0, 0, 1, 1, 2, 0);
    lemma_mono_mul(v, 0, 0, 1, 1, 0, 0, 0, 0, 1, 0, 0, 0, 2, 0, 1, 1);
    assert((v.x1 * v.y1) * (n23x(v) * n23y(v)) == (m14 + m15) - (m16 + m17));
    lemma_expand_differences(m18, 0, m14 + m15, m16 + m17);
    lemma_sum_right_2(m18, m14, m15);
    lemma_sum_right_2(m18, m16, m17);
    lemma_mono_mul(v, 0, 1, 0, 0, 0, 0, 0, 0, 0, 0, 1, 1, 0, 2, 1, 1);
    lemma_mono_mul(v, 0, 1, 0, 0, 0, 0, 0, 0, 0, 0, 1, 1, 1, 1, 0, 2);
    lemma_mono_mul(v, 0, 1, 0, 0, 0, 0, 0, 0, 1, 0, 1, 1, 1, 1, 2, 0);
    lemma_mono_mul(v, 0, 1, 0, 0, 0, 0, 0, 0, 1, 0, 1, 1, 2, 0, 1, 1);
    assert(v.d * ((v.x1 * v.y1) * (n23x(v) * n23y(v))) == (m19 + m20) - (m21 + m22));
    assert(dx23(v) * dy23(v) + v.d * ((v.x1 * v.y1) * (n23x(v) * n23y(v))) == (m0 + m19
        + m20) - (m2 + m21 + m22));
}

/// The second coordinate of `P + (Q + R)` is `num_right_y / den_right_y`.
pub open spec fn num_right_y(v: Vars) -> int {
    v.y1 * (n23y(v) * dx23(v)) - v.a * (v.x1 * (n23x(v) * dy23(v)))
}

/// `num_right_y` as a sum of monomials.
pub proof fn lemma_num_right_y_sum(v: Vars)
    ensures
        num_right_y(v) == (mono(v, 0, 0, 0, 1, 0, 1, 0, 1) + mono(v, 0, 1, 0, 1, 1, 2, 1, 2)
            + mono(v, 1, 1, 1, 0, 1, 2, 2, 1)
            + mono(v, 1, 1, 1, 0, 2, 1, 1, 2)) - (mono(v, 1, 0, 0, 1, 1, 0, 1, 0)
            + mono(v, 1, 0, 1, 0, 0, 1, 1, 0) + mono(v, 1, 0, 1, 0, 1, 0, 0, 1)
            + mono(v, 1, 1, 0, 1, 2, 1, 2, 1)),
{
    lemma_mono_units(v);
    lemma_n23x_sum(v);
    lemma_n23y_sum(v);
    lemma_dx23_sum(v);
    lemma_dy23_sum(v);
    let m0 = mono(v, 0, 0, 0, 0, 0, 1, 0, 1);
    let m1 = mono(v, 1, 0, 0, 0, 1, 0, 1, 0);
    let m2 = mono(v, 0, 0, 0, 0, 0, 0, 0, 0);
    let m3 = mono(v, 0, 1, 0, 0, 1, 1, 1, 1);
    let m4 = mono(v, 0, 1, 0, 0, 1, 2, 1, 2);
    let m5 = mono(v, 1, 1, 0, 0, 2, 1, 2, 1);
    let m6 = mono(v, 0, 0, 0, 1, 0, 0, 0, 0);
    let m7 = mono(v, 0, 0, 0, 1, 0, 1, 0, 1);
    let m8 = mono(v, 0, 1, 0, 1, 1, 2, 1, 2);
    let m9 = mono(v, 1, 0, 0, 1, 1, 0, 1, 0);
    let m10 = mono(v, 1, 1, 0, 1, 2, 1, 2, 1);
    let m11 = mono(v, 0, 0, 0, 0, 0, 1, 1, 0);
    let m12 = mono(v, 0, 0, 0, 0, 1, 0, 0, 1);
    let m13 = mono(v, 0, 1, 0, 0, 1, 2, 2, 1);
    let m14 = mono(v, 0, 1, 0, 0, 2, 1, 1, 2);
    let m15 = mono(v, 0, 0, 1, 0, 0, 0, 0, 0);
    let m16 = mono(v, 0, 0, 1, 0, 0, 1, 1, 0);
    let m17 = mono(v, 0, 0, 1, 0, 1, 0, 0, 1);
    let m18 = mono(v, 0, 1, 1, 0, 1, 2, 2, 1);
    let m19 = mono(v, 0, 1, 1, 0, 2, 1, 1, 2);
    let m20 = mono(v, 1, 0, 0, 0, 0, 0, 0, 0);
    let m21 = mono(v, 1, 0, 1, 0, 0, 1, 1, 0);
    let m22 = mono(v, 1, 0, 1, 0, 1, 0, 0, 1);
    let m23 = mono(v, 1, 1, 1, 0, 1, 2, 2, 1);
    let m24 = mono(v, 1, 1, 1, 0, 2, 1, 1, 2);
    lemma_expand_differences(m0, m1, m2 + m3, 0);
    lemma_sum_right_2(m0, m2, m3);
    lemma_sum_right_2(m1, m2, m3);
    lemma_mono_mul(v, 0, 0, 0, 0, 0, 1, 0, 1, 0, 0, 0, 0, 0, 0, 0, 0);
    lemma_mono_mul(v, 0, 0, 0, 0, 0, 1, 0, 1, 0, 1, 0, 0, 1, 1, 1, 1);
    lemma_mono_mul(v, 1, 0, 0, 0, 1, 0, 1, 0, 0, 0, 0, 0, 0, 0, 0, 0);
    lemma_mono_mul(v, 1, 0, 0, 0, 1, 0, 1, 0, 0, 1, 0, 0, 1, 1, 1, 1);
    assert(n23y(v) * dx23(v) == (m0 + m4) - (m1 + m5));
    lemma_expand_differences(m6, 0, m0 + m4, m1 + m5);
    lemma_sum_right_2(m6, m0, m4);
    lemma_sum_right_2(m6, m1, m5);
    lemma_mono_mul(v, 0, 0, 0, 1, 0, 0, 0, 0, 0, 0, 0, 0, 0, 1, 0, 1);
    lemma_mono_mul(v, 0, 0, 0, 1, 0, 0, 0, 0, 0, 1, 0, 0, 1, 2, 1, 2);
    lemma_mono_mul(v, 0, 0, 0, 1, 0, 0, 0, 0, 1, 0, 0, 0, 1, 0, 1, 0);
    lemma_mono_mul(v, 0, 0, 0, 1, 0, 0, 0, 0, 1, 1, 0, 0, 2, 1, 2, 1);
    assert(v.y1 * (n23y(v) * dx23(v)) == (m7 + m8) - (m9 + m10));
    lemma_expand_differences(m11 + m12, 0, m2, m3);
    lemma_sum_left_2(m11, m12, m2);
    lemma_sum_left_2(m11, m12, m3);
    lemma_mono_mul(v, 0, 0, 0, 0, 0, 1, 1, 0, 0, 0, 0, 0, 0, 0, 0, 0);
    lemma_mono_mul(v, 0, 0, 0, 0, 0, 1, 1, 0, 0, 1, 0, 0, 1, 1, 1, 1);
    lemma_mono_mul(v, 0, 0, 0, 0, 1, 0, 0, 1, 0, 0, 0, 0, 0, 0, 0, 0);
    lemma_mono_mul(v, 0, 0, 0, 0, 1, 0, 0, 1, 0, 1, 0, 0, 1, 1, 1, 1);
    assert(n23x(v) * dy23(v) == (m11 + m12) - (m13 + m14));
    lemma_expand_differences(m15, 0, m11 + m12, m13 + m14);
    lemma_sum_right_2(m15, m11, m12);
    lemma_sum_right_2(m15, m13, m14);
    lemma_mono_mul(v, 0, 0, 1, 0, 0, 0, 0, 0, 0, 0, 0, 0, 0, 1, 1, 0);
    lemma_mono_mul(v, 0, 0, 1, 0, 0, 0, 0, 0, 0, 0, 0, 0, 1, 0, 0, 1);
    lemma_mono_mul(v, 0, 0, 1, 0, 0, 0, 0, 0, 0, 1, 0, 0, 1, 2, 2, 1);
    lemma_mono_mul(v, 0, 0, 1, 0, 0, 0, 0, 0, 0, 1, 0, 0, 2, 1, 1, 2);
    assert(v.x1 * (n23x(v) * dy23(v)) == (m16 + m17) - (m18 + m19));
    lemma_expand_differences(m20, 0, m16 + m17, m18 + m19);
    lemma_sum_right_2(m20, m16, m17);
    lemma_sum_right_2(m20, m18, m19);
    lemma_mono_mul(v, 1, 0, 0, 0, 0, 0, 0, 0, 0, 0, 1, 0, 0, 1, 1, 0);
    lemma_mono_mul(v, 1, 0, 0, 0, 0, 0, 0, 0, 0, 0, 1, 0, 1, 0, 0, 1);
    lemma_mono_mul(v, 1, 0, 0, 0, 0, 0, 0, 0, 0, 1, 1, 0, 1, 2, 2, 1);
    lemma_mono_mul(v, 1, 0, 0, 0, 0, 0, 0, 0, 0, 1, 1, 0, 2, 1, 1, 2);
    assert(v.a * (v.x1 * (n23x(v) * dy23(v))) == (m21 + m22) - (m23 + m24));
    assert(v.y1 * (n23y(v) * dx23(v)) - v.a * (v.x1 * (n23x(v) * dy23(v))) == (m7 + m8 + m23
        + m24) - (m9 + m21 + m22 + m10));
}

/// The denominator that belongs to `num_right_y`.
pub open spec fn den_right_y(v: Vars) -> int {
    dx23(v) * dy23(v) - v.d * ((v.x1 * v.y1) * (n23x(v) * n23y(v)))
}

/// `den_right_y` as a sum of monomials.
pub proof fn lemma_den_right_y_sum(v: Vars)
    ensures
        den_right_y(v) == (mono(v, 0, 0, 0, 0, 0, 0, 0, 0) + mono(v, 1, 1, 1, 1, 1, 1, 2, 0)
            + mono(v, 1, 1, 1, 1, 2, 0, 1, 1)) - (mono(v, 0, 1, 1, 1, 0, 2, 1, 1)
            + mono(v, 0, 1, 1, 1, 1, 1, 0, 2) + mono(v, 0, 2, 0, 0, 2, 2, 2, 2)),
{
    lemma_mono_units(v);
    lemma_n23x_sum(v);
    lemma_n23y_sum(v);
    lemma_dx23_sum(v);
    lemma_dy23_sum(v);
    let m0 = mono(v, 0, 0, 0, 0, 0, 0, 0, 0);
    let m1 = mono(v, 0, 1, 0, 0, 1, 1, 1, 1);
    let m2 = mono(v, 0, 2, 0, 0, 2, 2, 2, 2);
    let m3 = mono(v, 0, 0, 1, 0, 0, 0, 0, 0);
    let m4 = mono(v, 0, 0, 0, 1, 0, 0, 0, 0);
    let m5 = mono(v, 0, 0, 1, 1, 0, 0, 0, 0);
    let m6 = mono(v, 0, 0, 0, 0, 0, 1, 1, 0);
    let m7 = mono(v, 0, 0, 0, 0, 1, 0, 0, 1);
    let m8 = mono(v, 0, 0, 0, 0, 0, 1, 0, 1);
    let m9 = mono(v, 1, 0, 0, 0, 1, 0, 1, 0);
    let m10 = mono(v, 0, 0, 0, 0, 0, 2, 1, 1);
    let m11 = mono(v, 1, 0, 0, 0, 1, 1, 2, 0);
    let m12 = mono(v, 0, 0, 0, 0, 1, 1, 0, 2);
    let m13 = mono(v, 1, 0, 0, 0, 2, 0, 1, 1);
    let m14 = mono(v, 0, 0, 1, 1, 0, 2, 1, 1);
    let m15 = mono(v, 0, 0, 1, 1, 1, 1, 0, 2);
    let m16 = mono(v, 1, 0, 1, 1, 1, 1, 2, 0);
    let m17 = mono(v, 1, 0, 1, 1, 2, 0, 1, 1);
    let m18 = mono(v, 0, 1, 0, 0, 0, 0, 0, 0);
    let m19 = mono(v, 0, 1, 1, 1, 0, 2, 1, 1);
    let m20 = mono(v, 0, 1, 1, 1, 1, 1, 0, 2);
    let m21 = mono(v, 1, 1, 1, 1, 1, 1, 2, 0);
    let m22 = mono(v, 1, 1, 1, 1, 2, 0, 1, 1);
    lemma_expand_differences(m0 + m1, 0, m0, m1);
    lemma_sum_left_2(m0, m1, m0);
    lemma_sum_left_2(m0, m1, m1);
    lemma_mono_mul(v, 0, 0, 0, 0, 0, 0, 0, 0, 0, 0, 0, 0, 0, 0, 0, 0);
    lemma_mono_mul(v, 0, 0, 0, 0, 0, 0, 0, 0, 0, 1, 0, 0, 1, 1, 1, 1);
    lemma_mono_mul(v, 0, 1, 0, 0, 1, 1, 1, 1, 0, 0, 0, 0, 0, 0, 0, 0);
    lemma_mono_mul(v, 0, 1, 0, 0, 1, 1, 1, 1, 0, 1, 0, 0, 1, 1, 1, 1);
    assert(dx23(v) * dy23(v) == (m0) - (m2));
    lemma_expand_differences(m3, 0, m4, 0);
    lemma_mono_mul(v, 0, 0, 1, 0, 0, 0, 0, 0, 0, 0, 0, 1, 0, 0, 0, 0);
    assert(v.x1 * v.y1 == m5);
    lemma_expand_differences(m6 + m7, 0, m8, m9);
    lemma_sum_left_2(m6, m7, m8);
    lemma_sum_left_2(m6, m7, m9);
    lemma_mono_mul(v, 0, 0, 0, 0, 0, 1, 1, 0, 0, 0, 0, 0, 0, 1, 0, 1);
    lemma_mono_mul(v, 0, 0, 0, 0, 0, 1, 1, 0, 1, 0, 0, 0, 1, 0, 1, 0);
    lemma_mono_mul(v, 0, 0, 0, 0, 1, 0, 0, 1, 0, 0, 0, 0, 0, 1, 0, 1);
    lemma_mono_mul(v, 0, 0, 0, 0, 1, 0, 0, 1, 1, 0, 0, 0, 1, 0, 1, 0);
    assert(n23x(v) * n23y(v) == (m10 + m12) - (m11 + m13));
    lemma_expand_differences(m5, 0, m10 + m12, m11 + m13);
    lemma_sum_right_2(m5, m10, m12);
    lemma_sum_right_2(m5, m11, m13);
    lemma_mono_mul(v, 0, 0, 1, 1, 0, 0, 0, 0, 0, 0, 0, 0, 0, 2, 1, 1);
    lemma_mono_mul(v, 0, 0, 1, 1, 0, 0, 0, 0, 0, 0, 0, 0, 1, 1, 0, 2);
    lemma_mono_mul(v, 0, 0, 1, 1, 0, 0, 0, 0, 1, 0, 0, 0, 1, 1, 2, 0);
    lemma_mono_mul(v, 0, 0, 1, 1, 0, 0, 0, 0, 1, 0, 0, 0, 2, 0, 1, 1);
    assert((v.x1 * v.y1) * (n23x(v) * n23y(v)) == (m14 + m15) - (m16 + m17));
    lemma_expand_differences(m18, 0, m14 + m15, m16 + m17);
    lemma_sum_right_2(m18, m14, m15);
    lemma_sum_right_2(m18, m16, m17);
    lemma_mono_mul(v, 0, 1, 0, 0, 0, 0, 0, 0, 0, 0, 1, 1, 0, 2, 1, 1);
    lemma_mono_mul(v, 0, 1, 0, 0, 0, 0, 0, 0, 0, 0, 1, 1, 1, 1, 0, 2);
    lemma_mono_mul(v, 0, 1, 0, 0, 0, 0, 0, 0, 1, 0, 1, 1, 1, 1, 2, 0);
    lemma_mono_mul(v, 0, 1, 0, 0, 0, 0, 0, 0, 1, 0, 1, 1, 2, 0, 1, 1);
    assert(v.d * ((v.x1 * v.y1) * (n23x(v) * n23y(v))) == (m19 + m20) - (m21 + m22));
    assert(dx23(v) * dy23(v) - v.d * ((v.x1 * v.y1) * (n23x(v) * n23y(v))) == (m0 + m21
        + m22) - (m19 + m20 + m2));
}

/// The curve equation of `P`, left side minus right side.
pub open spec fn curve1(v: Vars) -> int {
    v.a * (v.x1 * v.x1) + v.y1 * v.y1 - (1 + v.d * ((v.x1 * v.x1) * (v.y1 * v.y1)))
}

/// `curve1` as a sum of monomials.
pub proof fn lemma_curve1_sum(v: Vars)
    ensures
        curve1(v) == (mono(v, 0, 0, 0, 2, 0, 0, 0, 0)
            + mono(v, 1, 0, 2, 0, 0, 0, 0, 0)) - (mono(v, 0, 0, 0, 0, 0, 0, 0, 0)
            + mono(v, 0, 1, 2, 2, 0, 0, 0, 0)),
{
    lemma_mono_units(v);
    let m0 = mono(v, 0, 0, 1, 0, 0, 0, 0, 0);
    let m1 = mono(v, 0, 0, 2, 0, 0, 0, 0, 0);
    let m2 = mono(v, 1, 0, 0, 0, 0, 0, 0, 0);
    let m3 = mono(v, 1, 0, 2, 0, 0, 0, 0, 0);
    let m4 = mono(v, 0, 0, 0, 1, 0, 0, 0, 0);
    let m5 = mono(v, 0, 0, 0, 2, 0, 0, 0, 0);
    let m6 = mono(v, 0, 0, 2, 2, 0, 0, 0, 0);
    let m7 = mono(v, 0, 1, 0, 0, 0, 0, 0, 0);
    let m8 = mono(v, 0, 1, 2, 2, 0, 0, 0, 0);
    let m9 = mono(v, 0, 0, 0, 0, 0, 0, 0, 0);
    lemma_expand_differences(m0, 0, m0, 0);
    lemma_mono_mul(v, 0, 0, 1, 0, 0, 0, 0, 0, 0, 0, 1, 0, 0, 0, 0, 0);
    assert(v.x1 * v.x1 == m1);
    lemma_expand_differences(m2, 0, m1, 0);
    lemma_mono_mul(v, 1, 0, 0, 0, 0, 0, 0, 0, 0, 0, 2, 0, 0, 0, 0, 0);
    assert(v.a * (v.x1 * v.x1) == m3);
    lemma_expand_differences(m4, 0, m4, 0);
    lemma_mono_mul(v, 0, 0, 0, 1, 0, 0, 0, 0, 0, 0, 0, 1, 0, 0, 0, 0);
    assert(v.y1 * v.y1 == m5);
    assert(v.a * (v.x1 * v.x1) + v.y1 * v.y1 == m5 + m3);
    lemma_expand_differences(m0, 0, m0, 0);
    lemma_mono_mul(v, 0, 0, 1, 0, 0, 0, 0, 0, 0, 0, 1, 0, 0, 0, 0, 0);
    assert(v.x1 * v.x1 == m1);
    lemma_expand_differences(m4, 0, m4, 0);
    lemma_mono_mul(v, 0, 0, 0, 1, 0, 0, 0, 0, 0, 0, 0, 1, 0, 0, 0, 0);
    assert(v.y1 * v.y1 == m5);
    lemma_expand_differences(m1, 0, m5, 0);
    lemma_mono_mul(v, 0, 0, 2, 0, 0, 0, 0, 0, 0, 0, 0, 2, 0, 0, 0, 0);
    assert((v.x1 * v.x1) * (v.y1 * v.y1) == m6);
    lemma_expand_differences(m7, 0, m6, 0);
    lemma_mono_mul(v, 0, 1, 0, 0, 0, 0, 0, 0, 0, 0, 2, 2, 0, 0, 0, 0);
    assert(v.d * ((v.x1 * v.x1) * (v.y1 * v.y1)) == m8);
    assert(1 + v.d * ((v.x1 * v.x1) * (v.y1 * v.y1)) == m9 + m8);
    assert(v.a * (v.x1 * v.x1) + v.y1 * v.y1 - (1 + v.d * ((v.x1 * v.x1) * (v.y1 * v.y1))) == (m5
        + m3) - (m9 + m8));
}

/// The curve equation of `Q`, left side minus right side.
pub open spec fn curve2(v: Vars) -> int {
    v.a * (v.x2 * v.x2) + v.y2 * v.y2 - (1 + v.d * ((v.x2 * v.x2) * (v.y2 * v.y2)))
}

/// `curve2` as a sum of monomials.
pub proof fn lemma_curve2_sum(v: Vars)
    ensures
        curve2(v) == (mono(v, 0, 0, 0, 0, 0, 2, 0, 0)
            + mono(v, 1, 0, 0, 0, 2, 0, 0, 0)) - (mono(v, 0, 0, 0, 0, 0, 0, 0, 0)
            + mono(v, 0, 1, 0, 0, 2, 2, 0, 0)),
{
    lemma_mono_units(v);
    let m0 = mono(v, 0, 0, 0, 0, 1, 0, 0, 0);
    let m1 = mono(v, 0, 0, 0, 0, 2, 0, 0, 0);
    let m2 = mono(v, 1, 0, 0, 0, 0, 0, 0, 0);
    let m3 = mono(v, 1, 0, 0, 0, 2, 0, 0, 0);
    let m4 = mono(v, 0, 0, 0, 0, 0, 1, 0, 0);
    let m5 = mono(v, 0, 0, 0, 0, 0, 2, 0, 0);
    let m6 = mono(v, 0, 0, 0, 0, 2, 2, 0, 0);
    let m7 = mono(v, 0, 1, 0, 0, 0, 0, 0, 0);
    let m8 = mono(v, 0, 1, 0, 0, 2, 2, 0, 0);
    let m9 = mono(v, 0, 0, 0, 0, 0, 0, 0, 0);
    lemma_expand_differences(m0, 0, m0, 0);
    lemma_mono_mul(v, 0, 0, 0, 0, 1, 0, 0, 0, 0, 0, 0, 0, 1, 0, 0, 0);
    assert(v.x2 * v.x2 == m1);
    lemma_expand_differences(m2, 0, m1, 0);
    lemma_mono_mul(v, 1, 0, 0, 0, 0, 0, 0, 0, 0, 0, 0, 0, 2, 0, 0, 0);
    assert(v.a * (v.x2 * v.x2) == m3);
    lemma_expand_differences(m4, 0, m4, 0);
    lemma_mono_mul(v, 0, 0, 0, 0, 0, 1, 0, 0, 0, 0, 0, 0, 0, 1, 0, 0);
    assert(v.y2 * v.y2 == m5);
    assert(v.a * (v.x2 * v.x2) + v.y2 * v.y2 == m5 + m3);
    lemma_expand_differences(m0, 0, m0, 0);
    lemma_mono_mul(v, 0, 0, 0, 0, 1, 0, 0, 0, 0, 0, 0, 0, 1, 0, 0, 0);
    assert(v.x2 * v.x2 == m1);
    lemma_expand_differences(m4, 0, m4, 0);
    lemma_mono_mul(v, 0, 0, 0, 0, 0, 1, 0, 0, 0, 0, 0, 0, 0, 1, 0, 0);
    assert(v.y2 * v.y2 == m5);
    lemma_expand_differences(m1, 0, m5, 0);
    lemma_mono_mul(v, 0, 0, 0, 0, 2, 0, 0, 0, 0, 0, 0, 0, 0, 2, 0, 0);
    assert((v.x2 * v.x2) * (v.y2 * v.y2) == m6);
    lemma_expand_differences(m7, 0, m6, 0);
    lemma_mono_mul(v, 0, 1, 0, 0, 0, 0, 0, 0, 0, 0, 0, 0, 2, 2, 0, 0);
    assert(v.d * ((v.x2 * v.x2) * (v.y2 * v.y2)) == m8);
    assert(1 + v.d * ((v.x2 * v.x2) * (v.y2 * v.y2)) == m9 + m8);
    assert(v.a * (v.x2 * v.x2) + v.y2 * v.y2 - (1 + v.d * ((v.x2 * v.x2) * (v.y2 * v.y2))) == (m5
        + m3) - (m9 + m8));
}

/// The curve equation of `R`, left side minus right side.
pub open spec fn curve3(v: Vars) -> int {
    v.a * (v.x3 * v.x3) + v.y3 * v.y3 - (1 + v.d * ((v.x3 * v.x3) * (v.y3 * v.y3)))
}

/// `curve3` as a sum of monomials.
pub proof fn lemma_curve3_sum(v: Vars)
    ensures
        curve3(v) == (mono(v, 0, 0, 0, 0, 0, 0, 0, 2)
            + mono(v, 1, 0, 0, 0, 0, 0, 2, 0)) - (mono(v, 0, 0, 0, 0, 0, 0, 0, 0)
            + mono(v, 0, 1, 0, 0, 0, 0, 2, 2)),
{
    lemma_mono_units(v);
    let m0 = mono(v, 0, 0, 0, 0, 0, 0, 1, 0);
    let m1 = mono(v, 0, 0, 0, 0, 0, 0, 2, 0);
    let m2 = mono(v, 1, 0, 0, 0, 0, 0, 0, 0);
    let m3 = mono(v, 1, 0, 0, 0, 0, 0, 2, 0);
    let m4 = mono(v, 0, 0, 0, 0, 0, 0, 0, 1);
    let m5 = mono(v, 0, 0, 0, 0, 0, 0, 0, 2);
    let m6 = mono(v, 0, 0, 0, 0, 0, 0, 2, 2);
    let m7 = mono(v, 0, 1, 0, 0, 0, 0, 0, 0);
    let m8 = mono(v, 0, 1, 0, 0, 0, 0, 2, 2);
    let m9 = mono(v, 0, 0, 0, 0, 0, 0, 0, 0);
    lemma_expand_differences(m0, 0, m0, 0);
    lemma_mono_mul(v, 0, 0, 0, 0, 0, 0, 1, 0, 0, 0, 0, 0, 0, 0, 1, 0);
    assert(v.x3 * v.x3 == m1);
    lemma_expand_differences(m2, 0, m1, 0);
    lemma_mono_mul(v, 1, 0, 0, 0, 0, 0, 0, 0, 0, 0, 0, 0, 0, 0, 2, 0);
    assert(v.a * (v.x3 * v.x3) == m3);
    lemma_expand_differences(m4, 0, m4, 0);
    lemma_mono_mul(v, 0, 0, 0, 0, 0, 0, 0, 1, 0, 0, 0, 0, 0, 0, 0, 1);
    assert(v.y3 * v.y3 == m5);
    assert(v.a * (v.x3 * v.x3) + v.y3 * v.y3 == m5 + m3);
    lemma_expand_differences(m0, 0, m0, 0);
    lemma_mono_mul(v, 0, 0, 0, 0, 0, 0, 1, 0, 0, 0, 0, 0, 0, 0, 1, 0);
    assert(v.x3 * v.x3 == m1);
    lemma_expand_differences(m4, 0, m4, 0);
    lemma_mono_mul(v, 0, 0, 0, 0, 0, 0, 0, 1, 0, 0, 0, 0, 0, 0, 0, 1);
    assert(v.y3 * v.y3 == m5);
    lemma_expand_differences(m1, 0, m5, 0);
    lemma_mono_mul(v, 0, 0, 0, 0, 0, 0, 2, 0, 0, 0, 0, 0, 0, 0, 0, 2);
    assert((v.x3 * v.x3) * (v.y3 * v.y3) == m6);
    lemma_expand_differences(m7, 0, m6, 0);
    lemma_mono_mul(v, 0, 1, 0, 0, 0, 0, 0, 0, 0, 0, 0, 0, 0, 0, 2, 2);
    assert(v.d * ((v.x3 * v.x3) * (v.y3 * v.y3)) == m8);
    assert(1 + v.d * ((v.x3 * v.x3) * (v.y3 * v.y3)) == m9 + m8);
    assert(v.a * (v.x3 * v.x3) + v.y3 * v.y3 - (1 + v.d * ((v.x3 * v.x3) * (v.y3 * v.y3))) == (m5
        + m3) - (m9 + m8));
}

} // verus!
