//! Associativity of the addition law, first coordinate: the polynomial identity.
//!
//! With `num_left / den_left` the first coordinate of `(P + Q) + R` and
//! `num_right / den_right` that of `P + (Q + R)`, the difference
//! `num_left * den_right - num_right * den_left` is a combination of the curve
//! equations of the three points. Both sides are multiplied out into monomials.

use crate::monomial::{lemma_mono_mul, mono, Vars};
use crate::ring::lemma_expand_differences;
use crate::shapes::{
    curve1, curve2, curve3, den_left_x, den_right_x, lemma_curve1_sum, lemma_curve2_sum,
    lemma_curve3_sum, lemma_den_left_x_sum, lemma_den_right_x_sum, lemma_num_left_x_sum,
    lemma_num_right_x_sum, num_left_x, num_right_x,
};
use crate::sums::{lemma_sum_left_4, lemma_sum_left_8, lemma_sum_right_2, lemma_sum_right_3};
use vstd::prelude::*;

verus! {

/// The multiple of the curve equation of `P` in the difference of the
/// two cross products.
pub open spec fn cofactor_x1(v: Vars) -> int {
    (mono(v, 0, 1, 0, 1, 3, 2, 0, 3) + mono(v, 0, 1, 1, 0, 1, 4, 1, 2)
        + mono(v, 0, 1, 1, 0, 2, 3, 0, 3) + mono(v, 0, 2, 0, 1, 3, 4, 2, 1)
        + mono(v, 0, 2, 0, 1, 4, 3, 1, 2) + mono(v, 1, 1, 0, 1, 2, 3, 3, 0)
        + mono(v, 1, 1, 1, 0, 3, 2, 1, 0)
        + mono(v, 1, 2, 1, 0, 4, 3, 2, 1)) - (mono(v, 0, 1, 0, 1, 1, 4, 2, 1)
        + mono(v, 0, 1, 0, 1, 2, 3, 1, 0) + mono(v, 0, 1, 0, 1, 3, 2, 0, 1)
        + mono(v, 0, 1, 1, 0, 2, 3, 0, 1) + mono(v, 0, 2, 1, 0, 3, 4, 1, 2)
        + mono(v, 1, 1, 0, 1, 4, 1, 1, 2) + mono(v, 2, 1, 1, 0, 3, 2, 3, 0)
        + mono(v, 2, 1, 1, 0, 4, 1, 2, 1))
}

/// The multiple of the curve equation of `Q` in the difference of the
/// two cross products.
pub open spec fn cofactor_x2(v: Vars) -> int {
    (mono(v, 0, 1, 0, 3, 1, 2, 2, 1) + mono(v, 0, 1, 0, 3, 2, 1, 1, 2)
        + mono(v, 0, 1, 1, 0, 1, 2, 1, 2) + mono(v, 0, 2, 1, 2, 1, 2, 3, 2)
        + mono(v, 1, 1, 1, 2, 2, 1, 2, 1) + mono(v, 1, 1, 2, 1, 1, 2, 2, 1)
        + mono(v, 1, 1, 2, 1, 2, 1, 1, 2)
        + mono(v, 2, 1, 3, 0, 2, 1, 2, 1)) - (mono(v, 0, 1, 0, 1, 1, 2, 2, 1)
        + mono(v, 0, 1, 0, 1, 2, 1, 1, 2) + mono(v, 0, 1, 1, 2, 1, 2, 1, 2)
        + mono(v, 0, 2, 1, 2, 2, 1, 2, 3) + mono(v, 0, 2, 2, 1, 1, 2, 2, 3)
        + mono(v, 1, 1, 1, 0, 2, 1, 2, 1) + mono(v, 1, 1, 3, 0, 1, 2, 1, 2)
        + mono(v, 1, 2, 2, 1, 2, 1, 3, 2))
}

/// The multiple of the curve equation of `R` in the difference of the
/// two cross products.
pub open spec fn cofactor_x3(v: Vars) -> int {
    (mono(v, 0, 1, 0, 1, 2, 3, 1, 0) + mono(v, 0, 1, 0, 1, 3, 2, 0, 1)
        + mono(v, 0, 1, 1, 0, 2, 3, 0, 1) + mono(v, 0, 1, 1, 2, 2, 1, 0, 1)
        + mono(v, 0, 1, 2, 1, 1, 2, 0, 1) + mono(v, 1, 1, 1, 2, 3, 2, 1, 0)
        + mono(v, 1, 1, 2, 1, 2, 1, 1, 0)
        + mono(v, 2, 1, 3, 0, 3, 2, 1, 0)) - (mono(v, 0, 1, 0, 3, 2, 3, 1, 0)
        + mono(v, 0, 1, 0, 3, 3, 2, 0, 1) + mono(v, 0, 1, 1, 2, 1, 2, 1, 0)
        + mono(v, 0, 1, 1, 2, 2, 3, 0, 1) + mono(v, 1, 1, 1, 0, 3, 2, 1, 0)
        + mono(v, 1, 1, 2, 1, 2, 3, 1, 0) + mono(v, 1, 1, 2, 1, 3, 2, 0, 1)
        + mono(v, 1, 1, 3, 0, 2, 3, 0, 1))
}

/// The cross product `num_left * den_right` as a sum of monomials.
proof fn lemma_left_x_product(v: Vars)
    ensures
        num_left_x(v) * den_right_x(v) == (mono(v, 0, 0, 0, 1, 0, 1, 1, 0)
            + mono(v, 0, 0, 0, 1, 1, 0, 0, 1) + mono(v, 0, 0, 1, 0, 0, 1, 0, 1)
            + mono(v, 0, 1, 1, 2, 0, 3, 2, 1) + mono(v, 0, 1, 1, 2, 1, 2, 1, 0)
            + mono(v, 0, 1, 1, 2, 1, 2, 1, 2) + mono(v, 0, 1, 1, 2, 1, 2, 1, 2)
            + mono(v, 0, 1, 1, 2, 2, 1, 0, 3) + mono(v, 0, 1, 2, 1, 0, 3, 1, 2)
            + mono(v, 0, 1, 2, 1, 1, 2, 0, 3) + mono(v, 0, 2, 2, 3, 1, 4, 2, 1)
            + mono(v, 0, 3, 1, 2, 4, 3, 2, 3) + mono(v, 0, 3, 2, 1, 3, 4, 2, 3)
            + mono(v, 1, 2, 1, 0, 3, 2, 3, 2) + mono(v, 1, 2, 2, 3, 4, 1, 1, 2)
            + mono(v, 1, 3, 2, 1, 4, 3, 3, 2) + mono(v, 2, 1, 2, 1, 2, 1, 3, 0)
            + mono(v, 2, 1, 2, 1, 3, 0, 2, 1) + mono(v, 2, 2, 3, 2, 3, 2, 3, 0)
            + mono(v, 2, 2, 3, 2, 4, 1, 2, 1)) - (mono(v, 0, 1, 1, 2, 2, 1, 0, 1)
            + mono(v, 0, 1, 2, 1, 1, 2, 0, 1) + mono(v, 0, 2, 0, 1, 2, 3, 3, 2)
            + mono(v, 0, 2, 0, 1, 3, 2, 2, 3) + mono(v, 0, 2, 1, 0, 2, 3, 2, 3)
            + mono(v, 0, 2, 2, 3, 3, 2, 0, 3) + mono(v, 0, 2, 3, 2, 1, 4, 1, 2)
            + mono(v, 0, 2, 3, 2, 2, 3, 0, 3) + mono(v, 0, 3, 1, 2, 3, 4, 3, 2)
            + mono(v, 1, 0, 1, 0, 1, 0, 1, 0) + mono(v, 1, 1, 1, 2, 1, 2, 3, 0)
            + mono(v, 1, 1, 1, 2, 2, 1, 2, 1) + mono(v, 1, 1, 1, 2, 2, 1, 2, 1)
            + mono(v, 1, 1, 1, 2, 3, 0, 1, 2) + mono(v, 1, 1, 2, 1, 1, 2, 2, 1)
            + mono(v, 1, 1, 2, 1, 1, 2, 2, 1) + mono(v, 1, 1, 2, 1, 2, 1, 1, 0)
            + mono(v, 1, 1, 2, 1, 2, 1, 1, 2) + mono(v, 1, 1, 2, 1, 2, 1, 1, 2)
            + mono(v, 1, 2, 2, 3, 2, 3, 3, 0)),
{
    lemma_num_left_x_sum(v);
    lemma_den_right_x_sum(v);
    let m0 = mono(v, 0, 0, 0, 1, 0, 1, 1, 0);
    let m1 = mono(v, 0, 0, 0, 1, 1, 0, 0, 1);
    let m2 = mono(v, 0, 0, 1, 0, 0, 1, 0, 1);
    let m3 = mono(v, 0, 1, 1, 2, 1, 2, 1, 0);
    let m4 = mono(v, 0, 1, 1, 2, 2, 1, 0, 1);
    let m5 = mono(v, 0, 1, 2, 1, 1, 2, 0, 1);
    let m6 = mono(v, 1, 0, 1, 0, 1, 0, 1, 0);
    let m7 = mono(v, 1, 1, 2, 1, 2, 1, 1, 0);
    let m8 = mono(v, 0, 0, 0, 0, 0, 0, 0, 0);
    let m9 = mono(v, 0, 1, 1, 1, 0, 2, 1, 1);
    let m10 = mono(v, 0, 1, 1, 1, 1, 1, 0, 2);
    let m11 = mono(v, 0, 2, 0, 0, 2, 2, 2, 2);
    let m12 = mono(v, 1, 1, 1, 1, 1, 1, 2, 0);
    let m13 = mono(v, 1, 1, 1, 1, 2, 0, 1, 1);
    let m14 = mono(v, 0, 1, 1, 2, 0, 3, 2, 1);
    let m15 = mono(v, 0, 1, 1, 2, 1, 2, 1, 2);
    let m16 = mono(v, 0, 2, 0, 1, 2, 3, 3, 2);
    let m17 = mono(v, 1, 1, 1, 2, 1, 2, 3, 0);
    let m18 = mono(v, 1, 1, 1, 2, 2, 1, 2, 1);
    let m19 = mono(v, 0, 1, 1, 2, 2, 1, 0, 3);
    let m20 = mono(v, 0, 2, 0, 1, 3, 2, 2, 3);
    let m21 = mono(v, 1, 1, 1, 2, 3, 0, 1, 2);
    let m22 = mono(v, 0, 1, 2, 1, 0, 3, 1, 2);
    let m23 = mono(v, 0, 1, 2, 1, 1, 2, 0, 3);
    let m24 = mono(v, 0, 2, 1, 0, 2, 3, 2, 3);
    let m25 = mono(v, 1, 1, 2, 1, 1, 2, 2, 1);
    let m26 = mono(v, 1, 1, 2, 1, 2, 1, 1, 2);
    let m27 = mono(v, 0, 2, 2, 3, 1, 4, 2, 1);
    let m28 = mono(v, 0, 2, 2, 3, 2, 3, 1, 2);
    let m29 = mono(v, 0, 3, 1, 2, 3, 4, 3, 2);
    let m30 = mono(v, 1, 2, 2, 3, 2, 3, 3, 0);
    let m31 = mono(v, 1, 2, 2, 3, 3, 2, 2, 1);
    let m32 = mono(v, 0, 2, 2, 3, 3, 2, 0, 3);
    let m33 = mono(v, 0, 3, 1, 2, 4, 3, 2, 3);
    let m34 = mono(v, 1, 2, 2, 3, 4, 1, 1, 2);
    let m35 = mono(v, 0, 2, 3, 2, 1, 4, 1, 2);
    let m36 = mono(v, 0, 2, 3, 2, 2, 3, 0, 3);
    let m37 = mono(v, 0, 3, 2, 1, 3, 4, 2, 3);
    let m38 = mono(v, 1, 2, 3, 2, 2, 3, 2, 1);
    let m39 = mono(v, 1, 2, 3, 2, 3, 2, 1, 2);
    let m40 = mono(v, 1, 2, 1, 0, 3, 2, 3, 2);
    let m41 = mono(v, 2, 1, 2, 1, 2, 1, 3, 0);
    let m42 = mono(v, 2, 1, 2, 1, 3, 0, 2, 1);
    let m43 = mono(v, 1, 3, 2, 1, 4, 3, 3, 2);
    let m44 = mono(v, 2, 2, 3, 2, 3, 2, 3, 0);
    let m45 = mono(v, 2, 2, 3, 2, 4, 1, 2, 1);
    lemma_expand_differences(m0 + m1 + m2 + m3, m4 + m5 + m6 + m7, m8 + m9 + m10, m11 + m12
        + m13);
    lemma_sum_left_4(m0, m1, m2, m3, m8 + m9 + m10);
    lemma_sum_right_3(m0, m8, m9, m10);
    lemma_sum_right_3(m1, m8, m9, m10);
    lemma_sum_right_3(m2, m8, m9, m10);
    lemma_sum_right_3(m3, m8, m9, m10);
    lemma_sum_left_4(m0, m1, m2, m3, m11 + m12 + m13);
    lemma_sum_right_3(m0, m11, m12, m13);
    lemma_sum_right_3(m1, m11, m12, m13);
    lemma_sum_right_3(m2, m11, m12, m13);
    lemma_sum_right_3(m3, m11, m12, m13);
    lemma_sum_left_4(m4, m5, m6, m7, m8 + m9 + m10);
    lemma_sum_right_3(m4, m8, m9, m10);
    lemma_sum_right_3(m5, m8, m9, m10);
    lemma_sum_right_3(m6, m8, m9, m10);
    lemma_sum_right_3(m7, m8, m9, m10);
    lemma_sum_left_4(m4, m5, m6, m7, m11 + m12 + m13);
    lemma_sum_right_3(m4, m11, m12, m13);
    lemma_sum_right_3(m5, m11, m12, m13);
    lemma_sum_right_3(m6, m11, m12, m13);
    lemma_sum_right_3(m7, m11, m12, m13);
    lemma_mono_mul(v, 0, 0, 0, 1, 0, 1, 1, 0, 0, 0, 0, 0, 0, 0, 0, 0);
    lemma_mono_mul(v, 0, 0, 0, 1, 0, 1, 1, 0, 0, 1, 1, 1, 0, 2, 1, 1);
    lemma_mono_mul(v, 0, 0, 0, 1, 0, 1, 1, 0, 0, 1, 1, 1, 1, 1, 0, 2);
    lemma_mono_mul(v, 0, 0, 0, 1, 0, 1, 1, 0, 0, 2, 0, 0, 2, 2, 2, 2);
    lemma_mono_mul(v, 0, 0, 0, 1, 0, 1, 1, 0, 1, 1, 1, 1, 1, 1, 2, 0);
    lemma_mono_mul(v, 0, 0, 0, 1, 0, 1, 1, 0, 1, 1, 1, 1, 2, 0, 1, 1);
    lemma_mono_mul(v, 0, 0, 0, 1, 1, 0, 0, 1, 0, 0, 0, 0, 0, 0, 0, 0);
    lemma_mono_mul(v, 0, 0, 0, 1, 1, 0, 0, 1, 0, 1, 1, 1, 0, 2, 1, 1);
    lemma_mono_mul(v, 0, 0, 0, 1, 1, 0, 0, 1, 0, 1, 1, 1, 1, 1, 0, 2);
    lemma_mono_mul(v, 0, 0, 0, 1, 1, 0, 0, 1, 0, 2, 0, 0, 2, 2, 2, 2);
    lemma_mono_mul(v, 0, 0, 0, 1, 1, 0, 0, 1, 1, 1, 1, 1, 1, 1, 2, 0);
    lemma_mono_mul(v, 0, 0, 0, 1, 1, 0, 0, 1, 1, 1, 1, 1, 2, 0, 1, 1);
    lemma_mono_mul(v, 0, 0, 1, 0, 0, 1, 0, 1, 0, 0, 0, 0, 0, 0, 0, 0);
    lemma_mono_mul(v, 0, 0, 1, 0, 0, 1, 0, 1, 0, 1, 1, 1, 0, 2, 1, 1);
    lemma_mono_mul(v, 0, 0, 1, 0, 0, 1, 0, 1, 0, 1, 1, 1, 1, 1, 0, 2);
    lemma_mono_mul(v, 0, 0, 1, 0, 0, 1, 0, 1, 0, 2, 0, 0, 2, 2, 2, 2);
    lemma_mono_mul(v, 0, 0, 1, 0, 0, 1, 0, 1, 1, 1, 1, 1, 1, 1, 2, 0);
    lemma_mono_mul(v, 0, 0, 1, 0, 0, 1, 0, 1, 1, 1, 1, 1, 2, 0, 1, 1);
    lemma_mono_mul(v, 0, 1, 1, 2, 1, 2, 1, 0, 0, 0, 0, 0, 0, 0, 0, 0);
    lemma_mono_mul(v, 0, 1, 1, 2, 1, 2, 1, 0, 0, 1, 1, 1, 0, 2, 1, 1);
    lemma_mono_mul(v, 0, 1, 1, 2, 1, 2, 1, 0, 0, 1, 1, 1, 1, 1, 0, 2);
    lemma_mono_mul(v, 0, 1, 1, 2, 1, 2, 1, 0, 0, 2, 0, 0, 2, 2, 2, 2);
    lemma_mono_mul(v, 0, 1, 1, 2, 1, 2, 1, 0, 1, 1, 1, 1, 1, 1, 2, 0);
    lemma_mono_mul(v, 0, 1, 1, 2, 1, 2, 1, 0, 1, 1, 1, 1, 2, 0, 1, 1);
    lemma_mono_mul(v, 0, 1, 1, 2, 2, 1, 0, 1, 0, 0, 0, 0, 0, 0, 0, 0);
    lemma_mono_mul(v, 0, 1, 1, 2, 2, 1, 0, 1, 0, 1, 1, 1, 0, 2, 1, 1);
    lemma_mono_mul(v, 0, 1, 1, 2, 2, 1, 0, 1, 0, 1, 1, 1, 1, 1, 0, 2);
    lemma_mono_mul(v, 0, 1, 1, 2, 2, 1, 0, 1, 0, 2, 0, 0, 2, 2, 2, 2);
    lemma_mono_mul(v, 0, 1, 1, 2, 2, 1, 0, 1, 1, 1, 1, 1, 1, 1, 2, 0);
    lemma_mono_mul(v, 0, 1, 1, 2, 2, 1, 0, 1, 1, 1, 1, 1, 2, 0, 1, 1);
    lemma_mono_mul(v, 0, 1, 2, 1, 1, 2, 0, 1, 0, 0, 0, 0, 0, 0, 0, 0);
    lemma_mono_mul(v, 0, 1, 2, 1, 1, 2, 0, 1, 0, 1, 1, 1, 0, 2, 1, 1);
    lemma_mono_mul(v, 0, 1, 2, 1, 1, 2, 0, 1, 0, 1, 1, 1, 1, 1, 0, 2);
    lemma_mono_mul(v, 0, 1, 2, 1, 1, 2, 0, 1, 0, 2, 0, 0, 2, 2, 2, 2);
    lemma_mono_mul(v, 0, 1, 2, 1, 1, 2, 0, 1, 1, 1, 1, 1, 1, 1, 2, 0);
    lemma_mono_mul(v, 0, 1, 2, 1, 1, 2, 0, 1, 1, 1, 1, 1, 2, 0, 1, 1);
    lemma_mono_mul(v, 1, 0, 1, 0, 1, 0, 1, 0, 0, 0, 0, 0, 0, 0, 0, 0);
    lemma_mono_mul(v, 1, 0, 1, 0, 1, 0, 1, 0, 0, 1, 1, 1, 0, 2, 1, 1);
    lemma_mono_mul(v, 1, 0, 1, 0, 1, 0, 1, 0, 0, 1, 1, 1, 1, 1, 0, 2);
    lemma_mono_mul(v, 1, 0, 1, 0, 1, 0, 1, 0, 0, 2, 0, 0, 2, 2, 2, 2);
    lemma_mono_mul(v, 1, 0, 1, 0, 1, 0, 1, 0, 1, 1, 1, 1, 1, 1, 2, 0);
    lemma_mono_mul(v, 1, 0, 1, 0, 1, 0, 1, 0, 1, 1, 1, 1, 2, 0, 1, 1);
    lemma_mono_mul(v, 1, 1, 2, 1, 2, 1, 1, 0, 0, 0, 0, 0, 0, 0, 0, 0);
    lemma_mono_mul(v, 1, 1, 2, 1, 2, 1, 1, 0, 0, 1, 1, 1, 0, 2, 1, 1);
    lemma_mono_mul(v, 1, 1, 2, 1, 2, 1, 1, 0, 0, 1, 1, 1, 1, 1, 0, 2);
    lemma_mono_mul(v, 1, 1, 2, 1, 2, 1, 1, 0, 0, 2, 0, 0, 2, 2, 2, 2);
    lemma_mono_mul(v, 1, 1, 2, 1, 2, 1, 1, 0, 1, 1, 1, 1, 1, 1, 2, 0);
    lemma_mono_mul(v, 1, 1, 2, 1, 2, 1, 1, 0, 1, 1, 1, 1, 2, 0, 1, 1);
    assert(num_left_x(v) * den_right_x(v) == (m0 + m1 + m2 + m14 + m3 + m15 + m15 + m19 + m22
        + m23 + m27 + m33 + m37 + m40 + m34 + m43 + m41 + m42 + m44 + m45) - (m4 + m5 + m16 + m20
        + m24 + m32 + m35 + m36 + m29 + m6 + m17 + m18 + m18 + m21 + m25 + m25 + m7 + m26 + m26
        + m30));
}

/// The cross product `num_right * den_left` as a sum of monomials.
proof fn lemma_right_x_product(v: Vars)
    ensures
        num_right_x(v) * den_left_x(v) == (mono(v, 0, 0, 0, 1, 0, 1, 1, 0)
            + mono(v, 0, 0, 0, 1, 1, 0, 0, 1) + mono(v, 0, 0, 1, 0, 0, 1, 0, 1)
            + mono(v, 0, 1, 0, 3, 1, 2, 2, 1) + mono(v, 0, 1, 0, 3, 2, 1, 1, 2)
            + mono(v, 0, 1, 1, 0, 1, 2, 1, 2) + mono(v, 0, 1, 1, 2, 0, 3, 2, 1)
            + mono(v, 0, 1, 1, 2, 1, 2, 1, 2) + mono(v, 0, 1, 1, 2, 1, 2, 1, 2)
            + mono(v, 0, 1, 2, 1, 0, 3, 1, 2) + mono(v, 0, 2, 2, 1, 1, 4, 2, 3)
            + mono(v, 0, 3, 2, 3, 3, 4, 2, 1) + mono(v, 0, 3, 2, 3, 4, 3, 1, 2)
            + mono(v, 1, 2, 1, 2, 4, 1, 2, 3) + mono(v, 1, 2, 3, 2, 3, 2, 1, 0)
            + mono(v, 1, 3, 3, 2, 4, 3, 2, 1) + mono(v, 2, 1, 2, 1, 3, 0, 2, 1)
            + mono(v, 2, 1, 3, 0, 2, 1, 2, 1) + mono(v, 2, 2, 2, 1, 4, 1, 3, 2)
            + mono(v, 2, 2, 3, 0, 3, 2, 3, 2)) - (mono(v, 0, 1, 0, 1, 1, 2, 2, 1)
            + mono(v, 0, 1, 0, 1, 2, 1, 1, 2) + mono(v, 0, 2, 0, 3, 2, 3, 3, 2)
            + mono(v, 0, 2, 0, 3, 3, 2, 2, 3) + mono(v, 0, 2, 1, 2, 1, 4, 3, 2)
            + mono(v, 0, 2, 2, 3, 2, 3, 1, 0) + mono(v, 0, 2, 2, 3, 3, 2, 0, 1)
            + mono(v, 0, 2, 3, 2, 2, 3, 0, 1) + mono(v, 0, 3, 3, 2, 3, 4, 1, 2)
            + mono(v, 1, 0, 1, 0, 1, 0, 1, 0) + mono(v, 1, 1, 1, 0, 2, 1, 2, 1)
            + mono(v, 1, 1, 1, 2, 2, 1, 2, 1) + mono(v, 1, 1, 1, 2, 2, 1, 2, 1)
            + mono(v, 1, 1, 1, 2, 3, 0, 1, 2) + mono(v, 1, 1, 2, 1, 1, 2, 2, 1)
            + mono(v, 1, 1, 2, 1, 1, 2, 2, 1) + mono(v, 1, 1, 2, 1, 2, 1, 1, 2)
            + mono(v, 1, 1, 2, 1, 2, 1, 1, 2) + mono(v, 1, 1, 3, 0, 1, 2, 1, 2)
            + mono(v, 1, 2, 3, 0, 2, 3, 2, 3)),
{
    lemma_num_right_x_sum(v);
    lemma_den_left_x_sum(v);
    let m0 = mono(v, 0, 0, 0, 1, 0, 1, 1, 0);
    let m1 = mono(v, 0, 0, 0, 1, 1, 0, 0, 1);
    let m2 = mono(v, 0, 0, 1, 0, 0, 1, 0, 1);
    let m3 = mono(v, 0, 1, 1, 0, 1, 2, 1, 2);
    let m4 = mono(v, 0, 1, 0, 1, 1, 2, 2, 1);
    let m5 = mono(v, 0, 1, 0, 1, 2, 1, 1, 2);
    let m6 = mono(v, 1, 0, 1, 0, 1, 0, 1, 0);
    let m7 = mono(v, 1, 1, 1, 0, 2, 1, 2, 1);
    let m8 = mono(v, 0, 0, 0, 0, 0, 0, 0, 0);
    let m9 = mono(v, 0, 1, 0, 2, 1, 1, 1, 1);
    let m10 = mono(v, 0, 1, 1, 1, 0, 2, 1, 1);
    let m11 = mono(v, 0, 2, 2, 2, 2, 2, 0, 0);
    let m12 = mono(v, 1, 1, 1, 1, 2, 0, 1, 1);
    let m13 = mono(v, 1, 1, 2, 0, 1, 1, 1, 1);
    let m14 = mono(v, 0, 1, 0, 3, 1, 2, 2, 1);
    let m15 = mono(v, 0, 1, 1, 2, 0, 3, 2, 1);
    let m16 = mono(v, 0, 2, 2, 3, 2, 3, 1, 0);
    let m17 = mono(v, 1, 1, 1, 2, 2, 1, 2, 1);
    let m18 = mono(v, 1, 1, 2, 1, 1, 2, 2, 1);
    let m19 = mono(v, 0, 1, 0, 3, 2, 1, 1, 2);
    let m20 = mono(v, 0, 1, 1, 2, 1, 2, 1, 2);
    let m21 = mono(v, 0, 2, 2, 3, 3, 2, 0, 1);
    let m22 = mono(v, 1, 1, 1, 2, 3, 0, 1, 2);
    let m23 = mono(v, 1, 1, 2, 1, 2, 1, 1, 2);
    let m24 = mono(v, 0, 1, 2, 1, 0, 3, 1, 2);
    let m25 = mono(v, 0, 2, 3, 2, 2, 3, 0, 1);
    let m26 = mono(v, 1, 1, 3, 0, 1, 2, 1, 2);
    let m27 = mono(v, 0, 2, 1, 2, 2, 3, 2, 3);
    let m28 = mono(v, 0, 2, 2, 1, 1, 4, 2, 3);
    let m29 = mono(v, 0, 3, 3, 2, 3, 4, 1, 2);
    let m30 = mono(v, 1, 2, 2, 1, 3, 2, 2, 3);
    let m31 = mono(v, 1, 2, 3, 0, 2, 3, 2, 3);
    let m32 = mono(v, 0, 2, 0, 3, 2, 3, 3, 2);
    let m33 = mono(v, 0, 2, 1, 2, 1, 4, 3, 2);
    let m34 = mono(v, 0, 3, 2, 3, 3, 4, 2, 1);
    let m35 = mono(v, 1, 2, 1, 2, 3, 2, 3, 2);
    let m36 = mono(v, 1, 2, 2, 1, 2, 3, 3, 2);
    let m37 = mono(v, 0, 2, 0, 3, 3, 2, 2, 3);
    let m38 = mono(v, 0, 3, 2, 3, 4, 3, 1, 2);
    let m39 = mono(v, 1, 2, 1, 2, 4, 1, 2, 3);
    let m40 = mono(v, 1, 2, 3, 2, 3, 2, 1, 0);
    let m41 = mono(v, 2, 1, 2, 1, 3, 0, 2, 1);
    let m42 = mono(v, 2, 1, 3, 0, 2, 1, 2, 1);
    let m43 = mono(v, 1, 3, 3, 2, 4, 3, 2, 1);
    let m44 = mono(v, 2, 2, 2, 1, 4, 1, 3, 2);
    let m45 = mono(v, 2, 2, 3, 0, 3, 2, 3, 2);
    lemma_expand_differences(m0 + m1 + m2 + m3, m4 + m5 + m6 + m7, m8 + m9 + m10, m11 + m12
        + m13);
    lemma_sum_left_4(m0, m1, m2, m3, m8 + m9 + m10);
    lemma_sum_right_3(m0, m8, m9, m10);
    lemma_sum_right_3(m1, m8, m9, m10);
    lemma_sum_right_3(m2, m8, m9, m10);
    lemma_sum_right_3(m3, m8, m9, m10);
    lemma_sum_left_4(m0, m1, m2, m3, m11 + m12 + m13);
    lemma_sum_right_3(m0, m11, m12, m13);
    lemma_sum_right_3(m1, m11, m12, m13);
    lemma_sum_right_3(m2, m11, m12, m13);
    lemma_sum_right_3(m3, m11, m12, m13);
    lemma_sum_left_4(m4, m5, m6, m7, m8 + m9 + m10);
    lemma_sum_right_3(m4, m8, m9, m10);
    lemma_sum_right_3(m5, m8, m9, m10);
    lemma_sum_right_3(m6, m8, m9, m10);
    lemma_sum_right_3(m7, m8, m9, m10);
    lemma_sum_left_4(m4, m5, m6, m7, m11 + m12 + m13);
    lemma_sum_right_3(m4, m11, m12, m13);
    lemma_sum_right_3(m5, m11, m12, m13);
    lemma_sum_right_3(m6, m11, m12, m13);
    lemma_sum_right_3(m7, m11, m12, m13);
    lemma_mono_mul(v, 0, 0, 0, 1, 0, 1, 1, 0, 0, 0, 0, 0, 0, 0, 0, 0);
    lemma_mono_mul(v, 0, 0, 0, 1, 0, 1, 1, 0, 0, 1, 0, 2, 1, 1, 1, 1);
    lemma_mono_mul(v, 0, 0, 0, 1, 0, 1, 1, 0, 0, 1, 1, 1, 0, 2, 1, 1);
    lemma_mono_mul(v, 0, 0, 0, 1, 0, 1, 1, 0, 0, 2, 2, 2, 2, 2, 0, 0);
    lemma_mono_mul(v, 0, 0, 0, 1, 0, 1, 1, 0, 1, 1, 1, 1, 2, 0, 1, 1);
    lemma_mono_mul(v, 0, 0, 0, 1, 0, 1, 1, 0, 1, 1, 2, 0, 1, 1, 1, 1);
    lemma_mono_mul(v, 0, 0, 0, 1, 1, 0, 0, 1, 0, 0, 0, 0, 0, 0, 0, 0);
    lemma_mono_mul(v, 0, 0, 0, 1, 1, 0, 0, 1, 0, 1, 0, 2, 1, 1, 1, 1);
    lemma_mono_mul(v, 0, 0, 0, 1, 1, 0, 0, 1, 0, 1, 1, 1, 0, 2, 1, 1);
    lemma_mono_mul(v, 0, 0, 0, 1, 1, 0, 0, 1, 0, 2, 2, 2, 2, 2, 0, 0);
    lemma_mono_mul(v, 0, 0, 0, 1, 1, 0, 0, 1, 1, 1, 1, 1, 2, 0, 1, 1);
    lemma_mono_mul(v, 0, 0, 0, 1, 1, 0, 0, 1, 1, 1, 2, 0, 1, 1, 1, 1);
    lemma_mono_mul(v, 0, 0, 1, 0, 0, 1, 0, 1, 0, 0, 0, 0, 0, 0, 0, 0);
    lemma_mono_mul(v, 0, 0, 1, 0, 0, 1, 0, 1, 0, 1, 0, 2, 1, 1, 1, 1);
    lemma_mono_mul(v, 0, 0, 1, 0, 0, 1, 0, 1, 0, 1, 1, 1, 0, 2, 1, 1);
    lemma_mono_mul(v, 0, 0, 1, 0, 0, 1, 0, 1, 0, 2, 2, 2, 2, 2, 0, 0);
    lemma_mono_mul(v, 0, 0, 1, 0, 0, 1, 0, 1, 1, 1, 1, 1, 2, 0, 1, 1);
    lemma_mono_mul(v, 0, 0, 1, 0, 0, 1, 0, 1, 1, 1, 2, 0, 1, 1, 1, 1);
    lemma_mono_mul(v, 0, 1, 1, 0, 1, 2, 1, 2, 0, 0, 0, 0, 0, 0, 0, 0);
    lemma_mono_mul(v, 0, 1, 1, 0, 1, 2, 1, 2, 0, 1, 0, 2, 1, 1, 1, 1);
    lemma_mono_mul(v, 0, 1, 1, 0, 1, 2, 1, 2, 0, 1, 1, 1, 0, 2, 1, 1);
    lemma_mono_mul(v, 0, 1, 1, 0, 1, 2, 1, 2, 0, 2, 2, 2, 2, 2, 0, 0);
    lemma_mono_mul(v, 0, 1, 1, 0, 1, 2, 1, 2, 1, 1, 1, 1, 2, 0, 1, 1);
    lemma_mono_mul(v, 0, 1, 1, 0, 1, 2, 1, 2, 1, 1, 2, 0, 1, 1, 1, 1);
    lemma_mono_mul(v, 0, 1, 0, 1, 1, 2, 2, 1, 0, 0, 0, 0, 0, 0, 0, 0);
    lemma_mono_mul(v, 0, 1, 0, 1, 1, 2, 2, 1, 0, 1, 0, 2, 1, 1, 1, 1);
    lemma_mono_mul(v, 0, 1, 0, 1, 1, 2, 2, 1, 0, 1, 1, 1, 0, 2, 1, 1);
    lemma_mono_mul(v, 0, 1, 0, 1, 1, 2, 2, 1, 0, 2, 2, 2, 2, 2, 0, 0);
    lemma_mono_mul(v, 0, 1, 0, 1, 1, 2, 2, 1, 1, 1, 1, 1, 2, 0, 1, 1);
    lemma_mono_mul(v, 0, 1, 0, 1, 1, 2, 2, 1, 1, 1, 2, 0, 1, 1, 1, 1);
    lemma_mono_mul(v, 0, 1, 0, 1, 2, 1, 1, 2, 0, 0, 0, 0, 0, 0, 0, 0);
    lemma_mono_mul(v, 0, 1, 0, 1, 2, 1, 1, 2, 0, 1, 0, 2, 1, 1, 1, 1);
    lemma_mono_mul(v, 0, 1, 0, 1, 2, 1, 1, 2, 0, 1, 1, 1, 0, 2, 1, 1);
    lemma_mono_mul(v, 0, 1, 0, 1, 2, 1, 1, 2, 0, 2, 2, 2, 2, 2, 0, 0);
    lemma_mono_mul(v, 0, 1, 0, 1, 2, 1, 1, 2, 1, 1, 1, 1, 2, 0, 1, 1);
    lemma_mono_mul(v, 0, 1, 0, 1, 2, 1, 1, 2, 1, 1, 2, 0, 1, 1, 1, 1);
    lemma_mono_mul(v, 1, 0, 1, 0, 1, 0, 1, 0, 0, 0, 0, 0, 0, 0, 0, 0);
    lemma_mono_mul(v, 1, 0, 1, 0, 1, 0, 1, 0, 0, 1, 0, 2, 1, 1, 1, 1);
    lemma_mono_mul(v, 1, 0, 1, 0, 1, 0, 1, 0, 0, 1, 1, 1, 0, 2, 1, 1);
    lemma_mono_mul(v, 1, 0, 1, 0, 1, 0, 1, 0, 0, 2, 2, 2, 2, 2, 0, 0);
    lemma_mono_mul(v, 1, 0, 1, 0, 1, 0, 1, 0, 1, 1, 1, 1, 2, 0, 1, 1);
    lemma_mono_mul(v, 1, 0, 1, 0, 1, 0, 1, 0, 1, 1, 2, 0, 1, 1, 1, 1);
    lemma_mono_mul(v, 1, 1, 1, 0, 2, 1, 2, 1, 0, 0, 0, 0, 0, 0, 0, 0);
    lemma_mono_mul(v, 1, 1, 1, 0, 2, 1, 2, 1, 0, 1, 0, 2, 1, 1, 1, 1);
    lemma_mono_mul(v, 1, 1, 1, 0, 2, 1, 2, 1, 0, 1, 1, 1, 0, 2, 1, 1);
    lemma_mono_mul(v, 1, 1, 1, 0, 2, 1, 2, 1, 0, 2, 2, 2, 2, 2, 0, 0);
    lemma_mono_mul(v, 1, 1, 1, 0, 2, 1, 2, 1, 1, 1, 1, 1, 2, 0, 1, 1);
    lemma_mono_mul(v, 1, 1, 1, 0, 2, 1, 2, 1, 1, 1, 2, 0, 1, 1, 1, 1);
    assert(num_right_x(v) * den_left_x(v) == (m0 + m1 + m2 + m14 + m19 + m3 + m15 + m20 + m20
        + m24 + m28 + m34 + m38 + m39 + m40 + m43 + m41 + m42 + m44 + m45) - (m4 + m5 + m32 + m37
        + m33 + m16 + m21 + m25 + m29 + m6 + m7 + m17 + m17 + m22 + m18 + m18 + m23 + m23 + m26
        + m31));
}

/// The multiple of the curve equation of `P` as a sum of monomials.
proof fn lemma_cofactor_x1_product(v: Vars)
    ensures
        cofactor_x1(v) * curve1(v) == (mono(v, 0, 1, 0, 1, 1, 4, 2, 1)
            + mono(v, 0, 1, 0, 1, 2, 3, 1, 0) + mono(v, 0, 1, 0, 1, 3, 2, 0, 1)
            + mono(v, 0, 1, 0, 3, 3, 2, 0, 3) + mono(v, 0, 1, 1, 0, 2, 3, 0, 1)
            + mono(v, 0, 1, 1, 2, 1, 4, 1, 2) + mono(v, 0, 1, 1, 2, 2, 3, 0, 3)
            + mono(v, 0, 2, 0, 3, 3, 4, 2, 1) + mono(v, 0, 2, 0, 3, 4, 3, 1, 2)
            + mono(v, 0, 2, 1, 0, 3, 4, 1, 2) + mono(v, 0, 2, 2, 3, 1, 4, 2, 1)
            + mono(v, 0, 2, 2, 3, 2, 3, 1, 0) + mono(v, 0, 2, 2, 3, 3, 2, 0, 1)
            + mono(v, 0, 2, 3, 2, 2, 3, 0, 1) + mono(v, 0, 3, 3, 2, 3, 4, 1, 2)
            + mono(v, 1, 1, 0, 1, 4, 1, 1, 2) + mono(v, 1, 1, 0, 3, 2, 3, 3, 0)
            + mono(v, 1, 1, 1, 2, 3, 2, 1, 0) + mono(v, 1, 1, 2, 1, 3, 2, 0, 3)
            + mono(v, 1, 1, 3, 0, 1, 4, 1, 2) + mono(v, 1, 1, 3, 0, 2, 3, 0, 3)
            + mono(v, 1, 2, 1, 2, 4, 3, 2, 1) + mono(v, 1, 2, 2, 1, 3, 4, 2, 1)
            + mono(v, 1, 2, 2, 1, 4, 3, 1, 2) + mono(v, 1, 2, 2, 3, 4, 1, 1, 2)
            + mono(v, 2, 1, 1, 0, 3, 2, 3, 0) + mono(v, 2, 1, 1, 0, 4, 1, 2, 1)
            + mono(v, 2, 1, 2, 1, 2, 3, 3, 0) + mono(v, 2, 1, 3, 0, 3, 2, 1, 0)
            + mono(v, 2, 2, 3, 0, 4, 3, 2, 1) + mono(v, 2, 2, 3, 2, 3, 2, 3, 0)
            + mono(v, 2, 2, 3, 2, 4, 1, 2, 1)) - (mono(v, 0, 1, 0, 1, 3, 2, 0, 3)
            + mono(v, 0, 1, 0, 3, 1, 4, 2, 1) + mono(v, 0, 1, 0, 3, 2, 3, 1, 0)
            + mono(v, 0, 1, 0, 3, 3, 2, 0, 1) + mono(v, 0, 1, 1, 0, 1, 4, 1, 2)
            + mono(v, 0, 1, 1, 0, 2, 3, 0, 3) + mono(v, 0, 1, 1, 2, 2, 3, 0, 1)
            + mono(v, 0, 2, 0, 1, 3, 4, 2, 1) + mono(v, 0, 2, 0, 1, 4, 3, 1, 2)
            + mono(v, 0, 2, 1, 2, 3, 4, 1, 2) + mono(v, 0, 2, 2, 3, 3, 2, 0, 3)
            + mono(v, 0, 2, 3, 2, 1, 4, 1, 2) + mono(v, 0, 2, 3, 2, 2, 3, 0, 3)
            + mono(v, 0, 3, 2, 3, 3, 4, 2, 1) + mono(v, 0, 3, 2, 3, 4, 3, 1, 2)
            + mono(v, 1, 1, 0, 1, 2, 3, 3, 0) + mono(v, 1, 1, 0, 3, 4, 1, 1, 2)
            + mono(v, 1, 1, 1, 0, 3, 2, 1, 0) + mono(v, 1, 1, 2, 1, 1, 4, 2, 1)
            + mono(v, 1, 1, 2, 1, 2, 3, 1, 0) + mono(v, 1, 1, 2, 1, 3, 2, 0, 1)
            + mono(v, 1, 1, 3, 0, 2, 3, 0, 1) + mono(v, 1, 2, 1, 0, 4, 3, 2, 1)
            + mono(v, 1, 2, 2, 3, 2, 3, 3, 0) + mono(v, 1, 2, 3, 0, 3, 4, 1, 2)
            + mono(v, 1, 2, 3, 2, 3, 2, 1, 0) + mono(v, 1, 3, 3, 2, 4, 3, 2, 1)
            + mono(v, 2, 1, 1, 2, 3, 2, 3, 0) + mono(v, 2, 1, 1, 2, 4, 1, 2, 1)
            + mono(v, 2, 1, 2, 1, 4, 1, 1, 2) + mono(v, 3, 1, 3, 0, 3, 2, 3, 0)
            + mono(v, 3, 1, 3, 0, 4, 1, 2, 1)),
{
    lemma_curve1_sum(v);
    let m0 = mono(v, 0, 1, 0, 1, 3, 2, 0, 3);
    let m1 = mono(v, 0, 1, 1, 0, 1, 4, 1, 2);
    let m2 = mono(v, 0, 1, 1, 0, 2, 3, 0, 3);
    let m3 = mono(v, 0, 2, 0, 1, 3, 4, 2, 1);
    let m4 = mono(v, 0, 2, 0, 1, 4, 3, 1, 2);
    let m5 = mono(v, 1, 1, 0, 1, 2, 3, 3, 0);
    let m6 = mono(v, 1, 1, 1, 0, 3, 2, 1, 0);
    let m7 = mono(v, 1, 2, 1, 0, 4, 3, 2, 1);
    let m8 = mono(v, 0, 1, 0, 1, 1, 4, 2, 1);
    let m9 = mono(v, 0, 1, 0, 1, 2, 3, 1, 0);
    let m10 = mono(v, 0, 1, 0, 1, 3, 2, 0, 1);
    let m11 = mono(v, 0, 1, 1, 0, 2, 3, 0, 1);
    let m12 = mono(v, 0, 2, 1, 0, 3, 4, 1, 2);
    let m13 = mono(v, 1, 1, 0, 1, 4, 1, 1, 2);
    let m14 = mono(v, 2, 1, 1, 0, 3, 2, 3, 0);
    let m15 = mono(v, 2, 1, 1, 0, 4, 1, 2, 1);
    let m16 = mono(v, 0, 0, 0, 2, 0, 0, 0, 0);
    let m17 = mono(v, 1, 0, 2, 0, 0, 0, 0, 0);
    let m18 = mono(v, 0, 0, 0, 0, 0, 0, 0, 0);
    let m19 = mono(v, 0, 1, 2, 2, 0, 0, 0, 0);
    let m20 = mono(v, 0, 1, 0, 3, 3, 2, 0, 3);
    let m21 = mono(v, 1, 1, 2, 1, 3, 2, 0, 3);
    let m22 = mono(v, 0, 2, 2, 3, 3, 2, 0, 3);
    let m23 = mono(v, 0, 1, 1, 2, 1, 4, 1, 2);
    let m24 = mono(v, 1, 1, 3, 0, 1, 4, 1, 2);
    let m25 = mono(v, 0, 2, 3, 2, 1, 4, 1, 2);
    let m26 = mono(v, 0, 1, 1, 2, 2, 3, 0, 3);
    let m27 = mono(v, 1, 1, 3, 0, 2, 3, 0, 3);
    let m28 = mono(v, 0, 2, 3, 2, 2, 3, 0, 3);
    let m29 = mono(v, 0, 2, 0, 3, 3, 4, 2, 1);
    let m30 = mono(v, 1, 2, 2, 1, 3, 4, 2, 1);
    let m31 = mono(v, 0, 3, 2, 3, 3, 4, 2, 1);
    let m32 = mono(v, 0, 2, 0, 3, 4, 3, 1, 2);
    let m33 = mono(v, 1, 2, 2, 1, 4, 3, 1, 2);
    let m34 = mono(v, 0, 3, 2, 3, 4, 3, 1, 2);
    let m35 = mono(v, 1, 1, 0, 3, 2, 3, 3, 0);
    let m36 = mono(v, 2, 1, 2, 1, 2, 3, 3, 0);
    let m37 = mono(v, 1, 2, 2, 3, 2, 3, 3, 0);
    let m38 = mono(v, 1, 1, 1, 2, 3, 2, 1, 0);
    let m39 = mono(v, 2, 1, 3, 0, 3, 2, 1, 0);
    let m40 = mono(v, 1, 2, 3, 2, 3, 2, 1, 0);
    let m41 = mono(v, 1, 2, 1, 2, 4, 3, 2, 1);
    let m42 = mono(v, 2, 2, 3, 0, 4, 3, 2, 1);
    let m43 = mono(v, 1, 3, 3, 2, 4, 3, 2, 1);
    let m44 = mono(v, 0, 1, 0, 3, 1, 4, 2, 1);
    let m45 = mono(v, 1, 1, 2, 1, 1, 4, 2, 1);
    let m46 = mono(v, 0, 2, 2, 3, 1, 4, 2, 1);
    let m47 = mono(v, 0, 1, 0, 3, 2, 3, 1, 0);
    let m48 = mono(v, 1, 1, 2, 1, 2, 3, 1, 0);
    let m49 = mono(v, 0, 2, 2, 3, 2, 3, 1, 0);
    let m50 = mono(v, 0, 1, 0, 3, 3, 2, 0, 1);
    let m51 = mono(v, 1, 1, 2, 1, 3, 2, 0, 1);
    let m52 = mono(v, 0, 2, 2, 3, 3, 2, 0, 1);
    let m53 = mono(v, 0, 1, 1, 2, 2, 3, 0, 1);
    let m54 = mono(v, 1, 1, 3, 0, 2, 3, 0, 1);
    let m55 = mono(v, 0, 2, 3, 2, 2, 3, 0, 1);
    let m56 = mono(v, 0, 2, 1, 2, 3, 4, 1, 2);
    let m57 = mono(v, 1, 2, 3, 0, 3, 4, 1, 2);
    let m58 = mono(v, 0, 3, 3, 2, 3, 4, 1, 2);
    let m59 = mono(v, 1, 1, 0, 3, 4, 1, 1, 2);
    let m60 = mono(v, 2, 1, 2, 1, 4, 1, 1, 2);
    let m61 = mono(v, 1, 2, 2, 3, 4, 1, 1, 2);
    let m62 = mono(v, 2, 1, 1, 2, 3, 2, 3, 0);
    let m63 = mono(v, 3, 1, 3, 0, 3, 2, 3, 0);
    let m64 = mono(v, 2, 2, 3, 2, 3, 2, 3, 0);
    let m65 = mono(v, 2, 1, 1, 2, 4, 1, 2, 1);
    let m66 = mono(v, 3, 1, 3, 0, 4, 1, 2, 1);
    let m67 = mono(v, 2, 2, 3, 2, 4, 1, 2, 1);
    lemma_expand_differences(m0 + m1 + m2 + m3 + m4 + m5 + m6 + m7, m8 + m9 + m10 + m11 + m12
        + m13 + m14 + m15, m16 + m17, m18 + m19);
    lemma_sum_left_8(m0, m1, m2, m3, m4, m5, m6, m7, m16 + m17);
    lemma_sum_right_2(m0, m16, m17);
    lemma_sum_right_2(m1, m16, m17);
    lemma_sum_right_2(m2, m16, m17);
    lemma_sum_right_2(m3, m16, m17);
    lemma_sum_right_2(m4, m16, m17);
    lemma_sum_right_2(m5, m16, m17);
    lemma_sum_right_2(m6, m16, m17);
    lemma_sum_right_2(m7, m16, m17);
    lemma_sum_left_8(m0, m1, m2, m3, m4, m5, m6, m7, m18 + m19);
    lemma_sum_right_2(m0, m18, m19);
    lemma_sum_right_2(m1, m18, m19);
    lemma_sum_right_2(m2, m18, m19);
    lemma_sum_right_2(m3, m18, m19);
    lemma_sum_right_2(m4, m18, m19);
    lemma_sum_right_2(m5, m18, m19);
    lemma_sum_right_2(m6, m18, m19);
    lemma_sum_right_2(m7, m18, m19);
    lemma_sum_left_8(m8, m9, m10, m11, m12, m13, m14, m15, m16 + m17);
    lemma_sum_right_2(m8, m16, m17);
    lemma_sum_right_2(m9, m16, m17);
    lemma_sum_right_2(m10, m16, m17);
    lemma_sum_right_2(m11, m16, m17);
    lemma_sum_right_2(m12, m16, m17);
    lemma_sum_right_2(m13, m16, m17);
    lemma_sum_right_2(m14, m16, m17);
    lemma_sum_right_2(m15, m16, m17);
    lemma_sum_left_8(m8, m9, m10, m11, m12, m13, m14, m15, m18 + m19);
    lemma_sum_right_2(m8, m18, m19);
    lemma_sum_right_2(m9, m18, m19);
    lemma_sum_right_2(m10, m18, m19);
    lemma_sum_right_2(m11, m18, m19);
    lemma_sum_right_2(m12, m18, m19);
    lemma_sum_right_2(m13, m18, m19);
    lemma_sum_right_2(m14, m18, m19);
    lemma_sum_right_2(m15, m18, m19);
    lemma_mono_mul(v, 0, 1, 0, 1, 3, 2, 0, 3, 0, 0, 0, 2, 0, 0, 0, 0);
    lemma_mono_mul(v, 0, 1, 0, 1, 3, 2, 0, 3, 1, 0, 2, 0, 0, 0, 0, 0);
    lemma_mono_mul(v, 0, 1, 0, 1, 3, 2, 0, 3, 0, 0, 0, 0, 0, 0, 0, 0);
    lemma_mono_mul(v, 0, 1, 0, 1, 3, 2, 0, 3, 0, 1, 2, 2, 0, 0, 0, 0);
    lemma_mono_mul(v, 0, 1, 1, 0, 1, 4, 1, 2, 0, 0, 0, 2, 0, 0, 0, 0);
    lemma_mono_mul(v, 0, 1, 1, 0, 1, 4, 1, 2, 1, 0, 2, 0, 0, 0, 0, 0);
    lemma_mono_mul(v, 0, 1, 1, 0, 1, 4, 1, 2, 0, 0, 0, 0, 0, 0, 0, 0);
    lemma_mono_mul(v, 0, 1, 1, 0, 1, 4, 1, 2, 0, 1, 2, 2, 0, 0, 0, 0);
    lemma_mono_mul(v, 0, 1, 1, 0, 2, 3, 0, 3, 0, 0, 0, 2, 0, 0, 0, 0);
    lemma_mono_mul(v, 0, 1, 1, 0, 2, 3, 0, 3, 1, 0, 2, 0, 0, 0, 0, 0);
    lemma_mono_mul(v, 0, 1, 1, 0, 2, 3, 0, 3, 0, 0, 0, 0, 0, 0, 0, 0);
    lemma_mono_mul(v, 0, 1, 1, 0, 2, 3, 0, 3, 0, 1, 2, 2, 0, 0, 0, 0);
    lemma_mono_mul(v, 0, 2, 0, 1, 3, 4, 2, 1, 0, 0, 0, 2, 0, 0, 0, 0);
    lemma_mono_mul(v, 0, 2, 0, 1, 3, 4, 2, 1, 1, 0, 2, 0, 0, 0, 0, 0);
    lemma_mono_mul(v, 0, 2, 0, 1, 3, 4, 2, 1, 0, 0, 0, 0, 0, 0, 0, 0);
    lemma_mono_mul(v, 0, 2, 0, 1, 3, 4, 2, 1, 0, 1, 2, 2, 0, 0, 0, 0);
    lemma_mono_mul(v, 0, 2, 0, 1, 4, 3, 1, 2, 0, 0, 0, 2, 0, 0, 0, 0);
    lemma_mono_mul(v, 0, 2, 0, 1, 4, 3, 1, 2, 1, 0, 2, 0, 0, 0, 0, 0);
    lemma_mono_mul(v, 0, 2, 0, 1, 4, 3, 1, 2, 0, 0, 0, 0, 0, 0, 0, 0);
    lemma_mono_mul(v, 0, 2, 0, 1, 4, 3, 1, 2, 0, 1, 2, 2, 0, 0, 0, 0);
    lemma_mono_mul(v, 1, 1, 0, 1, 2, 3, 3, 0, 0, 0, 0, 2, 0, 0, 0, 0);
    lemma_mono_mul(v, 1, 1, 0, 1, 2, 3, 3, 0, 1, 0, 2, 0, 0, 0, 0, 0);
    lemma_mono_mul(v, 1, 1, 0, 1, 2, 3, 3, 0, 0, 0, 0, 0, 0, 0, 0, 0);
    lemma_mono_mul(v, 1, 1, 0, 1, 2, 3, 3, 0, 0, 1, 2, 2, 0, 0, 0, 0);
    lemma_mono_mul(v, 1, 1, 1, 0, 3, 2, 1, 0, 0, 0, 0, 2, 0, 0, 0, 0);
    lemma_mono_mul(v, 1, 1, 1, 0, 3, 2, 1, 0, 1, 0, 2, 0, 0, 0, 0, 0);
    lemma_mono_mul(v, 1, 1, 1, 0, 3, 2, 1, 0, 0, 0, 0, 0, 0, 0, 0, 0);
    lemma_mono_mul(v, 1, 1, 1, 0, 3, 2, 1, 0, 0, 1, 2, 2, 0, 0, 0, 0);
    lemma_mono_mul(v, 1, 2, 1, 0, 4, 3, 2, 1, 0, 0, 0, 2, 0, 0, 0, 0);
    lemma_mono_mul(v, 1, 2, 1, 0, 4, 3, 2, 1, 1, 0, 2, 0, 0, 0, 0, 0);
    lemma_mono_mul(v, 1, 2, 1, 0, 4, 3, 2, 1, 0, 0, 0, 0, 0, 0, 0, 0);
    lemma_mono_mul(v, 1, 2, 1, 0, 4, 3, 2, 1, 0, 1, 2, 2, 0, 0, 0, 0);
    lemma_mono_mul(v, 0, 1, 0, 1, 1, 4, 2, 1, 0, 0, 0, 2, 0, 0, 0, 0);
    lemma_mono_mul(v, 0, 1, 0, 1, 1, 4, 2, 1, 1, 0, 2, 0, 0, 0, 0, 0);
    lemma_mono_mul(v, 0, 1, 0, 1, 1, 4, 2, 1, 0, 0, 0, 0, 0, 0, 0, 0);
    lemma_mono_mul(v, 0, 1, 0, 1, 1, 4, 2, 1, 0, 1, 2, 2, 0, 0, 0, 0);
    lemma_mono_mul(v, 0, 1, 0, 1, 2, 3, 1, 0, 0, 0, 0, 2, 0, 0, 0, 0);
    lemma_mono_mul(v, 0, 1, 0, 1, 2, 3, 1, 0, 1, 0, 2, 0, 0, 0, 0, 0);
    lemma_mono_mul(v, 0, 1, 0, 1, 2, 3, 1, 0, 0, 0, 0, 0, 0, 0, 0, 0);
    lemma_mono_mul(v, 0, 1, 0, 1, 2, 3, 1, 0, 0, 1, 2, 2, 0, 0, 0, 0);
    lemma_mono_mul(v, 0, 1, 0, 1, 3, 2, 0, 1, 0, 0, 0, 2, 0, 0, 0, 0);
    lemma_mono_mul(v, 0, 1, 0, 1, 3, 2, 0, 1, 1, 0, 2, 0, 0, 0, 0, 0);
    lemma_mono_mul(v, 0, 1, 0, 1, 3, 2, 0, 1, 0, 0, 0, 0, 0, 0, 0, 0);
    lemma_mono_mul(v, 0, 1, 0, 1, 3, 2, 0, 1, 0, 1, 2, 2, 0, 0, 0, 0);
    lemma_mono_mul(v, 0, 1, 1, 0, 2, 3, 0, 1, 0, 0, 0, 2, 0, 0, 0, 0);
    lemma_mono_mul(v, 0, 1, 1, 0, 2, 3, 0, 1, 1, 0, 2, 0, 0, 0, 0, 0);
    lemma_mono_mul(v, 0, 1, 1, 0, 2, 3, 0, 1, 0, 0, 0, 0, 0, 0, 0, 0);
    lemma_mono_mul(v, 0, 1, 1, 0, 2, 3, 0, 1, 0, 1, 2, 2, 0, 0, 0, 0);
    lemma_mono_mul(v, 0, 2, 1, 0, 3, 4, 1, 2, 0, 0, 0, 2, 0, 0, 0, 0);
    lemma_mono_mul(v, 0, 2, 1, 0, 3, 4, 1, 2, 1, 0, 2, 0, 0, 0, 0, 0);
    lemma_mono_mul(v, 0, 2, 1, 0, 3, 4, 1, 2, 0, 0, 0, 0, 0, 0, 0, 0);
    lemma_mono_mul(v, 0, 2, 1, 0, 3, 4, 1, 2, 0, 1, 2, 2, 0, 0, 0, 0);
    lemma_mono_mul(v, 1, 1, 0, 1, 4, 1, 1, 2, 0, 0, 0, 2, 0, 0, 0, 0);
    lemma_mono_mul(v, 1, 1, 0, 1, 4, 1, 1, 2, 1, 0, 2, 0, 0, 0, 0, 0);
    lemma_mono_mul(v, 1, 1, 0, 1, 4, 1, 1, 2, 0, 0, 0, 0, 0, 0, 0, 0);
    lemma_mono_mul(v, 1, 1, 0, 1, 4, 1, 1, 2, 0, 1, 2, 2, 0, 0, 0, 0);
    lemma_mono_mul(v, 2, 1, 1, 0, 3, 2, 3, 0, 0, 0, 0, 2, 0, 0, 0, 0);
    lemma_mono_mul(v, 2, 1, 1, 0, 3, 2, 3, 0, 1, 0, 2, 0, 0, 0, 0, 0);
    lemma_mono_mul(v, 2, 1, 1, 0, 3, 2, 3, 0, 0, 0, 0, 0, 0, 0, 0, 0);
    lemma_mono_mul(v, 2, 1, 1, 0, 3, 2, 3, 0, 0, 1, 2, 2, 0, 0, 0, 0);
    lemma_mono_mul(v, 2, 1, 1, 0, 4, 1, 2, 1, 0, 0, 0, 2, 0, 0, 0, 0);
    lemma_mono_mul(v, 2, 1, 1, 0, 4, 1, 2, 1, 1, 0, 2, 0, 0, 0, 0, 0);
    lemma_mono_mul(v, 2, 1, 1, 0, 4, 1, 2, 1, 0, 0, 0, 0, 0, 0, 0, 0);
    lemma_mono_mul(v, 2, 1, 1, 0, 4, 1, 2, 1, 0, 1, 2, 2, 0, 0, 0, 0);
    assert(cofactor_x1(v) * curve1(v) == (m8 + m9 + m10 + m20 + m11 + m23 + m26 + m29 + m32 + m12
        + m46 + m49 + m52 + m55 + m58 + m13 + m35 + m38 + m21 + m24 + m27 + m41 + m30 + m33 + m61
        + m14 + m15 + m36 + m39 + m42 + m64 + m67) - (m0 + m44 + m47 + m50 + m1 + m2 + m53 + m3
        + m4 + m56 + m22 + m25 + m28 + m31 + m34 + m5 + m59 + m6 + m45 + m48 + m51 + m54 + m7
        + m37 + m57 + m40 + m43 + m62 + m65 + m60 + m63 + m66));
}

/// The multiple of the curve equation of `Q` as a sum of monomials.
proof fn lemma_cofactor_x2_product(v: Vars)
    ensures
        cofactor_x2(v) * curve2(v) == (mono(v, 0, 1, 0, 1, 1, 2, 2, 1)
            + mono(v, 0, 1, 0, 1, 2, 1, 1, 2) + mono(v, 0, 1, 0, 3, 1, 4, 2, 1)
            + mono(v, 0, 1, 0, 3, 2, 3, 1, 2) + mono(v, 0, 1, 1, 0, 1, 4, 1, 2)
            + mono(v, 0, 1, 1, 2, 1, 2, 1, 2) + mono(v, 0, 2, 0, 1, 3, 4, 2, 1)
            + mono(v, 0, 2, 0, 1, 4, 3, 1, 2) + mono(v, 0, 2, 1, 2, 1, 4, 3, 2)
            + mono(v, 0, 2, 1, 2, 2, 1, 2, 3) + mono(v, 0, 2, 1, 2, 3, 4, 1, 2)
            + mono(v, 0, 2, 2, 1, 1, 2, 2, 3) + mono(v, 0, 3, 1, 2, 4, 3, 2, 3)
            + mono(v, 0, 3, 2, 1, 3, 4, 2, 3) + mono(v, 1, 1, 0, 3, 3, 2, 2, 1)
            + mono(v, 1, 1, 0, 3, 4, 1, 1, 2) + mono(v, 1, 1, 1, 0, 2, 1, 2, 1)
            + mono(v, 1, 1, 1, 0, 3, 2, 1, 2) + mono(v, 1, 1, 1, 2, 2, 3, 2, 1)
            + mono(v, 1, 1, 2, 1, 1, 4, 2, 1) + mono(v, 1, 1, 2, 1, 2, 3, 1, 2)
            + mono(v, 1, 1, 3, 0, 1, 2, 1, 2) + mono(v, 1, 2, 1, 0, 4, 3, 2, 1)
            + mono(v, 1, 2, 1, 2, 3, 2, 3, 2) + mono(v, 1, 2, 2, 1, 2, 1, 3, 2)
            + mono(v, 1, 2, 3, 0, 3, 4, 1, 2) + mono(v, 1, 3, 2, 1, 4, 3, 3, 2)
            + mono(v, 2, 1, 1, 2, 4, 1, 2, 1) + mono(v, 2, 1, 2, 1, 3, 2, 2, 1)
            + mono(v, 2, 1, 2, 1, 4, 1, 1, 2) + mono(v, 2, 1, 3, 0, 2, 3, 2, 1)
            + mono(v, 3, 1, 3, 0, 4, 1, 2, 1)) - (mono(v, 0, 1, 0, 1, 1, 4, 2, 1)
            + mono(v, 0, 1, 0, 1, 2, 3, 1, 2) + mono(v, 0, 1, 0, 3, 1, 2, 2, 1)
            + mono(v, 0, 1, 0, 3, 2, 1, 1, 2) + mono(v, 0, 1, 1, 0, 1, 2, 1, 2)
            + mono(v, 0, 1, 1, 2, 1, 4, 1, 2) + mono(v, 0, 2, 0, 3, 3, 4, 2, 1)
            + mono(v, 0, 2, 0, 3, 4, 3, 1, 2) + mono(v, 0, 2, 1, 0, 3, 4, 1, 2)
            + mono(v, 0, 2, 1, 2, 1, 2, 3, 2) + mono(v, 0, 2, 1, 2, 2, 3, 2, 3)
            + mono(v, 0, 2, 2, 1, 1, 4, 2, 3) + mono(v, 0, 3, 1, 2, 3, 4, 3, 2)
            + mono(v, 1, 1, 0, 1, 3, 2, 2, 1) + mono(v, 1, 1, 0, 1, 4, 1, 1, 2)
            + mono(v, 1, 1, 1, 0, 2, 3, 2, 1) + mono(v, 1, 1, 1, 2, 2, 1, 2, 1)
            + mono(v, 1, 1, 1, 2, 3, 2, 1, 2) + mono(v, 1, 1, 2, 1, 1, 2, 2, 1)
            + mono(v, 1, 1, 2, 1, 2, 1, 1, 2) + mono(v, 1, 1, 3, 0, 1, 4, 1, 2)
            + mono(v, 1, 2, 1, 2, 4, 1, 2, 3) + mono(v, 1, 2, 1, 2, 4, 3, 2, 1)
            + mono(v, 1, 2, 2, 1, 2, 3, 3, 2) + mono(v, 1, 2, 2, 1, 3, 2, 2, 3)
            + mono(v, 1, 2, 2, 1, 3, 4, 2, 1) + mono(v, 1, 2, 2, 1, 4, 3, 1, 2)
            + mono(v, 2, 1, 1, 0, 4, 1, 2, 1) + mono(v, 2, 1, 3, 0, 2, 1, 2, 1)
            + mono(v, 2, 1, 3, 0, 3, 2, 1, 2) + mono(v, 2, 2, 2, 1, 4, 1, 3, 2)
            + mono(v, 2, 2, 3, 0, 4, 3, 2, 1)),
{
    lemma_curve2_sum(v);
    let m0 = mono(v, 0, 1, 0, 3, 1, 2, 2, 1);
    let m1 = mono(v, 0, 1, 0, 3, 2, 1, 1, 2);
    let m2 = mono(v, 0, 1, 1, 0, 1, 2, 1, 2);
    let m3 = mono(v, 0, 2, 1, 2, 1, 2, 3, 2);
    let m4 = mono(v, 1, 1, 1, 2, 2, 1, 2, 1);
    let m5 = mono(v, 1, 1, 2, 1, 1, 2, 2, 1);
    let m6 = mono(v, 1, 1, 2, 1, 2, 1, 1, 2);
    let m7 = mono(v, 2, 1, 3, 0, 2, 1, 2, 1);
    let m8 = mono(v, 0, 1, 0, 1, 1, 2, 2, 1);
    let m9 = mono(v, 0, 1, 0, 1, 2, 1, 1, 2);
    let m10 = mono(v, 0, 1, 1, 2, 1, 2, 1, 2);
    let m11 = mono(v, 0, 2, 1, 2, 2, 1, 2, 3);
    let m12 = mono(v, 0, 2, 2, 1, 1, 2, 2, 3);
    let m13 = mono(v, 1, 1, 1, 0, 2, 1, 2, 1);
    let m14 = mono(v, 1, 1, 3, 0, 1, 2, 1, 2);
    let m15 = mono(v, 1, 2, 2, 1, 2, 1, 3, 2);
    let m16 = mono(v, 0, 0, 0, 0, 0, 2, 0, 0);
    let m17 = mono(v, 1, 0, 0, 0, 2, 0, 0, 0);
    let m18 = mono(v, 0, 0, 0, 0, 0, 0, 0, 0);
    let m19 = mono(v, 0, 1, 0, 0, 2, 2, 0, 0);
    let m20 = mono(v, 0, 1, 0, 3, 1, 4, 2, 1);
    let m21 = mono(v, 1, 1, 0, 3, 3, 2, 2, 1);
    let m22 = mono(v, 0, 2, 0, 3, 3, 4, 2, 1);
    let m23 = mono(v, 0, 1, 0, 3, 2, 3, 1, 2);
    let m24 = mono(v, 1, 1, 0, 3, 4, 1, 1, 2);
    let m25 = mono(v, 0, 2, 0, 3, 4, 3, 1, 2);
    let m26 = mono(v, 0, 1, 1, 0, 1, 4, 1, 2);
    let m27 = mono(v, 1, 1, 1, 0, 3, 2, 1, 2);
    let m28 = mono(v, 0, 2, 1, 0, 3, 4, 1, 2);
    let m29 = mono(v, 0, 2, 1, 2, 1, 4, 3, 2);
    let m30 = mono(v, 1, 2, 1, 2, 3, 2, 3, 2);
    let m31 = mono(v, 0, 3, 1, 2, 3, 4, 3, 2);
    let m32 = mono(v, 1, 1, 1, 2, 2, 3, 2, 1);
    let m33 = mono(v, 2, 1, 1, 2, 4, 1, 2, 1);
    let m34 = mono(v, 1, 2, 1, 2, 4, 3, 2, 1);
    let m35 = mono(v, 1, 1, 2, 1, 1, 4, 2, 1);
    let m36 = mono(v, 2, 1, 2, 1, 3, 2, 2, 1);
    let m37 = mono(v, 1, 2, 2, 1, 3, 4, 2, 1);
    let m38 = mono(v, 1, 1, 2, 1, 2, 3, 1, 2);
    let m39 = mono(v, 2, 1, 2, 1, 4, 1, 1, 2);
    let m40 = mono(v, 1, 2, 2, 1, 4, 3, 1, 2);
    let m41 = mono(v, 2, 1, 3, 0, 2, 3, 2, 1);
    let m42 = mono(v, 3, 1, 3, 0, 4, 1, 2, 1);
    let m43 = mono(v, 2, 2, 3, 0, 4, 3, 2, 1);
    let m44 = mono(v, 0, 1, 0, 1, 1, 4, 2, 1);
    let m45 = mono(v, 1, 1, 0, 1, 3, 2, 2, 1);
    let m46 = mono(v, 0, 2, 0, 1, 3, 4, 2, 1);
    let m47 = mono(v, 0, 1, 0, 1, 2, 3, 1, 2);
    let m48 = mono(v, 1, 1, 0, 1, 4, 1, 1, 2);
    let m49 = mono(v, 0, 2, 0, 1, 4, 3, 1, 2);
    let m50 = mono(v, 0, 1, 1, 2, 1, 4, 1, 2);
    let m51 = mono(v, 1, 1, 1, 2, 3, 2, 1, 2);
    let m52 = mono(v, 0, 2, 1, 2, 3, 4, 1, 2);
    let m53 = mono(v, 0, 2, 1, 2, 2, 3, 2, 3);
    let m54 = mono(v, 1, 2, 1, 2, 4, 1, 2, 3);
    let m55 = mono(v, 0, 3, 1, 2, 4, 3, 2, 3);
    let m56 = mono(v, 0, 2, 2, 1, 1, 4, 2, 3);
    let m57 = mono(v, 1, 2, 2, 1, 3, 2, 2, 3);
    let m58 = mono(v, 0, 3, 2, 1, 3, 4, 2, 3);
    let m59 = mono(v, 1, 1, 1, 0, 2, 3, 2, 1);
    let m60 = mono(v, 2, 1, 1, 0, 4, 1, 2, 1);
    let m61 = mono(v, 1, 2, 1, 0, 4, 3, 2, 1);
    let m62 = mono(v, 1, 1, 3, 0, 1, 4, 1, 2);
    let m63 = mono(v, 2, 1, 3, 0, 3, 2, 1, 2);
    let m64 = mono(v, 1, 2, 3, 0, 3, 4, 1, 2);
    let m65 = mono(v, 1, 2, 2, 1, 2, 3, 3, 2);
    let m66 = mono(v, 2, 2, 2, 1, 4, 1, 3, 2);
    let m67 = mono(v, 1, 3, 2, 1, 4, 3, 3, 2);
    lemma_expand_differences(m0 + m1 + m2 + m3 + m4 + m5 + m6 + m7, m8 + m9 + m10 + m11 + m12
        + m13 + m14 + m15, m16 + m17, m18 + m19);
    lemma_sum_left_8(m0, m1, m2, m3, m4, m5, m6, m7, m16 + m17);
    lemma_sum_right_2(m0, m16, m17);
    lemma_sum_right_2(m1, m16, m17);
    lemma_sum_right_2(m2, m16, m17);
    lemma_sum_right_2(m3, m16, m17);
    lemma_sum_right_2(m4, m16, m17);
    lemma_sum_right_2(m5, m16, m17);
    lemma_sum_right_2(m6, m16, m17);
    lemma_sum_right_2(m7, m16, m17);
    lemma_sum_left_8(m0, m1, m2, m3, m4, m5, m6, m7, m18 + m19);
    lemma_sum_right_2(m0, m18, m19);
    lemma_sum_right_2(m1, m18, m19);
    lemma_sum_right_2(m2, m18, m19);
    lemma_sum_right_2(m3, m18, m19);
    lemma_sum_right_2(m4, m18, m19);
    lemma_sum_right_2(m5, m18, m19);
    lemma_sum_right_2(m6, m18, m19);
    lemma_sum_right_2(m7, m18, m19);
    lemma_sum_left_8(m8, m9, m10, m11, m12, m13, m14, m15, m16 + m17);
    lemma_sum_right_2(m8, m16, m17);
    lemma_sum_right_2(m9, m16, m17);
    lemma_sum_right_2(m10, m16, m17);
    lemma_sum_right_2(m11, m16, m17);
    lemma_sum_right_2(m12, m16, m17);
    lemma_sum_right_2(m13, m16, m17);
    lemma_sum_right_2(m14, m16, m17);
    lemma_sum_right_2(m15, m16, m17);
    lemma_sum_left_8(m8, m9, m10, m11, m12, m13, m14, m15, m18 + m19);
    lemma_sum_right_2(m8, m18, m19);
    lemma_sum_right_2(m9, m18, m19);
    lemma_sum_right_2(m10, m18, m19);
    lemma_sum_right_2(m11, m18, m19);
    lemma_sum_right_2(m12, m18, m19);
    lemma_sum_right_2(m13, m18, m19);
    lemma_sum_right_2(m14, m18, m19);
    lemma_sum_right_2(m15, m18, m19);
    lemma_mono_mul(v, 0, 1, 0, 3, 1, 2, 2, 1, 0, 0, 0, 0, 0, 2, 0, 0);
    lemma_mono_mul(v, 0, 1, 0, 3, 1, 2, 2, 1, 1, 0, 0, 0, 2, 0, 0, 0);
    lemma_mono_mul(v, 0, 1, 0, 3, 1, 2, 2, 1, 0, 0, 0, 0, 0, 0, 0, 0);
    lemma_mono_mul(v, 0, 1, 0, 3, 1, 2, 2, 1, 0, 1, 0, 0, 2, 2, 0, 0);
    lemma_mono_mul(v, 0, 1, 0, 3, 2, 1, 1, 2, 0, 0, 0, 0, 0, 2, 0, 0);
    lemma_mono_mul(v, 0, 1, 0, 3, 2, 1, 1, 2, 1, 0, 0, 0, 2, 0, 0, 0);
    lemma_mono_mul(v, 0, 1, 0, 3, 2, 1, 1, 2, 0, 0, 0, 0, 0, 0, 0, 0);
    lemma_mono_mul(v, 0, 1, 0, 3, 2, 1, 1, 2, 0, 1, 0, 0, 2, 2, 0, 0);
    lemma_mono_mul(v, 0, 1, 1, 0, 1, 2, 1, 2, 0, 0, 0, 0, 0, 2, 0, 0);
    lemma_mono_mul(v, 0, 1, 1, 0, 1, 2, 1, 2, 1, 0, 0, 0, 2, 0, 0, 0);
    lemma_mono_mul(v, 0, 1, 1, 0, 1, 2, 1, 2, 0, 0, 0, 0, 0, 0, 0, 0);
    lemma_mono_mul(v, 0, 1, 1, 0, 1, 2, 1, 2, 0, 1, 0, 0, 2, 2, 0, 0);
    lemma_mono_mul(v, 0, 2, 1, 2, 1, 2, 3, 2, 0, 0, 0, 0, 0, 2, 0, 0);
    lemma_mono_mul(v, 0, 2, 1, 2, 1, 2, 3, 2, 1, 0, 0, 0, 2, 0, 0, 0);
    lemma_mono_mul(v, 0, 2, 1, 2, 1, 2, 3, 2, 0, 0, 0, 0, 0, 0, 0, 0);
    lemma_mono_mul(v, 0, 2, 1, 2, 1, 2, 3, 2, 0, 1, 0, 0, 2, 2, 0, 0);
    lemma_mono_mul(v, 1, 1, 1, 2, 2, 1, 2, 1, 0, 0, 0, 0, 0, 2, 0, 0);
    lemma_mono_mul(v, 1, 1, 1, 2, 2, 1, 2, 1, 1, 0, 0, 0, 2, 0, 0, 0);
    lemma_mono_mul(v, 1, 1, 1, 2, 2, 1, 2, 1, 0, 0, 0, 0, 0, 0, 0, 0);
    lemma_mono_mul(v, 1, 1, 1, 2, 2, 1, 2, 1, 0, 1, 0, 0, 2, 2, 0, 0);
    lemma_mono_mul(v, 1, 1, 2, 1, 1, 2, 2, 1, 0, 0, 0, 0, 0, 2, 0, 0);
    lemma_mono_mul(v, 1, 1, 2, 1, 1, 2, 2, 1, 1, 0, 0, 0, 2, 0, 0, 0);
    lemma_mono_mul(v, 1, 1, 2, 1, 1, 2, 2, 1, 0, 0, 0, 0, 0, 0, 0, 0);
    lemma_mono_mul(v, 1, 1, 2, 1, 1, 2, 2, 1, 0, 1, 0, 0, 2, 2, 0, 0);
    lemma_mono_mul(v, 1, 1, 2, 1, 2, 1, 1, 2, 0, 0, 0, 0, 0, 2, 0, 0);
    lemma_mono_mul(v, 1, 1, 2, 1, 2, 1, 1, 2, 1, 0, 0, 0, 2, 0, 0, 0);
    lemma_mono_mul(v, 1, 1, 2, 1, 2, 1, 1, 2, 0, 0, 0, 0, 0, 0, 0, 0);
    lemma_mono_mul(v, 1, 1, 2, 1, 2, 1, 1, 2, 0, 1, 0, 0, 2, 2, 0, 0);
    lemma_mono_mul(v, 2, 1, 3, 0, 2, 1, 2, 1, 0, 0, 0, 0, 0, 2, 0, 0);
    lemma_mono_mul(v, 2, 1, 3, 0, 2, 1, 2, 1, 1, 0, 0, 0, 2, 0, 0, 0);
    lemma_mono_mul(v, 2, 1, 3, 0, 2, 1, 2, 1, 0, 0, 0, 0, 0, 0, 0, 0);
    lemma_mono_mul(v, 2, 1, 3, 0, 2, 1, 2, 1, 0, 1, 0, 0, 2, 2, 0, 0);
    lemma_mono_mul(v, 0, 1, 0, 1, 1, 2, 2, 1, 0, 0, 0, 0, 0, 2, 0, 0);
    lemma_mono_mul(v, 0, 1, 0, 1, 1, 2, 2, 1, 1, 0, 0, 0, 2, 0, 0, 0);
    lemma_mono_mul(v, 0, 1, 0, 1, 1, 2, 2, 1, 0, 0, 0, 0, 0, 0, 0, 0);
    lemma_mono_mul(v, 0, 1, 0, 1, 1, 2, 2, 1, 0, 1, 0, 0, 2, 2, 0, 0);
    lemma_mono_mul(v, 0, 1, 0, 1, 2, 1, 1, 2, 0, 0, 0, 0, 0, 2, 0, 0);
    lemma_mono_mul(v, 0, 1, 0, 1, 2, 1, 1, 2, 1, 0, 0, 0, 2, 0, 0, 0);
    lemma_mono_mul(v, 0, 1, 0, 1, 2, 1, 1, 2, 0, 0, 0, 0, 0, 0, 0, 0);
    lemma_mono_mul(v, 0, 1, 0, 1, 2, 1, 1, 2, 0, 1, 0, 0, 2, 2, 0, 0);
    lemma_mono_mul(v, 0, 1, 1, 2, 1, 2, 1, 2, 0, 0, 0, 0, 0, 2, 0, 0);
    lemma_mono_mul(v, 0, 1, 1, 2, 1, 2, 1, 2, 1, 0, 0, 0, 2, 0, 0, 0);
    lemma_mono_mul(v, 0, 1, 1, 2, 1, 2, 1, 2, 0, 0, 0, 0, 0, 0, 0, 0);
    lemma_mono_mul(v, 0, 1, 1, 2, 1, 2, 1, 2, 0, 1, 0, 0, 2, 2, 0, 0);
    lemma_mono_mul(v, 0, 2, 1, 2, 2, 1, 2, 3, 0, 0, 0, 0, 0, 2, 0, 0);
    lemma_mono_mul(v, 0, 2, 1, 2, 2, 1, 2, 3, 1, 0, 0, 0, 2, 0, 0, 0);
    lemma_mono_mul(v, 0, 2, 1, 2, 2, 1, 2, 3, 0, 0, 0, 0, 0, 0, 0, 0);
    lemma_mono_mul(v, 0, 2, 1, 2, 2, 1, 2, 3, 0, 1, 0, 0, 2, 2, 0, 0);
    lemma_mono_mul(v, 0, 2, 2, 1, 1, 2, 2, 3, 0, 0, 0, 0, 0, 2, 0, 0);
    lemma_mono_mul(v, 0, 2, 2, 1, 1, 2, 2, 3, 1, 0, 0, 0, 2, 0, 0, 0);
    lemma_mono_mul(v, 0, 2, 2, 1, 1, 2, 2, 3, 0, 0, 0, 0, 0, 0, 0, 0);
    lemma_mono_mul(v, 0, 2, 2, 1, 1, 2, 2, 3, 0, 1, 0, 0, 2, 2, 0, 0);
    lemma_mono_mul(v, 1, 1, 1, 0, 2, 1, 2, 1, 0, 0, 0, 0, 0, 2, 0, 0);
    lemma_mono_mul(v, 1, 1, 1, 0, 2, 1, 2, 1, 1, 0, 0, 0, 2, 0, 0, 0);
    lemma_mono_mul(v, 1, 1, 1, 0, 2, 1, 2, 1, 0, 0, 0, 0, 0, 0, 0, 0);
    lemma_mono_mul(v, 1, 1, 1, 0, 2, 1, 2, 1, 0, 1, 0, 0, 2, 2, 0, 0);
    lemma_mono_mul(v, 1, 1, 3, 0, 1, 2, 1, 2, 0, 0, 0, 0, 0, 2, 0, 0);
    lemma_mono_mul(v, 1, 1, 3, 0, 1, 2, 1, 2, 1, 0, 0, 0, 2, 0, 0, 0);
    lemma_mono_mul(v, 1, 1, 3, 0, 1, 2, 1, 2, 0, 0, 0, 0, 0, 0, 0, 0);
    lemma_mono_mul(v, 1, 1, 3, 0, 1, 2, 1, 2, 0, 1, 0, 0, 2, 2, 0, 0);
    lemma_mono_mul(v, 1, 2, 2, 1, 2, 1, 3, 2, 0, 0, 0, 0, 0, 2, 0, 0);
    lemma_mono_mul(v, 1, 2, 2, 1, 2, 1, 3, 2, 1, 0, 0, 0, 2, 0, 0, 0);
    lemma_mono_mul(v, 1, 2, 2, 1, 2, 1, 3, 2, 0, 0, 0, 0, 0, 0, 0, 0);
    lemma_mono_mul(v, 1, 2, 2, 1, 2, 1, 3, 2, 0, 1, 0, 0, 2, 2, 0, 0);
    assert(cofactor_x2(v) * curve2(v) == (m8 + m9 + m20 + m23 + m26 + m10 + m46 + m49 + m29 + m11
        + m52 + m12 + m55 + m58 + m21 + m24 + m13 + m27 + m32 + m35 + m38 + m14 + m61 + m30 + m15
        + m64 + m67 + m33 + m36 + m39 + m41 + m42) - (m44 + m47 + m0 + m1 + m2 + m50 + m22 + m25
        + m28 + m3 + m53 + m56 + m31 + m45 + m48 + m59 + m4 + m51 + m5 + m6 + m62 + m54 + m34
        + m65 + m57 + m37 + m40 + m60 + m7 + m63 + m66 + m43));
}

/// The multiple of the curve equation of `R` as a sum of monomials.
proof fn lemma_cofactor_x3_product(v: Vars)
    ensures
        cofactor_x3(v) * curve3(v) == (mono(v, 0, 1, 0, 1, 2, 3, 1, 2)
            + mono(v, 0, 1, 0, 1, 3, 2, 0, 3) + mono(v, 0, 1, 0, 3, 2, 3, 1, 0)
            + mono(v, 0, 1, 0, 3, 3, 2, 0, 1) + mono(v, 0, 1, 1, 0, 2, 3, 0, 3)
            + mono(v, 0, 1, 1, 2, 1, 2, 1, 0) + mono(v, 0, 1, 1, 2, 2, 1, 0, 3)
            + mono(v, 0, 1, 1, 2, 2, 3, 0, 1) + mono(v, 0, 1, 2, 1, 1, 2, 0, 3)
            + mono(v, 0, 2, 0, 3, 2, 3, 3, 2) + mono(v, 0, 2, 0, 3, 3, 2, 2, 3)
            + mono(v, 0, 2, 1, 2, 1, 2, 3, 2) + mono(v, 0, 2, 1, 2, 2, 3, 2, 3)
            + mono(v, 1, 1, 0, 1, 2, 3, 3, 0) + mono(v, 1, 1, 0, 1, 3, 2, 2, 1)
            + mono(v, 1, 1, 1, 0, 2, 3, 2, 1) + mono(v, 1, 1, 1, 0, 3, 2, 1, 0)
            + mono(v, 1, 1, 1, 2, 2, 1, 2, 1) + mono(v, 1, 1, 1, 2, 3, 2, 1, 2)
            + mono(v, 1, 1, 2, 1, 1, 2, 2, 1) + mono(v, 1, 1, 2, 1, 2, 1, 1, 2)
            + mono(v, 1, 1, 2, 1, 2, 3, 1, 0) + mono(v, 1, 1, 2, 1, 3, 2, 0, 1)
            + mono(v, 1, 1, 3, 0, 2, 3, 0, 1) + mono(v, 1, 2, 1, 0, 3, 2, 3, 2)
            + mono(v, 1, 2, 2, 1, 2, 3, 3, 2) + mono(v, 1, 2, 2, 1, 3, 2, 2, 3)
            + mono(v, 1, 2, 3, 0, 2, 3, 2, 3) + mono(v, 2, 1, 1, 2, 3, 2, 3, 0)
            + mono(v, 2, 1, 2, 1, 2, 1, 3, 0) + mono(v, 2, 1, 3, 0, 3, 2, 1, 2)
            + mono(v, 3, 1, 3, 0, 3, 2, 3, 0)) - (mono(v, 0, 1, 0, 1, 2, 3, 1, 0)
            + mono(v, 0, 1, 0, 1, 3, 2, 0, 1) + mono(v, 0, 1, 0, 3, 2, 3, 1, 2)
            + mono(v, 0, 1, 0, 3, 3, 2, 0, 3) + mono(v, 0, 1, 1, 0, 2, 3, 0, 1)
            + mono(v, 0, 1, 1, 2, 1, 2, 1, 2) + mono(v, 0, 1, 1, 2, 2, 1, 0, 1)
            + mono(v, 0, 1, 1, 2, 2, 3, 0, 3) + mono(v, 0, 1, 2, 1, 1, 2, 0, 1)
            + mono(v, 0, 2, 0, 1, 2, 3, 3, 2) + mono(v, 0, 2, 0, 1, 3, 2, 2, 3)
            + mono(v, 0, 2, 1, 0, 2, 3, 2, 3) + mono(v, 0, 2, 1, 2, 2, 1, 2, 3)
            + mono(v, 0, 2, 2, 1, 1, 2, 2, 3) + mono(v, 1, 1, 0, 3, 2, 3, 3, 0)
            + mono(v, 1, 1, 0, 3, 3, 2, 2, 1) + mono(v, 1, 1, 1, 0, 3, 2, 1, 2)
            + mono(v, 1, 1, 1, 2, 1, 2, 3, 0) + mono(v, 1, 1, 1, 2, 2, 3, 2, 1)
            + mono(v, 1, 1, 1, 2, 3, 2, 1, 0) + mono(v, 1, 1, 2, 1, 2, 1, 1, 0)
            + mono(v, 1, 1, 2, 1, 2, 3, 1, 2) + mono(v, 1, 1, 2, 1, 3, 2, 0, 3)
            + mono(v, 1, 1, 3, 0, 2, 3, 0, 3) + mono(v, 1, 2, 1, 2, 3, 2, 3, 2)
            + mono(v, 1, 2, 2, 1, 2, 1, 3, 2) + mono(v, 2, 1, 1, 0, 3, 2, 3, 0)
            + mono(v, 2, 1, 2, 1, 2, 3, 3, 0) + mono(v, 2, 1, 2, 1, 3, 2, 2, 1)
            + mono(v, 2, 1, 3, 0, 2, 3, 2, 1) + mono(v, 2, 1, 3, 0, 3, 2, 1, 0)
            + mono(v, 2, 2, 3, 0, 3, 2, 3, 2)),
{
    lemma_curve3_sum(v);
    let m0 = mono(v, 0, 1, 0, 1, 2, 3, 1, 0);
    let m1 = mono(v, 0, 1, 0, 1, 3, 2, 0, 1);
    let m2 = mono(v, 0, 1, 1, 0, 2, 3, 0, 1);
    let m3 = mono(v, 0, 1, 1, 2, 2, 1, 0, 1);
    let m4 = mono(v, 0, 1, 2, 1, 1, 2, 0, 1);
    let m5 = mono(v, 1, 1, 1, 2, 3, 2, 1, 0);
    let m6 = mono(v, 1, 1, 2, 1, 2, 1, 1, 0);
    let m7 = mono(v, 2, 1, 3, 0, 3, 2, 1, 0);
    let m8 = mono(v, 0, 1, 0, 3, 2, 3, 1, 0);
    let m9 = mono(v, 0, 1, 0, 3, 3, 2, 0, 1);
    let m10 = mono(v, 0, 1, 1, 2, 1, 2, 1, 0);
    let m11 = mono(v, 0, 1, 1, 2, 2, 3, 0, 1);
    let m12 = mono(v, 1, 1, 1, 0, 3, 2, 1, 0);
    let m13 = mono(v, 1, 1, 2, 1, 2, 3, 1, 0);
    let m14 = mono(v, 1, 1, 2, 1, 3, 2, 0, 1);
    let m15 = mono(v, 1, 1, 3, 0, 2, 3, 0, 1);
    let m16 = mono(v, 0, 0, 0, 0, 0, 0, 0, 2);
    let m17 = mono(v, 1, 0, 0, 0, 0, 0, 2, 0);
    let m18 = mono(v, 0, 0, 0, 0, 0, 0, 0, 0);
    let m19 = mono(v, 0, 1, 0, 0, 0, 0, 2, 2);
    let m20 = mono(v, 0, 1, 0, 1, 2, 3, 1, 2);
    let m21 = mono(v, 1, 1, 0, 1, 2, 3, 3, 0);
    let m22 = mono(v, 0, 2, 0, 1, 2, 3, 3, 2);
    let m23 = mono(v, 0, 1, 0, 1, 3, 2, 0, 3);
    let m24 = mono(v, 1, 1, 0, 1, 3, 2, 2, 1);
    let m25 = mono(v, 0, 2, 0, 1, 3, 2, 2, 3);
    let m26 = mono(v, 0, 1, 1, 0, 2, 3, 0, 3);
    let m27 = mono(v, 1, 1, 1, 0, 2, 3, 2, 1);
    let m28 = mono(v, 0, 2, 1, 0, 2, 3, 2, 3);
    let m29 = mono(v, 0, 1, 1, 2, 2, 1, 0, 3);
    let m30 = mono(v, 1, 1, 1, 2, 2, 1, 2, 1);
    let m31 = mono(v, 0, 2, 1, 2, 2, 1, 2, 3);
    let m32 = mono(v, 0, 1, 2, 1, 1, 2, 0, 3);
    let m33 = mono(v, 1, 1, 2, 1, 1, 2, 2, 1);
    let m34 = mono(v, 0, 2, 2, 1, 1, 2, 2, 3);
    let m35 = mono(v, 1, 1, 1, 2, 3, 2, 1, 2);
    let m36 = mono(v, 2, 1, 1, 2, 3, 2, 3, 0);
    let m37 = mono(v, 1, 2, 1, 2, 3, 2, 3, 2);
    let m38 = mono(v, 1, 1, 2, 1, 2, 1, 1, 2);
    let m39 = mono(v, 2, 1, 2, 1, 2, 1, 3, 0);
    let m40 = mono(v, 1, 2, 2, 1, 2, 1, 3, 2);
    let m41 = mono(v, 2, 1, 3, 0, 3, 2, 1, 2);
    let m42 = mono(v, 3, 1, 3, 0, 3, 2, 3, 0);
    let m43 = mono(v, 2, 2, 3, 0, 3, 2, 3, 2);
    let m44 = mono(v, 0, 1, 0, 3, 2, 3, 1, 2);
    let m45 = mono(v, 1, 1, 0, 3, 2, 3, 3, 0);
    let m46 = mono(v, 0, 2, 0, 3, 2, 3, 3, 2);
    let m47 = mono(v, 0, 1, 0, 3, 3, 2, 0, 3);
    let m48 = mono(v, 1, 1, 0, 3, 3, 2, 2, 1);
    let m49 = mono(v, 0, 2, 0, 3, 3, 2, 2, 3);
    let m50 = mono(v, 0, 1, 1, 2, 1, 2, 1, 2);
    let m51 = mono(v, 1, 1, 1, 2, 1, 2, 3, 0);
    let m52 = mono(v, 0, 2, 1, 2, 1, 2, 3, 2);
    let m53 = mono(v, 0, 1, 1, 2, 2, 3, 0, 3);
    let m54 = mono(v, 1, 1, 1, 2, 2, 3, 2, 1);
    let m55 = mono(v, 0, 2, 1, 2, 2, 3, 2, 3);
    let m56 = mono(v, 1, 1, 1, 0, 3, 2, 1, 2);
    let m57 = mono(v, 2, 1, 1, 0, 3, 2, 3, 0);
    let m58 = mono(v, 1, 2, 1, 0, 3, 2, 3, 2);
    let m59 = mono(v, 1, 1, 2, 1, 2, 3, 1, 2);
    let m60 = mono(v, 2, 1, 2, 1, 2, 3, 3, 0);
    let m61 = mono(v, 1, 2, 2, 1, 2, 3, 3, 2);
    let m62 = mono(v, 1, 1, 2, 1, 3, 2, 0, 3);
    let m63 = mono(v, 2, 1, 2, 1, 3, 2, 2, 1);
    let m64 = mono(v, 1, 2, 2, 1, 3, 2, 2, 3);
    let m65 = mono(v, 1, 1, 3, 0, 2, 3, 0, 3);
    let m66 = mono(v, 2, 1, 3, 0, 2, 3, 2, 1);
    let m67 = mono(v, 1, 2, 3, 0, 2, 3, 2, 3);
    lemma_expand_differences(m0 + m1 + m2 + m3 + m4 + m5 + m6 + m7, m8 + m9 + m10 + m11 + m12
        + m13 + m14 + m15, m16 + m17, m18 + m19);
    lemma_sum_left_8(m0, m1, m2, m3, m4, m5, m6, m7, m16 + m17);
    lemma_sum_right_2(m0, m16, m17);
    lemma_sum_right_2(m1, m16, m17);
    lemma_sum_right_2(m2, m16, m17);
    lemma_sum_right_2(m3, m16, m17);
    lemma_sum_right_2(m4, m16, m17);
    lemma_sum_right_2(m5, m16, m17);
    lemma_sum_right_2(m6, m16, m17);
    lemma_sum_right_2(m7, m16, m17);
    lemma_sum_left_8(m0, m1, m2, m3, m4, m5, m6, m7, m18 + m19);
    lemma_sum_right_2(m0, m18, m19);
    lemma_sum_right_2(m1, m18, m19);
    lemma_sum_right_2(m2, m18, m19);
    lemma_sum_right_2(m3, m18, m19);
    lemma_sum_right_2(m4, m18, m19);
    lemma_sum_right_2(m5, m18, m19);
    lemma_sum_right_2(m6, m18, m19);
    lemma_sum_right_2(m7, m18, m19);
    lemma_sum_left_8(m8, m9, m10, m11, m12, m13, m14, m15, m16 + m17);
    lemma_sum_right_2(m8, m16, m17);
    lemma_sum_right_2(m9, m16, m17);
    lemma_sum_right_2(m10, m16, m17);
    lemma_sum_right_2(m11, m16, m17);
    lemma_sum_right_2(m12, m16, m17);
    lemma_sum_right_2(m13, m16, m17);
    lemma_sum_right_2(m14, m16, m17);
    lemma_sum_right_2(m15, m16, m17);
    lemma_sum_left_8(m8, m9, m10, m11, m12, m13, m14, m15, m18 + m19);
    lemma_sum_right_2(m8, m18, m19);
    lemma_sum_right_2(m9, m18, m19);
    lemma_sum_right_2(m10, m18, m19);
    lemma_sum_right_2(m11, m18, m19);
    lemma_sum_right_2(m12, m18, m19);
    lemma_sum_right_2(m13, m18, m19);
    lemma_sum_right_2(m14, m18, m19);
    lemma_sum_right_2(m15, m18, m19);
    lemma_mono_mul(v, 0, 1, 0, 1, 2, 3, 1, 0, 0, 0, 0, 0, 0, 0, 0, 2);
    lemma_mono_mul(v, 0, 1, 0, 1, 2, 3, 1, 0, 1, 0, 0, 0, 0, 0, 2, 0);
    lemma_mono_mul(v, 0, 1, 0, 1, 2, 3, 1, 0, 0, 0, 0, 0, 0, 0, 0, 0);
    lemma_mono_mul(v, 0, 1, 0, 1, 2, 3, 1, 0, 0, 1, 0, 0, 0, 0, 2, 2);
    lemma_mono_mul(v, 0, 1, 0, 1, 3, 2, 0, 1, 0, 0, 0, 0, 0, 0, 0, 2);
    lemma_mono_mul(v, 0, 1, 0, 1, 3, 2, 0, 1, 1, 0, 0, 0, 0, 0, 2, 0);
    lemma_mono_mul(v, 0, 1, 0, 1, 3, 2, 0, 1, 0, 0, 0, 0, 0, 0, 0, 0);
    lemma_mono_mul(v, 0, 1, 0, 1, 3, 2, 0, 1, 0, 1, 0, 0, 0, 0, 2, 2);
    lemma_mono_mul(v, 0, 1, 1, 0, 2, 3, 0, 1, 0, 0, 0, 0, 0, 0, 0, 2);
    lemma_mono_mul(v, 0, 1, 1, 0, 2, 3, 0, 1, 1, 0, 0, 0, 0, 0, 2, 0);
    lemma_mono_mul(v, 0, 1, 1, 0, 2, 3, 0, 1, 0, 0, 0, 0, 0, 0, 0, 0);
    lemma_mono_mul(v, 0, 1, 1, 0, 2, 3, 0, 1, 0, 1, 0, 0, 0, 0, 2, 2);
    lemma_mono_mul(v, 0, 1, 1, 2, 2, 1, 0, 1, 0, 0, 0, 0, 0, 0, 0, 2);
    lemma_mono_mul(v, 0, 1, 1, 2, 2, 1, 0, 1, 1, 0, 0, 0, 0, 0, 2, 0);
    lemma_mono_mul(v, 0, 1, 1, 2, 2, 1, 0, 1, 0, 0, 0, 0, 0, 0, 0, 0);
    lemma_mono_mul(v, 0, 1, 1, 2, 2, 1, 0, 1, 0, 1, 0, 0, 0, 0, 2, 2);
    lemma_mono_mul(v, 0, 1, 2, 1, 1, 2, 0, 1, 0, 0, 0, 0, 0, 0, 0, 2);
    lemma_mono_mul(v, 0, 1, 2, 1, 1, 2, 0, 1, 1, 0, 0, 0, 0, 0, 2, 0);
    lemma_mono_mul(v, 0, 1, 2, 1, 1, 2, 0, 1, 0, 0, 0, 0, 0, 0, 0, 0);
    lemma_mono_mul(v, 0, 1, 2, 1, 1, 2, 0, 1, 0, 1, 0, 0, 0, 0, 2, 2);
    lemma_mono_mul(v, 1, 1, 1, 2, 3, 2, 1, 0, 0, 0, 0, 0, 0, 0, 0, 2);
    lemma_mono_mul(v, 1, 1, 1, 2, 3, 2, 1, 0, 1, 0, 0, 0, 0, 0, 2, 0);
    lemma_mono_mul(v, 1, 1, 1, 2, 3, 2, 1, 0, 0, 0, 0, 0, 0, 0, 0, 0);
    lemma_mono_mul(v, 1, 1, 1, 2, 3, 2, 1, 0, 0, 1, 0, 0, 0, 0, 2, 2);
    lemma_mono_mul(v, 1, 1, 2, 1, 2, 1, 1, 0, 0, 0, 0, 0, 0, 0, 0, 2);
    lemma_mono_mul(v, 1, 1, 2, 1, 2, 1, 1, 0, 1, 0, 0, 0, 0, 0, 2, 0);
    lemma_mono_mul(v, 1, 1, 2, 1, 2, 1, 1, 0, 0, 0, 0, 0, 0, 0, 0, 0);
    lemma_mono_mul(v, 1, 1, 2, 1, 2, 1, 1, 0, 0, 1, 0, 0, 0, 0, 2, 2);
    lemma_mono_mul(v, 2, 1, 3, 0, 3, 2, 1, 0, 0, 0, 0, 0, 0, 0, 0, 2);
    lemma_mono_mul(v, 2, 1, 3, 0, 3, 2, 1, 0, 1, 0, 0, 0, 0, 0, 2, 0);
    lemma_mono_mul(v, 2, 1, 3, 0, 3, 2, 1, 0, 0, 0, 0, 0, 0, 0, 0, 0);
    lemma_mono_mul(v, 2, 1, 3, 0, 3, 2, 1, 0, 0, 1, 0, 0, 0, 0, 2, 2);
    lemma_mono_mul(v, 0, 1, 0, 3, 2, 3, 1, 0, 0, 0, 0, 0, 0, 0, 0, 2);
    lemma_mono_mul(v, 0, 1, 0, 3, 2, 3, 1, 0, 1, 0, 0, 0, 0, 0, 2, 0);
    lemma_mono_mul(v, 0, 1, 0, 3, 2, 3, 1, 0, 0, 0, 0, 0, 0, 0, 0, 0);
    lemma_mono_mul(v, 0, 1, 0, 3, 2, 3, 1, 0, 0, 1, 0, 0, 0, 0, 2, 2);
    lemma_mono_mul(v, 0, 1, 0, 3, 3, 2, 0, 1, 0, 0, 0, 0, 0, 0, 0, 2);
    lemma_mono_mul(v, 0, 1, 0, 3, 3, 2, 0, 1, 1, 0, 0, 0, 0, 0, 2, 0);
    lemma_mono_mul(v, 0, 1, 0, 3, 3, 2, 0, 1, 0, 0, 0, 0, 0, 0, 0, 0);
    lemma_mono_mul(v, 0, 1, 0, 3, 3, 2, 0, 1, 0, 1, 0, 0, 0, 0, 2, 2);
    lemma_mono_mul(v, 0, 1, 1, 2, 1, 2, 1, 0, 0, 0, 0, 0, 0, 0, 0, 2);
    lemma_mono_mul(v, 0, 1, 1, 2, 1, 2, 1, 0, 1, 0, 0, 0, 0, 0, 2, 0);
    lemma_mono_mul(v, 0, 1, 1, 2, 1, 2, 1, 0, 0, 0, 0, 0, 0, 0, 0, 0);
    lemma_mono_mul(v, 0, 1, 1, 2, 1, 2, 1, 0, 0, 1, 0, 0, 0, 0, 2, 2);
    lemma_mono_mul(v, 0, 1, 1, 2, 2, 3, 0, 1, 0, 0, 0, 0, 0, 0, 0, 2);
    lemma_mono_mul(v, 0, 1, 1, 2, 2, 3, 0, 1, 1, 0, 0, 0, 0, 0, 2, 0);
    lemma_mono_mul(v, 0, 1, 1, 2, 2, 3, 0, 1, 0, 0, 0, 0, 0, 0, 0, 0);
    lemma_mono_mul(v, 0, 1, 1, 2, 2, 3, 0, 1, 0, 1, 0, 0, 0, 0, 2, 2);
    lemma_mono_mul(v, 1, 1, 1, 0, 3, 2, 1, 0, 0, 0, 0, 0, 0, 0, 0, 2);
    lemma_mono_mul(v, 1, 1, 1, 0, 3, 2, 1, 0, 1, 0, 0, 0, 0, 0, 2, 0);
    lemma_mono_mul(v, 1, 1, 1, 0, 3, 2, 1, 0, 0, 0, 0, 0, 0, 0, 0, 0);
    lemma_mono_mul(v, 1, 1, 1, 0, 3, 2, 1, 0, 0, 1, 0, 0, 0, 0, 2, 2);
    lemma_mono_mul(v, 1, 1, 2, 1, 2, 3, 1, 0, 0, 0, 0, 0, 0, 0, 0, 2);
    lemma_mono_mul(v, 1, 1, 2, 1, 2, 3, 1, 0, 1, 0, 0, 0, 0, 0, 2, 0);
    lemma_mono_mul(v, 1, 1, 2, 1, 2, 3, 1, 0, 0, 0, 0, 0, 0, 0, 0, 0);
    lemma_mono_mul(v, 1, 1, 2, 1, 2, 3, 1, 0, 0, 1, 0, 0, 0, 0, 2, 2);
    lemma_mono_mul(v, 1, 1, 2, 1, 3, 2, 0, 1, 0, 0, 0, 0, 0, 0, 0, 2);
    lemma_mono_mul(v, 1, 1, 2, 1, 3, 2, 0, 1, 1, 0, 0, 0, 0, 0, 2, 0);
    lemma_mono_mul(v, 1, 1, 2, 1, 3, 2, 0, 1, 0, 0, 0, 0, 0, 0, 0, 0);
    lemma_mono_mul(v, 1, 1, 2, 1, 3, 2, 0, 1, 0, 1, 0, 0, 0, 0, 2, 2);
    lemma_mono_mul(v, 1, 1, 3, 0, 2, 3, 0, 1, 0, 0, 0, 0, 0, 0, 0, 2);
    lemma_mono_mul(v, 1, 1, 3, 0, 2, 3, 0, 1, 1, 0, 0, 0, 0, 0, 2, 0);
    lemma_mono_mul(v, 1, 1, 3, 0, 2, 3, 0, 1, 0, 0, 0, 0, 0, 0, 0, 0);
    lemma_mono_mul(v, 1, 1, 3, 0, 2, 3, 0, 1, 0, 1, 0, 0, 0, 0, 2, 2);
    assert(cofactor_x3(v) * curve3(v) == (m20 + m23 + m8 + m9 + m26 + m10 + m29 + m11 + m32 + m46
        + m49 + m52 + m55 + m21 + m24 + m27 + m12 + m30 + m35 + m33 + m38 + m13 + m14 + m15 + m58
        + m61 + m64 + m67 + m36 + m39 + m41 + m42) - (m0 + m1 + m44 + m47 + m2 + m50 + m3 + m53
        + m4 + m22 + m25 + m28 + m31 + m34 + m45 + m48 + m56 + m51 + m54 + m5 + m6 + m59 + m62
        + m65 + m37 + m40 + m57 + m60 + m63 + m66 + m7 + m43));
}

/// The two cross products of the first coordinate differ by a combination of
/// the three curve equations.
pub proof fn lemma_assoc_x_identity(v: Vars)
    ensures
        num_left_x(v) * den_right_x(v) - num_right_x(v) * den_left_x(v)
            == cofactor_x1(v) * curve1(v)
            + cofactor_x2(v) * curve2(v) + cofactor_x3(v) * curve3(v),
{
    lemma_left_x_product(v);
    lemma_right_x_product(v);
    lemma_cofactor_x1_product(v);
    lemma_cofactor_x2_product(v);
    lemma_cofactor_x3_product(v);
}

} // verus!
