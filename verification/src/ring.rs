//! Small identities of integer multiplication, each proved on its own so
//! that longer calculations can be put together from them step by step.

use vstd::prelude::*;

verus! {

/// `(a*b)*(c*d) == (a*c)*(b*d)`.
pub proof fn lemma_mul_swap(a: int, b: int, c: int, d: int)
    by (nonlinear_arith)
    ensures
        (a * b) * (c * d) == (a * c) * (b * d),
{
}

/// `a*(b*c) == b*(a*c)`.
pub proof fn lemma_mul_left_comm(a: int, b: int, c: int)
    by (nonlinear_arith)
    ensures
        a * (b * c) == b * (a * c),
{
}

/// `(a*b)*c == a*(b*c)`.
pub proof fn lemma_mul_assoc(a: int, b: int, c: int)
    by (nonlinear_arith)
    ensures
        (a * b) * c == a * (b * c),
{
}

/// `a*b == b*a`.
pub proof fn lemma_mul_comm(a: int, b: int)
    by (nonlinear_arith)
    ensures
        a * b == b * a,
{
}

/// `a*(b + c) == a*b + a*c`.
pub proof fn lemma_mul_dist(a: int, b: int, c: int)
    by (nonlinear_arith)
    ensures
        a * (b + c) == a * b + a * c,
        (b + c) * a == b * a + c * a,
{
}

/// `(u1 + u2)*(v1 + v2)` multiplied out.
pub proof fn lemma_expand_product(u1: int, u2: int, v1: int, v2: int)
    by (nonlinear_arith)
    ensures
        (u1 + u2) * (v1 + v2) == u1 * v1 + u1 * v2 + u2 * v1 + u2 * v2,
{
}

/// `(u1 - u2)*(v1 + v2)` multiplied out.
pub proof fn lemma_expand_difference(u1: int, u2: int, v1: int, v2: int)
    by (nonlinear_arith)
    ensures
        (u1 - u2) * (v1 + v2) == u1 * v1 + u1 * v2 - u2 * v1 - u2 * v2,
{
}

/// `(u1 - u2)*(v1 - v2)` multiplied out.
pub proof fn lemma_expand_differences(u1: int, u2: int, v1: int, v2: int)
    by (nonlinear_arith)
    ensures
        (u1 - u2) * (v1 - v2) == u1 * v1 - u1 * v2 - u2 * v1 + u2 * v2,
{
}

/// `(u + v)^2` multiplied out.
pub proof fn lemma_square_sum(u: int, v: int)
    by (nonlinear_arith)
    ensures
        (u + v) * (u + v) == u * u + 2 * (u * v) + v * v,
{
}

/// `(u - v)^2` multiplied out.
pub proof fn lemma_square_difference(u: int, v: int)
    by (nonlinear_arith)
    ensures
        (u - v) * (u - v) == u * u - 2 * (u * v) + v * v,
{
}

/// `(1 + k)*(1 - k) == 1 - k^2`.
pub proof fn lemma_difference_of_squares(k: int)
    by (nonlinear_arith)
    ensures
        (1 + k) * (1 - k) == 1 - k * k,
{
}

/// `c*(1 + k)^2` and `c*(1 - k)^2` multiplied out.
pub proof fn lemma_times_square(c: int, k: int)
    by (nonlinear_arith)
    ensures
        c * ((1 + k) * (1 + k)) == c + 2 * (c * k) + c * (k * k),
        c * ((1 - k) * (1 - k)) == c - 2 * (c * k) + c * (k * k),
{
}

/// `(x + 2w)*t` and `(x - 2w)*t` multiplied out.
pub proof fn lemma_times_shifted(x: int, w: int, t: int)
    by (nonlinear_arith)
    ensures
        (x + 2 * w) * t == x * t + 2 * (w * t),
        (x - 2 * w) * t == x * t - 2 * (w * t),
{
}

/// `(u + 2t)*(v - 2w)` multiplied out.
pub proof fn lemma_shifted_product(u: int, t: int, v: int, w: int)
    by (nonlinear_arith)
    ensures
        (u + 2 * t) * (v - 2 * w) == u * v - 2 * (u * w) + 2 * (t * v) - 4 * (t * w),
{
}

/// `d*(2x - 2y + z)` multiplied out.
pub proof fn lemma_scale_combination(d: int, x: int, y: int, z: int)
    by (nonlinear_arith)
    ensures
        d * (2 * x - 2 * y + z) == 2 * (d * x) - 2 * (d * y) + d * z,
{
}

/// `(a*b)*c == (a*c)*b`.
pub proof fn lemma_mul_right_comm(a: int, b: int, c: int)
    ensures
        (a * b) * c == (a * c) * b,
{
    lemma_mul_assoc(a, b, c);
    lemma_mul_comm(b, c);
    lemma_mul_assoc(a, c, b);
}

} // verus!
