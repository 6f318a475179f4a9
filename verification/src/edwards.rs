//! The twisted Edwards curve `a*x^2 + y^2 = 1 + d*x^2*y^2` and its addition
//! law, as mathematics over the integers modulo the field modulus.

use crate::bits::low_bits;
use crate::field::{
    fadd, fdiv, finv, fmul, fsub, invertible, is_inverse, lemma_finv_is, limbs_value, modulus,
};
use vstd::arithmetic::div_mod::{
    lemma_add_mod_noop, lemma_mod_twice, lemma_mul_mod_noop, lemma_sub_mod_noop,
};
use vstd::prelude::*;

verus! {

/// The curve parameter `a`.
pub open spec fn param_a() -> int {
    168700
}

/// The curve parameter `d`.
pub open spec fn param_d() -> int {
    168696
}

/// The two coordinates of a point, as numbers.
pub struct Coords {
    pub x: int,
    pub y: int,
}

/// The neutral element of the addition law.
pub open spec fn identity() -> Coords {
    Coords { x: 0, y: 1 }
}

/// The base point `G`: the generator of the curve's subgroup of prime order.
pub open spec fn base_point() -> Coords {
    Coords {
        x: limbs_value(
            0x2893f3f6bb957051,
            0x2ab8d8010534e0b6,
            0x4eacb2e09d6277c1,
            0x0bb77a6ad63e739b,
        ),
        y: limbs_value(
            0x4b3c257a872d7d8b,
            0xfce0051fb9e13377,
            0x25572e1cd16bf9ed,
            0x25797203f7a0b249,
        ),
    }
}

/// Two integers stand for the same field element.
pub open spec fn congruent(u: int, v: int) -> bool {
    u % modulus() == v % modulus()
}

/// The left side of the curve equation.
pub open spec fn curve_lhs(c: Coords) -> int {
    param_a() * (c.x * c.x) + c.y * c.y
}

/// The right side of the curve equation.
pub open spec fn curve_rhs(c: Coords) -> int {
    1 + param_d() * ((c.x * c.x) * (c.y * c.y))
}

/// The point satisfies the curve equation.
pub open spec fn on_curve(c: Coords) -> bool {
    congruent(curve_lhs(c), curve_rhs(c))
}

/// `x1 * y2` of the addition law.
pub open spec fn beta(p: Coords, q: Coords) -> int {
    p.x * q.y
}

/// `y1 * x2` of the addition law.
pub open spec fn gamma(p: Coords, q: Coords) -> int {
    p.y * q.x
}

/// `(y1 - a*x1) * (x2 + y2)` of the addition law.
pub open spec fn delta(p: Coords, q: Coords) -> int {
    (p.y - param_a() * p.x) * (q.x + q.y)
}

/// `beta * gamma` of the addition law.
pub open spec fn tau(p: Coords, q: Coords) -> int {
    beta(p, q) * gamma(p, q)
}

/// Numerator of the sum's first coordinate.
pub open spec fn numerator_x(p: Coords, q: Coords) -> int {
    beta(p, q) + gamma(p, q)
}

/// Numerator of the sum's second coordinate.
pub open spec fn numerator_y(p: Coords, q: Coords) -> int {
    delta(p, q) + param_a() * beta(p, q) - gamma(p, q)
}

/// Denominator of the sum's first coordinate.
pub open spec fn denominator_x(p: Coords, q: Coords) -> int {
    1 + param_d() * tau(p, q)
}

/// Denominator of the sum's second coordinate.
pub open spec fn denominator_y(p: Coords, q: Coords) -> int {
    1 - param_d() * tau(p, q)
}

/// The sum of two points by the unified addition law. There is none where a
/// denominator has no inverse.
pub open spec fn add_spec(p: Coords, q: Coords) -> Option<Coords> {
    if invertible(denominator_x(p, q)) && invertible(denominator_y(p, q)) {
        Some(
            Coords {
                x: fdiv(numerator_x(p, q), denominator_x(p, q)),
                y: fdiv(numerator_y(p, q), denominator_y(p, q)),
            },
        )
    } else {
        None
    }
}

/// The double of a point.
pub open spec fn double_spec(p: Coords) -> Option<Coords> {
    add_spec(p, p)
}

/// Congruences can be added.
pub proof fn lemma_congruent_add(u1: int, v1: int, u2: int, v2: int)
    requires
        congruent(u1, v1),
        congruent(u2, v2),
    ensures
        congruent(u1 + u2, v1 + v2),
{
    lemma_add_mod_noop(u1, u2, modulus());
    lemma_add_mod_noop(v1, v2, modulus());
}

/// Congruences can be subtracted.
pub proof fn lemma_congruent_sub(u1: int, v1: int, u2: int, v2: int)
    requires
        congruent(u1, v1),
        congruent(u2, v2),
    ensures
        congruent(u1 - u2, v1 - v2),
{
    lemma_sub_mod_noop(u1, u2, modulus());
    lemma_sub_mod_noop(v1, v2, modulus());
}

/// Congruences can be multiplied.
pub proof fn lemma_congruent_mul(u1: int, v1: int, u2: int, v2: int)
    requires
        congruent(u1, v1),
        congruent(u2, v2),
    ensures
        congruent(u1 * u2, v1 * v2),
{
    lemma_mul_mod_noop(u1, u2, modulus());
    lemma_mul_mod_noop(v1, v2, modulus());
}

/// A number is congruent to its remainder.
pub proof fn lemma_congruent_reduce(u: int)
    ensures
        congruent(u % modulus(), u),
{
    lemma_mod_twice(u, modulus());
}

/// The field product of two numbers is congruent to the product of any two
/// numbers congruent to them.
pub proof fn lemma_fmul_congruent(u1: int, v1: int, u2: int, v2: int)
    requires
        congruent(u1, v1),
        congruent(u2, v2),
    ensures
        congruent(fmul(u1, u2), v1 * v2),
{
    lemma_congruent_mul(u1, v1, u2, v2);
    lemma_congruent_reduce(u1 * u2);
}

/// The field sum of two numbers is congruent to the sum of any two numbers
/// congruent to them.
pub proof fn lemma_fadd_congruent(u1: int, v1: int, u2: int, v2: int)
    requires
        congruent(u1, v1),
        congruent(u2, v2),
    ensures
        congruent(fadd(u1, u2), v1 + v2),
{
    lemma_congruent_add(u1, v1, u2, v2);
    lemma_congruent_reduce(u1 + u2);
}

/// The field difference of two numbers is congruent to the difference of any
/// two numbers congruent to them.
pub proof fn lemma_fsub_congruent(u1: int, v1: int, u2: int, v2: int)
    requires
        congruent(u1, v1),
        congruent(u2, v2),
    ensures
        congruent(fsub(u1, u2), v1 - v2),
{
    lemma_congruent_sub(u1, v1, u2, v2);
    lemma_congruent_reduce(u1 - u2);
}

/// Congruent numbers have the same inverses.
pub proof fn lemma_inverse_congruent(u: int, v: int)
    requires
        congruent(u, v),
    ensures
        invertible(u) == invertible(v),
        invertible(u) ==> finv(u) == finv(v),
{
    assert forall|i: int| is_inverse(u, i) == is_inverse(v, i) by {
        lemma_congruent_mul(u, v, i, i);
    }
    if invertible(u) {
        let i = finv(u);
        assert(is_inverse(v, i));
        lemma_finv_is(v, i);
    }
    if invertible(v) {
        let i = finv(v);
        assert(is_inverse(u, i));
    }
}

/// Two reduced numbers are congruent only if they are equal.
pub proof fn lemma_congruent_reduced(u: int, v: int)
    requires
        0 <= u < modulus(),
        0 <= v < modulus(),
    ensures
        congruent(u, v) == (u == v),
{
    vstd::arithmetic::div_mod::lemma_small_mod(u as nat, modulus() as nat);
    vstd::arithmetic::div_mod::lemma_small_mod(v as nat, modulus() as nat);
}

/// The point doubled `n` times over. There is none once a doubling has none.
pub open spec fn doubled(p: Coords, n: nat) -> Option<Coords>
    decreases n,
{
    if n == 0 {
        Some(p)
    } else {
        match doubled(p, (n - 1) as nat) {
            Some(b) => double_spec(b),
            None => None,
        }
    }
}

/// Double-and-add over the first `n` binary digits, least significant first.
///
/// The sum starts at the neutral element. Digit `i`, where it is set, adds
/// the point doubled `i` times over. There is no result once an addition or
/// a doubling that a set digit needs has none.
pub open spec fn ladder(p: Coords, bits: Seq<bool>, n: nat) -> Option<Coords>
    decreases n,
{
    if n == 0 {
        Some(identity())
    } else {
        let i = (n - 1) as nat;
        match ladder(p, bits, i) {
            None => None,
            Some(sum) => if bits[i as int] {
                match doubled(p, i) {
                    Some(b) => add_spec(sum, b),
                    None => None,
                }
            } else {
                Some(sum)
            },
        }
    }
}

/// The number of binary digits that a scalar is split into.
pub open spec fn scalar_bits() -> nat {
    254
}

/// The multiple `s * P` of a point, by double-and-add over the binary digits
/// of `s`.
pub open spec fn scalar_mul_spec(p: Coords, s: int) -> Option<Coords> {
    ladder(p, low_bits(s, scalar_bits()), scalar_bits())
}

/// Once double-and-add has no result, it has none however many digits follow.
pub proof fn lemma_ladder_none(p: Coords, bits: Seq<bool>, n: nat, m: nat)
    requires
        ladder(p, bits, n).is_none(),
        n <= m,
    ensures
        ladder(p, bits, m).is_none(),
    decreases m,
{
    if n < m {
        lemma_ladder_none(p, bits, n, (m - 1) as nat);
    }
}

/// The neutral element lies on the curve.
pub proof fn lemma_identity_on_curve()
    ensures
        on_curve(identity()),
{
    let c = identity();
    assert(c.x * c.x == 0) by (nonlinear_arith)
        requires
            c.x == 0,
    ;
    assert(c.y * c.y == 1) by (nonlinear_arith)
        requires
            c.y == 1,
    ;
    assert(param_a() * 0 == 0);
    assert(0int * 1int == 0);
    assert(param_d() * 0 == 0);
}

/// The base point lies on the curve.
pub proof fn lemma_base_point_on_curve()
    ensures
        on_curve(base_point()),
{
    let c = base_point();
    let p = modulus();
    let b: int = 0x1_0000_0000_0000_0000;
    assert((168700 * (c.x * c.x) + c.y * c.y) % p == (1 + 168696 * ((c.x * c.x) * (c.y * c.y)))
        % p) by (nonlinear_arith)
        requires
            b == 0x1_0000_0000_0000_0000,
            c.x == 0x2893f3f6bb957051 + 0x2ab8d8010534e0b6 * b + 0x4eacb2e09d6277c1 * b * b
                + 0x0bb77a6ad63e739b * b * b * b,
            c.y == 0x4b3c257a872d7d8b + 0xfce0051fb9e13377 * b + 0x25572e1cd16bf9ed * b * b
                + 0x25797203f7a0b249 * b * b * b,
            p == 0x43e1f593f0000001 + 0x2833e84879b97091 * b + 0xb85045b68181585d * b * b
                + 0x30644e72e131a029 * b * b * b,
    ;
}

} // verus!
