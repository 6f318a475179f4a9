//! The points of the curve as a commutative group under the addition law,
//! and what follows for scalar multiplication and for ciphertexts.
//!
//! The addition law has no result where a denominator is zero. On this
//! curve that never happens between two points of the curve, because `a` is
//! a square and `d` is none in the field. That fact is not proved here: it
//! is the hypothesis `addition_complete()` of the laws that need it.

use crate::associativity::lemma_add_associative;
use crate::bits::{bits_value, lemma_low_bits_value, lemma_modulus_width, low_bits};
use crate::closure::{lemma_add_closed, lemma_numerator_y};
use crate::edwards::{
    add_spec, base_point, beta, denominator_x, denominator_y, doubled, gamma, identity, ladder,
    lemma_base_point_on_curve, lemma_identity_on_curve, numerator_x, numerator_y, on_curve,
    param_a, param_d, scalar_bits, scalar_mul_spec, tau, Coords,
};
use crate::field::{finv, is_inverse, lemma_finv_is, modulus};
use crate::ring::lemma_mul_comm;
use vstd::arithmetic::div_mod::{lemma_mod_bound, lemma_small_mod};
use vstd::arithmetic::power2::{lemma_pow2_unfold, pow2};
use vstd::prelude::*;

verus! {

/// A point of the curve, with reduced coordinates.
pub open spec fn is_point(p: Coords) -> bool {
    on_curve(p) && 0 <= p.x < modulus() && 0 <= p.y < modulus()
}

/// The addition law has a result for any two points of the curve.
pub open spec fn addition_complete() -> bool {
    forall|p: Coords, q: Coords|
        on_curve(p) && on_curve(q) ==> (#[trigger] add_spec(p, q)).is_some()
}

/// The sum of two points, where the addition law has one.
pub open spec fn sum(p: Coords, q: Coords) -> Coords {
    add_spec(p, q).unwrap()
}

/// The point added to itself `n` times over, from the neutral element on.
pub open spec fn multiple(p: Coords, n: nat) -> Coords
    decreases n,
{
    if n == 0 {
        identity()
    } else {
        sum(multiple(p, (n - 1) as nat), p)
    }
}

/// The neutral element and the base point are points of the curve.
pub proof fn lemma_known_points()
    ensures
        is_point(identity()),
        is_point(base_point()),
{
    lemma_identity_on_curve();
    lemma_base_point_on_curve();
    lemma_modulus_width();
}

/// Where the addition law is complete, the sum of two points of the curve
/// is a point of the curve.
pub proof fn lemma_sum_is_point(p: Coords, q: Coords)
    requires
        addition_complete(),
        on_curve(p),
        on_curve(q),
    ensures
        add_spec(p, q) == Some(sum(p, q)),
        is_point(sum(p, q)),
{
    assert(add_spec(p, q).is_some());
    lemma_add_closed(p, q);
    lemma_mod_bound(numerator_x(p, q) * finv(denominator_x(p, q)), modulus());
    lemma_mod_bound(numerator_y(p, q) * finv(denominator_y(p, q)), modulus());
}

/// The addition law is commutative.
pub proof fn lemma_add_commutative(p: Coords, q: Coords)
    ensures
        add_spec(p, q) == add_spec(q, p),
{
    lemma_mul_comm(p.x, q.y);
    lemma_mul_comm(p.y, q.x);
    lemma_mul_comm(p.x, q.x);
    lemma_mul_comm(p.y, q.y);
    lemma_mul_comm(beta(p, q), gamma(p, q));
    lemma_numerator_y(p, q);
    lemma_numerator_y(q, p);
    assert(numerator_x(p, q) == numerator_x(q, p));
    assert(numerator_y(p, q) == numerator_y(q, p));
    assert(tau(p, q) == tau(q, p));
}

/// The neutral element changes nothing.
pub proof fn lemma_add_identity(p: Coords)
    requires
        0 <= p.x < modulus(),
        0 <= p.y < modulus(),
    ensures
        add_spec(p, identity()) == Some(p),
        add_spec(identity(), p) == Some(p),
{
    let o = identity();
    lemma_numerator_y(p, o);
    assert(p.x * 1 == p.x);
    assert(p.y * 1 == p.y);
    assert(p.x * 0 == 0);
    assert(p.y * 0 == 0);
    assert(param_a() * 0 == 0);
    assert(param_d() * 0 == 0);
    assert(tau(p, o) == 0);
    assert(denominator_x(p, o) == 1);
    assert(denominator_y(p, o) == 1);
    assert(numerator_x(p, o) == p.x);
    assert(numerator_y(p, o) == p.y);
    lemma_small_mod(1, modulus() as nat);
    assert(1int * 1int == 1);
    assert(is_inverse(1, 1));
    lemma_finv_is(1, 1);
    lemma_small_mod(p.x as nat, modulus() as nat);
    lemma_small_mod(p.y as nat, modulus() as nat);
    lemma_add_commutative(p, o);
}

/// Where the addition law is complete, it is associative on the curve.
pub proof fn lemma_sum_associative(p: Coords, q: Coords, r: Coords)
    requires
        addition_complete(),
        on_curve(p),
        on_curve(q),
        on_curve(r),
    ensures
        sum(sum(p, q), r) == sum(p, sum(q, r)),
{
    lemma_sum_is_point(p, q);
    lemma_sum_is_point(q, r);
    lemma_sum_is_point(sum(p, q), r);
    lemma_sum_is_point(p, sum(q, r));
    lemma_add_associative(p, q, r);
}

/// `(A + B) + (C + D) == (A + C) + (B + D)`.
pub proof fn lemma_sum_interchange(a: Coords, b: Coords, c: Coords, d: Coords)
    requires
        addition_complete(),
        on_curve(a),
        on_curve(b),
        on_curve(c),
        on_curve(d),
    ensures
        sum(sum(a, b), sum(c, d)) == sum(sum(a, c), sum(b, d)),
{
    lemma_sum_is_point(a, b);
    lemma_sum_is_point(c, d);
    lemma_sum_is_point(b, c);
    lemma_sum_is_point(c, b);
    lemma_sum_is_point(b, d);
    lemma_sum_is_point(a, c);
    lemma_sum_is_point(b, sum(c, d));
    lemma_sum_is_point(sum(b, c), d);
    lemma_sum_is_point(c, sum(b, d));
    // (a + b) + (c + d) == a + (b + (c + d))
    lemma_sum_associative(a, b, sum(c, d));
    // b + (c + d) == (b + c) + d == (c + b) + d == c + (b + d)
    lemma_sum_associative(b, c, d);
    lemma_add_commutative(b, c);
    lemma_sum_associative(c, b, d);
    // a + (c + (b + d)) == (a + c) + (b + d)
    lemma_sum_associative(a, c, sum(b, d));
}

/// Every multiple of a point of the curve is a point of the curve.
pub proof fn lemma_multiple_is_point(p: Coords, n: nat)
    requires
        addition_complete(),
        on_curve(p),
    ensures
        is_point(multiple(p, n)),
    decreases n,
{
    if n == 0 {
        lemma_known_points();
    } else {
        lemma_multiple_is_point(p, (n - 1) as nat);
        lemma_sum_is_point(multiple(p, (n - 1) as nat), p);
    }
}

/// `(m + n) * P == m * P + n * P`.
pub proof fn lemma_multiple_add(p: Coords, m: nat, n: nat)
    requires
        addition_complete(),
        on_curve(p),
    ensures
        multiple(p, m + n) == sum(multiple(p, m), multiple(p, n)),
    decreases n,
{
    let pm = multiple(p, m);
    lemma_multiple_is_point(p, m);
    if n == 0 {
        lemma_add_identity(pm);
    } else {
        let k = (n - 1) as nat;
        let pk = multiple(p, k);
        lemma_multiple_is_point(p, k);
        lemma_multiple_add(p, m, k);
        assert(multiple(p, m + n) == sum(multiple(p, (m + n - 1) as nat), p));
        assert((m + n - 1) as nat == m + k);
        lemma_sum_associative(pm, pk, p);
    }
}

/// `n * (m * P) == (m * n) * P`.
pub proof fn lemma_multiple_of_multiple(p: Coords, m: nat, n: nat)
    requires
        addition_complete(),
        on_curve(p),
    ensures
        multiple(multiple(p, m), n) == multiple(p, m * n),
    decreases n,
{
    let q = multiple(p, m);
    lemma_multiple_is_point(p, m);
    if n == 0 {
        assert(m * 0 == 0);
    } else {
        let k = (n - 1) as nat;
        lemma_multiple_of_multiple(p, m, k);
        assert(m * n == m * k + m) by (nonlinear_arith)
            requires
                n == k + 1,
        ;
        assert(m * k >= 0) by (nonlinear_arith);
        lemma_multiple_add(p, (m * k) as nat, m);
    }
}

/// One time a point is the point.
pub proof fn lemma_multiple_one(p: Coords)
    requires
        0 <= p.x < modulus(),
        0 <= p.y < modulus(),
    ensures
        multiple(p, 1) == p,
{
    lemma_add_identity(p);
    assert(multiple(p, 0) == identity());
    assert(multiple(p, 1) == sum(multiple(p, 0), p));
}

/// A point doubled `i` times over is `2^i` times the point.
pub proof fn lemma_doubled_is_multiple(p: Coords, i: nat)
    requires
        addition_complete(),
        is_point(p),
    ensures
        doubled(p, i) == Some(multiple(p, pow2(i))),
    decreases i,
{
    if i == 0 {
        vstd::arithmetic::power2::lemma2_to64();
        lemma_multiple_one(p);
    } else {
        let j = (i - 1) as nat;
        lemma_doubled_is_multiple(p, j);
        let m = multiple(p, pow2(j));
        lemma_multiple_is_point(p, pow2(j));
        lemma_sum_is_point(m, m);
        lemma_multiple_add(p, pow2(j), pow2(j));
        lemma_pow2_unfold(i);
    }
}

/// One more digit at the end adds its weight to the weighted sum.
pub proof fn lemma_bits_value_push(bits: Seq<bool>, b: bool)
    ensures
        bits_value(bits.push(b)) == bits_value(bits) + (if b {
            pow2(bits.len()) as int
        } else {
            0
        }),
    decreases bits.len(),
{
    if bits.len() == 0 {
        vstd::arithmetic::power2::lemma2_to64();
        assert(bits.push(b).drop_first() =~= bits);
        assert(bits_value(bits) == 0);
    } else {
        let rest = bits.drop_first();
        lemma_bits_value_push(rest, b);
        assert(bits.push(b).drop_first() =~= rest.push(b));
        lemma_pow2_unfold(bits.len());
    }
}

/// Double-and-add over the first `n` digits gives the multiple by the
/// number that those digits stand for.
pub proof fn lemma_ladder_is_multiple(p: Coords, bits: Seq<bool>, n: nat)
    requires
        addition_complete(),
        is_point(p),
        n <= bits.len(),
    ensures
        bits_value(bits.take(n as int)) >= 0,
        ladder(p, bits, n) == Some(multiple(p, bits_value(bits.take(n as int)) as nat)),
    decreases n,
{
    if n == 0 {
        assert(bits.take(0).len() == 0);
    } else {
        let i = (n - 1) as nat;
        lemma_ladder_is_multiple(p, bits, i);
        let low = bits.take(i as int);
        assert(bits.take(n as int) =~= low.push(bits[i as int]));
        lemma_bits_value_push(low, bits[i as int]);
        let v = bits_value(low) as nat;
        if bits[i as int] {
            lemma_doubled_is_multiple(p, i);
            lemma_multiple_is_point(p, v);
            lemma_multiple_is_point(p, pow2(i));
            lemma_sum_is_point(multiple(p, v), multiple(p, pow2(i)));
            lemma_multiple_add(p, v, pow2(i));
        }
    }
}

/// Double-and-add by a scalar gives the multiple by that scalar.
pub proof fn lemma_scalar_mul_is_multiple(p: Coords, s: int)
    requires
        addition_complete(),
        is_point(p),
        0 <= s < modulus(),
    ensures
        scalar_mul_spec(p, s) == Some(multiple(p, s as nat)),
{
    let bits = low_bits(s, scalar_bits());
    lemma_ladder_is_multiple(p, bits, scalar_bits());
    assert(bits.take(scalar_bits() as int) =~= bits);
    lemma_low_bits_value(s, scalar_bits());
    lemma_modulus_width();
    lemma_small_mod(s as nat, pow2(254));
}

/// Scalar multiplications commute: `s * (t * P) == t * (s * P)`.
pub proof fn lemma_scalar_mul_commutes(p: Coords, s: int, t: int)
    requires
        addition_complete(),
        is_point(p),
        0 <= s < modulus(),
        0 <= t < modulus(),
    ensures
        scalar_mul_spec(p, s).is_some(),
        scalar_mul_spec(p, t).is_some(),
        scalar_mul_spec(scalar_mul_spec(p, t).unwrap(), s).is_some(),
        scalar_mul_spec(scalar_mul_spec(p, t).unwrap(), s) == scalar_mul_spec(
            scalar_mul_spec(p, s).unwrap(),
            t,
        ),
{
    lemma_scalar_mul_is_multiple(p, s);
    lemma_scalar_mul_is_multiple(p, t);
    lemma_multiple_is_point(p, s as nat);
    lemma_multiple_is_point(p, t as nat);
    lemma_scalar_mul_is_multiple(multiple(p, t as nat), s);
    lemma_scalar_mul_is_multiple(multiple(p, s as nat), t);
    lemma_multiple_of_multiple(p, t as nat, s as nat);
    lemma_multiple_of_multiple(p, s as nat, t as nat);
    lemma_mul_comm(s, t);
}

} // verus!
