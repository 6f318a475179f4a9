//! Scalar multiplication by double-and-add.

use crate::babyjub::{AssignedPoint, BabyJubConfig};
use crate::bits::{
    bits_to_num, bits_value, lemma_low_bits_value, lemma_modulus_width, low_bits, num_to_bits,
    NUM_BITS,
};
use crate::closure::lemma_add_closed;
use crate::edwards::{
    doubled, identity, ladder, lemma_identity_on_curve, lemma_ladder_none, on_curve, scalar_bits,
    scalar_mul_spec, Coords,
};
use crate::error::Error;
use crate::field::{modulus, FieldElement};
use crate::group::{addition_complete, lemma_scalar_mul_is_multiple, multiple};
use vstd::arithmetic::div_mod::lemma_small_mod;
use vstd::arithmetic::power2::pow2;
use vstd::prelude::*;

verus! {

/// Doubling a point on the curve over and over stays on the curve.
pub proof fn lemma_doubled_closed(p: Coords, n: nat)
    requires
        on_curve(p),
        doubled(p, n).is_some(),
    ensures
        on_curve(doubled(p, n).unwrap()),
    decreases n,
{
    if n > 0 {
        let b = doubled(p, (n - 1) as nat).unwrap();
        lemma_doubled_closed(p, (n - 1) as nat);
        lemma_add_closed(b, b);
    }
}

/// Double-and-add on a point of the curve stays on the curve.
pub proof fn lemma_ladder_closed(p: Coords, bits: Seq<bool>, n: nat)
    requires
        on_curve(p),
        ladder(p, bits, n).is_some(),
    ensures
        on_curve(ladder(p, bits, n).unwrap()),
    decreases n,
{
    if n == 0 {
        lemma_identity_on_curve();
    } else {
        let i = (n - 1) as nat;
        lemma_ladder_closed(p, bits, i);
        if bits[i as int] {
            lemma_doubled_closed(p, i);
            lemma_add_closed(ladder(p, bits, i).unwrap(), doubled(p, i).unwrap());
        }
    }
}

/// A multiple of a point on the curve lies on the curve.
pub proof fn lemma_scalar_mul_closed(p: Coords, s: int)
    requires
        on_curve(p),
        scalar_mul_spec(p, s).is_some(),
    ensures
        on_curve(scalar_mul_spec(p, s).unwrap()),
{
    lemma_ladder_closed(p, low_bits(s, scalar_bits()), scalar_bits());
}

/// Where no digit is set, double-and-add gives the neutral element.
pub proof fn lemma_ladder_no_bits(p: Coords, bits: Seq<bool>, n: nat)
    requires
        forall|i: int| 0 <= i < n ==> !bits[i],
    ensures
        ladder(p, bits, n) == Some(identity()),
    decreases n,
{
    if n > 0 {
        lemma_ladder_no_bits(p, bits, (n - 1) as nat);
    }
}

/// Zero times any point is the neutral element.
pub proof fn lemma_scalar_mul_zero(p: Coords)
    ensures
        scalar_mul_spec(p, 0) == Some(identity()),
{
    let bits = low_bits(0, scalar_bits());
    assert forall|i: int| 0 <= i < scalar_bits() implies !bits[i] by {
        vstd::arithmetic::power2::lemma_pow2_pos(i as nat);
        assert(0int / (pow2(i as nat) as int) == 0) by (nonlinear_arith)
            requires
                pow2(i as nat) > 0,
        ;
    }
    lemma_ladder_no_bits(p, bits, scalar_bits());
}

impl BabyJubConfig {
    /// Double-and-add over all the digits given.
    fn ladder_exec(&self, point: &AssignedPoint, bits: &Vec<bool>) -> (r: Result<
        AssignedPoint,
        Error,
    >)
        ensures
            (match ladder(point@, bits@, bits@.len()) {
                Some(c) => r matches Ok(s) && s@ == c,
                None => r matches Err(e) && e == Error::ZeroDenominator,
            }),
    {
        let n = bits.len();
        let mut acc = self.load_identity();
        let mut base: Option<AssignedPoint> = Some(*point);
        let mut i: usize = 0;
        while i < n
            invariant
                i <= n,
                n == bits.len(),
                ladder(point@, bits@, i as nat) == Some(acc@),
                (match doubled(point@, i as nat) {
                    Some(c) => base matches Some(b) && b@ == c,
                    None => base.is_none(),
                }),
            decreases n - i,
        {
            if bits[i] {
                match base {
                    None => {
                        proof {
                            lemma_ladder_none(point@, bits@, (i + 1) as nat, n as nat);
                        }
                        return Err(Error::ZeroDenominator);
                    },
                    Some(b) => {
                        match self.add(&acc, &b) {
                            Ok(sum) => {
                                acc = sum;
                            },
                            Err(_) => {
                                proof {
                                    lemma_ladder_none(point@, bits@, (i + 1) as nat, n as nat);
                                }
                                return Err(Error::ZeroDenominator);
                            },
                        }
                    },
                }
            }
            base = match base {
                Some(b) => match self.double(&b) {
                    Ok(twice) => Some(twice),
                    Err(_) => None,
                },
                None => None,
            };
            i += 1;
        }
        Ok(acc)
    }

    /// The multiple `scalar * point`, computed from binary digits that are
    /// offered for the scalar.
    ///
    /// The digits are refused unless there are as many as the modulus has
    /// and they stand for the scalar, least significant first. The multiple
    /// is then had by double-and-add over them.
    pub fn scalar_mul_bits(
        &self,
        point: &AssignedPoint,
        scalar: &FieldElement,
        bits: &Vec<bool>,
    ) -> (r: Result<AssignedPoint, Error>)
        ensures
            (bits@.len() != scalar_bits() || bits_value(bits@) % modulus() != scalar@) ==> (
            r matches Err(e) && e == Error::MalformedScalarDecomposition),
            (bits@.len() == scalar_bits() && bits_value(bits@) % modulus() == scalar@) ==> (
            match ladder(point@, bits@, scalar_bits()) {
                Some(c) => r matches Ok(s) && s@ == c,
                None => r matches Err(e) && e == Error::ZeroDenominator,
            }),
            on_curve(point@) ==> (r matches Ok(s) ==> on_curve(s@)),
    {
        if bits.len() != NUM_BITS {
            return Err(Error::MalformedScalarDecomposition);
        }
        let sum = bits_to_num(bits);
        if !sum.is_equal(scalar) {
            return Err(Error::MalformedScalarDecomposition);
        }
        proof {
            if on_curve(point@) && ladder(point@, bits@, scalar_bits()).is_some() {
                lemma_ladder_closed(point@, bits@, scalar_bits());
            }
        }
        self.ladder_exec(point, bits)
    }

    /// The multiple `scalar * point`, by double-and-add over the binary
    /// digits of the scalar. Zero times a point is the neutral element.
    ///
    /// Where the addition law is complete, the result for a point of the
    /// curve is the point added to itself `scalar` times over.
    pub fn scalar_mul(&self, point: &AssignedPoint, scalar: &FieldElement) -> (r: Result<
        AssignedPoint,
        Error,
    >)
        ensures
            (match scalar_mul_spec(point@, scalar@) {
                Some(c) => r matches Ok(s) && s@ == c,
                None => r matches Err(e) && e == Error::ZeroDenominator,
            }),
            scalar@ == 0 ==> (r matches Ok(s) && s@ == identity()),
            on_curve(point@) ==> (r matches Ok(s) ==> on_curve(s@)),
            addition_complete() && on_curve(point@) ==> (r matches Ok(s) && s@ == multiple(
                point@,
                scalar@ as nat,
            )),
    {
        let bits = num_to_bits(scalar, NUM_BITS);
        proof {
            use_type_invariant(scalar);
            scalar.lemma_in_range();
            use_type_invariant(&point.x);
            use_type_invariant(&point.y);
            point.x.lemma_in_range();
            point.y.lemma_in_range();
            if addition_complete() && on_curve(point@) {
                lemma_scalar_mul_is_multiple(point@, scalar@);
            }
            lemma_low_bits_value(scalar@, scalar_bits());
            lemma_modulus_width();
            lemma_small_mod(scalar@ as nat, pow2(254));
            lemma_small_mod(scalar@ as nat, modulus() as nat);
            lemma_scalar_mul_zero(point@);
        }
        self.scalar_mul_bits(point, scalar, &bits)
    }
}

} // verus!
