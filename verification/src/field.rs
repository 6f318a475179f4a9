//! The prime field that the curve is defined over.
//!
//! A field element is held as its canonical 32-byte little-endian encoding.
//! The arithmetic itself is done by `halo2curves::bn256::Fr`; the functions
//! that call it are the only unverified code of this module.

use crate::bits::{bit_of, lemma_high_bits_zero, lemma_modulus_width};
use halo2curves::bn256::Fr;
use vstd::arithmetic::div_mod::lemma_div_denominator;
use vstd::arithmetic::power2::{lemma2_to64, lemma_pow2_adds, lemma_pow2_pos, pow2};
use vstd::prelude::*;

verus! {

/// Two to the power 64, the weight of one 64-bit limb.
pub open spec fn radix64() -> int {
    0x1_0000_0000_0000_0000
}

/// The field modulus: the order of the BN254 scalar field,
/// `0x30644e72e131a029b85045b68181585d2833e84879b9709143e1f593f0000001`.
pub open spec fn modulus() -> int {
    0x43e1f593f0000001 + 0x2833e84879b97091 * radix64() + 0xb85045b68181585d * radix64()
        * radix64() + 0x30644e72e131a029 * radix64() * radix64() * radix64()
}

/// The number that a little-endian sequence of bytes stands for.
pub open spec fn le_nat(s: Seq<u8>) -> int
    decreases s.len(),
{
    if s.len() == 0 {
        0
    } else {
        s[0] as int + 256 * le_nat(s.drop_first())
    }
}

/// The number that four 64-bit limbs stand for, least significant first.
pub open spec fn limbs_value(l0: u64, l1: u64, l2: u64, l3: u64) -> int {
    l0 + l1 * radix64() + l2 * radix64() * radix64() + l3 * radix64() * radix64() * radix64()
}

/// A sequence of 32 bytes is canonical when it encodes a number below the modulus.
pub open spec fn canonical(s: Seq<u8>) -> bool {
    s.len() == 32 && le_nat(s) < modulus()
}

/// Sum in the field.
pub open spec fn fadd(a: int, b: int) -> int {
    (a + b) % modulus()
}

/// Difference in the field.
pub open spec fn fsub(a: int, b: int) -> int {
    (a - b) % modulus()
}

/// Product in the field.
pub open spec fn fmul(a: int, b: int) -> int {
    (a * b) % modulus()
}

/// `i` is the reduced multiplicative inverse of `a`.
pub open spec fn is_inverse(a: int, i: int) -> bool {
    0 <= i < modulus() && (a * i) % modulus() == 1
}

/// `a` has a multiplicative inverse.
pub open spec fn invertible(a: int) -> bool {
    exists|i: int| is_inverse(a, i)
}

/// The multiplicative inverse of an invertible `a`.
pub open spec fn finv(a: int) -> int {
    choose|i: int| is_inverse(a, i)
}

/// Quotient in the field, for an invertible divisor.
pub open spec fn fdiv(a: int, b: int) -> int {
    fmul(a, finv(b))
}

/// No sequence of bytes stands for a negative number.
pub proof fn lemma_le_nat_bounds(s: Seq<u8>)
    ensures
        0 <= le_nat(s),
    decreases s.len(),
{
    if s.len() > 0 {
        lemma_le_nat_bounds(s.drop_first());
    }
}

/// Two byte sequences of one length that stand for the same number are equal.
pub proof fn lemma_le_nat_injective(s: Seq<u8>, t: Seq<u8>)
    requires
        s.len() == t.len(),
        le_nat(s) == le_nat(t),
    ensures
        s == t,
    decreases s.len(),
{
    if s.len() == 0 {
        assert(s =~= t);
    } else {
        lemma_le_nat_bounds(s.drop_first());
        lemma_le_nat_bounds(t.drop_first());
        lemma_le_nat_injective(s.drop_first(), t.drop_first());
        assert(s =~= seq![s[0]] + s.drop_first());
        assert(t =~= seq![t[0]] + t.drop_first());
    }
}

/// The binary digits of an encoded number are those of its bytes.
pub proof fn lemma_le_nat_bit(s: Seq<u8>, k: nat, j: nat)
    requires
        k < s.len(),
        j < 8,
    ensures
        bit_of(le_nat(s), 8 * k + j) == ((s[k as int] as int / (pow2(j) as int)) % 2 == 1),
    decreases k,
{
    let rest = le_nat(s.drop_first());
    let first = s[0] as int;
    lemma_le_nat_bounds(s.drop_first());
    lemma2_to64();
    if k == 0 {
        let w = pow2(j) as int;
        assert(w == 1 || w == 2 || w == 4 || w == 8 || w == 16 || w == 32 || w == 64 || w == 128);
        assert((first + 256 * rest) / w % 2 == (first / w) % 2);
    } else {
        let i = (8 * (k - 1) + j) as nat;
        lemma_le_nat_bit(s.drop_first(), (k - 1) as nat, j);
        lemma_pow2_adds(8, i);
        lemma_pow2_pos(i);
        lemma_div_denominator(first + 256 * rest, 256, pow2(i) as int);
        assert((first + 256 * rest) / 256 == rest);
    }
}

/// An inverse, where there is one, is unique.
pub proof fn lemma_inverse_unique(a: int, i: int, j: int)
    requires
        is_inverse(a, i),
        is_inverse(a, j),
    ensures
        i == j,
{
    let p = modulus();
    // i == i * (a * j) == (i * a) * j == j, all modulo p
    vstd::arithmetic::div_mod::lemma_mul_mod_noop_right(i, a * j, p);
    vstd::arithmetic::div_mod::lemma_mul_mod_noop_left(a * i, j, p);
    assert(i * (a * j) == (a * i) * j) by (nonlinear_arith);
    assert((i * 1) % p == i) by {
        vstd::arithmetic::div_mod::lemma_small_mod(i as nat, p as nat);
    }
    assert((1 * j) % p == j) by {
        vstd::arithmetic::div_mod::lemma_small_mod(j as nat, p as nat);
    }
}

/// Whoever holds an inverse of `a` holds `finv(a)`.
pub proof fn lemma_finv_is(a: int, i: int)
    requires
        is_inverse(a, i),
    ensures
        invertible(a),
        finv(a) == i,
{
    lemma_inverse_unique(a, i, finv(a));
}

/// Zero has no inverse.
pub proof fn lemma_zero_not_invertible(a: int)
    requires
        a % modulus() == 0,
    ensures
        !invertible(a),
{
    let p = modulus();
    if invertible(a) {
        let i = finv(a);
        vstd::arithmetic::div_mod::lemma_mul_mod_noop_left(a, i, p);
        assert(0 * i == 0);
    }
}

/// Calls `Fr::from_bytes`, which accepts exactly the canonical encodings:
/// those of a number below the modulus.
#[verifier::external_body]
pub(crate) fn fr_is_canonical(a: &[u8; 32]) -> (r: bool)
    ensures
        r == canonical(a@),
{
    bool::from(Fr::from_bytes(a).is_some())
}

/// Calls `Fr::from(u64)` and encodes the result: the field element that
/// stands for `v`, which is below the modulus.
#[verifier::external_body]
pub(crate) fn fr_from_u64(v: u64) -> (r: [u8; 32])
    ensures
        canonical(r@),
        le_nat(r@) == v,
{
    Fr::from(v).to_bytes()
}

/// Calls `+` of `Fr`: the sum modulo the modulus, in canonical encoding.
#[verifier::external_body]
pub(crate) fn fr_add(a: &[u8; 32], b: &[u8; 32]) -> (r: [u8; 32])
    requires
        canonical(a@),
        canonical(b@),
    ensures
        canonical(r@),
        le_nat(r@) == fadd(le_nat(a@), le_nat(b@)),
{
    (Fr::from_bytes(a).unwrap() + Fr::from_bytes(b).unwrap()).to_bytes()
}

/// Calls `-` of `Fr`: the difference modulo the modulus, in canonical
/// encoding.
#[verifier::external_body]
pub(crate) fn fr_sub(a: &[u8; 32], b: &[u8; 32]) -> (r: [u8; 32])
    requires
        canonical(a@),
        canonical(b@),
    ensures
        canonical(r@),
        le_nat(r@) == fsub(le_nat(a@), le_nat(b@)),
{
    (Fr::from_bytes(a).unwrap() - Fr::from_bytes(b).unwrap()).to_bytes()
}

/// Calls `*` of `Fr`: the product modulo the modulus, in canonical encoding.
#[verifier::external_body]
pub(crate) fn fr_mul(a: &[u8; 32], b: &[u8; 32]) -> (r: [u8; 32])
    requires
        canonical(a@),
        canonical(b@),
    ensures
        canonical(r@),
        le_nat(r@) == fmul(le_nat(a@), le_nat(b@)),
{
    (Fr::from_bytes(a).unwrap() * Fr::from_bytes(b).unwrap()).to_bytes()
}

/// Calls `Fr::invert`, which fails on zero alone and otherwise gives the
/// element whose product with the argument is one.
#[verifier::external_body]
pub(crate) fn fr_invert(a: &[u8; 32]) -> (r: Option<[u8; 32]>)
    requires
        canonical(a@),
    ensures
        r.is_none() <==> le_nat(a@) == 0,
        r matches Some(i) ==> canonical(i@) && is_inverse(le_nat(a@), le_nat(i@)),
{
    match Option::<Fr>::from(Fr::from_bytes(a).unwrap().invert()) {
        Some(inverse) => Some(inverse.to_bytes()),
        None => None,
    }
}

/// An element of the field, in canonical encoding.
#[derive(Clone, Copy, Debug)]
pub struct FieldElement {
    bytes: [u8; 32],
}

impl View for FieldElement {
    type V = int;

    /// The number in `[0, modulus())` that the element stands for.
    closed spec fn view(&self) -> int {
        le_nat(self.bytes@)
    }
}

impl FieldElement {
    /// The encoding is canonical. This holds of every element.
    #[verifier::type_invariant]
    pub closed spec fn well_formed(self) -> bool {
        canonical(self.bytes@)
    }

    /// The element that stands for `v`.
    pub fn from_u64(v: u64) -> (r: FieldElement)
        ensures
            r@ == v,
            r@ < modulus(),
    {
        FieldElement { bytes: fr_from_u64(v) }
    }

    /// The element that four 64-bit limbs stand for, least significant
    /// first: their number, reduced modulo the modulus.
    pub fn from_limbs(l0: u64, l1: u64, l2: u64, l3: u64) -> (r: FieldElement)
        ensures
            r@ == limbs_value(l0, l1, l2, l3) % modulus(),
    {
        let half = FieldElement::from_u64(0x1_0000_0000);
        let radix = half.mul(&half);
        proof {
            assert(half@ * half@ == 0x1_0000_0000_0000_0000) by (nonlinear_arith)
                requires
                    half@ == 0x1_0000_0000,
            ;
            vstd::arithmetic::div_mod::lemma_small_mod(radix64() as nat, modulus() as nat);
        }
        let e0 = FieldElement::from_u64(l0);
        let e1 = FieldElement::from_u64(l1);
        let e2 = FieldElement::from_u64(l2);
        let e3 = FieldElement::from_u64(l3);
        let t3 = e3.mul(&radix);
        let s2 = t3.add(&e2);
        let t2 = s2.mul(&radix);
        let s1 = t2.add(&e1);
        let t1 = s1.mul(&radix);
        let s0 = t1.add(&e0);
        proof {
            let p = modulus();
            let b = radix64();
            let v2 = l3 * b + l2;
            let v1 = v2 * b + l1;
            let v0 = v1 * b + l0;
            assert(radix@ == b);
            vstd::arithmetic::div_mod::lemma_small_mod(l0 as nat, p as nat);
            vstd::arithmetic::div_mod::lemma_small_mod(l1 as nat, p as nat);
            vstd::arithmetic::div_mod::lemma_small_mod(l2 as nat, p as nat);
            vstd::arithmetic::div_mod::lemma_small_mod(l3 as nat, p as nat);
            vstd::arithmetic::div_mod::lemma_add_mod_noop(l3 * b, l2 as int, p);
            vstd::arithmetic::div_mod::lemma_mod_twice(l3 * b, p);
            assert(s2@ == v2 % p);
            vstd::arithmetic::div_mod::lemma_mul_mod_noop_left(v2, b, p);
            vstd::arithmetic::div_mod::lemma_add_mod_noop(v2 * b, l1 as int, p);
            vstd::arithmetic::div_mod::lemma_mod_twice(v2 * b, p);
            assert(s1@ == v1 % p);
            vstd::arithmetic::div_mod::lemma_mul_mod_noop_left(v1, b, p);
            vstd::arithmetic::div_mod::lemma_add_mod_noop(v1 * b, l0 as int, p);
            vstd::arithmetic::div_mod::lemma_mod_twice(v1 * b, p);
            assert(s0@ == v0 % p);
            assert(v0 == limbs_value(l0, l1, l2, l3));
        }
        s0
    }

    /// Reads a canonical encoding; `None` for the encoding of a number that
    /// is not below the modulus.
    pub fn from_bytes(bytes: [u8; 32]) -> (r: Option<FieldElement>)
        ensures
            r.is_some() <==> le_nat(bytes@) < modulus(),
            r matches Some(e) ==> e@ == le_nat(bytes@),
    {
        if fr_is_canonical(&bytes) {
            Some(FieldElement { bytes })
        } else {
            None
        }
    }

    /// The canonical encoding.
    pub fn to_bytes(&self) -> (r: [u8; 32])
        ensures
            le_nat(r@) == self@,
            canonical(r@),
    {
        proof {
            use_type_invariant(self);
        }
        self.bytes
    }

    /// A well-formed element lies in `[0, modulus())`.
    pub proof fn lemma_in_range(self)
        requires
            self.well_formed(),
        ensures
            0 <= self@ < modulus(),
    {
        lemma_le_nat_bounds(self.bytes@);
    }

    /// Sum in the field.
    pub fn add(&self, other: &FieldElement) -> (r: FieldElement)
        ensures
            r@ == fadd(self@, other@),
            self@ + other@ < modulus() ==> r@ == self@ + other@,
    {
        proof {
            use_type_invariant(self);
            use_type_invariant(other);
            self.lemma_in_range();
            other.lemma_in_range();
            if self@ + other@ < modulus() {
                vstd::arithmetic::div_mod::lemma_small_mod(
                    (self@ + other@) as nat,
                    modulus() as nat,
                );
            }
        }
        FieldElement { bytes: fr_add(&self.bytes, &other.bytes) }
    }

    /// Difference in the field.
    pub fn sub(&self, other: &FieldElement) -> (r: FieldElement)
        ensures
            r@ == fsub(self@, other@),
            other@ <= self@ ==> r@ == self@ - other@,
            other@ > self@ ==> r@ == self@ - other@ + modulus(),
    {
        proof {
            use_type_invariant(self);
            use_type_invariant(other);
            self.lemma_in_range();
            other.lemma_in_range();
            let diff = self@ - other@;
            if diff >= 0 {
                vstd::arithmetic::div_mod::lemma_small_mod(diff as nat, modulus() as nat);
            } else {
                vstd::arithmetic::div_mod::lemma_mod_add_multiples_vanish(diff, modulus());
                vstd::arithmetic::div_mod::lemma_small_mod(
                    (diff + modulus()) as nat,
                    modulus() as nat,
                );
            }
        }
        FieldElement { bytes: fr_sub(&self.bytes, &other.bytes) }
    }

    /// Product in the field.
    pub fn mul(&self, other: &FieldElement) -> (r: FieldElement)
        ensures
            r@ == fmul(self@, other@),
            self@ * other@ < modulus() ==> r@ == self@ * other@,
    {
        proof {
            use_type_invariant(self);
            use_type_invariant(other);
            self.lemma_in_range();
            other.lemma_in_range();
            assert(self@ * other@ >= 0) by (nonlinear_arith)
                requires
                    self@ >= 0,
                    other@ >= 0,
            ;
            if self@ * other@ < modulus() {
                vstd::arithmetic::div_mod::lemma_small_mod(
                    (self@ * other@) as nat,
                    modulus() as nat,
                );
            }
        }
        FieldElement { bytes: fr_mul(&self.bytes, &other.bytes) }
    }

    /// The multiplicative inverse; `None` for zero, which has none.
    pub fn invert(&self) -> (r: Option<FieldElement>)
        ensures
            r.is_none() <==> self@ == 0,
            r.is_some() <==> invertible(self@),
            r matches Some(i) ==> i@ == finv(self@) && is_inverse(self@, i@),
    {
        proof {
            use_type_invariant(self);
        }
        match fr_invert(&self.bytes) {
            Some(bytes) => {
                proof {
                    lemma_finv_is(self@, le_nat(bytes@));
                }
                Some(FieldElement { bytes })
            },
            None => {
                proof {
                    lemma_zero_not_invertible(self@);
                }
                None
            },
        }
    }

    /// The binary digit of weight `2^i`. From `2^254` on there is none set.
    pub fn bit(&self, i: usize) -> (r: bool)
        ensures
            r == bit_of(self@, i as nat),
    {
        proof {
            use_type_invariant(self);
        }
        if i >= 256 {
            proof {
                lemma_le_nat_bounds(self.bytes@);
                lemma_modulus_width();
                lemma_high_bits_zero(self@, 254, i as nat);
            }
            return false;
        }
        let byte: u8 = self.bytes[i / 8];
        let j: usize = i % 8;
        let weight: u8 = if j == 0 {
            1
        } else if j == 1 {
            2
        } else if j == 2 {
            4
        } else if j == 3 {
            8
        } else if j == 4 {
            16
        } else if j == 5 {
            32
        } else if j == 6 {
            64
        } else {
            128
        };
        proof {
            lemma2_to64();
            lemma_le_nat_bit(self.bytes@, (i / 8) as nat, j as nat);
        }
        (byte / weight) % 2 == 1
    }

    /// Whether two elements are the same.
    pub fn is_equal(&self, other: &FieldElement) -> (r: bool)
        ensures
            r == (self@ == other@),
    {
        proof {
            use_type_invariant(self);
            use_type_invariant(other);
        }
        let mut i: usize = 0;
        while i < 32
            invariant
                i <= 32,
                forall|k: int| 0 <= k < i ==> self.bytes@[k] == other.bytes@[k],
            decreases 32 - i,
        {
            if self.bytes[i] != other.bytes[i] {
                proof {
                    if self@ == other@ {
                        lemma_le_nat_injective(self.bytes@, other.bytes@);
                    }
                }
                return false;
            }
            i += 1;
        }
        proof {
            assert(self.bytes@ =~= other.bytes@);
        }
        true
    }

    /// Whether the element is zero.
    pub fn is_zero(&self) -> (r: bool)
        ensures
            r == (self@ == 0),
    {
        let zero = FieldElement::from_u64(0);
        self.is_equal(&zero)
    }
}

} // verus!
