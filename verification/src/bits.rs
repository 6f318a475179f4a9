//! Binary digits of field elements, and the range check built on them.

use crate::error::Error;
use crate::field::{modulus, radix64, FieldElement};
use vstd::arithmetic::div_mod::{
    lemma_add_mod_noop, lemma_basic_div, lemma_div_denominator, lemma_mod_breakdown,
    lemma_small_mod,
};
use vstd::arithmetic::power2::{
    lemma2_to64, lemma_pow2_adds, lemma_pow2_pos, lemma_pow2_strictly_increases,
    lemma_pow2_unfold, pow2,
};
use vstd::prelude::*;

verus! {

/// The number of binary digits of the modulus.
pub const NUM_BITS: usize = 254;

/// The binary digit of weight `2^i` in `v`.
pub open spec fn bit_of(v: int, i: nat) -> bool {
    (v / (pow2(i) as int)) % 2 == 1
}

/// The first `n` binary digits of `v`, least significant first.
pub open spec fn low_bits(v: int, n: nat) -> Seq<bool> {
    Seq::new(n, |i: int| bit_of(v, i as nat))
}

/// The weighted sum of a sequence of binary digits, least significant first.
pub open spec fn bits_value(bits: Seq<bool>) -> int
    decreases bits.len(),
{
    if bits.len() == 0 {
        0
    } else {
        (if bits[0] {
            1int
        } else {
            0int
        }) + 2 * bits_value(bits.drop_first())
    }
}

/// Digit `i + 1` of `v` is digit `i` of `v / 2`.
pub proof fn lemma_bit_of_half(v: int, i: nat)
    requires
        0 <= v,
    ensures
        bit_of(v, i + 1) == bit_of(v / 2, i),
{
    lemma_pow2_unfold(i + 1);
    lemma_pow2_pos(i);
    lemma_div_denominator(v, 2, pow2(i) as int);
}

/// The weighted sum of the first `n` digits of `v` is `v` modulo `2^n`.
pub proof fn lemma_low_bits_value(v: int, n: nat)
    requires
        0 <= v,
    ensures
        bits_value(low_bits(v, n)) == v % (pow2(n) as int),
    decreases n,
{
    if n == 0 {
        lemma2_to64();
    } else {
        let m = (n - 1) as nat;
        lemma_low_bits_value(v / 2, m);
        assert(low_bits(v, n).drop_first() =~= low_bits(v / 2, m)) by {
            assert forall|i: int| 0 <= i < m implies low_bits(v, n).drop_first()[i] == low_bits(
                v / 2,
                m,
            )[i] by {
                lemma_bit_of_half(v, i as nat);
            }
        }
        lemma2_to64();
        assert(bit_of(v, 0) == (v % 2 == 1));
        lemma_pow2_unfold(n);
        lemma_pow2_pos(m);
        lemma_mod_breakdown(v, 2, pow2(m) as int);
    }
}

/// `2^254` lies above the modulus, and `2^32` below it.
pub proof fn lemma_modulus_width()
    ensures
        modulus() < pow2(254),
        pow2(32) < modulus(),
        pow2(32) == 0x1_0000_0000,
{
    lemma2_to64();
    vstd::arithmetic::power2::lemma2_to64_rest();
    lemma_pow2_adds(64, 64);
    lemma_pow2_adds(128, 64);
    lemma_pow2_adds(192, 62);
    assert(pow2(64) == radix64());
    assert(pow2(62) == 0x4000_0000_0000_0000);
}

/// From `2^n` on, every digit of a number below `2^n` is zero.
pub proof fn lemma_high_bits_zero(v: int, n: nat, i: nat)
    requires
        0 <= v < pow2(n),
        n <= i,
    ensures
        !bit_of(v, i),
{
    if n < i {
        lemma_pow2_strictly_increases(n, i);
    }
    lemma_basic_div(v, pow2(i) as int);
}

/// The first `n` binary digits of `v`, least significant first.
pub fn num_to_bits(v: &FieldElement, n: usize) -> (bits: Vec<bool>)
    ensures
        bits@ == low_bits(v@, n as nat),
{
    let mut bits: Vec<bool> = Vec::new();
    let mut i: usize = 0;
    proof {
        use_type_invariant(v);
        v.lemma_in_range();
    }
    while i < n
        invariant
            i <= n,
            0 <= v@ < modulus(),
            bits@ == low_bits(v@, i as nat),
        decreases n - i,
    {
        let b = v.bit(i);
        bits.push(b);
        i += 1;
        proof {
            assert(bits@ =~= low_bits(v@, i as nat));
        }
    }
    bits
}

/// The field element that a sequence of binary digits stands for: their
/// weighted sum, reduced modulo the modulus.
pub fn bits_to_num(bits: &Vec<bool>) -> (r: FieldElement)
    ensures
        r@ == bits_value(bits@) % modulus(),
{
    let n = bits.len();
    let one = FieldElement::from_u64(1);
    let mut acc = FieldElement::from_u64(0);
    let mut i: usize = n;
    proof {
        assert(bits@.subrange(n as int, n as int).len() == 0);
        assert(bits_value(bits@.subrange(n as int, n as int)) == 0);
    }
    while i > 0
        invariant
            i <= n,
            n == bits.len(),
            one@ == 1,
            acc@ == bits_value(bits@.subrange(i as int, n as int)) % modulus(),
        decreases i,
    {
        i -= 1;
        let ghost rest = bits@.subrange(i + 1, n as int);
        let ghost cur = bits@.subrange(i as int, n as int);
        let doubled = acc.add(&acc);
        proof {
            assert(cur.drop_first() =~= rest);
            assert(cur[0] == bits@[i as int]);
            let r = bits_value(rest);
            let p = modulus();
            lemma_add_mod_noop(r, r, p);
            assert(doubled@ == (2 * r) % p);
            lemma_add_mod_noop(2 * r, 1, p);
            lemma_small_mod(1, p as nat);
        }
        if bits[i] {
            acc = doubled.add(&one);
        } else {
            acc = doubled;
        }
    }
    proof {
        assert(bits@.subrange(0, n as int) =~= bits@);
    }
    acc
}

/// Accepts `v` exactly when it fits in `bits` binary digits.
///
/// The value is split into its first `bits` digits and put together again;
/// it fits when the weighted sum of the digits is the value itself. The
/// difference of two numbers that wrapped round the modulus is far above any
/// small power of two, so this is also the test against an overdraft.
pub fn range_check(v: &FieldElement, bits: usize) -> (r: Result<(), Error>)
    ensures
        r.is_ok() <==> v@ < pow2(bits as nat),
        r.is_err() ==> r == Err::<(), Error>(Error::RangeExceeded),
{
    proof {
        use_type_invariant(v);
        v.lemma_in_range();
        lemma_modulus_width();
    }
    if bits >= NUM_BITS {
        proof {
            if bits > 254 {
                lemma_pow2_strictly_increases(254, bits as nat);
            }
        }
        return Ok(());
    }
    let digits = num_to_bits(v, bits);
    let sum = bits_to_num(&digits);
    proof {
        lemma_low_bits_value(v@, bits as nat);
        lemma_pow2_pos(bits as nat);
        let w = v@ % (pow2(bits as nat) as int);
        assert(0 <= w <= v@) by {
            vstd::arithmetic::div_mod::lemma_mod_bound(v@, pow2(bits as nat) as int);
            vstd::arithmetic::div_mod::lemma_mod_decreases(v@ as nat, pow2(bits as nat));
        }
        lemma_small_mod(w as nat, modulus() as nat);
        if v@ < pow2(bits as nat) {
            lemma_small_mod(v@ as nat, pow2(bits as nat));
        }
    }
    if sum.is_equal(v) {
        Ok(())
    } else {
        Err(Error::RangeExceeded)
    }
}

} // verus!
