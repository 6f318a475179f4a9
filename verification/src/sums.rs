//! A sum of several numbers, multiplied by one more from the left or the right.

use crate::ring::lemma_mul_dist;
use vstd::prelude::*;

verus! {

/// `(t1 + ... + t2) * q` multiplied out.
pub proof fn lemma_sum_left_2(t1: int, t2: int, q: int)
    ensures
        (t1 + t2) * q == t1 * q + t2 * q,
{
    lemma_mul_dist(q, t1, t2);
}

/// `(t1 + ... + t4) * q` multiplied out.
pub proof fn lemma_sum_left_4(t1: int, t2: int, t3: int, t4: int, q: int)
    ensures
        (t1 + t2 + t3 + t4) * q == t1 * q + t2 * q + t3 * q + t4 * q,
{
    lemma_mul_dist(q, t1, t2);
    lemma_mul_dist(q, t1 + t2, t3);
    lemma_mul_dist(q, t1 + t2 + t3, t4);
}

/// `(t1 + ... + t8) * q` multiplied out.
pub proof fn lemma_sum_left_8(t1: int, t2: int, t3: int, t4: int, t5: int, t6: int, t7: int, t8: int, q: int)
    ensures
        (t1 + t2 + t3 + t4 + t5 + t6 + t7 + t8) * q == t1 * q + t2 * q + t3 * q + t4 * q + t5 * q
            + t6 * q + t7 * q + t8 * q,
{
    lemma_mul_dist(q, t1, t2);
    lemma_mul_dist(q, t1 + t2, t3);
    lemma_mul_dist(q, t1 + t2 + t3, t4);
    lemma_mul_dist(q, t1 + t2 + t3 + t4, t5);
    lemma_mul_dist(q, t1 + t2 + t3 + t4 + t5, t6);
    lemma_mul_dist(q, t1 + t2 + t3 + t4 + t5 + t6, t7);
    lemma_mul_dist(q, t1 + t2 + t3 + t4 + t5 + t6 + t7, t8);
}

/// `q * (t1 + ... + t2)` multiplied out.
pub proof fn lemma_sum_right_2(q: int, t1: int, t2: int)
    ensures
        q * (t1 + t2) == q * t1 + q * t2,
{
    lemma_mul_dist(q, t1, t2);
}

/// `q * (t1 + ... + t3)` multiplied out.
pub proof fn lemma_sum_right_3(q: int, t1: int, t2: int, t3: int)
    ensures
        q * (t1 + t2 + t3) == q * t1 + q * t2 + q * t3,
{
    lemma_mul_dist(q, t1, t2);
    lemma_mul_dist(q, t1 + t2, t3);
}

} // verus!
