//! What holds of ciphertexts and transfers, where the addition law is
//! complete on the curve.

use crate::edwards::{add_spec, base_point, on_curve, scalar_mul_spec, Coords};
use crate::error::Error;
use crate::field::modulus;
use crate::group::{
    addition_complete, is_point, lemma_known_points, lemma_multiple_add, lemma_multiple_is_point,
    lemma_scalar_mul_commutes, lemma_scalar_mul_is_multiple, lemma_sum_associative,
    lemma_sum_interchange, lemma_sum_is_point, multiple, sum,
};
use crate::transfer::{
    ciphertext_on_curve, encode_spec, new_recipient_spec, new_sender_spec, recomputed_l,
    transfer_spec, Ciphertext,
};
use vstd::prelude::*;

verus! {

/// The key-switch identity: with the public key `pk = private * G`, the
/// holder of `private` has `r * pk` as `private * (r * G)`, without knowing
/// `r`.
pub proof fn lemma_key_switch(private: int, r: int)
    requires
        addition_complete(),
        0 <= private < modulus(),
        0 <= r < modulus(),
    ensures
        ({
            let pk = scalar_mul_spec(base_point(), private);
            let rand_point = scalar_mul_spec(base_point(), r);
            &&& pk.is_some()
            &&& rand_point.is_some()
            &&& scalar_mul_spec(rand_point.unwrap(), private).is_some()
            &&& scalar_mul_spec(rand_point.unwrap(), private) == scalar_mul_spec(pk.unwrap(), r)
        }),
{
    lemma_known_points();
    lemma_scalar_mul_commutes(base_point(), private, r);
}

/// Ciphertexts under one key add up: the sum of the ciphertexts of `v1`
/// with `r1` and of `v2` with `r2`, point by point, is the ciphertext of
/// `v1 + v2` with `r1 + r2`, where neither sum reaches the modulus.
pub proof fn lemma_encode_homomorphic(v1: int, v2: int, pk: Coords, r1: int, r2: int)
    requires
        addition_complete(),
        is_point(pk),
        0 <= v1,
        0 <= v2,
        v1 + v2 < modulus(),
        0 <= r1,
        0 <= r2,
        r1 + r2 < modulus(),
    ensures
        ({
            let c1 = encode_spec(v1, pk, r1);
            let c2 = encode_spec(v2, pk, r2);
            let c = encode_spec(v1 + v2, pk, r1 + r2);
            &&& c1.is_some()
            &&& c2.is_some()
            &&& c.is_some()
            &&& add_spec(c1.unwrap().l, c2.unwrap().l) == Some(c.unwrap().l)
            &&& add_spec(c1.unwrap().r, c2.unwrap().r) == Some(c.unwrap().r)
        }),
{
    let g = base_point();
    lemma_known_points();
    let (n1, n2, s1, s2) = (v1 as nat, v2 as nat, r1 as nat, r2 as nat);
    lemma_scalar_mul_is_multiple(g, v1);
    lemma_scalar_mul_is_multiple(g, v2);
    lemma_scalar_mul_is_multiple(g, v1 + v2);
    lemma_scalar_mul_is_multiple(g, r1);
    lemma_scalar_mul_is_multiple(g, r2);
    lemma_scalar_mul_is_multiple(g, r1 + r2);
    lemma_scalar_mul_is_multiple(pk, r1);
    lemma_scalar_mul_is_multiple(pk, r2);
    lemma_scalar_mul_is_multiple(pk, r1 + r2);
    let (a, b) = (multiple(g, n1), multiple(pk, s1));
    let (c, d) = (multiple(g, n2), multiple(pk, s2));
    lemma_multiple_is_point(g, n1);
    lemma_multiple_is_point(pk, s1);
    lemma_multiple_is_point(g, n2);
    lemma_multiple_is_point(pk, s2);
    lemma_multiple_is_point(g, s1);
    lemma_multiple_is_point(g, s2);
    lemma_multiple_is_point(g, n1 + n2);
    lemma_multiple_is_point(pk, s1 + s2);
    lemma_sum_is_point(a, b);
    lemma_sum_is_point(c, d);
    lemma_sum_is_point(multiple(g, n1 + n2), multiple(pk, s1 + s2));
    lemma_sum_is_point(sum(a, b), sum(c, d));
    lemma_sum_is_point(multiple(g, s1), multiple(g, s2));
    lemma_multiple_add(g, n1, n2);
    lemma_multiple_add(pk, s1, s2);
    lemma_multiple_add(g, s1, s2);
    lemma_sum_interchange(a, b, c, d);
}

/// A ciphertext passes the check of its holder: from the second point of
/// the ciphertext of `balance` under `private * G`, the holder of `private`
/// recomputes the first.
pub proof fn lemma_encoding_is_consistent(private: int, balance: int, r: int)
    requires
        addition_complete(),
        0 <= private < modulus(),
        0 <= balance < modulus(),
        0 <= r < modulus(),
    ensures
        ({
            let pk = scalar_mul_spec(base_point(), private).unwrap();
            let enc = encode_spec(balance, pk, r);
            &&& enc.is_some()
            &&& recomputed_l(private, balance, enc.unwrap().r) == Some(enc.unwrap().l)
        }),
{
    let g = base_point();
    lemma_known_points();
    lemma_key_switch(private, r);
    lemma_scalar_mul_is_multiple(g, private);
    lemma_scalar_mul_is_multiple(g, balance);
    lemma_scalar_mul_is_multiple(g, r);
    lemma_multiple_is_point(g, private as nat);
    lemma_multiple_is_point(g, balance as nat);
    lemma_multiple_is_point(g, r as nat);
    let pk = multiple(g, private as nat);
    lemma_scalar_mul_is_multiple(pk, r);
    lemma_multiple_is_point(pk, r as nat);
    lemma_sum_is_point(multiple(g, balance as nat), multiple(pk, r as nat));
}

/// The sender's new ciphertext is the ciphertext of what remains, under the
/// sender's key `private * G`, with the fresh randomness.
pub proof fn lemma_new_sender_is_encoding(private: int, remaining: int, randomness: int)
    requires
        addition_complete(),
        0 <= private < modulus(),
        0 <= remaining < modulus(),
        0 <= randomness < modulus(),
    ensures
        scalar_mul_spec(base_point(), private).is_some(),
        new_sender_spec(private, remaining, randomness).is_some(),
        new_sender_spec(private, remaining, randomness) == encode_spec(
            remaining,
            scalar_mul_spec(base_point(), private).unwrap(),
            randomness,
        ),
{
    lemma_key_switch(private, randomness);
    lemma_encoding_is_consistent(private, remaining, randomness);
}

/// The recipient's new ciphertext is the old one and the ciphertext of the
/// amount under the recipient's key, added point by point.
pub proof fn lemma_new_recipient_is_sum(
    recipient_pub: Coords,
    old: Ciphertext,
    amount: int,
    randomness: int,
)
    requires
        addition_complete(),
        is_point(recipient_pub),
        ciphertext_on_curve(old),
        0 <= amount < modulus(),
        0 <= randomness < modulus(),
    ensures
        ({
            let enc = encode_spec(amount, recipient_pub, randomness);
            let new = new_recipient_spec(recipient_pub, old, amount, randomness);
            &&& enc.is_some()
            &&& new.is_some()
            &&& add_spec(old.l, enc.unwrap().l) == Some(new.unwrap().l)
            &&& add_spec(old.r, enc.unwrap().r) == Some(new.unwrap().r)
        }),
{
    let g = base_point();
    lemma_known_points();
    lemma_scalar_mul_is_multiple(g, amount);
    lemma_scalar_mul_is_multiple(g, randomness);
    lemma_scalar_mul_is_multiple(recipient_pub, randomness);
    let amount_point = multiple(g, amount as nat);
    let rand_point = multiple(g, randomness as nat);
    let randomized_key = multiple(recipient_pub, randomness as nat);
    lemma_multiple_is_point(g, amount as nat);
    lemma_multiple_is_point(g, randomness as nat);
    lemma_multiple_is_point(recipient_pub, randomness as nat);
    lemma_sum_is_point(amount_point, randomized_key);
    lemma_sum_is_point(old.r, rand_point);
    lemma_sum_is_point(old.l, amount_point);
    lemma_sum_is_point(sum(old.l, amount_point), randomized_key);
    lemma_sum_is_point(old.l, sum(amount_point, randomized_key));
    lemma_sum_associative(old.l, amount_point, randomized_key);
}

/// A transfer goes through exactly when its three checks hold: with the
/// ciphertexts on the curve, it is refused only for a recipient's key off
/// the curve, for an amount above the balance, or for a first point of the
/// sender's ciphertext that is not the recomputed one.
pub proof fn lemma_transfer_accepts(
    sender_priv: int,
    recipient_pub: Coords,
    sender_balance: int,
    sender_enc: Ciphertext,
    recipient_enc: Ciphertext,
    amount: int,
    randomness: int,
)
    requires
        addition_complete(),
        0 <= sender_priv < modulus(),
        0 <= recipient_pub.x < modulus(),
        0 <= recipient_pub.y < modulus(),
        0 <= sender_balance < modulus(),
        0 <= amount < modulus(),
        0 <= randomness < modulus(),
        ciphertext_on_curve(sender_enc),
        0 <= sender_enc.r.x < modulus(),
        0 <= sender_enc.r.y < modulus(),
        ciphertext_on_curve(recipient_enc),
    ensures
        ({
            let r = transfer_spec(
                sender_priv,
                recipient_pub,
                sender_balance,
                sender_enc,
                recipient_enc,
                amount,
                randomness,
            );
            &&& recomputed_l(sender_priv, sender_balance, sender_enc.r).is_some()
            &&& r.is_ok() <==> (on_curve(recipient_pub) && amount <= sender_balance
                && recomputed_l(sender_priv, sender_balance, sender_enc.r) == Some(sender_enc.l))
            &&& !(r matches Err(e) && e == Error::ZeroDenominator)
        }),
{
    let g = base_point();
    lemma_known_points();
    lemma_scalar_mul_is_multiple(g, sender_balance);
    lemma_scalar_mul_is_multiple(sender_enc.r, sender_priv);
    lemma_multiple_is_point(g, sender_balance as nat);
    lemma_multiple_is_point(sender_enc.r, sender_priv as nat);
    lemma_sum_is_point(
        multiple(g, sender_balance as nat),
        multiple(sender_enc.r, sender_priv as nat),
    );
    if on_curve(recipient_pub) && amount <= sender_balance {
        lemma_new_sender_is_encoding(sender_priv, sender_balance - amount, randomness);
        lemma_new_recipient_is_sum(recipient_pub, recipient_enc, amount, randomness);
    }
}

} // verus!
