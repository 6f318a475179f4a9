//! Balance ciphertexts and the confidential transfer between two of them.
//!
//! A balance `v` is held under a public key `pk = priv * G` as the pair
//! `R = r * G`, `L = v * G + r * pk`, with `r` chosen afresh. A transfer
//! checks the sender's ciphertext against the secret values claimed for it,
//! takes the amount from the sender and gives it to the recipient.

use crate::babyjub::{AssignedPoint, BabyJubConfig, Point};
use crate::bits::{lemma_modulus_width, range_check};
use crate::edwards::{
    add_spec, base_point, lemma_base_point_on_curve, on_curve, scalar_mul_spec, Coords,
};
use crate::error::Error;
use crate::field::{modulus, FieldElement};
use crate::group::addition_complete;
use crate::laws::{
    lemma_new_recipient_is_sum, lemma_new_sender_is_encoding, lemma_transfer_accepts,
};
use vstd::arithmetic::div_mod::{lemma_mod_add_multiples_vanish, lemma_small_mod};
use vstd::prelude::*;

verus! {

/// The two points of a ciphertext, as numbers.
pub struct Ciphertext {
    pub l: Coords,
    pub r: Coords,
}

/// Both points of the ciphertext lie on the curve.
pub open spec fn ciphertext_on_curve(c: Ciphertext) -> bool {
    on_curve(c.l) && on_curve(c.r)
}

/// The ciphertext of `balance` under `pub_key` with `randomness`:
/// `R = randomness * G` and `L = balance * G + randomness * pub_key`.
pub open spec fn encode_spec(balance: int, pub_key: Coords, randomness: int) -> Option<Ciphertext> {
    match (
        scalar_mul_spec(base_point(), randomness),
        scalar_mul_spec(base_point(), balance),
        scalar_mul_spec(pub_key, randomness),
    ) {
        (Some(r), Some(balance_point), Some(randomized_key)) => match add_spec(
            balance_point,
            randomized_key,
        ) {
            Some(l) => Some(Ciphertext { l, r }),
            None => None,
        },
        _ => None,
    }
}

/// The first point that the holder of `priv_key` computes for `balance` from
/// the second point of a ciphertext: `balance * G + priv_key * R`.
pub open spec fn recomputed_l(priv_key: int, balance: int, r: Coords) -> Option<Coords> {
    match (scalar_mul_spec(base_point(), balance), scalar_mul_spec(r, priv_key)) {
        (Some(balance_point), Some(randomized_key)) => add_spec(balance_point, randomized_key),
        _ => None,
    }
}

/// The sender's new ciphertext: `R' = randomness * G` and
/// `L' = remaining * G + priv_key * R'`.
pub open spec fn new_sender_spec(priv_key: int, remaining: int, randomness: int) -> Option<
    Ciphertext,
> {
    match scalar_mul_spec(base_point(), randomness) {
        Some(rand_point) => match recomputed_l(priv_key, remaining, rand_point) {
            Some(l) => Some(Ciphertext { l, r: rand_point }),
            None => None,
        },
        None => None,
    }
}

/// The recipient's new ciphertext:
/// `L'' = L + amount * G + randomness * recipient_pub` and
/// `R'' = R + randomness * G`.
pub open spec fn new_recipient_spec(
    recipient_pub: Coords,
    old: Ciphertext,
    amount: int,
    randomness: int,
) -> Option<Ciphertext> {
    match (
        scalar_mul_spec(base_point(), randomness),
        scalar_mul_spec(recipient_pub, randomness),
        scalar_mul_spec(base_point(), amount),
    ) {
        (Some(rand_point), Some(randomized_key), Some(amount_point)) => match (
            add_spec(old.r, rand_point),
            add_spec(old.l, amount_point),
        ) {
            (Some(r), Some(with_amount)) => match add_spec(with_amount, randomized_key) {
                Some(l) => Some(Ciphertext { l, r }),
                None => None,
            },
            _ => None,
        },
        _ => None,
    }
}

/// What a transfer gives: the new ciphertexts of sender and recipient, or the
/// first check that does not hold.
///
/// The recipient's key has to lie on the curve. The amount may not exceed
/// the balance. The first point of the sender's ciphertext has to be the one
/// recomputed from the private key and the balance.
pub open spec fn transfer_spec(
    sender_priv: int,
    recipient_pub: Coords,
    sender_balance: int,
    sender_enc: Ciphertext,
    recipient_enc: Ciphertext,
    amount: int,
    randomness: int,
) -> Result<(Ciphertext, Ciphertext), Error> {
    if !on_curve(recipient_pub) {
        Err(Error::PointNotOnCurve)
    } else if amount > sender_balance {
        Err(Error::RangeExceeded)
    } else {
        match recomputed_l(sender_priv, sender_balance, sender_enc.r) {
            None => Err(Error::ZeroDenominator),
            Some(expected) => if expected != sender_enc.l {
                Err(Error::ConsistencyMismatch)
            } else {
                match (
                    new_sender_spec(sender_priv, sender_balance - amount, randomness),
                    new_recipient_spec(recipient_pub, recipient_enc, amount, randomness),
                ) {
                    (Some(s), Some(r)) => Ok((s, r)),
                    _ => Err(Error::ZeroDenominator),
                }
            },
        }
    }
}

/// A ciphertext as it is given: two points of which nothing is known.
#[derive(Clone, Copy, Debug)]
pub struct BalanceEnc {
    pub l: Point,
    pub r: Point,
}

impl View for BalanceEnc {
    type V = Ciphertext;

    open spec fn view(&self) -> Ciphertext {
        Ciphertext { l: self.l@, r: self.r@ }
    }
}

/// A ciphertext that the engine has loaded or computed.
#[derive(Clone, Copy, Debug)]
pub struct AssignedBalanceEnc {
    pub l: AssignedPoint,
    pub r: AssignedPoint,
}

impl View for AssignedBalanceEnc {
    type V = Ciphertext;

    open spec fn view(&self) -> Ciphertext {
        Ciphertext { l: self.l@, r: self.r@ }
    }
}

/// The transfer protocol over one curve engine.
#[derive(Clone, Copy, Debug)]
pub struct ConfidentialTransferConfig {
    pub ecc_config: BabyJubConfig,
}

impl ConfidentialTransferConfig {
    /// The protocol over the given engine.
    pub fn new(ecc_config: BabyJubConfig) -> (r: ConfidentialTransferConfig)
        ensures
            r.ecc_config == ecc_config,
    {
        ConfidentialTransferConfig { ecc_config }
    }

    /// Loads a ciphertext, both of whose points have to lie on the curve.
    pub fn assign_balance_enc(&self, balance_enc: &BalanceEnc) -> (r: Result<
        AssignedBalanceEnc,
        Error,
    >)
        ensures
            r.is_ok() <==> ciphertext_on_curve(balance_enc@),
            r matches Ok(c) ==> c@ == balance_enc@,
            r matches Err(e) ==> e == Error::PointNotOnCurve,
    {
        let l = match self.ecc_config.load_point_checked(&balance_enc.l) {
            Ok(p) => p,
            Err(e) => {
                return Err(e);
            },
        };
        let r = match self.ecc_config.load_point_checked(&balance_enc.r) {
            Ok(p) => p,
            Err(e) => {
                return Err(e);
            },
        };
        Ok(AssignedBalanceEnc { l, r })
    }

    /// `balance * G + priv_key * r`: the first point of a ciphertext, as the
    /// holder of the private key computes it from the second.
    fn recompute_l(&self, priv_key: &FieldElement, balance: &FieldElement, r: &AssignedPoint) -> (out:
        Result<AssignedPoint, Error>)
        ensures
            (match recomputed_l(priv_key@, balance@, r@) {
                Some(c) => out matches Ok(p) && p@ == c,
                None => out matches Err(e) && e == Error::ZeroDenominator,
            }),
            on_curve(r@) ==> (out matches Ok(p) ==> on_curve(p@)),
    {
        let base = self.ecc_config.load_base_point();
        proof {
            lemma_base_point_on_curve();
        }
        let balance_point = match self.ecc_config.scalar_mul(&base, balance) {
            Ok(p) => p,
            Err(e) => {
                return Err(e);
            },
        };
        let randomized_key = match self.ecc_config.scalar_mul(r, priv_key) {
            Ok(p) => p,
            Err(e) => {
                return Err(e);
            },
        };
        self.ecc_config.add(&balance_point, &randomized_key)
    }

    /// Checks a ciphertext against the secret values claimed for it: its
    /// first point has to be `balance * G + priv_key * R`, which the holder of
    /// the private key computes from its second point `R` alone.
    pub fn check_balance(
        &self,
        priv_key: &FieldElement,
        balance: u32,
        balance_enc: &AssignedBalanceEnc,
    ) -> (r: Result<(), Error>)
        ensures
            (match recomputed_l(priv_key@, balance as int, balance_enc@.r) {
                Some(l) => if l == balance_enc@.l {
                    r.is_ok()
                } else {
                    r matches Err(e) && e == Error::ConsistencyMismatch
                },
                None => r matches Err(e) && e == Error::ZeroDenominator,
            }),
    {
        let assigned_balance = FieldElement::from_u64(balance as u64);
        let expected_l = match self.recompute_l(priv_key, &assigned_balance, &balance_enc.r) {
            Ok(p) => p,
            Err(e) => {
                return Err(e);
            },
        };
        if self.ecc_config.is_equal(&expected_l, &balance_enc.l) {
            Ok(())
        } else {
            Err(Error::ConsistencyMismatch)
        }
    }

    /// The ciphertext of `balance` under `pub_key` with `randomness`:
    /// `R = randomness * G` and `L = balance * G + randomness * pub_key`.
    pub fn encode(&self, balance: u32, pub_key: &AssignedPoint, randomness: &FieldElement) -> (r:
        Result<AssignedBalanceEnc, Error>)
        ensures
            (match encode_spec(balance as int, pub_key@, randomness@) {
                Some(c) => r matches Ok(enc) && enc@ == c,
                None => r matches Err(e) && e == Error::ZeroDenominator,
            }),
            on_curve(pub_key@) ==> (r matches Ok(enc) ==> ciphertext_on_curve(enc@)),
    {
        let base = self.ecc_config.load_base_point();
        proof {
            lemma_base_point_on_curve();
        }
        let assigned_balance = FieldElement::from_u64(balance as u64);
        let rand_point = match self.ecc_config.scalar_mul(&base, randomness) {
            Ok(p) => p,
            Err(e) => {
                return Err(e);
            },
        };
        let balance_point = match self.ecc_config.scalar_mul(&base, &assigned_balance) {
            Ok(p) => p,
            Err(e) => {
                return Err(e);
            },
        };
        let randomized_key = match self.ecc_config.scalar_mul(pub_key, randomness) {
            Ok(p) => p,
            Err(e) => {
                return Err(e);
            },
        };
        let l = match self.ecc_config.add(&balance_point, &randomized_key) {
            Ok(p) => p,
            Err(e) => {
                return Err(e);
            },
        };
        Ok(AssignedBalanceEnc { l, r: rand_point })
    }

    /// Takes `transfer_amount` from the sender's balance and gives it to the
    /// recipient, on the two ciphertexts.
    ///
    /// In this order: the recipient's key has to lie on the curve; the amount
    /// and what remains of the balance each have to fit in 32 binary digits,
    /// so the amount may not exceed the balance; the first point of the
    /// sender's ciphertext has to be `sender_balance * G + sender_priv_key * R`.
    /// The first of these that does not hold is the error, and then nothing
    /// is given. Otherwise the new ciphertexts of sender and recipient are
    /// made with the fresh randomness `rand`.
    ///
    /// Where the addition law is complete, the sender's new ciphertext is the
    /// ciphertext of what remains under the sender's key, and the recipient's
    /// is the old one and the ciphertext of the amount under the recipient's
    /// key, added point by point; and with both ciphertexts on the curve no
    /// denominator is zero.
    pub fn transfer(
        &self,
        sender_priv_key: &FieldElement,
        recipient_pub_key: &Point,
        sender_balance: u32,
        sender_balance_enc: &AssignedBalanceEnc,
        recipient_balance_enc: &AssignedBalanceEnc,
        transfer_amount: u32,
        rand: &FieldElement,
    ) -> (r: Result<(AssignedBalanceEnc, AssignedBalanceEnc), Error>)
        ensures
            (match transfer_spec(
                sender_priv_key@,
                recipient_pub_key@,
                sender_balance as int,
                sender_balance_enc@,
                recipient_balance_enc@,
                transfer_amount as int,
                rand@,
            ) {
                Ok(pair) => r matches Ok(out) && out.0@ == pair.0 && out.1@ == pair.1,
                Err(e) => r matches Err(f) && f == e,
            }),
            r matches Ok(out) ==> ciphertext_on_curve(out.0@) && (ciphertext_on_curve(
                recipient_balance_enc@,
            ) ==> ciphertext_on_curve(out.1@)),
            addition_complete() && ciphertext_on_curve(sender_balance_enc@) && ciphertext_on_curve(
                recipient_balance_enc@,
            ) ==> !(r matches Err(e) && e == Error::ZeroDenominator),
            addition_complete() ==> (r matches Ok(out) ==> scalar_mul_spec(
                base_point(),
                sender_priv_key@,
            ) matches Some(sender_pub) && Some(out.0@) == encode_spec(
                sender_balance - transfer_amount,
                sender_pub,
                rand@,
            )),
            addition_complete() && ciphertext_on_curve(recipient_balance_enc@) ==> (r matches Ok(
                out,
            ) ==> encode_spec(transfer_amount as int, recipient_pub_key@, rand@) matches Some(enc)
                && add_spec(recipient_balance_enc@.l, enc.l) == Some(out.1@.l) && add_spec(
                recipient_balance_enc@.r,
                enc.r,
            ) == Some(out.1@.r)),
    {
        let ecc = &self.ecc_config;
        let base = ecc.load_base_point();
        proof {
            lemma_base_point_on_curve();
            lemma_modulus_width();
            use_type_invariant(sender_priv_key);
            use_type_invariant(rand);
            use_type_invariant(&recipient_pub_key.x);
            use_type_invariant(&recipient_pub_key.y);
            use_type_invariant(&sender_balance_enc.r.x);
            use_type_invariant(&sender_balance_enc.r.y);
            sender_priv_key.lemma_in_range();
            rand.lemma_in_range();
            recipient_pub_key.x.lemma_in_range();
            recipient_pub_key.y.lemma_in_range();
            sender_balance_enc.r.x.lemma_in_range();
            sender_balance_enc.r.y.lemma_in_range();
            if addition_complete() {
                if ciphertext_on_curve(sender_balance_enc@) && ciphertext_on_curve(
                    recipient_balance_enc@,
                ) {
                    lemma_transfer_accepts(
                        sender_priv_key@,
                        recipient_pub_key@,
                        sender_balance as int,
                        sender_balance_enc@,
                        recipient_balance_enc@,
                        transfer_amount as int,
                        rand@,
                    );
                }
                if transfer_amount <= sender_balance {
                    lemma_new_sender_is_encoding(
                        sender_priv_key@,
                        sender_balance - transfer_amount,
                        rand@,
                    );
                    if on_curve(recipient_pub_key@) && ciphertext_on_curve(
                        recipient_balance_enc@,
                    ) {
                        lemma_new_recipient_is_sum(
                            recipient_pub_key@,
                            recipient_balance_enc@,
                            transfer_amount as int,
                            rand@,
                        );
                    }
                }
            }
        }
        // the recipient's key
        let recipient_pub = match ecc.load_point_checked(recipient_pub_key) {
            Ok(p) => p,
            Err(e) => {
                return Err(e);
            },
        };
        // the amount and what remains
        let assigned_amount = FieldElement::from_u64(transfer_amount as u64);
        match range_check(&assigned_amount, 32) {
            Ok(_) => {},
            Err(e) => {
                return Err(e);
            },
        }
        let assigned_balance = FieldElement::from_u64(sender_balance as u64);
        let assigned_remaining = assigned_balance.sub(&assigned_amount);
        proof {
            let diff = sender_balance as int - transfer_amount as int;
            if diff >= 0 {
                lemma_small_mod(diff as nat, modulus() as nat);
            } else {
                lemma_mod_add_multiples_vanish(diff, modulus());
                lemma_small_mod((modulus() + diff) as nat, modulus() as nat);
            }
        }
        match range_check(&assigned_remaining, 32) {
            Ok(_) => {},
            Err(e) => {
                return Err(e);
            },
        }
        // the sender's ciphertext against the secret values
        match self.check_balance(sender_priv_key, sender_balance, sender_balance_enc) {
            Ok(_) => {},
            Err(e) => {
                return Err(e);
            },
        }
        // the new ciphertexts
        let rand_point = match ecc.scalar_mul(&base, rand) {
            Ok(p) => p,
            Err(e) => {
                return Err(e);
            },
        };
        let sender_l = match self.recompute_l(sender_priv_key, &assigned_remaining, &rand_point) {
            Ok(p) => p,
            Err(e) => {
                return Err(e);
            },
        };
        let new_sender = AssignedBalanceEnc { l: sender_l, r: rand_point };
        let recipient_r = match ecc.add(&recipient_balance_enc.r, &rand_point) {
            Ok(p) => p,
            Err(e) => {
                return Err(e);
            },
        };
        let randomized_key = match ecc.scalar_mul(&recipient_pub, rand) {
            Ok(p) => p,
            Err(e) => {
                return Err(e);
            },
        };
        let amount_point = match ecc.scalar_mul(&base, &assigned_amount) {
            Ok(p) => p,
            Err(e) => {
                return Err(e);
            },
        };
        let with_amount = match ecc.add(&recipient_balance_enc.l, &amount_point) {
            Ok(p) => p,
            Err(e) => {
                return Err(e);
            },
        };
        let recipient_l = match ecc.add(&with_amount, &randomized_key) {
            Ok(p) => p,
            Err(e) => {
                return Err(e);
            },
        };
        let new_recipient = AssignedBalanceEnc { l: recipient_l, r: recipient_r };
        Ok((new_sender, new_recipient))
    }
}

} // verus!
