//! Private keys and the public keys that belong to them.

use crate::babyjub::{AssignedPoint, BabyJubConfig};
use crate::edwards::{base_point, lemma_base_point_on_curve, on_curve, scalar_mul_spec, Coords};
use crate::error::Error;
use crate::field::FieldElement;
use crate::group::{addition_complete, multiple};
use vstd::prelude::*;

verus! {

/// A public key: the point `priv * G`.
#[derive(Clone, Copy, Debug)]
pub struct PublicKey(pub AssignedPoint);

impl View for PublicKey {
    type V = Coords;

    open spec fn view(&self) -> Coords {
        self.0@
    }
}

/// A private key: a scalar.
#[derive(Clone, Copy, Debug)]
pub struct PrivateKey(pub(crate) FieldElement);

impl View for PrivateKey {
    type V = int;

    closed spec fn view(&self) -> int {
        self.0@
    }
}

impl PrivateKey {
    /// The private key with the given scalar.
    pub fn new(value: FieldElement) -> (r: PrivateKey)
        ensures
            r@ == value@,
    {
        PrivateKey(value)
    }

    /// The scalar of the key.
    pub fn scalar(&self) -> (r: FieldElement)
        ensures
            r@ == self@,
    {
        self.0
    }

    /// The public key `priv * G` that belongs to this private key. It lies
    /// on the curve. Where the addition law is complete, there is one for
    /// every private key: the base point added to itself `priv` times over.
    pub fn to_pub(&self) -> (r: Result<PublicKey, Error>)
        ensures
            (match scalar_mul_spec(base_point(), self@) {
                Some(c) => r matches Ok(key) && key@ == c,
                None => r matches Err(e) && e == Error::ZeroDenominator,
            }),
            r matches Ok(key) ==> on_curve(key@),
            addition_complete() ==> (r matches Ok(key) && key@ == multiple(
                base_point(),
                self@ as nat,
            )),
    {
        let ecc = BabyJubConfig::new();
        let base = ecc.load_base_point();
        proof {
            lemma_base_point_on_curve();
        }
        match ecc.scalar_mul(&base, &self.0) {
            Ok(point) => Ok(PublicKey(point)),
            Err(e) => Err(e),
        }
    }
}

} // verus!
