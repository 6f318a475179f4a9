//! Confidential balance transfers over the Baby Jubjub twisted Edwards curve.
//!
//! Balances are held as two-point ElGamal-style ciphertexts. A transfer checks
//! the sender's ciphertext against the claimed secret values and produces the
//! updated ciphertexts of both parties.
//!
//! The library, leaf first:
//! - `field`: the prime field, with the arithmetic of `halo2curves`;
//! - `bits`: binary digits and the range check;
//! - `edwards`: the curve and its addition law as mathematics;
//! - `babyjub`, `scalar_mul`: the curve engine that computes them;
//! - `transfer`, `keys`: ciphertexts, keys and the transfer itself;
//! - `closure`, `associativity`, `group`, `laws`: what is proved of them;
//! - `ring`, `sums`, `monomial`, `shapes`, `assoc_x`, `assoc_y`: the algebra
//!   that those proofs are made of.

pub mod assoc_x;
pub mod assoc_y;
pub mod associativity;
pub mod babyjub;
pub mod bits;
pub mod closure;
pub mod edwards;
pub mod error;
pub mod field;
pub mod group;
pub mod keys;
pub mod laws;
pub mod monomial;
pub mod ring;
pub mod scalar_mul;
pub mod shapes;
pub mod sums;
pub mod transfer;
