//! Scalars of the pairing group's prime-order field.
//!
//! A scalar is held as its canonical little-endian 32-byte encoding, and the
//! field arithmetic is done by the pairing group library behind trusted
//! wrappers. The contracts speak of the encodings through uninterpreted
//! names: the field operations are deterministic functions of the canonical
//! encodings of their operands.

use vstd::prelude::*;
use rand_core::RngCore;
use crate::bytes::clone_bytes;

verus! {

/// A scalar of the prime-order field, as its canonical 32-byte encoding.
pub struct Scalar {
    pub b: Vec<u8>,
}

impl View for Scalar {
    type V = Seq<u8>;

    open spec fn view(&self) -> Seq<u8> {
        self.b@
    }
}

impl Scalar {
    /// The held bytes are a canonical scalar encoding.
    pub open spec fn wf(&self) -> bool {
        scalar_wf(self@)
    }
}

/// Whether a byte string is the canonical encoding of a field scalar
/// (32 bytes, value below the field modulus).
pub uninterp spec fn scalar_wf(b: Seq<u8>) -> bool;

/// The canonical encoding of the scalar with integer value `v`.
pub uninterp spec fn scalar_of(v: u64) -> Seq<u8>;

/// The canonical encoding of the sum of the scalars encoded by `a` and `b`.
pub uninterp spec fn scalar_add_of(a: Seq<u8>, b: Seq<u8>) -> Seq<u8>;

/// The canonical encoding of the difference of the scalars encoded by `a` and `b`.
pub uninterp spec fn scalar_sub_of(a: Seq<u8>, b: Seq<u8>) -> Seq<u8>;

/// The canonical encoding of the product of the scalars encoded by `a` and `b`.
pub uninterp spec fn scalar_mul_of(a: Seq<u8>, b: Seq<u8>) -> Seq<u8>;

/// The canonical encoding of the multiplicative inverse of the nonzero
/// scalar encoded by `a`.
pub uninterp spec fn scalar_inv_of(a: Seq<u8>) -> Seq<u8>;

/// The canonical encoding of the scalar obtained by reducing a 64-byte
/// little-endian integer by the field modulus.
pub uninterp spec fn scalar_of_wide(d: Seq<u8>) -> Seq<u8>;

/// The encoding of the field's zero element.
pub open spec fn scalar_zero() -> Seq<u8> {
    scalar_of(0)
}

/// Copies a scalar.
pub fn scalar_dup(s: &Scalar) -> (r: Scalar)
    ensures
        r@ == s@,
{
    Scalar { b: clone_bytes(&s.b) }
}

/// Samples a uniformly random scalar. Nothing is known of the value beyond
/// well-formedness: two calls may differ.
///
/// Relies on rand_core::OsRng for the entropy and on
/// bls12_381::Scalar::from_bytes_wide / to_bytes for the canonical encoding.
#[verifier::external_body]
pub(crate) fn scalar_random() -> (r: Scalar)
    ensures
        scalar_wf(r@),
{
    let mut wide = [0u8; 64];
    rand_core::OsRng.fill_bytes(&mut wide);
    Scalar { b: bls12_381::Scalar::from_bytes_wide(&wide).to_bytes().to_vec() }
}

/// Embeds an integer into the field.
///
/// Relies on bls12_381::Scalar::from: the field modulus exceeds 2^64, so the
/// embedding of 64-bit integers is injective and 0 maps to the zero scalar.
#[verifier::external_body]
pub(crate) fn scalar_from(v: u64) -> (r: Scalar)
    ensures
        scalar_wf(r@),
        r@ == scalar_of(v),
        forall|w: u64| w != v ==> scalar_of(w) != r@,
{
    Scalar { b: bls12_381::Scalar::from(v).to_bytes().to_vec() }
}

/// Field addition.
///
/// Relies on bls12_381::Scalar::add over the decoded operands.
#[verifier::external_body]
pub(crate) fn scalar_add(a: &Scalar, b: &Scalar) -> (r: Scalar)
    requires
        a.wf(),
        b.wf(),
    ensures
        scalar_wf(r@),
        r@ == scalar_add_of(a@, b@),
{
    let x = bls12_381::Scalar::from_bytes(a.b.as_slice().try_into().unwrap()).unwrap();
    let y = bls12_381::Scalar::from_bytes(b.b.as_slice().try_into().unwrap()).unwrap();
    Scalar { b: (x + y).to_bytes().to_vec() }
}

/// Field subtraction.
///
/// Relies on bls12_381::Scalar::sub over the decoded operands; in a field the
/// difference is zero exactly when the operands are equal, and canonical
/// encodings are equal exactly when the scalars are.
#[verifier::external_body]
pub(crate) fn scalar_sub(a: &Scalar, b: &Scalar) -> (r: Scalar)
    requires
        a.wf(),
        b.wf(),
    ensures
        scalar_wf(r@),
        r@ == scalar_sub_of(a@, b@),
        r@ == scalar_zero() <==> a@ == b@,
{
    let x = bls12_381::Scalar::from_bytes(a.b.as_slice().try_into().unwrap()).unwrap();
    let y = bls12_381::Scalar::from_bytes(b.b.as_slice().try_into().unwrap()).unwrap();
    Scalar { b: (x - y).to_bytes().to_vec() }
}

/// Field multiplication.
///
/// Relies on bls12_381::Scalar::mul over the decoded operands; the field has
/// prime order, so a product is zero exactly when a factor is.
#[verifier::external_body]
pub(crate) fn scalar_mul(a: &Scalar, b: &Scalar) -> (r: Scalar)
    requires
        a.wf(),
        b.wf(),
    ensures
        scalar_wf(r@),
        r@ == scalar_mul_of(a@, b@),
        r@ == scalar_zero() <==> (a@ == scalar_zero() || b@ == scalar_zero()),
{
    let x = bls12_381::Scalar::from_bytes(a.b.as_slice().try_into().unwrap()).unwrap();
    let y = bls12_381::Scalar::from_bytes(b.b.as_slice().try_into().unwrap()).unwrap();
    Scalar { b: (x * y).to_bytes().to_vec() }
}

/// Multiplicative inverse of a nonzero scalar.
///
/// Relies on bls12_381::Scalar::invert, which succeeds exactly on nonzero
/// scalars; zero is excluded by the precondition.
#[verifier::external_body]
pub(crate) fn scalar_invert(a: &Scalar) -> (r: Scalar)
    requires
        a.wf(),
        a@ != scalar_zero(),
    ensures
        scalar_wf(r@),
        r@ == scalar_inv_of(a@),
{
    let x = bls12_381::Scalar::from_bytes(a.b.as_slice().try_into().unwrap()).unwrap();
    Scalar { b: x.invert().unwrap().to_bytes().to_vec() }
}

/// Reduces a 64-byte little-endian integer into the field.
///
/// Relies on bls12_381::Scalar::from_bytes_wide: the reduction is a function
/// of the input bytes alone.
#[verifier::external_body]
pub(crate) fn scalar_from_wide(d: &Vec<u8>) -> (r: Scalar)
    requires
        d@.len() == 64,
    ensures
        scalar_wf(r@),
        r@ == scalar_of_wide(d@),
{
    Scalar { b: bls12_381::Scalar::from_bytes_wide(d.as_slice().try_into().unwrap()).to_bytes().to_vec() }
}

} // verus!
