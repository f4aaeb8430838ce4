//! Elements of the two source groups of the bilinear pairing.
//!
//! An element is held as its canonical compressed encoding (48 bytes in G1,
//! 96 bytes in G2). Exponentiation, the group operation, the pairing and the
//! hash-to-group maps are done by the pairing group library behind trusted
//! wrappers; the contracts speak of the encodings through uninterpreted
//! names, each a deterministic function of its arguments.

use vstd::prelude::*;
use sha2::Digest;
use crate::scalars::Scalar;
use crate::scalars::scalar_of_wide;
use crate::scalars::scalar_from_wide;

verus! {

/// An element of the pairing's first source group, as its canonical
/// 48-byte compressed encoding.
pub struct G1Elem {
    pub b: Vec<u8>,
}

/// An element of the pairing's second source group, as its canonical
/// 96-byte compressed encoding.
pub struct G2Elem {
    pub b: Vec<u8>,
}

impl View for G1Elem {
    type V = Seq<u8>;

    open spec fn view(&self) -> Seq<u8> {
        self.b@
    }
}

impl View for G2Elem {
    type V = Seq<u8>;

    open spec fn view(&self) -> Seq<u8> {
        self.b@
    }
}

impl G1Elem {
    /// The held bytes are a canonical G1 encoding.
    pub open spec fn wf(&self) -> bool {
        g1_wf(self@)
    }
}

impl G2Elem {
    /// The held bytes are a canonical G2 encoding.
    pub open spec fn wf(&self) -> bool {
        g2_wf(self@)
    }
}

/// Whether a byte string is the canonical compressed encoding of a G1 element.
pub uninterp spec fn g1_wf(b: Seq<u8>) -> bool;

/// Whether a byte string is the canonical compressed encoding of a G2 element.
pub uninterp spec fn g2_wf(b: Seq<u8>) -> bool;

/// The encoding of the G1 element `base` raised to the scalar `e`.
pub uninterp spec fn g1_pow_of(base: Seq<u8>, e: Seq<u8>) -> Seq<u8>;

/// The encoding of the G2 element `base` raised to the scalar `e`.
pub uninterp spec fn g2_pow_of(base: Seq<u8>, e: Seq<u8>) -> Seq<u8>;

/// The encoding of the product (group operation) of two G1 elements.
pub uninterp spec fn g1_mul_of(a: Seq<u8>, b: Seq<u8>) -> Seq<u8>;

/// The encoding of the identity element of source group `group` (1 or 2).
pub uninterp spec fn group_identity_of(group: u32) -> Seq<u8>;

/// The encoding of the fixed G1 generator raised to the scalar `e`.
pub uninterp spec fn g1_base_pow_of(e: Seq<u8>) -> Seq<u8>;

/// The encoding of the fixed G2 generator raised to the scalar `e`.
pub uninterp spec fn g2_base_pow_of(e: Seq<u8>) -> Seq<u8>;

/// The value of the bilinear pairing on a G1 and a G2 element, abstractly:
/// equality of pairing values is all the schemes consume.
pub uninterp spec fn pair_of(a: Seq<u8>, b: Seq<u8>) -> int;

/// The 64-byte SHA-512 digest of a byte string.
pub uninterp spec fn sha512_of(m: Seq<u8>) -> Seq<u8>;

/// The 32-byte SHA-256 digest of a byte string.
pub uninterp spec fn sha256_of(m: Seq<u8>) -> Seq<u8>;

/// Whether a byte string decodes as a G1 element.
///
/// Relies on bls12_381::G1Affine::from_compressed, which succeeds exactly on
/// canonical 48-byte encodings.
#[verifier::external_body]
pub(crate) fn g1_valid(b: &Vec<u8>) -> (r: bool)
    ensures
        r == g1_wf(b@),
{
    match <&[u8; 48]>::try_from(b.as_slice()) {
        Ok(arr) => bool::from(bls12_381::G1Affine::from_compressed(arr).is_some()),
        Err(_) => false,
    }
}

/// Whether a byte string decodes as a G2 element.
///
/// Relies on bls12_381::G2Affine::from_compressed, which succeeds exactly on
/// canonical 96-byte encodings.
#[verifier::external_body]
pub(crate) fn g2_valid(b: &Vec<u8>) -> (r: bool)
    ensures
        r == g2_wf(b@),
{
    match <&[u8; 96]>::try_from(b.as_slice()) {
        Ok(arr) => bool::from(bls12_381::G2Affine::from_compressed(arr).is_some()),
        Err(_) => false,
    }
}

/// G1 exponentiation.
///
/// Relies on the scalar multiplication of bls12_381::G1Affine over the
/// decoded operands.
#[verifier::external_body]
pub(crate) fn g1_pow(base: &G1Elem, e: &Scalar) -> (r: G1Elem)
    requires
        base.wf(),
        e.wf(),
    ensures
        g1_wf(r@),
        r@ == g1_pow_of(base@, e@),
{
    let p = bls12_381::G1Affine::from_compressed(base.b.as_slice().try_into().unwrap()).unwrap();
    let s = bls12_381::Scalar::from_bytes(e.b.as_slice().try_into().unwrap()).unwrap();
    G1Elem { b: bls12_381::G1Affine::from(p * s).to_compressed().to_vec() }
}

/// G2 exponentiation.
///
/// Relies on the scalar multiplication of bls12_381::G2Affine over the
/// decoded operands.
#[verifier::external_body]
pub(crate) fn g2_pow(base: &G2Elem, e: &Scalar) -> (r: G2Elem)
    requires
        base.wf(),
        e.wf(),
    ensures
        g2_wf(r@),
        r@ == g2_pow_of(base@, e@),
{
    let p = bls12_381::G2Affine::from_compressed(base.b.as_slice().try_into().unwrap()).unwrap();
    let s = bls12_381::Scalar::from_bytes(e.b.as_slice().try_into().unwrap()).unwrap();
    G2Elem { b: bls12_381::G2Affine::from(p * s).to_compressed().to_vec() }
}

/// The G1 group operation.
///
/// Relies on the addition of bls12_381::G1Projective over the decoded
/// operands.
#[verifier::external_body]
pub(crate) fn g1_mul(a: &G1Elem, b: &G1Elem) -> (r: G1Elem)
    requires
        a.wf(),
        b.wf(),
    ensures
        g1_wf(r@),
        r@ == g1_mul_of(a@, b@),
{
    let x = bls12_381::G1Affine::from_compressed(a.b.as_slice().try_into().unwrap()).unwrap();
    let y = bls12_381::G1Affine::from_compressed(b.b.as_slice().try_into().unwrap()).unwrap();
    G1Elem { b: bls12_381::G1Affine::from(bls12_381::G1Projective::from(x) + y).to_compressed().to_vec() }
}

/// The identity element of G1.
///
/// Relies on bls12_381::G1Affine::identity.
#[verifier::external_body]
pub(crate) fn g1_identity() -> (r: G1Elem)
    ensures
        g1_wf(r@),
        r@ == group_identity_of(1),
{
    G1Elem { b: bls12_381::G1Affine::identity().to_compressed().to_vec() }
}

/// The fixed G1 generator raised to a scalar.
///
/// Relies on the scalar multiplication of bls12_381::G1Affine at the
/// crate's fixed generator.
#[verifier::external_body]
pub(crate) fn g1_base_pow(e: &Scalar) -> (r: G1Elem)
    requires
        e.wf(),
    ensures
        g1_wf(r@),
        r@ == g1_base_pow_of(e@),
{
    let s = bls12_381::Scalar::from_bytes(e.b.as_slice().try_into().unwrap()).unwrap();
    G1Elem { b: bls12_381::G1Affine::from(bls12_381::G1Affine::generator() * s).to_compressed().to_vec() }
}

/// The fixed G2 generator raised to a scalar.
///
/// Relies on the scalar multiplication of bls12_381::G2Affine at the
/// crate's fixed generator.
#[verifier::external_body]
pub(crate) fn g2_base_pow(e: &Scalar) -> (r: G2Elem)
    requires
        e.wf(),
    ensures
        g2_wf(r@),
        r@ == g2_base_pow_of(e@),
{
    let s = bls12_381::Scalar::from_bytes(e.b.as_slice().try_into().unwrap()).unwrap();
    G2Elem { b: bls12_381::G2Affine::from(bls12_381::G2Affine::generator() * s).to_compressed().to_vec() }
}

/// Whether two pairing evaluations agree: e(a, b) == e(c, d).
///
/// Relies on bls12_381::pairing, a function of its two input points, and on
/// the equality of bls12_381::Gt.
#[verifier::external_body]
pub(crate) fn pairing_check(a: &G1Elem, b: &G2Elem, c: &G1Elem, d: &G2Elem) -> (r: bool)
    requires
        a.wf(),
        b.wf(),
        c.wf(),
        d.wf(),
    ensures
        r == (pair_of(a@, b@) == pair_of(c@, d@)),
{
    let pa = bls12_381::G1Affine::from_compressed(a.b.as_slice().try_into().unwrap()).unwrap();
    let pb = bls12_381::G2Affine::from_compressed(b.b.as_slice().try_into().unwrap()).unwrap();
    let pc = bls12_381::G1Affine::from_compressed(c.b.as_slice().try_into().unwrap()).unwrap();
    let pd = bls12_381::G2Affine::from_compressed(d.b.as_slice().try_into().unwrap()).unwrap();
    bls12_381::pairing(&pa, &pb) == bls12_381::pairing(&pc, &pd)
}

/// The SHA-512 digest of a byte string.
///
/// Relies on sha2::Sha512: the digest is 64 bytes and depends on the input
/// alone.
#[verifier::external_body]
pub(crate) fn sha512_bytes(m: &Vec<u8>) -> (r: Vec<u8>)
    ensures
        r@ == sha512_of(m@),
        r@.len() == 64,
{
    sha2::Sha512::digest(m.as_slice()).to_vec()
}

/// The SHA-256 digest of a byte string.
///
/// Relies on sha2::Sha256: the digest is 32 bytes and depends on the input
/// alone.
#[verifier::external_body]
pub(crate) fn sha256_bytes(m: &Vec<u8>) -> (r: Vec<u8>)
    ensures
        r@ == sha256_of(m@),
        r@.len() == 32,
{
    sha2::Sha256::digest(m.as_slice()).to_vec()
}

/// The deterministic hash of a byte string to a G1 element: the fixed
/// generator raised to the SHA-512 digest reduced into the scalar field.
pub open spec fn hash_g1_of(m: Seq<u8>) -> Seq<u8> {
    g1_base_pow_of(scalar_of_wide(sha512_of(m)))
}

/// The deterministic hash of a byte string to a G2 element, built as
/// `hash_g1_of` is.
pub open spec fn hash_g2_of(m: Seq<u8>) -> Seq<u8> {
    g2_base_pow_of(scalar_of_wide(sha512_of(m)))
}

/// Hashes a byte string to a G1 element.
pub fn hash_to_g1(m: &Vec<u8>) -> (r: G1Elem)
    ensures
        g1_wf(r@),
        r@ == hash_g1_of(m@),
{
    let d = sha512_bytes(m);
    let s = scalar_from_wide(&d);
    g1_base_pow(&s)
}

/// Hashes a byte string to a G2 element.
pub fn hash_to_g2(m: &Vec<u8>) -> (r: G2Elem)
    ensures
        g2_wf(r@),
        r@ == hash_g2_of(m@),
{
    let d = sha512_bytes(m);
    let s = scalar_from_wide(&d);
    g2_base_pow(&s)
}

} // verus!
