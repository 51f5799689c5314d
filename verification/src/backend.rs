//! Trusted bindings to the algebraic and cryptographic primitives.
//!
//! Every item here is believed, not proved: each `external_body` wrapper
//! converts between the byte encodings of [`crate::elements`] and the outside
//! library's values, makes exactly one call into that library, and states in
//! its contract what the call returns.  Results that no short formula can
//! describe (an FFT, a hash, a curve operation) are given uninterpreted names;
//! a name stands for the unique value the outside function computes from the
//! same arguments.
//!
//! Points travel as the bytes of their affine encoding and scalars as their
//! canonical 32-byte little-endian encoding; each wrapper decodes its
//! arguments, re-encodes its result, and rebuilds the radix-2 domain handle
//! from the size argument where a transform needs one.  Wrappers whose
//! contract already requires valid encodings skip re-validation when
//! decoding; the two `check` functions validate in full.

use vstd::prelude::*;

use crate::elements::{fr_bytes_seq, g1_bytes_seq, is_pow2, FieldElement, G1Element, G2Element};
use ark_bls12_381::{Bls12_381, Fr, G1Affine, G1Projective, G2Affine, G2Projective};
use ark_ec::pairing::Pairing;
use ark_ec::{CurveGroup, VariableBaseMSM};
use ark_ff::{PrimeField, UniformRand};
use ark_poly::polynomial::univariate::DensePolynomial;
use ark_poly::{DenseUVPolynomial, EvaluationDomain, GeneralEvaluationDomain};
use ark_serialize::{CanonicalDeserialize, CanonicalSerialize};
use blst::min_sig::SecretKey;
use sha3::{Digest, Sha3_256};

verus! {

// ---------------------------------------------------------------------------
// Scalar field.
// ---------------------------------------------------------------------------

/// The canonical encoding of the scalar that the given little-endian bytes
/// reduce to, modulo the order of the scalar field.
pub uninterp spec fn fr_from_le_of(b: Seq<u8>) -> Seq<u8>;

/// The canonical encoding of the scalar equal to the given integer.
pub uninterp spec fn fr_from_u64_of(x: u64) -> Seq<u8>;

/// The canonical encoding of the difference of the scalars the two arguments
/// encode.
pub uninterp spec fn fr_sub_of(a: Seq<u8>, b: Seq<u8>) -> Seq<u8>;

/// Relies on `ark_ff::PrimeField::from_le_bytes_mod_order`: interprets any
/// byte string as a little-endian integer and reduces it into the field.
#[verifier::external_body]
pub(crate) fn fr_from_le(b: &Vec<u8>) -> (r: FieldElement)
    ensures
        r.bytes@ == fr_from_le_of(b@),
        r.bytes@.len() == 32,
{
    let s = Fr::from_le_bytes_mod_order(b.as_slice());
    let mut out: Vec<u8> = Vec::new();
    s.serialize_compressed(&mut out).unwrap();
    FieldElement { bytes: out }
}

/// Relies on `ark_ff::Fp::from(u64)`: embeds a machine integer into the field.
#[verifier::external_body]
pub(crate) fn fr_from_u64(x: u64) -> (r: FieldElement)
    ensures
        r.bytes@ == fr_from_u64_of(x),
        r.bytes@.len() == 32,
{
    let s = Fr::from(x);
    let mut out: Vec<u8> = Vec::new();
    s.serialize_compressed(&mut out).unwrap();
    FieldElement { bytes: out }
}

/// Relies on `ark_ff::Fp`'s subtraction.
#[verifier::external_body]
pub(crate) fn fr_sub(a: &FieldElement, b: &FieldElement) -> (r: FieldElement)
    ensures
        r.bytes@ == fr_sub_of(a.bytes@, b.bytes@),
        r.bytes@.len() == 32,
{
    let x = Fr::from_le_bytes_mod_order(a.bytes.as_slice());
    let y = Fr::from_le_bytes_mod_order(b.bytes.as_slice());
    let mut out: Vec<u8> = Vec::new();
    (x - y).serialize_compressed(&mut out).unwrap();
    FieldElement { bytes: out }
}

/// Relies on `ark_ff::UniformRand` with the operating system's entropy
/// source.  Nothing is promised of the value beyond its shape.
#[verifier::external_body]
pub(crate) fn fr_rand() -> (r: FieldElement)
    ensures
        r.bytes@.len() == 32,
{
    let s = Fr::rand(&mut rand::rngs::OsRng);
    let mut out: Vec<u8> = Vec::new();
    s.serialize_compressed(&mut out).unwrap();
    FieldElement { bytes: out }
}

// ---------------------------------------------------------------------------
// G1 / G2 points.
// ---------------------------------------------------------------------------

/// Whether the bytes are the canonical encoding of a G1 point.
pub uninterp spec fn g1_valid(b: Seq<u8>) -> bool;

/// Whether the bytes are the canonical encoding of a G2 point.
pub uninterp spec fn g2_valid(b: Seq<u8>) -> bool;

/// The encoding of the G1 point `p` multiplied by the scalar encoded by `s`.
pub uninterp spec fn g1_mul_of(p: Seq<u8>, s: Seq<u8>) -> Seq<u8>;

/// The encoding of the sum of the two G1 points.
pub uninterp spec fn g1_add_of(a: Seq<u8>, b: Seq<u8>) -> Seq<u8>;

/// The encoding of the difference of the two G1 points.
pub uninterp spec fn g1_sub_of(a: Seq<u8>, b: Seq<u8>) -> Seq<u8>;

/// The encoding of the G2 point `p` multiplied by the scalar encoded by `s`.
pub uninterp spec fn g2_mul_of(p: Seq<u8>, s: Seq<u8>) -> Seq<u8>;

/// The encoding of the difference of the two G2 points.
pub uninterp spec fn g2_sub_of(a: Seq<u8>, b: Seq<u8>) -> Seq<u8>;

/// The encoding of the multi-scalar multiplication `sum bases[i] * scalars[i]`.
pub uninterp spec fn msm_of(bases: Seq<Seq<u8>>, scalars: Seq<Seq<u8>>) -> Seq<u8>;

/// Relies on `ark_serialize`'s validated deserialization for `G1Affine`:
/// it accepts a byte string exactly when it decodes to a point on the curve
/// and in the prime-order group.
#[verifier::external_body]
pub(crate) fn g1_check(b: &Vec<u8>) -> (r: bool)
    ensures
        r == g1_valid(b@),
{
    G1Affine::deserialize_uncompressed(b.as_slice()).is_ok()
}

/// Relies on `ark_serialize`'s validated deserialization for `G2Affine`:
/// it accepts a byte string exactly when it decodes to a point on the curve
/// and in the prime-order group.
#[verifier::external_body]
pub(crate) fn g2_check(b: &Vec<u8>) -> (r: bool)
    ensures
        r == g2_valid(b@),
{
    G2Affine::deserialize_uncompressed(b.as_slice()).is_ok()
}

/// Relies on the scalar multiplication of `ark_ec`'s G1 group.
#[verifier::external_body]
pub(crate) fn g1_mul(p: &G1Element, s: &FieldElement) -> (r: G1Element)
    requires
        g1_valid(p.bytes@),
    ensures
        r.bytes@ == g1_mul_of(p.bytes@, s.bytes@),
        g1_valid(r.bytes@),
{
    let a: G1Projective =
        G1Affine::deserialize_uncompressed_unchecked(p.bytes.as_slice()).unwrap().into();
    let sc = Fr::from_le_bytes_mod_order(s.bytes.as_slice());
    let mut out: Vec<u8> = Vec::new();
    (a * sc).into_affine().serialize_uncompressed(&mut out).unwrap();
    G1Element { bytes: out }
}

/// Relies on the addition of `ark_ec`'s G1 group.
#[verifier::external_body]
pub(crate) fn g1_add(a: &G1Element, b: &G1Element) -> (r: G1Element)
    requires
        g1_valid(a.bytes@),
        g1_valid(b.bytes@),
    ensures
        r.bytes@ == g1_add_of(a.bytes@, b.bytes@),
        g1_valid(r.bytes@),
{
    let x: G1Projective =
        G1Affine::deserialize_uncompressed_unchecked(a.bytes.as_slice()).unwrap().into();
    let y: G1Projective =
        G1Affine::deserialize_uncompressed_unchecked(b.bytes.as_slice()).unwrap().into();
    let mut out: Vec<u8> = Vec::new();
    (x + y).into_affine().serialize_uncompressed(&mut out).unwrap();
    G1Element { bytes: out }
}

/// Relies on the subtraction of `ark_ec`'s G1 group.
#[verifier::external_body]
pub(crate) fn g1_sub(a: &G1Element, b: &G1Element) -> (r: G1Element)
    requires
        g1_valid(a.bytes@),
        g1_valid(b.bytes@),
    ensures
        r.bytes@ == g1_sub_of(a.bytes@, b.bytes@),
        g1_valid(r.bytes@),
{
    let x: G1Projective =
        G1Affine::deserialize_uncompressed_unchecked(a.bytes.as_slice()).unwrap().into();
    let y: G1Projective =
        G1Affine::deserialize_uncompressed_unchecked(b.bytes.as_slice()).unwrap().into();
    let mut out: Vec<u8> = Vec::new();
    (x - y).into_affine().serialize_uncompressed(&mut out).unwrap();
    G1Element { bytes: out }
}

/// Relies on the scalar multiplication of `ark_ec`'s G2 group.
#[verifier::external_body]
pub(crate) fn g2_mul(p: &G2Element, s: &FieldElement) -> (r: G2Element)
    requires
        g2_valid(p.bytes@),
    ensures
        r.bytes@ == g2_mul_of(p.bytes@, s.bytes@),
        g2_valid(r.bytes@),
{
    let a: G2Projective =
        G2Affine::deserialize_uncompressed_unchecked(p.bytes.as_slice()).unwrap().into();
    let sc = Fr::from_le_bytes_mod_order(s.bytes.as_slice());
    let mut out: Vec<u8> = Vec::new();
    (a * sc).into_affine().serialize_uncompressed(&mut out).unwrap();
    G2Element { bytes: out }
}

/// Relies on the subtraction of `ark_ec`'s G2 group.
#[verifier::external_body]
pub(crate) fn g2_sub(a: &G2Element, b: &G2Element) -> (r: G2Element)
    requires
        g2_valid(a.bytes@),
        g2_valid(b.bytes@),
    ensures
        r.bytes@ == g2_sub_of(a.bytes@, b.bytes@),
        g2_valid(r.bytes@),
{
    let x: G2Projective =
        G2Affine::deserialize_uncompressed_unchecked(a.bytes.as_slice()).unwrap().into();
    let y: G2Projective =
        G2Affine::deserialize_uncompressed_unchecked(b.bytes.as_slice()).unwrap().into();
    let mut out: Vec<u8> = Vec::new();
    (x - y).into_affine().serialize_uncompressed(&mut out).unwrap();
    G2Element { bytes: out }
}

/// Relies on `ark_ec::VariableBaseMSM::msm`, which computes
/// `sum bases[i] * scalars[i]` and fails only on mismatched lengths.
#[verifier::external_body]
pub(crate) fn msm(bases: &Vec<G1Element>, scalars: &Vec<FieldElement>) -> (r: G1Element)
    requires
        bases@.len() == scalars@.len(),
        forall|i: int| 0 <= i < bases@.len() ==> g1_valid(#[trigger] bases@[i].bytes@),
    ensures
        r.bytes@ == msm_of(g1_bytes_seq(bases@), fr_bytes_seq(scalars@)),
        g1_valid(r.bytes@),
{
    let bs: Vec<G1Affine> = bases.iter()
        .map(|p| G1Affine::deserialize_uncompressed_unchecked(p.bytes.as_slice()).unwrap())
        .collect();
    let ss: Vec<Fr> = scalars.iter()
        .map(|s| Fr::from_le_bytes_mod_order(s.bytes.as_slice()))
        .collect();
    let mut out: Vec<u8> = Vec::new();
    G1Projective::msm(&bs, &ss).unwrap().into_affine().serialize_uncompressed(&mut out).unwrap();
    G1Element { bytes: out }
}

// ---------------------------------------------------------------------------
// Evaluation domains and FFTs.
// ---------------------------------------------------------------------------

/// The `i`-th element of the radix-2 evaluation domain of the given size.
pub uninterp spec fn domain_element_of(size: nat, i: nat) -> Seq<u8>;

/// The forward FFT of the scalar sequence on the domain of the given size.
pub uninterp spec fn fft_fr_of(size: nat, v: Seq<Seq<u8>>) -> Seq<Seq<u8>>;

/// The inverse FFT of the scalar sequence on the domain of the given size.
pub uninterp spec fn ifft_fr_of(size: nat, v: Seq<Seq<u8>>) -> Seq<Seq<u8>>;

/// The forward FFT of the G1 sequence on the domain of the given size.
pub uninterp spec fn fft_g1_of(size: nat, v: Seq<Seq<u8>>) -> Seq<Seq<u8>>;

/// The inverse FFT of the G1 sequence on the domain of the given size.
pub uninterp spec fn ifft_g1_of(size: nat, v: Seq<Seq<u8>>) -> Seq<Seq<u8>>;

/// Relies on `ark_poly::EvaluationDomain::element` of the radix-2 domain,
/// a fixed function of the domain size and the index.
#[verifier::external_body]
pub(crate) fn domain_element(size: usize, i: usize) -> (r: FieldElement)
    requires
        is_pow2(size as nat),
        size <= 0x1_0000_0000,
    ensures
        r.bytes@ == domain_element_of(size as nat, i as nat),
        r.bytes@.len() == 32,
{
    let domain: GeneralEvaluationDomain<Fr> = GeneralEvaluationDomain::new(size).unwrap();
    let mut out: Vec<u8> = Vec::new();
    domain.element(i).serialize_compressed(&mut out).unwrap();
    FieldElement { bytes: out }
}

/// Relies on `ark_poly::EvaluationDomain::fft` over scalars: the input is
/// zero-padded or truncated to the domain size and transformed.
#[verifier::external_body]
pub(crate) fn fft_fr(v: &Vec<FieldElement>, size: usize) -> (r: Vec<FieldElement>)
    requires
        is_pow2(size as nat),
        size <= 0x1_0000_0000,
    ensures
        fr_bytes_seq(r@) == fft_fr_of(size as nat, fr_bytes_seq(v@)),
        r@.len() == size,
{
    let domain: GeneralEvaluationDomain<Fr> = GeneralEvaluationDomain::new(size).unwrap();
    let xs: Vec<Fr> = v.iter()
        .map(|e| Fr::from_le_bytes_mod_order(e.bytes.as_slice()))
        .collect();
    domain.fft(&xs).iter().map(|s| {
        let mut out: Vec<u8> = Vec::new();
        s.serialize_compressed(&mut out).unwrap();
        FieldElement { bytes: out }
    }).collect()
}

/// Relies on `ark_poly::EvaluationDomain::ifft` over scalars: interpolation
/// of the given evaluations on the domain of the given size.
#[verifier::external_body]
pub(crate) fn ifft_fr(v: &Vec<FieldElement>, size: usize) -> (r: Vec<FieldElement>)
    requires
        is_pow2(size as nat),
        size <= 0x1_0000_0000,
    ensures
        fr_bytes_seq(r@) == ifft_fr_of(size as nat, fr_bytes_seq(v@)),
        r@.len() == size,
{
    let domain: GeneralEvaluationDomain<Fr> = GeneralEvaluationDomain::new(size).unwrap();
    let xs: Vec<Fr> = v.iter()
        .map(|e| Fr::from_le_bytes_mod_order(e.bytes.as_slice()))
        .collect();
    domain.ifft(&xs).iter().map(|s| {
        let mut out: Vec<u8> = Vec::new();
        s.serialize_compressed(&mut out).unwrap();
        FieldElement { bytes: out }
    }).collect()
}

/// Relies on `ark_poly::EvaluationDomain::fft` over G1 points: the input is
/// zero-padded or truncated to the domain size and transformed.
#[verifier::external_body]
pub(crate) fn fft_g1(v: &Vec<G1Element>, size: usize) -> (r: Vec<G1Element>)
    requires
        is_pow2(size as nat),
        size <= 0x1_0000_0000,
        forall|i: int| 0 <= i < v@.len() ==> g1_valid(#[trigger] v@[i].bytes@),
    ensures
        g1_bytes_seq(r@) == fft_g1_of(size as nat, g1_bytes_seq(v@)),
        r@.len() == size,
        forall|i: int| 0 <= i < r@.len() ==> g1_valid(#[trigger] r@[i].bytes@),
{
    let domain: GeneralEvaluationDomain<Fr> = GeneralEvaluationDomain::new(size).unwrap();
    let pts: Vec<G1Projective> = v.iter()
        .map(|p| G1Affine::deserialize_uncompressed_unchecked(p.bytes.as_slice()).unwrap().into())
        .collect();
    G1Projective::normalize_batch(&domain.fft(&pts)).iter().map(|a| {
        let mut out: Vec<u8> = Vec::new();
        a.serialize_uncompressed(&mut out).unwrap();
        G1Element { bytes: out }
    }).collect()
}

/// Relies on `ark_poly::EvaluationDomain::ifft` over G1 points.
#[verifier::external_body]
pub(crate) fn ifft_g1(v: &Vec<G1Element>, size: usize) -> (r: Vec<G1Element>)
    requires
        is_pow2(size as nat),
        size <= 0x1_0000_0000,
        forall|i: int| 0 <= i < v@.len() ==> g1_valid(#[trigger] v@[i].bytes@),
    ensures
        g1_bytes_seq(r@) == ifft_g1_of(size as nat, g1_bytes_seq(v@)),
        r@.len() == size,
        forall|i: int| 0 <= i < r@.len() ==> g1_valid(#[trigger] r@[i].bytes@),
{
    let domain: GeneralEvaluationDomain<Fr> = GeneralEvaluationDomain::new(size).unwrap();
    let pts: Vec<G1Projective> = v.iter()
        .map(|p| G1Affine::deserialize_uncompressed_unchecked(p.bytes.as_slice()).unwrap().into())
        .collect();
    G1Projective::normalize_batch(&domain.ifft(&pts)).iter().map(|a| {
        let mut out: Vec<u8> = Vec::new();
        a.serialize_uncompressed(&mut out).unwrap();
        G1Element { bytes: out }
    }).collect()
}

// ---------------------------------------------------------------------------
// Polynomial division and pairings.
// ---------------------------------------------------------------------------

/// The coefficients of the polynomial quotient `num / den`, each sequence
/// listing coefficients from the constant term upward.
pub uninterp spec fn poly_div_of(num: Seq<Seq<u8>>, den: Seq<Seq<u8>>) -> Seq<Seq<u8>>;

/// The encoding of the pairing of the given G1 and G2 points.
pub uninterp spec fn pairing_of(p: Seq<u8>, q: Seq<u8>) -> Seq<u8>;

/// Relies on `ark_poly`'s `DensePolynomial` division.  The divisor is
/// required to be monic, so it is non-zero and the division cannot fail.
#[verifier::external_body]
pub(crate) fn poly_div(num: &Vec<FieldElement>, den: &Vec<FieldElement>) -> (r: Vec<FieldElement>)
    requires
        den@.len() >= 1,
        den@[den@.len() - 1].bytes@ == fr_from_u64_of(1),
    ensures
        fr_bytes_seq(r@) == poly_div_of(fr_bytes_seq(num@), fr_bytes_seq(den@)),
{
    let n: Vec<Fr> = num.iter().map(|e| Fr::from_le_bytes_mod_order(e.bytes.as_slice())).collect();
    let d: Vec<Fr> = den.iter().map(|e| Fr::from_le_bytes_mod_order(e.bytes.as_slice())).collect();
    let q = &DensePolynomial::from_coefficients_vec(n) / &DensePolynomial::from_coefficients_vec(d);
    q.coeffs.iter().map(|s| {
        let mut out: Vec<u8> = Vec::new();
        s.serialize_compressed(&mut out).unwrap();
        FieldElement { bytes: out }
    }).collect()
}

/// Relies on `ark_ec::pairing::Pairing::pairing` for BLS12-381; the result is
/// returned as its canonical encoding, so two pairings are equal exactly when
/// their encodings are.
#[verifier::external_body]
pub(crate) fn pairing(p: &G1Element, q: &G2Element) -> (r: Vec<u8>)
    requires
        g1_valid(p.bytes@),
        g2_valid(q.bytes@),
    ensures
        r@ == pairing_of(p.bytes@, q.bytes@),
{
    let a = G1Affine::deserialize_uncompressed_unchecked(p.bytes.as_slice()).unwrap();
    let b = G2Affine::deserialize_uncompressed_unchecked(q.bytes.as_slice()).unwrap();
    let mut out: Vec<u8> = Vec::new();
    Bls12_381::pairing(a, b).serialize_compressed(&mut out).unwrap();
    out
}

// ---------------------------------------------------------------------------
// Hashing and signing.
// ---------------------------------------------------------------------------

/// The SHA3-256 digest of the given bytes.
pub uninterp spec fn sha3_of(data: Seq<u8>) -> Seq<u8>;

/// Whether the bytes deserialize into a usable BLS secret key.
pub uninterp spec fn bls_sk_valid(sk: Seq<u8>) -> bool;

/// The compressed encoding of the public key of the given secret key.
pub uninterp spec fn bls_pk_of(sk: Seq<u8>) -> Seq<u8>;

/// The compressed encoding of the BLS signature of the message under the
/// secret key, with an empty domain-separation tag.
pub uninterp spec fn bls_sign_of(sk: Seq<u8>, msg: Seq<u8>) -> Seq<u8>;

/// Relies on `sha3::Sha3_256`, whose digest is 32 bytes.
#[verifier::external_body]
pub(crate) fn sha3_256(data: &Vec<u8>) -> (r: Vec<u8>)
    ensures
        r@ == sha3_of(data@),
        r@.len() == 32,
{
    Sha3_256::digest(data.as_slice()).to_vec()
}

/// Relies on `blst::min_sig::SecretKey::from_bytes`, which accepts exactly
/// the big-endian encodings of scalars a key may hold.
#[verifier::external_body]
pub(crate) fn bls_sk_check(sk: &Vec<u8>) -> (r: bool)
    ensures
        r == bls_sk_valid(sk@),
{
    SecretKey::from_bytes(sk.as_slice()).is_ok()
}

/// Relies on `blst::min_sig::SecretKey::sk_to_pk`, a fixed function of the
/// secret key.
#[verifier::external_body]
pub(crate) fn bls_pk(sk: &Vec<u8>) -> (r: Vec<u8>)
    requires
        bls_sk_valid(sk@),
    ensures
        r@ == bls_pk_of(sk@),
{
    SecretKey::from_bytes(sk.as_slice()).unwrap().sk_to_pk().compress().to_vec()
}

/// Relies on `blst::min_sig::SecretKey::sign` with empty domain-separation
/// tag and augmentation, a deterministic function of key and message.
#[verifier::external_body]
pub(crate) fn bls_sign(sk: &Vec<u8>, msg: &Vec<u8>) -> (r: Vec<u8>)
    requires
        bls_sk_valid(sk@),
    ensures
        r@ == bls_sign_of(sk@, msg@),
{
    let key = SecretKey::from_bytes(sk.as_slice()).unwrap();
    key.sign(msg.as_slice(), b"", b"").compress().to_vec()
}

} // verus!
