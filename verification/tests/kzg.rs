//! The polynomial-commitment layer: error cases, parameter validation, and
//! the byte-to-field reduction.

use ark_bls12_381::{Fr, G1Affine, G1Projective, G2Affine, G2Projective};
use ark_ec::CurveGroup;
use ark_ff::{PrimeField, UniformRand};
use ark_serialize::CanonicalSerialize;
use rand::rngs::StdRng;
use rand::SeedableRng;
use sha3::{Digest, Sha3_256};
use std::ops::Mul;

use kzgrs_da::common::{hash_column_and_commitment, Chunk, Column};
use kzgrs_da::elements::{FieldElement, G1Element, G2Element};
use kzgrs_da::kzg::{
    bytes_to_polynomial, commit_polynomial, field_element_from_bytes_le, generate_element_proof,
    verify_element_proof, GlobalParameters, KzgError, Polynomial, BYTES_PER_FIELD_ELEMENT,
};

const DOMAIN_SIZE: usize = 16;

fn g1_bytes(p: &G1Affine) -> Vec<u8> {
    let mut v: Vec<u8> = Vec::new();
    p.serialize_uncompressed(&mut v).unwrap();
    v
}

fn g2_bytes(p: &G2Affine) -> Vec<u8> {
    let mut v: Vec<u8> = Vec::new();
    p.serialize_uncompressed(&mut v).unwrap();
    v
}

fn test_params() -> GlobalParameters {
    let mut rng = StdRng::seed_from_u64(1987);
    let s = Fr::rand(&mut rng);
    let g = G1Projective::rand(&mut rng).into_affine();
    let h = G2Projective::rand(&mut rng).into_affine();
    let mut powers: Vec<G1Element> = Vec::new();
    let mut cur = Fr::from(1u64);
    for _ in 0..DOMAIN_SIZE {
        let p = g.mul(cur).into_affine();
        powers.push(G1Element { bytes: g1_bytes(&p) });
        cur *= s;
    }
    let beta_h = h.mul(s).into_affine();
    GlobalParameters::new(
        powers,
        G2Element { bytes: g2_bytes(&h) },
        G2Element { bytes: g2_bytes(&beta_h) },
        DOMAIN_SIZE,
    )
    .unwrap()
}

#[test]
fn unaligned_data_is_rejected() {
    let data: Vec<u8> = vec![1u8; 33];
    let r = bytes_to_polynomial(&data, BYTES_PER_FIELD_ELEMENT, DOMAIN_SIZE);
    assert!(matches!(r, Err(KzgError::UnpaddedData)));
}

#[test]
fn oversized_data_is_rejected() {
    let data: Vec<u8> = vec![1u8; BYTES_PER_FIELD_ELEMENT * (DOMAIN_SIZE + 1)];
    let r = bytes_to_polynomial(&data, BYTES_PER_FIELD_ELEMENT, DOMAIN_SIZE);
    assert!(matches!(r, Err(KzgError::TooManyChunks)));
}

#[test]
fn empty_data_interpolates_to_the_zero_polynomial() {
    let data: Vec<u8> = Vec::new();
    let (evals, poly) = bytes_to_polynomial(&data, BYTES_PER_FIELD_ELEMENT, DOMAIN_SIZE).unwrap();
    assert_eq!(evals.evals.len(), 0);
    assert_eq!(poly.coeffs.len(), DOMAIN_SIZE);
}

#[test]
fn oversized_polynomial_cannot_be_committed() {
    let params = test_params();
    let coeffs: Vec<FieldElement> = (0..DOMAIN_SIZE + 1)
        .map(|i| field_element_from_bytes_le(&vec![i as u8; 4]))
        .collect();
    let r = commit_polynomial(&Polynomial { coeffs }, &params);
    assert!(matches!(r, Err(KzgError::TooLargePolynomial)));
}

#[test]
fn out_of_bounds_evaluation_index_is_rejected() {
    let params = test_params();
    let data: Vec<u8> = vec![3u8; BYTES_PER_FIELD_ELEMENT * 4];
    let (evals, poly) = bytes_to_polynomial(&data, BYTES_PER_FIELD_ELEMENT, DOMAIN_SIZE).unwrap();
    let r = generate_element_proof(4, &poly, &evals, &params, DOMAIN_SIZE);
    assert!(matches!(r, Err(KzgError::EvaluationIndexOutOfBounds)));
}

#[test]
fn field_element_reduces_modulo_the_order() {
    let all_ones: Vec<u8> = vec![0xffu8; 32];
    let fe = field_element_from_bytes_le(&all_ones);
    let expected = Fr::from_le_bytes_mod_order(&all_ones);
    let mut expected_bytes: Vec<u8> = Vec::new();
    expected.serialize_compressed(&mut expected_bytes).unwrap();
    assert_eq!(fe.bytes, expected_bytes);
    assert_ne!(fe.bytes, all_ones);
}

#[test]
fn parameters_reject_bad_encodings() {
    let g2 = {
        let mut rng = StdRng::seed_from_u64(5);
        G2Projective::rand(&mut rng).into_affine()
    };
    let good_g2 = G2Element { bytes: g2_bytes(&g2) };
    // Empty reference string.
    assert!(GlobalParameters::new(
        Vec::new(),
        G2Element { bytes: good_g2.bytes.clone() },
        G2Element { bytes: good_g2.bytes.clone() },
        DOMAIN_SIZE
    )
    .is_none());
    // A power that is not a canonical G1 encoding.
    assert!(GlobalParameters::new(
        vec![G1Element { bytes: vec![7u8; 48] }],
        G2Element { bytes: good_g2.bytes.clone() },
        G2Element { bytes: good_g2.bytes.clone() },
        DOMAIN_SIZE
    )
    .is_none());
    // A domain size that is not a power of two.
    let g1 = {
        let mut rng = StdRng::seed_from_u64(6);
        G1Projective::rand(&mut rng).into_affine()
    };
    assert!(GlobalParameters::new(
        vec![G1Element { bytes: g1_bytes(&g1) }],
        G2Element { bytes: good_g2.bytes.clone() },
        G2Element { bytes: good_g2.bytes.clone() },
        12
    )
    .is_none());
}

#[test]
fn verification_tolerates_garbage_encodings() {
    let params = test_params();
    let data: Vec<u8> = (0..BYTES_PER_FIELD_ELEMENT * DOMAIN_SIZE).map(|i| (i % 113) as u8).collect();
    let (evals, poly) = bytes_to_polynomial(&data, BYTES_PER_FIELD_ELEMENT, DOMAIN_SIZE).unwrap();
    let commitment = commit_polynomial(&poly, &params).unwrap();
    let proof = generate_element_proof(0, &poly, &evals, &params, DOMAIN_SIZE).unwrap();
    // Garbage commitment bytes: rejected, not a panic.
    let bad = kzgrs_da::kzg::Commitment(G1Element { bytes: vec![0xabu8; 48] });
    assert!(!verify_element_proof(0, &evals.evals[0], &bad, &proof, DOMAIN_SIZE, &params));
    // The honest pair passes.
    assert!(verify_element_proof(0, &evals.evals[0], &commitment, &proof, DOMAIN_SIZE, &params));
    // A wrong claimed value fails.
    assert!(!verify_element_proof(1, &evals.evals[0], &commitment, &proof, DOMAIN_SIZE, &params));
}

#[test]
fn column_hash_is_the_truncated_digest() {
    let column = Column(vec![Chunk(vec![1u8; 32]), Chunk(vec![2u8; 32])]);
    let commitment = {
        let params = test_params();
        let (_, poly) =
            bytes_to_polynomial(&column.as_bytes(), BYTES_PER_FIELD_ELEMENT, DOMAIN_SIZE).unwrap();
        commit_polynomial(&poly, &params).unwrap()
    };
    let got = hash_column_and_commitment(&column, &commitment);
    let mut hasher = Sha3_256::new();
    hasher.update(column.as_bytes());
    hasher.update(&commitment.0.bytes);
    let digest: Vec<u8> = hasher.finalize().to_vec();
    assert_eq!(got.len(), 31);
    assert_eq!(got, digest[..31].to_vec());
}
