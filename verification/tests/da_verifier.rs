//! The column verifier end to end: acceptance of honest blobs, tamper
//! detection, index binding, length-mismatch rejection, and identity
//! determinism.

use ark_bls12_381::{Fr, G1Affine, G1Projective, G2Affine, G2Projective};
use ark_ec::CurveGroup;
use ark_ff::UniformRand;
use ark_serialize::CanonicalSerialize;
use blst::min_sig::{PublicKey, SecretKey, Signature};
use blst::BLST_ERROR;
use rand::rngs::StdRng;
use rand::SeedableRng;
use sha3::{Digest, Sha3_256};
use std::ops::Mul;

use kzgrs_da::common::{hash_column_and_commitment, Chunk, Column};
use kzgrs_da::da_verifier::{DaBlob, DaVerifier};
use kzgrs_da::elements::{G1Element, G2Element};
use kzgrs_da::kzg::{
    bytes_to_polynomial, commit_polynomial, generate_element_proof, Commitment, GlobalParameters,
    BYTES_PER_FIELD_ELEMENT,
};

const DOMAIN_SIZE: usize = 16;

fn g1_bytes(p: &G1Affine) -> Vec<u8> {
    let mut v: Vec<u8> = Vec::new();
    p.serialize_uncompressed(&mut v).unwrap();
    v
}

fn g2_bytes(p: &G2Affine) -> Vec<u8> {
    let mut v: Vec<u8> = Vec::new();
    p.serialize_uncompressed(&mut v).unwrap();
    v
}

fn test_params() -> GlobalParameters {
    let mut rng = StdRng::seed_from_u64(1987);
    let s = Fr::rand(&mut rng);
    let g = G1Projective::rand(&mut rng).into_affine();
    let h = G2Projective::rand(&mut rng).into_affine();
    let mut powers: Vec<G1Element> = Vec::new();
    let mut cur = Fr::from(1u64);
    for _ in 0..DOMAIN_SIZE {
        let p = g.mul(cur).into_affine();
        powers.push(G1Element { bytes: g1_bytes(&p) });
        cur *= s;
    }
    let beta_h = h.mul(s).into_affine();
    GlobalParameters::new(
        powers,
        G2Element { bytes: g2_bytes(&h) },
        G2Element { bytes: g2_bytes(&beta_h) },
        DOMAIN_SIZE,
    )
    .expect("the test reference string should be accepted")
}

/// 512 bytes of deterministic filler: one erasure-coded row of 16 chunks.
fn filler_row() -> Vec<u8> {
    (0..BYTES_PER_FIELD_ELEMENT * DOMAIN_SIZE).map(|i| (i * 7 % 251) as u8).collect()
}

fn column_at(data: &[u8], index: usize) -> Column {
    let chunk = data[index * BYTES_PER_FIELD_ELEMENT..(index + 1) * BYTES_PER_FIELD_ELEMENT]
        .to_vec();
    Column(vec![Chunk(chunk)])
}

fn commit_column(column: &Column, params: &GlobalParameters) -> Commitment {
    let bytes = column.as_bytes();
    let (_, poly) = bytes_to_polynomial(&bytes, BYTES_PER_FIELD_ELEMENT, DOMAIN_SIZE).unwrap();
    commit_polynomial(&poly, params).unwrap()
}

/// Encodes one row of data into the blob the verifier at `index` receives.
fn build_blob(data: &[u8], index: usize, params: &GlobalParameters) -> DaBlob {
    let (row_evals, row_poly) =
        bytes_to_polynomial(&data.to_vec(), BYTES_PER_FIELD_ELEMENT, DOMAIN_SIZE).unwrap();
    let row_commitment = commit_polynomial(&row_poly, params).unwrap();
    let row_proof = generate_element_proof(index, &row_poly, &row_evals, params, DOMAIN_SIZE)
        .unwrap();

    let mut hashes: Vec<u8> = Vec::new();
    let mut column_commitments: Vec<Commitment> = Vec::new();
    for j in 0..DOMAIN_SIZE {
        let column_j = column_at(data, j);
        let cc_j = commit_column(&column_j, params);
        let h_j = hash_column_and_commitment(&column_j, &cc_j);
        hashes.extend_from_slice(&h_j);
        column_commitments.push(cc_j);
    }
    let (agg_evals, agg_poly) = bytes_to_polynomial(&hashes, 31, DOMAIN_SIZE).unwrap();
    let aggregated_column_commitment = commit_polynomial(&agg_poly, params).unwrap();
    let aggregated_column_proof =
        generate_element_proof(index, &agg_poly, &agg_evals, params, DOMAIN_SIZE).unwrap();

    DaBlob {
        column: column_at(data, index),
        column_commitment: Commitment(G1Element {
            bytes: column_commitments[index].0.bytes.clone(),
        }),
        aggregated_column_commitment,
        aggregated_column_proof,
        rows_commitments: vec![row_commitment],
        rows_proofs: vec![row_proof],
    }
}

/// Five deterministic signing keys and their roster of public keys in
/// ascending order.
fn roster() -> (Vec<Vec<u8>>, Vec<Vec<u8>>) {
    let mut sks: Vec<Vec<u8>> = Vec::new();
    let mut pks: Vec<Vec<u8>> = Vec::new();
    for i in 0..5u8 {
        let ikm = [i + 1; 32];
        let sk = SecretKey::key_gen(&ikm, &[]).unwrap();
        sks.push(sk.to_bytes().to_vec());
        pks.push(sk.sk_to_pk().compress().to_vec());
    }
    let mut order: Vec<usize> = (0..5).collect();
    order.sort_by(|a, b| pks[*a].cmp(&pks[*b]));
    let sorted_pks: Vec<Vec<u8>> = order.iter().map(|i| pks[*i].clone()).collect();
    let sorted_sks: Vec<Vec<u8>> = order.iter().map(|i| sks[*i].clone()).collect();
    (sorted_sks, sorted_pks)
}

/// End to end: reference string for domain size 16, a polynomial from 512
/// filler bytes, a one-row blob, and the verifier at index 3 of a
/// 5-verifier roster, whose attestation must verify independently.
#[test]
fn verifier_accepts_honest_blob_and_signature_verifies() {
    let params = test_params();
    let data = filler_row();
    let blob = build_blob(&data, 3, &params);
    let message = blob.id();
    let (sks, pks) = roster();
    let verifier = DaVerifier::new(sks[3].clone(), &pks).expect("key is in the roster");
    assert_eq!(verifier.index(), 3);
    let attestation = verifier.verify(blob, &params).expect("an honest blob must be attested");

    let signature = Signature::from_bytes(&attestation.signature).unwrap();
    let pk = PublicKey::from_bytes(&pks[3]).unwrap();
    assert_eq!(
        signature.verify(true, &message, b"", b"", &pk, true),
        BLST_ERROR::BLST_SUCCESS
    );
}

/// Tampering with single bytes of the column makes verification fail.
#[test]
fn tampered_column_is_rejected() {
    let params = test_params();
    let data = filler_row();
    let (sks, pks) = roster();
    let verifier = DaVerifier::new(sks[3].clone(), &pks).unwrap();
    for pos in [0usize, 15, 31] {
        let mut blob = build_blob(&data, 3, &params);
        blob.column.0[0].0[pos] ^= 0x01;
        assert!(verifier.verify(blob, &params).is_none());
    }
}

/// Tampering with single bytes of a row commitment makes verification fail.
#[test]
fn tampered_row_commitment_is_rejected() {
    let params = test_params();
    let data = filler_row();
    let (sks, pks) = roster();
    let verifier = DaVerifier::new(sks[3].clone(), &pks).unwrap();
    for pos in [0usize, 48, 95] {
        let mut blob = build_blob(&data, 3, &params);
        blob.rows_commitments[0].0.bytes[pos] ^= 0x01;
        assert!(verifier.verify(blob, &params).is_none());
    }
}

/// Tampering with single bytes of a row proof makes verification fail.
#[test]
fn tampered_row_proof_is_rejected() {
    let params = test_params();
    let data = filler_row();
    let (sks, pks) = roster();
    let verifier = DaVerifier::new(sks[3].clone(), &pks).unwrap();
    for pos in [0usize, 48, 95] {
        let mut blob = build_blob(&data, 3, &params);
        blob.rows_proofs[0].w.bytes[pos] ^= 0x01;
        assert!(verifier.verify(blob, &params).is_none());
    }
}

/// A blob built for one index fails verification at any other index.
#[test]
fn blob_is_bound_to_its_index() {
    let params = test_params();
    let data = filler_row();
    let (sks, pks) = roster();
    let blob_for_3 = build_blob(&data, 3, &params);
    let other = DaVerifier::new(sks[1].clone(), &pks).unwrap();
    assert_eq!(other.index(), 1);
    assert!(other.verify(blob_for_3, &params).is_none());
}

/// Mismatched lengths of column, row commitments and row proofs are
/// rejected outright.
#[test]
fn length_mismatch_is_rejected() {
    let params = test_params();
    let data = filler_row();
    let (sks, pks) = roster();
    let verifier = DaVerifier::new(sks[3].clone(), &pks).unwrap();

    let mut blob = build_blob(&data, 3, &params);
    blob.rows_proofs.clear();
    assert!(verifier.verify(blob, &params).is_none());

    let mut blob = build_blob(&data, 3, &params);
    let extra = Commitment(G1Element { bytes: blob.rows_commitments[0].0.bytes.clone() });
    blob.rows_commitments.push(extra);
    assert!(verifier.verify(blob, &params).is_none());
}

/// `id()` depends only on the aggregated column commitment and the row
/// commitments; `column_id()` sees the column.
#[test]
fn id_is_deterministic_in_its_inputs() {
    let params = test_params();
    let data = filler_row();
    let blob_a = build_blob(&data, 3, &params);
    let blob_b = build_blob(&data, 5, &params);
    // Different columns, column commitments and proofs, same commitments.
    assert_ne!(blob_a.column.as_bytes(), blob_b.column.as_bytes());
    assert_eq!(blob_a.id(), blob_b.id());
    assert_ne!(blob_a.column_id(), blob_b.column_id());
}

/// The blob identity is the SHA3-256 digest of the aggregated column
/// commitment followed by every row commitment.
#[test]
fn id_matches_direct_digest() {
    let params = test_params();
    let data = filler_row();
    let blob = build_blob(&data, 3, &params);
    let mut hasher = Sha3_256::new();
    hasher.update(&blob.aggregated_column_commitment.0.bytes);
    hasher.update(&blob.rows_commitments[0].0.bytes);
    let expected: Vec<u8> = hasher.finalize().to_vec();
    assert_eq!(blob.id(), expected);
}

/// An unknown key, or a key that is not in the roster, cannot build a
/// verifier.
#[test]
fn verifier_construction_fails_outside_roster() {
    let (_, pks) = roster();
    let stranger = SecretKey::key_gen(&[9u8; 32], &[]).unwrap();
    assert!(DaVerifier::new(stranger.to_bytes().to_vec(), &pks).is_none());
    assert!(DaVerifier::new(vec![0u8; 32], &pks).is_none());
    assert!(DaVerifier::new(vec![1u8, 2, 3], &pks).is_none());
}
