//! Batched proof generation: equivalence with single-point proofs, with and
//! without a precomputed cache.

use ark_bls12_381::{Fr, G1Affine, G1Projective, G2Affine, G2Projective};
use ark_ec::CurveGroup;
use ark_ff::{PrimeField, UniformRand};
use ark_serialize::{CanonicalDeserialize, CanonicalSerialize};
use rand::rngs::StdRng;
use rand::SeedableRng;
use std::ops::Mul;

use kzgrs_da::elements::{G1Element, G2Element};
use kzgrs_da::fk20::{fk20_batch_generate_elements_proofs, Toeplitz1Cache};
use kzgrs_da::kzg::{
    bytes_to_polynomial, commit_polynomial, generate_element_proof, GlobalParameters, Proof,
    BYTES_PER_FIELD_ELEMENT,
};

fn g1_bytes(p: &G1Affine) -> Vec<u8> {
    let mut v: Vec<u8> = Vec::new();
    p.serialize_uncompressed(&mut v).unwrap();
    v
}

fn g2_bytes(p: &G2Affine) -> Vec<u8> {
    let mut v: Vec<u8> = Vec::new();
    p.serialize_uncompressed(&mut v).unwrap();
    v
}

/// A small reference string from a seeded secret, with the domain size the
/// deployment would use.
fn test_params(n_powers: usize, domain_size: usize) -> GlobalParameters {
    let mut rng = StdRng::seed_from_u64(1987);
    let s = Fr::rand(&mut rng);
    let g = G1Projective::rand(&mut rng).into_affine();
    let h = G2Projective::rand(&mut rng).into_affine();
    let mut powers: Vec<G1Element> = Vec::new();
    let mut cur = Fr::from(1u64);
    for _ in 0..n_powers {
        let p = g.mul(cur).into_affine();
        powers.push(G1Element { bytes: g1_bytes(&p) });
        cur *= s;
    }
    let beta_h = h.mul(s).into_affine();
    GlobalParameters::new(
        powers,
        G2Element { bytes: g2_bytes(&h) },
        G2Element { bytes: g2_bytes(&beta_h) },
        domain_size,
    )
    .expect("the test reference string should be accepted")
}

/// The witness point of a proof with any blinding removed: `w - random_v * G`.
fn unblinded_w(proof: &Proof, g0: &G1Affine) -> Vec<u8> {
    let w = G1Affine::deserialize_uncompressed(proof.w.bytes.as_slice()).unwrap();
    match &proof.random_v {
        Some(rv) => {
            let r = Fr::from_le_bytes_mod_order(&rv.bytes);
            g1_bytes(&(G1Projective::from(w) - g0.mul(r)).into_affine())
        }
        None => g1_bytes(&w),
    }
}

fn unblinded_all(proofs: &[Proof], params: &GlobalParameters) -> Vec<Vec<u8>> {
    let g0 = G1Affine::deserialize_uncompressed(test_g0(params).as_slice()).unwrap();
    proofs.iter().map(|p| unblinded_w(p, &g0)).collect()
}

fn test_g0(_params: &GlobalParameters) -> Vec<u8> {
    // powers_of_g[0] = 1 * G, rebuilt from the same seed as `test_params`.
    let mut rng = StdRng::seed_from_u64(1987);
    let _s = Fr::rand(&mut rng);
    let g = G1Projective::rand(&mut rng).into_affine();
    g1_bytes(&g)
}

#[test]
fn test_generate_proofs() {
    let params = test_params(256, 16);
    for size in [16, 32, 64, 128, 256] {
        let buff: Vec<_> = (0..BYTES_PER_FIELD_ELEMENT * size)
            .map(|i| (i % 255) as u8)
            .rev()
            .collect();
        let (evals, poly) = bytes_to_polynomial(&buff, BYTES_PER_FIELD_ELEMENT, size).unwrap();
        let polynomial_degree = poly.coeffs.len();
        let slow_proofs: Vec<Proof> = (0..polynomial_degree)
            .map(|i| generate_element_proof(i, &poly, &evals, &params, size).unwrap())
            .collect();
        let fk20_proofs = fk20_batch_generate_elements_proofs(&poly, &params, None);
        assert_eq!(
            unblinded_all(&slow_proofs, &params),
            unblinded_all(&fk20_proofs, &params)
        );

        // Test variant with Toeplitz1Cache param
        let tc = Toeplitz1Cache::with_size(&params, size);
        let fk20_proofs = fk20_batch_generate_elements_proofs(&poly, &params, Some(&tc));
        assert_eq!(
            unblinded_all(&slow_proofs, &params),
            unblinded_all(&fk20_proofs, &params)
        );
    }
}

/// Both the batched proofs and independent single-point proofs verify for
/// every domain index against the same commitment and evaluation.
#[test]
fn fk20_proofs_are_interchangeable_with_single_proofs() {
    let size = 16;
    let params = test_params(size, size);
    let buff: Vec<_> = (0..BYTES_PER_FIELD_ELEMENT * size)
        .map(|i| (i % 255) as u8)
        .rev()
        .collect();
    let (evals, poly) = bytes_to_polynomial(&buff, BYTES_PER_FIELD_ELEMENT, size).unwrap();
    let commitment = commit_polynomial(&poly, &params).unwrap();
    let fk20_proofs = fk20_batch_generate_elements_proofs(&poly, &params, None);
    for i in 0..size {
        let slow = generate_element_proof(i, &poly, &evals, &params, size).unwrap();
        assert!(kzgrs_da::kzg::verify_element_proof(
            i,
            &evals.evals[i],
            &commitment,
            &slow,
            size,
            &params
        ));
        assert!(kzgrs_da::kzg::verify_element_proof(
            i,
            &evals.evals[i],
            &commitment,
            &fk20_proofs[i],
            size,
            &params
        ));
    }
}

/// Proofs generated with a precomputed cache verify exactly where proofs
/// generated without one do.
#[test]
fn cached_and_uncached_proofs_verify_identically() {
    let size = 16;
    let params = test_params(size, size);
    let buff: Vec<_> = (0..BYTES_PER_FIELD_ELEMENT * size).map(|i| (i * 3 % 251) as u8).collect();
    let (evals, poly) = bytes_to_polynomial(&buff, BYTES_PER_FIELD_ELEMENT, size).unwrap();
    let commitment = commit_polynomial(&poly, &params).unwrap();
    let plain = fk20_batch_generate_elements_proofs(&poly, &params, None);
    let cache = Toeplitz1Cache::with_size(&params, size);
    let cached = fk20_batch_generate_elements_proofs(&poly, &params, Some(&cache));
    assert_eq!(unblinded_all(&plain, &params), unblinded_all(&cached, &params));
    for i in 0..size {
        let ok_plain = kzgrs_da::kzg::verify_element_proof(
            i,
            &evals.evals[i],
            &commitment,
            &plain[i],
            size,
            &params,
        );
        let ok_cached = kzgrs_da::kzg::verify_element_proof(
            i,
            &evals.evals[i],
            &commitment,
            &cached[i],
            size,
            &params,
        );
        assert!(ok_plain);
        assert_eq!(ok_plain, ok_cached);
    }
}

/// A batched proof must not verify against the wrong domain index.
#[test]
fn fk20_proof_fails_at_wrong_index() {
    let size = 16;
    let params = test_params(size, size);
    let buff: Vec<_> = (0..BYTES_PER_FIELD_ELEMENT * size).map(|i| (i % 89) as u8).collect();
    let (evals, poly) = bytes_to_polynomial(&buff, BYTES_PER_FIELD_ELEMENT, size).unwrap();
    let commitment = commit_polynomial(&poly, &params).unwrap();
    let fk20_proofs = fk20_batch_generate_elements_proofs(&poly, &params, None);
    assert!(!kzgrs_da::kzg::verify_element_proof(
        1,
        &evals.evals[1],
        &commitment,
        &fk20_proofs[2],
        size,
        &params
    ));
}
