//! Verified core of a KZG-based data-availability layer.
//!
//! A blob of bytes is erasure-coded into a matrix, each row is committed to
//! with a KZG polynomial commitment, and every verifier node receives one
//! column of the matrix together with the commitments and opening proofs it
//! needs.  This crate holds the verified logic of that pipeline: the batched
//! FK20 proof generator, the polynomial-commitment layer, and the column
//! verifier that signs an attestation when a received share checks out.
//!
//! The finite-field, elliptic-curve, hashing and signing primitives come from
//! outside libraries; they are reached only through the trusted wrappers in
//! [`backend`], which exchange plain byte encodings with the verified code.

pub mod backend;
pub mod common;
pub mod elements;
pub mod fk20;
pub mod da_verifier;
pub mod kzg;
pub mod mempool;
pub mod mix;
