//! The DA verifier: checks one received column share against its
//! commitments and, when both gates pass, signs an attestation of the
//! blob's identity.

use vstd::prelude::*;

use crate::backend::{bls_pk, bls_pk_of, bls_sign, bls_sign_of, bls_sk_check, bls_sk_valid,
    fr_from_le_of, ifft_fr_of, sha3_256, sha3_of};
use crate::common::{
    attestation_message_of, build_attestation_message, column_and_commitment_hash_of,
    column_bytes_of, commitments_bytes, hash_column_and_commitment, Attestation, Chunk, Column,
};
use crate::elements::bytes_eq;
use crate::kzg::{
    bytes_to_polynomial, commit_of, commit_polynomial, evals_of_bytes, field_element_from_bytes_le,
    opt_bytes, reveal_params, verify_element_proof, verify_element_proof_of, Commitment,
    GlobalParameters, Proof, BYTES_PER_FIELD_ELEMENT,
};

verus! {

/// The unit of data one verifier node receives: one column of the
/// erasure-coded matrix together with every commitment and proof needed to
/// check it in isolation.
#[derive(Debug)]
pub struct DaBlob {
    /// The column of chunks this verifier is responsible for.
    pub column: Column,
    /// Commitment to the column read as its own polynomial.
    pub column_commitment: Commitment,
    /// Commitment binding all columns' commitments together.
    pub aggregated_column_commitment: Commitment,
    /// Proof that `column_commitment` is the verifier's opening of the
    /// aggregated column commitment.
    pub aggregated_column_proof: Proof,
    /// One commitment per row of the original matrix.
    pub rows_commitments: Vec<Commitment>,
    /// One proof per row for this column's chunk at that row.
    pub rows_proofs: Vec<Proof>,
}

impl DaBlob {
    /// The blob's identity: the digest of its aggregated column commitment
    /// and row commitments, the same message an attestation signs.
    pub fn id(&self) -> (r: Vec<u8>)
        ensures
            r@ == attestation_message_of(
                self.aggregated_column_commitment.0.bytes@,
                commitments_bytes(self.rows_commitments@),
            ),
    {
        build_attestation_message(&self.aggregated_column_commitment, &self.rows_commitments)
    }

    /// The digest of the column's raw bytes alone, for content-addressing
    /// the column independently of the commitments carried with it.
    pub fn column_id(&self) -> (r: Vec<u8>)
        ensures
            r@ == sha3_of(column_bytes_of(self.column.0@)),
    {
        let bytes = self.column.as_bytes();
        sha3_256(&bytes)
    }
}

/// Gate one, on byte views: the column, read as its own polynomial over the
/// deployment domain, must commit to exactly the carried column commitment,
/// and the position-bound hash of column and commitment must be the
/// verifier's opening of the aggregated column commitment.
pub open spec fn column_gate_of(
    chunks: Seq<Chunk>,
    column_commitment: Seq<u8>,
    aggregated_column_commitment: Seq<u8>,
    proof_w: Seq<u8>,
    proof_rv: Option<Seq<u8>>,
    index: nat,
    powers: Seq<Seq<u8>>,
    h: Seq<u8>,
    beta_h: Seq<u8>,
    domain_size: nat,
) -> bool {
    let data = column_bytes_of(chunks);
    &&& (data.len() as int) % 32 == 0
    &&& (data.len() as int) / 32 <= domain_size
    &&& domain_size <= powers.len()
    &&& commit_of(powers, ifft_fr_of(domain_size, evals_of_bytes(data, 32))) == column_commitment
    &&& verify_element_proof_of(
        index,
        fr_from_le_of(column_and_commitment_hash_of(data, column_commitment)),
        aggregated_column_commitment,
        proof_w,
        proof_rv,
        domain_size,
        powers[0],
        h,
        beta_h,
    )
}

/// One row check, on byte views: the chunk, read as a field element, must be
/// the verifier's opening of the row commitment.
pub open spec fn chunk_gate_of(
    chunk: Seq<u8>,
    commitment: Seq<u8>,
    proof_w: Seq<u8>,
    proof_rv: Option<Seq<u8>>,
    index: nat,
    g0: Seq<u8>,
    h: Seq<u8>,
    beta_h: Seq<u8>,
    domain_size: nat,
) -> bool {
    verify_element_proof_of(
        index,
        fr_from_le_of(chunk),
        commitment,
        proof_w,
        proof_rv,
        domain_size,
        g0,
        h,
        beta_h,
    )
}

/// Gate two, on byte views: the three per-row sequences agree in length and
/// every row check passes.
pub open spec fn rows_gate_of(
    chunks: Seq<Chunk>,
    commitments: Seq<Commitment>,
    proofs: Seq<Proof>,
    index: nat,
    g0: Seq<u8>,
    h: Seq<u8>,
    beta_h: Seq<u8>,
    domain_size: nat,
) -> bool {
    &&& chunks.len() == commitments.len()
    &&& commitments.len() == proofs.len()
    &&& forall|j: int|
        0 <= j < chunks.len() ==> chunk_gate_of(
            (#[trigger] chunks[j]).0@,
            commitments[j].0.bytes@,
            proofs[j].w.bytes@,
            opt_bytes(proofs[j].random_v),
            index,
            g0,
            h,
            beta_h,
            domain_size,
        )
}

/// Gate one for a whole blob under the given parameters.
pub open spec fn column_gate(blob: DaBlob, index: nat, p: GlobalParameters) -> bool {
    column_gate_of(
        blob.column.0@,
        blob.column_commitment.0.bytes@,
        blob.aggregated_column_commitment.0.bytes@,
        blob.aggregated_column_proof.w.bytes@,
        opt_bytes(blob.aggregated_column_proof.random_v),
        index,
        p.spec_powers(),
        p.spec_h(),
        p.spec_beta_h(),
        p.spec_domain_size(),
    )
}

/// Gate two for a whole blob under the given parameters.
pub open spec fn rows_gate(blob: DaBlob, index: nat, p: GlobalParameters) -> bool {
    rows_gate_of(
        blob.column.0@,
        blob.rows_commitments@,
        blob.rows_proofs@,
        index,
        p.spec_powers()[0],
        p.spec_h(),
        p.spec_beta_h(),
        p.spec_domain_size(),
    )
}

/// A blob passes verification at `index` exactly when both gates pass.
pub open spec fn blob_accepted(blob: DaBlob, index: nat, p: GlobalParameters) -> bool {
    column_gate(blob, index, p) && rows_gate(blob, index, p)
}

/// A node's verifier: its signing key and its fixed position among the
/// sorted roster of verifier public keys.  Built once at startup, immutable
/// afterwards.
pub struct DaVerifier {
    pub(crate) sk: Vec<u8>,
    pub(crate) index: usize,
}

impl DaVerifier {
    /// The signing key's bytes.
    pub closed spec fn spec_sk(&self) -> Seq<u8> {
        self.sk@
    }

    /// The verifier's position in the roster.
    pub closed spec fn spec_index(&self) -> nat {
        self.index as nat
    }

    /// The signing key always deserializes into a usable key.
    #[verifier::type_invariant]
    pub(crate) open spec fn wf(&self) -> bool {
        bls_sk_valid(self.sk@)
    }

    /// Builds a verifier from its signing key and the roster of all
    /// verifiers' public keys.  Returns `None` exactly when the key is
    /// unusable or its public key is absent from the roster; otherwise the
    /// verifier's index is the first roster position holding that public
    /// key.
    pub fn new(sk: Vec<u8>, nodes_public_keys: &Vec<Vec<u8>>) -> (r: Option<DaVerifier>)
        ensures
            match r {
                Some(v) => {
                    &&& bls_sk_valid(sk@)
                    &&& v.spec_sk() == sk@
                    &&& v.spec_index() < nodes_public_keys@.len()
                    &&& nodes_public_keys@[v.spec_index() as int]@ == bls_pk_of(sk@)
                    &&& forall|j: int|
                        0 <= j < v.spec_index() ==> (#[trigger] nodes_public_keys@[j])@
                            != bls_pk_of(sk@)
                },
                None => !bls_sk_valid(sk@) || forall|j: int|
                    0 <= j < nodes_public_keys@.len() ==> (#[trigger] nodes_public_keys@[j])@
                        != bls_pk_of(sk@),
            },
    {
        if !bls_sk_check(&sk) {
            return None;
        }
        let pk = bls_pk(&sk);
        let n = nodes_public_keys.len();
        let mut i: usize = 0;
        while i < n
            invariant
                i <= n,
                n == nodes_public_keys@.len(),
                bls_sk_valid(sk@),
                pk@ == bls_pk_of(sk@),
                forall|j: int|
                    0 <= j < i ==> (#[trigger] nodes_public_keys@[j])@ != bls_pk_of(sk@),
            decreases n - i,
        {
            if bytes_eq(&nodes_public_keys[i], &pk) {
                return Some(DaVerifier { sk, index: i });
            }
            i = i + 1;
        }
        None
    }

    /// The verifier's position in the roster.
    pub fn index(&self) -> (r: usize)
        ensures
            r == self.spec_index(),
    {
        self.index
    }

    /// Gate one: recomputes the column's commitment and checks the
    /// position-bound hash against the aggregated column commitment.
    fn verify_column(
        column: &Column,
        column_commitment: &Commitment,
        aggregated_column_commitment: &Commitment,
        aggregated_column_proof: &Proof,
        index: usize,
        params: &GlobalParameters,
    ) -> (r: bool)
        ensures
            r == column_gate_of(
                column.0@,
                column_commitment.0.bytes@,
                aggregated_column_commitment.0.bytes@,
                aggregated_column_proof.w.bytes@,
                opt_bytes(aggregated_column_proof.random_v),
                index as nat,
                params.spec_powers(),
                params.spec_h(),
                params.spec_beta_h(),
                params.spec_domain_size(),
            ),
    {
        proof {
            use_type_invariant(params);
            reveal_params(params);
        }
        let column_bytes = column.as_bytes();
        let polynomial = match bytes_to_polynomial(
            &column_bytes,
            BYTES_PER_FIELD_ELEMENT,
            params.domain_size(),
        ) {
            Ok((_, polynomial)) => polynomial,
            Err(_) => {
                return false;
            },
        };
        let computed_column_commitment = match commit_polynomial(&polynomial, params) {
            Ok(c) => c,
            Err(_) => {
                return false;
            },
        };
        if !bytes_eq(&computed_column_commitment.0.bytes, &column_commitment.0.bytes) {
            return false;
        }
        let column_hash = hash_column_and_commitment(column, column_commitment);
        let element = field_element_from_bytes_le(&column_hash);
        verify_element_proof(
            index,
            &element,
            aggregated_column_commitment,
            aggregated_column_proof,
            params.domain_size(),
            params,
        )
    }

    /// One row check: the chunk, read as a field element, against the row
    /// commitment and proof.
    fn verify_chunk(
        chunk: &Chunk,
        commitment: &Commitment,
        proof: &Proof,
        index: usize,
        params: &GlobalParameters,
    ) -> (r: bool)
        ensures
            r == chunk_gate_of(
                chunk.0@,
                commitment.0.bytes@,
                proof.w.bytes@,
                opt_bytes(proof.random_v),
                index as nat,
                params.spec_powers()[0],
                params.spec_h(),
                params.spec_beta_h(),
                params.spec_domain_size(),
            ),
    {
        proof {
            use_type_invariant(params);
            reveal_params(params);
        }
        let element = field_element_from_bytes_le(&chunk.0);
        verify_element_proof(index, &element, commitment, proof, params.domain_size(), params)
    }

    /// Gate two: equal lengths, then every row check in order, stopping at
    /// the first failure.
    fn verify_chunks(
        chunks: &Column,
        commitments: &Vec<Commitment>,
        proofs: &Vec<Proof>,
        index: usize,
        params: &GlobalParameters,
    ) -> (r: bool)
        ensures
            r == rows_gate_of(
                chunks.0@,
                commitments@,
                proofs@,
                index as nat,
                params.spec_powers()[0],
                params.spec_h(),
                params.spec_beta_h(),
                params.spec_domain_size(),
            ),
    {
        if chunks.0.len() != commitments.len() || commitments.len() != proofs.len() {
            return false;
        }
        let n = chunks.0.len();
        let mut i: usize = 0;
        while i < n
            invariant
                i <= n,
                n == chunks.0@.len(),
                n == commitments@.len(),
                n == proofs@.len(),
                forall|j: int|
                    0 <= j < i ==> chunk_gate_of(
                        (#[trigger] chunks.0@[j]).0@,
                        commitments@[j].0.bytes@,
                        proofs@[j].w.bytes@,
                        opt_bytes(proofs@[j].random_v),
                        index as nat,
                        params.spec_powers()[0],
                        params.spec_h(),
                        params.spec_beta_h(),
                        params.spec_domain_size(),
                    ),
            decreases n - i,
        {
            if !DaVerifier::verify_chunk(&chunks.0[i], &commitments[i], &proofs[i], index, params) {
                return false;
            }
            i = i + 1;
        }
        true
    }

    /// Signs the blob's identity with the verifier's key.
    fn build_attestation(&self, blob: &DaBlob) -> (r: Attestation)
        ensures
            r.signature@ == bls_sign_of(
                self.spec_sk(),
                attestation_message_of(
                    blob.aggregated_column_commitment.0.bytes@,
                    commitments_bytes(blob.rows_commitments@),
                ),
            ),
    {
        proof {
            use_type_invariant(self);
        }
        let message = build_attestation_message(
            &blob.aggregated_column_commitment,
            &blob.rows_commitments,
        );
        let signature = bls_sign(&self.sk, &message);
        Attestation { signature }
    }

    /// Runs the two-gate verification protocol on a received blob.  Returns
    /// an attestation — the signature of the blob's identity under the
    /// verifier's key — exactly when both gates pass, and `None` on any
    /// failure: malformed column bytes, a commitment mismatch, a failed
    /// pairing check at either gate, or mismatched per-row lengths.
    pub fn verify(&self, blob: DaBlob, params: &GlobalParameters) -> (r: Option<Attestation>)
        ensures
            match r {
                Some(att) => {
                    &&& blob_accepted(blob, self.spec_index(), *params)
                    &&& att.signature@ == bls_sign_of(
                        self.spec_sk(),
                        attestation_message_of(
                            blob.aggregated_column_commitment.0.bytes@,
                            commitments_bytes(blob.rows_commitments@),
                        ),
                    )
                },
                None => !blob_accepted(blob, self.spec_index(), *params),
            },
    {
        let is_column_verified = DaVerifier::verify_column(
            &blob.column,
            &blob.column_commitment,
            &blob.aggregated_column_commitment,
            &blob.aggregated_column_proof,
            self.index,
            params,
        );
        if !is_column_verified {
            return None;
        }
        let are_chunks_verified = DaVerifier::verify_chunks(
            &blob.column,
            &blob.rows_commitments,
            &blob.rows_proofs,
            self.index,
            params,
        );
        if !are_chunks_verified {
            return None;
        }
        Some(self.build_attestation(&blob))
    }
}

/// A blob's identity is a function of its aggregated column commitment and
/// row commitments alone: two blobs that agree on those fields — whatever
/// their columns, column commitments or proofs — have byte-identical
/// identities.
pub proof fn lemma_id_deterministic(a: DaBlob, b: DaBlob)
    requires
        a.aggregated_column_commitment.0.bytes@ == b.aggregated_column_commitment.0.bytes@,
        commitments_bytes(a.rows_commitments@) == commitments_bytes(b.rows_commitments@),
    ensures
        attestation_message_of(
            a.aggregated_column_commitment.0.bytes@,
            commitments_bytes(a.rows_commitments@),
        ) == attestation_message_of(
            b.aggregated_column_commitment.0.bytes@,
            commitments_bytes(b.rows_commitments@),
        ),
{
}

/// A blob whose per-row sequences disagree in length — row commitments
/// against row proofs, or either against the column — fails the row gate,
/// so no verifier at any index ever attests it.
pub proof fn lemma_length_mismatch_rejected(blob: DaBlob, index: nat, params: GlobalParameters)
    requires
        blob.rows_commitments@.len() != blob.rows_proofs@.len() || blob.rows_commitments@.len()
            != blob.column.0@.len(),
    ensures
        !blob_accepted(blob, index, params),
{
}

} // verus!
