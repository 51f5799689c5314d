//! Shared data shapes of the data-availability layer: chunks and columns of
//! the erasure-coded matrix, attestations, and the hashes that bind columns
//! and commitments together.

use vstd::prelude::*;

use crate::backend::{sha3_256, sha3_of};
use crate::elements::{copy_bytes, extend_bytes};
use crate::kzg::Commitment;

verus! {

/// The widest chunk that still encodes injectively into one field element:
/// one byte fewer than a full field element's encoding.
pub const MAX_BLS12_381_ENCODING_CHUNK_SIZE: usize = 31;

/// A fixed-size block of bytes carried as one field element.
#[derive(Debug)]
pub struct Chunk(pub Vec<u8>);

/// One column of the erasure-coded matrix: the chunks a single verifier
/// node is responsible for, ordered by row.
#[derive(Debug)]
pub struct Column(pub Vec<Chunk>);

/// A verifier's signature over a blob's identity.
#[derive(Debug)]
pub struct Attestation {
    pub signature: Vec<u8>,
}

/// The byte blocks of a sequence of chunks.
pub open spec fn chunks_bytes(chunks: Seq<Chunk>) -> Seq<Seq<u8>> {
    chunks.map(|i: int, c: Chunk| c.0@)
}

/// A column's raw bytes: its chunks laid end to end.
pub open spec fn column_bytes_of(chunks: Seq<Chunk>) -> Seq<u8> {
    chunks_bytes(chunks).flatten()
}

/// The byte encodings of a sequence of commitments.
pub open spec fn commitments_bytes(cs: Seq<Commitment>) -> Seq<Seq<u8>> {
    cs.map(|i: int, c: Commitment| c.0.bytes@)
}

/// A blob's identity and attestation message: the digest of the aggregated
/// column commitment followed by every row commitment, in order.
pub open spec fn attestation_message_of(acc: Seq<u8>, rows: Seq<Seq<u8>>) -> Seq<u8> {
    sha3_of(acc + rows.flatten())
}

/// The position-binding hash of a column and its commitment, truncated so it
/// reads back injectively as a field element.
pub open spec fn column_and_commitment_hash_of(column_bytes: Seq<u8>, commitment: Seq<u8>) -> Seq<
    u8,
> {
    sha3_of(column_bytes + commitment).subrange(0, 31)
}

impl Chunk {
    /// The chunk's bytes.
    pub fn as_bytes(&self) -> (r: Vec<u8>)
        ensures
            r@ == self.0@,
    {
        copy_bytes(&self.0)
    }

    /// The number of bytes in the chunk.
    pub fn len(&self) -> (r: usize)
        ensures
            r == self.0@.len(),
    {
        self.0.len()
    }
}

impl Column {
    /// The number of chunks (rows) in the column.
    pub fn len(&self) -> (r: usize)
        ensures
            r == self.0@.len(),
    {
        self.0.len()
    }

    /// The column's raw bytes: its chunks laid end to end.
    pub fn as_bytes(&self) -> (r: Vec<u8>)
        ensures
            r@ == column_bytes_of(self.0@),
    {
        let n = self.0.len();
        let mut out: Vec<u8> = Vec::new();
        proof {
            assert(chunks_bytes(self.0@.subrange(0, 0)) =~= Seq::<Seq<u8>>::empty());
            assert(out@ =~= chunks_bytes(self.0@.subrange(0, 0)).flatten());
        }
        let mut i: usize = 0;
        while i < n
            invariant
                i <= n,
                n == self.0@.len(),
                out@ == chunks_bytes(self.0@.subrange(0, i as int)).flatten(),
            decreases n - i,
        {
            extend_bytes(&mut out, &self.0[i].0);
            proof {
                let pre = chunks_bytes(self.0@.subrange(0, i as int));
                assert(chunks_bytes(self.0@.subrange(0, i + 1)) =~= pre.push(self.0@[i as int].0@));
                pre.lemma_flatten_push(self.0@[i as int].0@);
            }
            i = i + 1;
        }
        proof {
            assert(self.0@.subrange(0, n as int) =~= self.0@);
        }
        out
    }
}

/// The message every verifier signs for a blob, and the blob's identity: the
/// digest of the aggregated column commitment followed by the row
/// commitments.
pub fn build_attestation_message(
    aggregated_column_commitment: &Commitment,
    rows_commitments: &Vec<Commitment>,
) -> (r: Vec<u8>)
    ensures
        r@ == attestation_message_of(
            aggregated_column_commitment.0.bytes@,
            commitments_bytes(rows_commitments@),
        ),
{
    let mut buffer = copy_bytes(&aggregated_column_commitment.0.bytes);
    let n = rows_commitments.len();
    proof {
        assert(commitments_bytes(rows_commitments@.subrange(0, 0)) =~= Seq::<Seq<u8>>::empty());
        assert(buffer@ =~= aggregated_column_commitment.0.bytes@ + commitments_bytes(
            rows_commitments@.subrange(0, 0),
        ).flatten());
    }
    let mut i: usize = 0;
    while i < n
        invariant
            i <= n,
            n == rows_commitments@.len(),
            buffer@ == aggregated_column_commitment.0.bytes@ + commitments_bytes(
                rows_commitments@.subrange(0, i as int),
            ).flatten(),
        decreases n - i,
    {
        extend_bytes(&mut buffer, &rows_commitments[i].0.bytes);
        proof {
            let pre = commitments_bytes(rows_commitments@.subrange(0, i as int));
            assert(commitments_bytes(rows_commitments@.subrange(0, i + 1)) =~= pre.push(
                rows_commitments@[i as int].0.bytes@,
            ));
            pre.lemma_flatten_push(rows_commitments@[i as int].0.bytes@);
            assert(buffer@ =~= aggregated_column_commitment.0.bytes@ + commitments_bytes(
                rows_commitments@.subrange(0, i + 1),
            ).flatten());
        }
        i = i + 1;
    }
    proof {
        assert(rows_commitments@.subrange(0, n as int) =~= rows_commitments@);
    }
    sha3_256(&buffer)
}

/// The position-binding hash of a column together with its commitment,
/// truncated to the widest chunk size so it maps injectively into a field
/// element.
pub fn hash_column_and_commitment(column: &Column, commitment: &Commitment) -> (r: Vec<u8>)
    ensures
        r@ == column_and_commitment_hash_of(column_bytes_of(column.0@), commitment.0.bytes@),
        r@.len() == 31,
{
    let mut buffer = column.as_bytes();
    extend_bytes(&mut buffer, &commitment.0.bytes);
    let mut digest = sha3_256(&buffer);
    digest.truncate(MAX_BLS12_381_ENCODING_CHUNK_SIZE);
    digest
}

} // verus!
