//! The polynomial-commitment layer: structured reference string, commitments,
//! single-point opening proofs and the pairing check that validates them.

use vstd::prelude::*;

use crate::backend::{
    domain_element, domain_element_of, fr_from_le, fr_from_le_of, fr_from_u64, fr_from_u64_of,
    fr_sub, fr_sub_of, g1_check, g1_mul, g1_mul_of, g1_sub, g1_sub_of, g1_valid, g2_check,
    g2_mul, g2_mul_of, g2_sub, g2_sub_of, g2_valid, ifft_fr, ifft_fr_of, msm, msm_of, pairing,
    pairing_of, poly_div, poly_div_of,
};
use crate::elements::{
    bytes_eq, check_pow2, copy_bytes, fr_bytes_seq, g1_bytes_seq, is_pow2, FieldElement,
    G1Element, G2Element,
};

verus! {

/// Number of bytes that carry one field element.
pub const BYTES_PER_FIELD_ELEMENT: usize = 32;

/// A polynomial, as the ordered list of its coefficients from the constant
/// term upward.
#[derive(Clone, Debug)]
pub struct Polynomial {
    pub coeffs: Vec<FieldElement>,
}

/// The evaluations of a polynomial on the points of an evaluation domain.
#[derive(Clone, Debug)]
pub struct Evaluations {
    pub evals: Vec<FieldElement>,
}

/// A commitment to a polynomial: a single G1 point.
#[derive(Clone, Debug)]
pub struct Commitment(pub G1Element);

/// An opening proof for one evaluation point: the witness point `w` and an
/// optional blinding scalar that the batched generator adds to `w`.
#[derive(Clone, Debug)]
pub struct Proof {
    pub w: G1Element,
    pub random_v: Option<FieldElement>,
}

/// Why a commitment or proof could not be produced.
#[derive(Clone, Copy, Debug, PartialEq, Eq, Structural)]
pub enum KzgError {
    /// The data length is not a multiple of the chunk size.
    UnpaddedData,
    /// The data holds more chunks than the evaluation domain has points.
    TooManyChunks,
    /// The polynomial has more coefficients than the reference string has
    /// powers.
    TooLargePolynomial,
    /// The requested evaluation index lies outside the evaluations.
    EvaluationIndexOutOfBounds,
}

/// The structured reference string together with the size of the evaluation
/// domain the deployment uses.  Built once by [`GlobalParameters::new`],
/// never mutated; every commitment, proof and verification call reads it.
pub struct GlobalParameters {
    /// Powers of the generator: `powers_of_g[i] = s^i * G`.
    pub(crate) powers_of_g: Vec<G1Element>,
    /// The G2 generator `H` of the pairing.
    pub(crate) h: G2Element,
    /// `s * H`, the secret-shifted G2 generator.
    pub(crate) beta_h: G2Element,
    /// Size of the evaluation domain, a power of two.
    pub(crate) domain_size: usize,
}

impl GlobalParameters {
    /// The encodings of the powers of the generator.
    pub closed spec fn spec_powers(&self) -> Seq<Seq<u8>> {
        g1_bytes_seq(self.powers_of_g@)
    }

    /// The encoding of the G2 generator.
    pub closed spec fn spec_h(&self) -> Seq<u8> {
        self.h.bytes@
    }

    /// The encoding of the secret-shifted G2 generator.
    pub closed spec fn spec_beta_h(&self) -> Seq<u8> {
        self.beta_h.bytes@
    }

    /// The size of the evaluation domain.
    pub closed spec fn spec_domain_size(&self) -> nat {
        self.domain_size as nat
    }

    /// Every power and both G2 points are canonical encodings, and the
    /// domain size is a power of two the field supports.
    #[verifier::type_invariant]
    pub(crate) open spec fn wf(&self) -> bool {
        &&& self.powers_of_g@.len() >= 1
        &&& forall|i: int|
            0 <= i < self.powers_of_g@.len() ==> g1_valid(#[trigger] self.powers_of_g@[i].bytes@)
        &&& g2_valid(self.h.bytes@)
        &&& g2_valid(self.beta_h.bytes@)
        &&& is_pow2(self.domain_size as nat)
        &&& self.domain_size <= 0x1_0000_0000
    }

    /// Builds the parameters after checking every encoding; returns `None`
    /// exactly when some input is not a canonical encoding, the reference
    /// string is empty, or the domain size is unusable.
    pub fn new(
        powers_of_g: Vec<G1Element>,
        h: G2Element,
        beta_h: G2Element,
        domain_size: usize,
    ) -> (r: Option<GlobalParameters>)
        ensures
            match r {
                Some(p) => {
                    &&& p.spec_powers() == g1_bytes_seq(powers_of_g@)
                    &&& p.spec_h() == h.bytes@
                    &&& p.spec_beta_h() == beta_h.bytes@
                    &&& p.spec_domain_size() == domain_size
                },
                None => !{
                    &&& powers_of_g@.len() >= 1
                    &&& forall|i: int|
                        0 <= i < powers_of_g@.len() ==> g1_valid(#[trigger] powers_of_g@[i].bytes@)
                    &&& g2_valid(h.bytes@)
                    &&& g2_valid(beta_h.bytes@)
                    &&& is_pow2(domain_size as nat)
                    &&& domain_size <= 0x1_0000_0000
                },
            },
    {
        if powers_of_g.len() == 0 {
            return None;
        }
        if !g2_check(&h.bytes) {
            return None;
        }
        if !g2_check(&beta_h.bytes) {
            return None;
        }
        if !check_pow2(domain_size) {
            return None;
        }
        if (domain_size as u64) > 0x1_0000_0000u64 {
            return None;
        }
        let n = powers_of_g.len();
        let mut i: usize = 0;
        while i < n
            invariant
                i <= n,
                n == powers_of_g@.len(),
                forall|j: int| 0 <= j < i ==> g1_valid(#[trigger] powers_of_g@[j].bytes@),
            decreases n - i,
        {
            if !g1_check(&powers_of_g[i].bytes) {
                return None;
            }
            i = i + 1;
        }
        Some(GlobalParameters { powers_of_g, h, beta_h, domain_size })
    }

    /// The number of powers in the reference string.
    pub fn srs_len(&self) -> (r: usize)
        ensures
            r == self.spec_powers().len(),
    {
        self.powers_of_g.len()
    }

    /// The size of the evaluation domain.
    pub fn domain_size(&self) -> (r: usize)
        ensures
            r == self.spec_domain_size(),
    {
        self.domain_size
    }
}

/// Bridges the public views of the parameters to their fields, for use
/// inside the crate.
pub(crate) proof fn reveal_params(p: &GlobalParameters)
    ensures
        p.spec_powers() == g1_bytes_seq(p.powers_of_g@),
        p.spec_h() == p.h.bytes@,
        p.spec_beta_h() == p.beta_h.bytes@,
        p.spec_domain_size() == p.domain_size as nat,
{
}

/// The little-endian chunk of `data` starting at chunk index `i`.
pub open spec fn chunk_of(data: Seq<u8>, chunk_size: int, i: int) -> Seq<u8> {
    data.subrange(i * chunk_size, (i + 1) * chunk_size)
}

/// The field elements the chunks of `data` reduce to.
pub open spec fn evals_of_bytes(data: Seq<u8>, chunk_size: int) -> Seq<Seq<u8>> {
    Seq::new((data.len() / chunk_size as nat), |i: int| fr_from_le_of(chunk_of(data, chunk_size, i)))
}

/// Reads a field element from little-endian bytes, reducing modulo the field
/// order.
pub fn field_element_from_bytes_le(bytes: &Vec<u8>) -> (r: FieldElement)
    ensures
        r.bytes@ == fr_from_le_of(bytes@),
{
    fr_from_le(bytes)
}

/// Splits `data` into `chunk_size`-byte chunks, reads each chunk as a field
/// element, and interpolates the polynomial that takes those values on the
/// first chunks' worth of domain points (missing evaluations count as zero).
///
/// Fails exactly when the data is not chunk-aligned or yields more chunks
/// than the domain has points.
pub fn bytes_to_polynomial(
    data: &Vec<u8>,
    chunk_size: usize,
    domain_size: usize,
) -> (r: Result<(Evaluations, Polynomial), KzgError>)
    requires
        chunk_size >= 1,
        is_pow2(domain_size as nat),
        domain_size <= 0x1_0000_0000,
    ensures
        match r {
            Ok(ep) => {
                &&& (data@.len() as int) % (chunk_size as int) == 0
                &&& (data@.len() as int) / (chunk_size as int) <= domain_size
                &&& fr_bytes_seq(ep.0.evals@) == evals_of_bytes(data@, chunk_size as int)
                &&& fr_bytes_seq(ep.1.coeffs@) == ifft_fr_of(
                    domain_size as nat,
                    evals_of_bytes(data@, chunk_size as int),
                )
                &&& ep.1.coeffs@.len() == domain_size
            },
            Err(KzgError::UnpaddedData) => (data@.len() as int) % (chunk_size as int) != 0,
            Err(KzgError::TooManyChunks) => {
                &&& (data@.len() as int) % (chunk_size as int) == 0
                &&& (data@.len() as int) / (chunk_size as int) > domain_size
            },
            Err(_) => false,
        },
{
    if data.len() % chunk_size != 0 {
        return Err(KzgError::UnpaddedData);
    }
    let n_chunks = data.len() / chunk_size;
    if n_chunks > domain_size {
        return Err(KzgError::TooManyChunks);
    }
    proof {
        assert(n_chunks * chunk_size <= data@.len()) by (nonlinear_arith)
            requires
                n_chunks == (data@.len() as int) / (chunk_size as int),
                chunk_size >= 1,
        ;
    }
    let mut evals: Vec<FieldElement> = Vec::new();
    let mut i: usize = 0;
    while i < n_chunks
        invariant
            i <= n_chunks,
            n_chunks == (data@.len() as int) / (chunk_size as int),
            n_chunks * chunk_size <= data@.len(),
            data@.len() <= usize::MAX,
            chunk_size >= 1,
            evals@.len() == i,
            forall|j: int|
                0 <= j < i ==> (#[trigger] evals@[j]).bytes@ == fr_from_le_of(
                    chunk_of(data@, chunk_size as int, j),
                ),
        decreases n_chunks - i,
    {
        proof {
            assert((i + 1) * chunk_size <= n_chunks * chunk_size) by (nonlinear_arith)
                requires
                    i + 1 <= n_chunks,
                    chunk_size >= 1,
            ;
            assert(i * chunk_size + chunk_size == (i + 1) * chunk_size) by (nonlinear_arith);
        }
        let base: usize = i * chunk_size;
        let mut chunk: Vec<u8> = Vec::new();
        let mut k: usize = 0;
        while k < chunk_size
            invariant
                k <= chunk_size,
                chunk@.len() == k,
                base + chunk_size <= data@.len(),
                data@.len() <= usize::MAX,
                base == i * chunk_size,
                forall|t: int| 0 <= t < k ==> chunk@[t] == data@[base + t],
            decreases chunk_size - k,
        {
            chunk.push(data[base + k]);
            k = k + 1;
        }
        proof {
            assert(chunk@ =~= chunk_of(data@, chunk_size as int, i as int));
        }
        evals.push(fr_from_le(&chunk));
        i = i + 1;
    }
    proof {
        assert(fr_bytes_seq(evals@) =~= evals_of_bytes(data@, chunk_size as int));
    }
    let coeffs = ifft_fr(&evals, domain_size);
    Ok((Evaluations { evals }, Polynomial { coeffs }))
}

/// The commitment to the given coefficients under the given powers: the
/// multi-scalar multiplication of the first `coeffs.len()` powers.
pub open spec fn commit_of(powers: Seq<Seq<u8>>, coeffs: Seq<Seq<u8>>) -> Seq<u8> {
    msm_of(powers.subrange(0, coeffs.len() as int), coeffs)
}

/// Commits to a polynomial under the reference string.  Fails exactly when
/// the polynomial has more coefficients than the reference string has powers.
pub fn commit_polynomial(
    polynomial: &Polynomial,
    params: &GlobalParameters,
) -> (r: Result<Commitment, KzgError>)
    ensures
        match r {
            Ok(c) => {
                &&& polynomial.coeffs@.len() <= params.spec_powers().len()
                &&& c.0.bytes@ == commit_of(params.spec_powers(), fr_bytes_seq(polynomial.coeffs@))
                &&& g1_valid(c.0.bytes@)
            },
            Err(KzgError::TooLargePolynomial) => polynomial.coeffs@.len()
                > params.spec_powers().len(),
            Err(_) => false,
        },
{
    proof {
        use_type_invariant(params);
        reveal_params(params);
    }
    let n = polynomial.coeffs.len();
    if n > params.powers_of_g.len() {
        return Err(KzgError::TooLargePolynomial);
    }
    let mut bases: Vec<G1Element> = Vec::new();
    let mut i: usize = 0;
    while i < n
        invariant
            i <= n,
            n <= params.powers_of_g@.len(),
            bases@.len() == i,
            forall|j: int|
                0 <= j < i ==> (#[trigger] bases@[j]).bytes@ == params.powers_of_g@[j].bytes@,
            forall|j: int|
                0 <= j < params.powers_of_g@.len() ==> g1_valid(
                    #[trigger] params.powers_of_g@[j].bytes@,
                ),
        decreases n - i,
    {
        bases.push(G1Element { bytes: copy_bytes(&params.powers_of_g[i].bytes) });
        i = i + 1;
    }
    let c = msm(&bases, &polynomial.coeffs);
    proof {
        assert(g1_bytes_seq(bases@) =~= g1_bytes_seq(params.powers_of_g@).subrange(
            0,
            polynomial.coeffs@.len() as int,
        ));
    }
    Ok(Commitment(c))
}

/// The coefficients of the witness polynomial `(f - v) / (X - u)` for the
/// opening of `coeffs` at domain point `index`.
pub open spec fn witness_of(
    coeffs: Seq<Seq<u8>>,
    value: Seq<u8>,
    index: nat,
    domain_size: nat,
) -> Seq<Seq<u8>> {
    let u = domain_element_of(domain_size, index);
    let numerator = coeffs.update(0, fr_sub_of(coeffs[0], value));
    let denominator = seq![fr_sub_of(fr_from_u64_of(0), u), fr_from_u64_of(1)];
    poly_div_of(numerator, denominator)
}

/// Produces the opening proof that the committed polynomial takes its
/// `index`-th evaluation at the `index`-th domain point: the commitment to
/// the witness polynomial `(f - v) / (X - u)`, with no blinding.
pub fn generate_element_proof(
    element_index: usize,
    polynomial: &Polynomial,
    evaluations: &Evaluations,
    params: &GlobalParameters,
    domain_size: usize,
) -> (r: Result<Proof, KzgError>)
    requires
        polynomial.coeffs@.len() >= 1,
        is_pow2(domain_size as nat),
        domain_size <= 0x1_0000_0000,
    ensures
        ({
            let witness = witness_of(
                fr_bytes_seq(polynomial.coeffs@),
                fr_bytes_seq(evaluations.evals@)[element_index as int],
                element_index as nat,
                domain_size as nat,
            );
            match r {
                Ok(p) => {
                    &&& element_index < evaluations.evals@.len()
                    &&& witness.len() <= params.spec_powers().len()
                    &&& p.w.bytes@ == commit_of(params.spec_powers(), witness)
                    &&& p.random_v is None
                },
                Err(KzgError::EvaluationIndexOutOfBounds) => element_index
                    >= evaluations.evals@.len(),
                Err(KzgError::TooLargePolynomial) => {
                    &&& element_index < evaluations.evals@.len()
                    &&& witness.len() > params.spec_powers().len()
                },
                Err(_) => false,
            }
        }),
{
    if element_index >= evaluations.evals.len() {
        return Err(KzgError::EvaluationIndexOutOfBounds);
    }
    let u = domain_element(domain_size, element_index);
    let value = &evaluations.evals[element_index];
    let mut numerator: Vec<FieldElement> = Vec::new();
    numerator.push(fr_sub(&polynomial.coeffs[0], value));
    let n = polynomial.coeffs.len();
    let mut i: usize = 1;
    while i < n
        invariant
            1 <= i <= n,
            n == polynomial.coeffs@.len(),
            numerator@.len() == i,
            numerator@[0].bytes@ == fr_sub_of(
                polynomial.coeffs@[0].bytes@,
                evaluations.evals@[element_index as int].bytes@,
            ),
            forall|j: int|
                1 <= j < i ==> (#[trigger] numerator@[j]).bytes@ == polynomial.coeffs@[j].bytes@,
            element_index < evaluations.evals@.len(),
        decreases n - i,
    {
        numerator.push(FieldElement { bytes: copy_bytes(&polynomial.coeffs[i].bytes) });
        i = i + 1;
    }
    let zero = fr_from_u64(0);
    let one = fr_from_u64(1);
    let mut denominator: Vec<FieldElement> = Vec::new();
    denominator.push(fr_sub(&zero, &u));
    denominator.push(one);
    let witness = poly_div(&numerator, &denominator);
    proof {
        assert(fr_bytes_seq(numerator@) =~= fr_bytes_seq(polynomial.coeffs@).update(
            0,
            fr_sub_of(
                fr_bytes_seq(polynomial.coeffs@)[0],
                fr_bytes_seq(evaluations.evals@)[element_index as int],
            ),
        ));
        assert(fr_bytes_seq(denominator@) =~= seq![
            fr_sub_of(
                fr_from_u64_of(0),
                domain_element_of(domain_size as nat, element_index as nat),
            ),
            fr_from_u64_of(1),
        ]);
    }
    match commit_polynomial(&Polynomial { coeffs: witness }, params) {
        Ok(c) => Ok(Proof { w: c.0, random_v: None }),
        Err(_) => Err(KzgError::TooLargePolynomial),
    }
}

/// The byte view of an optional blinding scalar.
pub open spec fn opt_bytes(o: Option<FieldElement>) -> Option<Seq<u8>> {
    match o {
        Some(f) => Some(f.bytes@),
        None => None,
    }
}

/// The pairing equation `verify_element_proof` decides: with `u` the
/// `index`-th domain point, `G` the first power and `w` unblinded if a
/// blinding scalar is carried,
/// `e(C - v*G, H) == e(w, beta_H - u*H)`.
pub open spec fn verify_element_proof_of(
    index: nat,
    value: Seq<u8>,
    commitment: Seq<u8>,
    w: Seq<u8>,
    random_v: Option<Seq<u8>>,
    domain_size: nat,
    g0: Seq<u8>,
    h: Seq<u8>,
    beta_h: Seq<u8>,
) -> bool {
    &&& g1_valid(commitment)
    &&& g1_valid(w)
    &&& {
        let u = domain_element_of(domain_size, index);
        let lhs = pairing_of(g1_sub_of(commitment, g1_mul_of(g0, value)), h);
        let w_eff = match random_v {
            Some(rv) => g1_sub_of(w, g1_mul_of(g0, rv)),
            None => w,
        };
        let rhs = pairing_of(w_eff, g2_sub_of(beta_h, g2_mul_of(h, u)));
        lhs == rhs
    }
}

/// Checks an opening proof: that the committed polynomial takes `element` as
/// its value at the `index`-th domain point.  Returns `false` (never fails)
/// on any non-canonical point encoding.
pub fn verify_element_proof(
    element_index: usize,
    element: &FieldElement,
    commitment: &Commitment,
    proof: &Proof,
    domain_size: usize,
    params: &GlobalParameters,
) -> (r: bool)
    requires
        is_pow2(domain_size as nat),
        domain_size <= 0x1_0000_0000,
    ensures
        r == verify_element_proof_of(
            element_index as nat,
            element.bytes@,
            commitment.0.bytes@,
            proof.w.bytes@,
            opt_bytes(proof.random_v),
            domain_size as nat,
            params.spec_powers()[0],
            params.spec_h(),
            params.spec_beta_h(),
        ),
{
    proof {
        use_type_invariant(params);
        reveal_params(params);
    }
    if !g1_check(&commitment.0.bytes) {
        return false;
    }
    if !g1_check(&proof.w.bytes) {
        return false;
    }
    let u = domain_element(domain_size, element_index);
    let v_g = g1_mul(&params.powers_of_g[0], element);
    let c_shift = g1_sub(&commitment.0, &v_g);
    let lhs = pairing(&c_shift, &params.h);
    let u_h = g2_mul(&params.h, &u);
    let denom = g2_sub(&params.beta_h, &u_h);
    let rhs = match &proof.random_v {
        Some(rv) => {
            let blind = g1_mul(&params.powers_of_g[0], rv);
            let w_eff = g1_sub(&proof.w, &blind);
            pairing(&w_eff, &denom)
        },
        None => pairing(&proof.w, &denom),
    };
    bytes_eq(&lhs, &rhs)
}

} // verus!
