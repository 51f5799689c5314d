//! The batched FK20 proof generator: all opening proofs of a committed
//! polynomial in one pass, by the three-stage Toeplitz/FFT method, with an
//! optional precomputed cache for the polynomial-independent first stage.

use vstd::prelude::*;

use crate::backend::{
    fft_fr, fft_fr_of, fft_g1, fft_g1_of, fr_from_u64, fr_from_u64_of, fr_rand, g1_add,
    g1_add_of, g1_mul, g1_mul_of, g1_valid, ifft_g1, ifft_g1_of,
};
use crate::elements::{copy_bytes, fr_bytes_seq, g1_bytes_seq, is_pow2, FieldElement, G1Element};
use crate::kzg::{reveal_params, GlobalParameters, Polynomial, Proof};

verus! {

/// The first `d` powers of the reference string in reverse order.
pub open spec fn reversed_powers(powers: Seq<Seq<u8>>, d: nat) -> Seq<Seq<u8>> {
    Seq::new(d, |i: int| powers[d - 1 - i])
}

/// Stage one: the forward FFT, on the double-size domain, of the reversed
/// first `d` powers.  Depends only on the reference string and the degree.
pub open spec fn toeplitz1_of(powers: Seq<Seq<u8>>, d: nat) -> Seq<Seq<u8>> {
    fft_g1_of(2 * d, reversed_powers(powers, d))
}

/// The polynomial's coefficients preceded by as many zero scalars.
pub open spec fn toeplitz_coefficients_of(coeffs: Seq<Seq<u8>>) -> Seq<Seq<u8>> {
    Seq::new(coeffs.len(), |i: int| fr_from_u64_of(0)) + coeffs
}

/// Stage two: the pointwise scalar-times-point product of the extended
/// vector with the FFT of the zero-padded coefficients.
pub open spec fn toeplitz2_of(ext: Seq<Seq<u8>>, cfft: Seq<Seq<u8>>) -> Seq<Seq<u8>> {
    Seq::new(ext.len(), |i: int| g1_mul_of(ext[i], cfft[i]))
}

/// Stages one to three composed: the `h` vector of the FK20 method for the
/// given coefficients and reference string.
pub open spec fn fk20_h_of(coeffs: Seq<Seq<u8>>, powers: Seq<Seq<u8>>) -> Seq<Seq<u8>> {
    let d = coeffs.len();
    let ext = toeplitz1_of(powers, d);
    let cfft = fft_fr_of(2 * d, toeplitz_coefficients_of(coeffs));
    ifft_g1_of(2 * d, toeplitz2_of(ext, cfft))
}

/// The unblinded witness points of the whole batch: the degree-sized FFT of
/// the `h` vector.  A function of the polynomial and the reference string
/// alone — in particular, independent of any cache.
pub open spec fn fk20_witnesses_of(coeffs: Seq<Seq<u8>>, powers: Seq<Seq<u8>>) -> Seq<Seq<u8>> {
    fft_g1_of(coeffs.len(), fk20_h_of(coeffs, powers))
}

/// What the batched generator promises of one returned proof: it carries a
/// blinding scalar, and its witness point is the given base witness shifted
/// by the blinding multiple of the generator.
pub open spec fn fk20_proof_ok(p: Proof, base: Seq<u8>, g0: Seq<u8>) -> bool {
    match p.random_v {
        Some(rv) => p.w.bytes@ == g1_add_of(base, g1_mul_of(g0, rv.bytes@)),
        None => false,
    }
}

/// What the batched generator promises of the whole batch for a polynomial
/// with coefficients `coeffs` under the powers `powers`.
pub open spec fn fk20_output_ok(r: Seq<Proof>, coeffs: Seq<Seq<u8>>, powers: Seq<Seq<u8>>) -> bool {
    &&& r.len() == coeffs.len()
    &&& forall|i: int|
        0 <= i < r.len() ==> fk20_proof_ok(
            #[trigger] r[i],
            fk20_witnesses_of(coeffs, powers)[i],
            powers[0],
        )
}

/// The precomputed first stage for one polynomial degree: safe to reuse,
/// read-only, across every batch of that degree under the same parameters.
#[derive(Debug)]
pub struct Toeplitz1Cache(pub(crate) Vec<G1Element>);

impl Toeplitz1Cache {
    /// The encodings of the cached points.
    pub closed spec fn spec_elements(&self) -> Seq<Seq<u8>> {
        g1_bytes_seq(self.0@)
    }

    /// Whether the cache holds stage one for degree `d` under `powers`.
    pub open spec fn is_for(&self, powers: Seq<Seq<u8>>, d: nat) -> bool {
        &&& self.spec_elements() == toeplitz1_of(powers, d)
        &&& self.spec_elements().len() == 2 * d
    }

    /// Every cached point is a canonical encoding.
    #[verifier::type_invariant]
    pub(crate) open spec fn wf(&self) -> bool {
        forall|i: int| 0 <= i < self.0@.len() ==> g1_valid(#[trigger] self.0@[i].bytes@)
    }

    /// Precomputes stage one for the given degree.
    pub fn with_size(global_parameters: &GlobalParameters, polynomial_degree: usize) -> (r:
        Toeplitz1Cache)
        requires
            polynomial_degree >= 1,
            is_pow2(polynomial_degree as nat),
            2 * polynomial_degree <= 0xffff_ffff,
            polynomial_degree <= global_parameters.spec_powers().len(),
        ensures
            r.is_for(global_parameters.spec_powers(), polynomial_degree as nat),
    {
        Toeplitz1Cache(compute_extended_vector(global_parameters, polynomial_degree))
    }
}

/// Bridges the cache's public view to its field, for use inside the crate.
pub(crate) proof fn reveal_cache(c: &Toeplitz1Cache)
    ensures
        c.spec_elements() == g1_bytes_seq(c.0@),
{
}

/// Stage one on an already reversed prefix of the reference string.
fn toeplitz1(global_parameters: &Vec<G1Element>, polynomial_degree: usize) -> (r: Vec<G1Element>)
    requires
        global_parameters@.len() == polynomial_degree,
        polynomial_degree >= 1,
        is_pow2(polynomial_degree as nat),
        2 * polynomial_degree <= 0xffff_ffff,
        forall|i: int|
            0 <= i < global_parameters@.len() ==> g1_valid(
                #[trigger] global_parameters@[i].bytes@,
            ),
    ensures
        g1_bytes_seq(r@) == fft_g1_of(
            2 * polynomial_degree as nat,
            g1_bytes_seq(global_parameters@),
        ),
        r@.len() == 2 * polynomial_degree,
        forall|i: int| 0 <= i < r@.len() ==> g1_valid(#[trigger] r@[i].bytes@),
{
    proof {
        assert(is_pow2(2 * polynomial_degree as nat));
    }
    fft_g1(global_parameters, 2 * polynomial_degree)
}

/// Stage two: transforms the padded coefficients and multiplies pointwise
/// into the extended vector.
fn toeplitz2(coefficients: &Vec<FieldElement>, extended_vector: &Vec<G1Element>) -> (r: Vec<
    G1Element,
>)
    requires
        coefficients@.len() == extended_vector@.len(),
        coefficients@.len() >= 1,
        is_pow2(coefficients@.len()),
        coefficients@.len() <= 0xffff_ffff,
        forall|i: int|
            0 <= i < extended_vector@.len() ==> g1_valid(#[trigger] extended_vector@[i].bytes@),
    ensures
        g1_bytes_seq(r@) == toeplitz2_of(
            g1_bytes_seq(extended_vector@),
            fft_fr_of(coefficients@.len(), fr_bytes_seq(coefficients@)),
        ),
        r@.len() == coefficients@.len(),
        forall|i: int| 0 <= i < r@.len() ==> g1_valid(#[trigger] r@[i].bytes@),
{
    let n = coefficients.len();
    let cfft = fft_fr(coefficients, n);
    let mut out: Vec<G1Element> = Vec::new();
    let mut i: usize = 0;
    while i < n
        invariant
            i <= n,
            n == coefficients@.len(),
            n == extended_vector@.len(),
            cfft@.len() == n,
            fr_bytes_seq(cfft@) == fft_fr_of(n as nat, fr_bytes_seq(coefficients@)),
            out@.len() == i,
            forall|j: int|
                0 <= j < n ==> g1_valid(#[trigger] extended_vector@[j].bytes@),
            forall|j: int|
                0 <= j < i ==> (#[trigger] out@[j]).bytes@ == g1_mul_of(
                    extended_vector@[j].bytes@,
                    fft_fr_of(n as nat, fr_bytes_seq(coefficients@))[j],
                ),
            forall|j: int| 0 <= j < i ==> g1_valid(#[trigger] out@[j].bytes@),
        decreases n - i,
    {
        proof {
            assert(fr_bytes_seq(cfft@)[i as int] == cfft@[i as int].bytes@);
        }
        out.push(g1_mul(&extended_vector[i], &cfft[i]));
        i = i + 1;
    }
    proof {
        assert(g1_bytes_seq(out@) =~= toeplitz2_of(
            g1_bytes_seq(extended_vector@),
            fft_fr_of(n as nat, fr_bytes_seq(coefficients@)),
        ));
    }
    out
}

/// Stage three: the inverse FFT of the pointwise product.
fn toeplitz3(h_extended_fft: &Vec<G1Element>) -> (r: Vec<G1Element>)
    requires
        h_extended_fft@.len() >= 1,
        is_pow2(h_extended_fft@.len()),
        h_extended_fft@.len() <= 0xffff_ffff,
        forall|i: int|
            0 <= i < h_extended_fft@.len() ==> g1_valid(#[trigger] h_extended_fft@[i].bytes@),
    ensures
        g1_bytes_seq(r@) == ifft_g1_of(h_extended_fft@.len(), g1_bytes_seq(h_extended_fft@)),
        r@.len() == h_extended_fft@.len(),
        forall|i: int| 0 <= i < r@.len() ==> g1_valid(#[trigger] r@[i].bytes@),
{
    ifft_g1(h_extended_fft, h_extended_fft.len())
}

/// Computes stage one from the parameters: reverses the first
/// `polynomial_degree` powers and transforms them on the double domain.
fn compute_extended_vector(params: &GlobalParameters, polynomial_degree: usize) -> (r: Vec<
    G1Element,
>)
    requires
        polynomial_degree >= 1,
        is_pow2(polynomial_degree as nat),
        2 * polynomial_degree <= 0xffff_ffff,
        polynomial_degree <= params.spec_powers().len(),
    ensures
        g1_bytes_seq(r@) == toeplitz1_of(params.spec_powers(), polynomial_degree as nat),
        r@.len() == 2 * polynomial_degree,
        forall|i: int| 0 <= i < r@.len() ==> g1_valid(#[trigger] r@[i].bytes@),
{
    proof {
        use_type_invariant(params);
        reveal_params(params);
    }
    let d = polynomial_degree;
    let mut rev: Vec<G1Element> = Vec::new();
    let mut i: usize = 0;
    while i < d
        invariant
            i <= d,
            d >= 1,
            d <= params.powers_of_g@.len(),
            rev@.len() == i,
            forall|j: int|
                0 <= j < params.powers_of_g@.len() ==> g1_valid(
                    #[trigger] params.powers_of_g@[j].bytes@,
                ),
            forall|j: int|
                0 <= j < i ==> (#[trigger] rev@[j]).bytes@ == params.powers_of_g@[d - 1 - j].bytes@,
            forall|j: int| 0 <= j < i ==> g1_valid(#[trigger] rev@[j].bytes@),
        decreases d - i,
    {
        rev.push(G1Element { bytes: copy_bytes(&params.powers_of_g[d - 1 - i].bytes) });
        i = i + 1;
    }
    proof {
        assert(g1_bytes_seq(rev@) =~= reversed_powers(
            params.spec_powers(),
            polynomial_degree as nat,
        ));
    }
    toeplitz1(&rev, d)
}

/// A fresh copy of the cached extended vector.
fn copy_cache_elements(c: &Toeplitz1Cache) -> (r: Vec<G1Element>)
    ensures
        g1_bytes_seq(r@) == c.spec_elements(),
        r@.len() == c.spec_elements().len(),
        forall|i: int| 0 <= i < r@.len() ==> g1_valid(#[trigger] r@[i].bytes@),
{
    proof {
        use_type_invariant(c);
        reveal_cache(c);
    }
    let n = c.0.len();
    let mut out: Vec<G1Element> = Vec::new();
    let mut i: usize = 0;
    while i < n
        invariant
            i <= n,
            n == c.0@.len(),
            out@.len() == i,
            forall|j: int| 0 <= j < c.0@.len() ==> g1_valid(#[trigger] c.0@[j].bytes@),
            forall|j: int| 0 <= j < i ==> (#[trigger] out@[j]).bytes@ == c.0@[j].bytes@,
            forall|j: int| 0 <= j < i ==> g1_valid(#[trigger] out@[j].bytes@),
        decreases n - i,
    {
        out.push(G1Element { bytes: copy_bytes(&c.0[i].bytes) });
        i = i + 1;
    }
    proof {
        assert(g1_bytes_seq(out@) =~= c.spec_elements());
    }
    out
}

/// Generates the opening proofs for every domain point of a degree-`d`
/// polynomial in one batch, equivalent point for point to `d` independent
/// single-point openings.  Each witness is blinded by a fresh random
/// multiple of the generator, recorded in the proof's `random_v`.
///
/// The witness points are a function of the polynomial and the parameters
/// alone: a supplied cache must hold stage one for this degree, and then
/// cannot change the output beyond the blinding.
pub fn fk20_batch_generate_elements_proofs(
    polynomial: &Polynomial,
    global_parameters: &GlobalParameters,
    toeplitz1_cache: Option<&Toeplitz1Cache>,
) -> (r: Vec<Proof>)
    requires
        polynomial.coeffs@.len() >= 1,
        is_pow2(polynomial.coeffs@.len()),
        2 * polynomial.coeffs@.len() <= 0xffff_ffff,
        polynomial.coeffs@.len() <= global_parameters.spec_powers().len(),
        match toeplitz1_cache {
            Some(c) => c.is_for(
                global_parameters.spec_powers(),
                polynomial.coeffs@.len(),
            ),
            None => true,
        },
    ensures
        fk20_output_ok(
            r@,
            fr_bytes_seq(polynomial.coeffs@),
            global_parameters.spec_powers(),
        ),
{
    proof {
        use_type_invariant(global_parameters);
        reveal_params(global_parameters);
    }
    let d = polynomial.coeffs.len();
    let ghost coeffs_bytes = fr_bytes_seq(polynomial.coeffs@);
    let ghost powers_bytes = global_parameters.spec_powers();
    let extended_vector: Vec<G1Element> = match toeplitz1_cache {
        Some(c) => copy_cache_elements(c),
        None => compute_extended_vector(global_parameters, d),
    };
    assert(g1_bytes_seq(extended_vector@) == toeplitz1_of(powers_bytes, d as nat));
    assert(extended_vector@.len() == 2 * d);
    let mut toeplitz_coefficients: Vec<FieldElement> = Vec::new();
    let mut i: usize = 0;
    while i < d
        invariant
            i <= d,
            toeplitz_coefficients@.len() == i,
            forall|j: int|
                0 <= j < i ==> (#[trigger] toeplitz_coefficients@[j]).bytes@ == fr_from_u64_of(0),
        decreases d - i,
    {
        toeplitz_coefficients.push(fr_from_u64(0));
        i = i + 1;
    }
    let mut k: usize = 0;
    while k < d
        invariant
            k <= d,
            d == polynomial.coeffs@.len(),
            toeplitz_coefficients@.len() == d + k,
            forall|j: int|
                0 <= j < d ==> (#[trigger] toeplitz_coefficients@[j]).bytes@ == fr_from_u64_of(0),
            forall|j: int|
                d <= j < d + k ==> (#[trigger] toeplitz_coefficients@[j]).bytes@
                    == polynomial.coeffs@[j - d].bytes@,
        decreases d - k,
    {
        toeplitz_coefficients.push(FieldElement {
            bytes: copy_bytes(&polynomial.coeffs[k].bytes),
        });
        k = k + 1;
    }
    proof {
        assert(coeffs_bytes.len() == d);
        assert forall|j: int| 0 <= j < 2 * d implies fr_bytes_seq(toeplitz_coefficients@)[j]
            == toeplitz_coefficients_of(coeffs_bytes)[j] by {
            if j < d {
                assert(toeplitz_coefficients@[j].bytes@ == fr_from_u64_of(0));
            } else {
                assert(toeplitz_coefficients@[j].bytes@ == polynomial.coeffs@[j - d].bytes@);
            }
        }
        assert(fr_bytes_seq(toeplitz_coefficients@) =~= toeplitz_coefficients_of(coeffs_bytes));
        assert(is_pow2(2 * d as nat));
    }
    let h_extended_vector = toeplitz2(&toeplitz_coefficients, &extended_vector);
    let h_vector = toeplitz3(&h_extended_vector);
    let fft_result = fft_g1(&h_vector, d);
    proof {
        assert(g1_bytes_seq(fft_result@) == fk20_witnesses_of(coeffs_bytes, powers_bytes));
    }
    let mut proofs: Vec<Proof> = Vec::new();
    let mut t: usize = 0;
    while t < d
        invariant
            t <= d,
            d >= 1,
            fft_result@.len() == d,
            g1_bytes_seq(fft_result@) == fk20_witnesses_of(coeffs_bytes, powers_bytes),
            forall|j: int| 0 <= j < fft_result@.len() ==> g1_valid(#[trigger] fft_result@[j].bytes@),
            global_parameters.powers_of_g@.len() >= 1,
            g1_valid(global_parameters.powers_of_g@[0].bytes@),
            powers_bytes == g1_bytes_seq(global_parameters.powers_of_g@),
            proofs@.len() == t,
            forall|j: int|
                0 <= j < t ==> fk20_proof_ok(
                    #[trigger] proofs@[j],
                    fk20_witnesses_of(coeffs_bytes, powers_bytes)[j],
                    powers_bytes[0],
                ),
        decreases d - t,
    {
        let random_v = fr_rand();
        let blind = g1_mul(&global_parameters.powers_of_g[0], &random_v);
        let w = g1_add(&fft_result[t], &blind);
        proof {
            assert(g1_bytes_seq(fft_result@)[t as int] == fft_result@[t as int].bytes@);
            assert(powers_bytes[0] == global_parameters.powers_of_g@[0].bytes@);
        }
        proofs.push(Proof { w, random_v: Some(random_v) });
        t = t + 1;
    }
    proofs
}

/// Batched proof generation without a precomputed cache.
pub fn fk20_batch_generate_proofs(
    polynomial: &Polynomial,
    global_parameters: &GlobalParameters,
) -> (r: Vec<Proof>)
    requires
        polynomial.coeffs@.len() >= 1,
        is_pow2(polynomial.coeffs@.len()),
        2 * polynomial.coeffs@.len() <= 0xffff_ffff,
        polynomial.coeffs@.len() <= global_parameters.spec_powers().len(),
    ensures
        fk20_output_ok(
            r@,
            fr_bytes_seq(polynomial.coeffs@),
            global_parameters.spec_powers(),
        ),
{
    fk20_batch_generate_elements_proofs(polynomial, global_parameters, None)
}

/// Two batches generated for the same polynomial and parameters — whether or
/// not either used a precomputed cache — blind the very same witness
/// sequence point for point; only the blinding scalars may differ, so a
/// verifier accepts one exactly where it accepts the other.
pub proof fn lemma_cache_equivalence(
    p1: Seq<Proof>,
    p2: Seq<Proof>,
    coeffs: Seq<Seq<u8>>,
    powers: Seq<Seq<u8>>,
)
    requires
        fk20_output_ok(p1, coeffs, powers),
        fk20_output_ok(p2, coeffs, powers),
    ensures
        p1.len() == p2.len(),
        forall|i: int|
            0 <= i < p1.len() ==> fk20_proof_ok(
                #[trigger] p1[i],
                fk20_witnesses_of(coeffs, powers)[i],
                powers[0],
            ) && fk20_proof_ok(#[trigger] p2[i], fk20_witnesses_of(coeffs, powers)[i], powers[0]),
{
}

} // verus!

