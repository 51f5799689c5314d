//! Byte-level representations of the algebraic values the library works on.
//!
//! Scalars and curve points are carried as their canonical encodings: a
//! scalar of the BLS12-381 scalar field as 32 little-endian bytes, a point of
//! the groups G1 / G2 as its 48- / 96-byte compressed encoding.  The encodings
//! are plain values, so contracts can speak about them directly; the algebra
//! itself happens behind the trusted wrappers in [`crate::backend`].

use vstd::prelude::*;

verus! {

/// A scalar of the BLS12-381 scalar field, as its canonical 32-byte
/// little-endian encoding.
#[derive(Clone, Debug)]
pub struct FieldElement {
    pub bytes: Vec<u8>,
}

/// A point of the G1 group, as its 96-byte affine encoding.
#[derive(Clone, Debug)]
pub struct G1Element {
    pub bytes: Vec<u8>,
}

/// A point of the G2 group, as its 192-byte affine encoding.
#[derive(Clone, Debug)]
pub struct G2Element {
    pub bytes: Vec<u8>,
}

/// The byte encodings of a sequence of scalars.
pub open spec fn fr_bytes_seq(s: Seq<FieldElement>) -> Seq<Seq<u8>> {
    s.map(|i: int, e: FieldElement| e.bytes@)
}

/// The byte encodings of a sequence of G1 points.
pub open spec fn g1_bytes_seq(s: Seq<G1Element>) -> Seq<Seq<u8>> {
    s.map(|i: int, e: G1Element| e.bytes@)
}

/// Whether `n` is a power of two.
pub open spec fn is_pow2(n: nat) -> bool
    decreases n,
{
    if n == 0 {
        false
    } else if n == 1 {
        true
    } else {
        n % 2 == 0 && is_pow2(n / 2)
    }
}

/// Runtime check that `n` is a power of two.
pub fn check_pow2(n: usize) -> (r: bool)
    ensures
        r == is_pow2(n as nat),
{
    if n == 0 {
        return false;
    }
    let mut m: usize = n;
    while m > 1
        invariant
            m >= 1,
            is_pow2(n as nat) == is_pow2(m as nat),
        decreases m,
    {
        if m % 2 == 1 {
            return false;
        }
        m = m / 2;
    }
    true
}

/// A fresh vector holding the same bytes.
pub fn copy_bytes(src: &Vec<u8>) -> (r: Vec<u8>)
    ensures
        r@ == src@,
{
    let n = src.len();
    let mut out: Vec<u8> = Vec::new();
    let mut i: usize = 0;
    while i < n
        invariant
            i <= n,
            n == src@.len(),
            out@.len() == i,
            forall|j: int| 0 <= j < i ==> out@[j] == src@[j],
        decreases n - i,
    {
        out.push(src[i]);
        i = i + 1;
    }
    proof {
        assert(out@ =~= src@);
    }
    out
}

/// Appends the bytes of `src` to `dst`.
pub fn extend_bytes(dst: &mut Vec<u8>, src: &Vec<u8>)
    ensures
        final(dst)@ == old(dst)@ + src@,
{
    let n = src.len();
    let mut i: usize = 0;
    while i < n
        invariant
            i <= n,
            n == src@.len(),
            dst@ == old(dst)@ + src@.subrange(0, i as int),
        decreases n - i,
    {
        dst.push(src[i]);
        proof {
            assert(old(dst)@ + src@.subrange(0, i + 1) =~= (old(dst)@ + src@.subrange(
                0,
                i as int,
            )).push(src@[i as int]));
        }
        i = i + 1;
    }
    proof {
        assert(old(dst)@ + src@.subrange(0, n as int) =~= old(dst)@ + src@);
    }
}

/// Byte-for-byte equality of two byte vectors.
pub fn bytes_eq(a: &Vec<u8>, b: &Vec<u8>) -> (r: bool)
    ensures
        r == (a@ == b@),
{
    if a.len() != b.len() {
        assert(a@.len() != b@.len());
        return false;
    }
    let n = a.len();
    let mut i: usize = 0;
    while i < n
        invariant
            i <= n,
            n == a@.len(),
            n == b@.len(),
            forall|j: int| 0 <= j < i ==> a@[j] == b@[j],
        decreases n - i,
    {
        if a[i] != b[i] {
            return false;
        }
        i = i + 1;
    }
    proof {
        assert(a@ =~= b@);
    }
    true
}

} // verus!
