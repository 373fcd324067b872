//! The integrity verifier: a SHA-256 content check that gates installation.
//!
//! The digest itself comes from the `sha2` crate and is only named here
//! ([`sha256_of`]); everything around it — hex encoding and the
//! case-insensitive comparison against the digest a catalog entry declares —
//! is verified.  Hex digests are handled as byte strings of ASCII digits.

use vstd::prelude::*;
use vstd::slice::slice_to_vec;
use sha2::Digest;
use crate::errors::Error;

verus! {

/// The 32-byte SHA-256 digest of `data`, as the `sha2` crate computes it.
pub uninterp spec fn sha256_of(data: Seq<u8>) -> Seq<u8>;

/// Relies on `sha2::Sha256` (through the `Digest` trait): hashes the whole
/// buffer and returns the 32-byte digest, a function of `data` alone.
#[verifier::external_body]
fn sha256_digest(data: &[u8]) -> (r: Vec<u8>)
    ensures
        r@ == sha256_of(data@),
        r@.len() == 32,
{
    sha2::Sha256::digest(data).to_vec()
}

/// The lowercase hex digit for a value below 16, as an ASCII byte.
pub open spec fn spec_hex_digit(v: u8) -> u8
    recommends
        v < 16,
{
    if v < 10 {
        (v + 48) as u8  // '0'..'9'
    } else {
        (v + 87) as u8  // 'a'..'f'
    }
}

/// The lowercase hex encoding of a byte string: two ASCII digits per byte,
/// high nibble first.
pub open spec fn spec_hex_lower(data: Seq<u8>) -> Seq<u8>
    decreases data.len(),
{
    if data.len() == 0 {
        Seq::empty()
    } else {
        seq![spec_hex_digit(data.first() / 16), spec_hex_digit(data.first() % 16)]
            + spec_hex_lower(data.drop_first())
    }
}

/// ASCII lowercasing of one byte: maps `A`..`Z` to `a`..`z`.
pub open spec fn spec_lower_byte(b: u8) -> u8 {
    if 65 <= b && b <= 90 {
        (b + 32) as u8
    } else {
        b
    }
}

/// Case-insensitive equality of two ASCII strings, the sense in which an
/// expected digest is compared with a computed one.
pub open spec fn spec_eq_nocase(a: Seq<u8>, b: Seq<u8>) -> bool {
    a.len() == b.len() && forall|i: int|
        0 <= i < a.len() ==> spec_lower_byte(a[i]) == spec_lower_byte(b[i])
}

/// The lowercase hex digest of `data`, the value `verify` compares against.
pub open spec fn spec_sha256_hex(data: Seq<u8>) -> Seq<u8> {
    spec_hex_lower(sha256_of(data))
}

/// Encodes a byte string as lowercase ASCII hex.
pub fn hex_lower(data: &[u8]) -> (r: Vec<u8>)
    ensures
        r@ == spec_hex_lower(data@),
{
    let mut out: Vec<u8> = Vec::new();
    let n = data.len();
    assert(data@.skip(0) == data@);
    for i in 0..n
        invariant
            n == data@.len(),
            out@ + spec_hex_lower(data@.skip(i as int)) == spec_hex_lower(data@),
            out@.len() == 2 * i,
    {
        let b = data[i];
        let hi = b / 16;
        let lo = b % 16;
        let hi_d = if hi < 10 { hi + 48 } else { hi + 87 };
        let lo_d = if lo < 10 { lo + 48 } else { lo + 87 };
        out.push(hi_d);
        out.push(lo_d);
        proof {
            assert(data@.skip(i as int).first() == data@[i as int]);
            assert(data@.skip(i as int).drop_first() =~= data@.skip(i + 1));
        }
    }
    proof {
        assert(data@.skip(n as int) =~= Seq::<u8>::empty());
    }
    out
}

/// Compares two ASCII strings ignoring ASCII letter case.
pub fn eq_nocase(a: &[u8], b: &[u8]) -> (r: bool)
    ensures
        r == spec_eq_nocase(a@, b@),
{
    if a.len() != b.len() {
        return false;
    }
    let n = a.len();
    for i in 0..n
        invariant
            n == a@.len() == b@.len(),
            forall|j: int| 0 <= j < i ==> spec_lower_byte(a@[j]) == spec_lower_byte(b@[j]),
    {
        let x = a[i];
        let y = b[i];
        let xl = if 65 <= x && x <= 90 { x + 32 } else { x };
        let yl = if 65 <= y && y <= 90 { y + 32 } else { y };
        if xl != yl {
            return false;
        }
    }
    true
}

/// The computed lowercase hex digest of `data`.
pub fn sha256_hex(data: &[u8]) -> (r: Vec<u8>)
    ensures
        r@ == spec_sha256_hex(data@),
        r@.len() == 64,
{
    let digest = sha256_digest(data);
    proof {
        lemma_hex_lower_len(digest@);
    }
    hex_lower(digest.as_slice())
}

proof fn lemma_hex_lower_len(data: Seq<u8>)
    ensures
        spec_hex_lower(data).len() == 2 * data.len(),
    decreases data.len(),
{
    if data.len() > 0 {
        lemma_hex_lower_len(data.drop_first());
    }
}

/// Whether a computed digest and an expected one agree, ignoring case.
pub fn digest_matches(found: &[u8], expected: &[u8]) -> (r: bool)
    ensures
        r == spec_eq_nocase(found@, expected@),
{
    eq_nocase(found, expected)
}

/// The integrity gate: succeeds exactly when the SHA-256 digest of `data`
/// equals `expected` under a case-insensitive hex comparison.  On mismatch
/// the error carries the expected digest and the one found, both as ASCII
/// hex bytes.
pub fn verify(data: &[u8], expected: &[u8]) -> (r: Result<(), Error>)
    ensures
        r is Ok <==> spec_eq_nocase(spec_sha256_hex(data@), expected@),
        r matches Err(e) ==> (e matches Error::HashMismatch { expected: x, found: f }
            && x@ == expected@ && f@ == spec_sha256_hex(data@)),
{
    let found = sha256_hex(data);
    if digest_matches(found.as_slice(), expected) {
        Ok(())
    } else {
        Err(Error::HashMismatch { expected: slice_to_vec(expected), found })
    }
}

} // verus!
