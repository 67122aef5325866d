//! The one cryptographic primitive of the ledger: SHA-256 over text, rendered
//! as uppercase hexadecimal, together with the proof-of-work target predicate.

use sha2::{Digest, Sha256};
use vstd::prelude::*;
use vstd::string::StrSliceExecFns;

verus! {

/// The SHA-256 digest of a character sequence's UTF-8 bytes, rendered as
/// uppercase hexadecimal text. Left uninterpreted: only the `sha2` crate
/// computes it, and every contract of this library speaks of it by this name.
pub uninterp spec fn sha256_hex_of(s: Seq<char>) -> Seq<char>;

/// Relies on `sha2::Sha256` (the one-shot `Digest::digest`) and on the
/// uppercase-hex `format!` rendering of its 32-byte output as two hex digits
/// per byte, both functions of the input bytes alone.
#[verifier::external_body]
pub(crate) fn sha256_hex(data: &str) -> (r: String)
    ensures
        r@ == sha256_hex_of(data@),
        r@.len() == 64,
{
    format!("{:X}", Sha256::digest(data.as_bytes()))
}

/// The proof-of-work target: the first `d` characters of `s` exist and are
/// all the hexadecimal digit `'0'`.
pub open spec fn leading_zeros(s: Seq<char>, d: nat) -> bool {
    &&& d <= s.len()
    &&& forall|i: int| 0 <= i < d ==> s[i] == '0'
}

/// Checks whether a digest meets the difficulty target.
pub(crate) fn has_leading_zeros(s: &str, d: usize) -> (r: bool)
    ensures
        r == leading_zeros(s@, d as nat),
{
    let n = s.unicode_len();
    if n < d {
        return false;
    }
    let mut i: usize = 0;
    while i < d
        invariant
            i <= d,
            d <= s@.len(),
            forall|j: int| 0 <= j < i ==> s@[j] == '0',
        decreases d - i,
    {
        if s.get_char(i) != '0' {
            return false;
        }
        i += 1;
    }
    true
}

} // verus!
