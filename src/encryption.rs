//! Hashing of entries.

use vstd::prelude::*;
use sha2::Digest;

verus! {

/// The lower-case hexadecimal SHA-256 digest of the UTF-8 text `s`.
pub uninterp spec fn sha256_hex_of(s: Seq<char>) -> Seq<char>;

/// Relies on sha2's `Sha256` digest of the text's bytes, printed with
/// generic-array's `LowerHex`: two lower-case digits for each of its 32 bytes.
#[verifier::external_body]
fn sha256_hex(msg: &str) -> (r: String)
    ensures
        r@ == sha256_hex_of(msg@),
        r@.len() == 64,
{
    let mut hasher = sha2::Sha256::new();
    hasher.update(msg);
    format!("{:x}", hasher.finalize())
}

/// The SHA-256 digest of `msg`, as 64 lower-case hexadecimal digits.
pub fn encrypt(msg: &str) -> (r: String)
    ensures
        r@ == sha256_hex_of(msg@),
        r@.len() == 64,
{
    sha256_hex(msg)
}

} // verus!
