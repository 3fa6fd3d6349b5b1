use sha2::Digest;
use vstd::prelude::*;

verus! {

/// The lowercase hexadecimal SHA-256 fingerprint of a text, as the outside
/// hashing routine computes it. The digest depends on the characters alone.
pub uninterp spec fn sha256_hex_of(s: Seq<char>) -> Seq<char>;

/// Relies on sha2's `Sha256::digest` (a 32-byte digest of the input bytes,
/// a function of the input alone) and on hex's `encode` (two lowercase hex
/// digits for each byte).
#[verifier::external_body]
pub fn sha256_hex(s: &str) -> (r: String)
    ensures
        r@ == sha256_hex_of(s@),
        r@.len() == 64,
{
    hex::encode(sha2::Sha256::digest(s.as_bytes()))
}

} // verus!
