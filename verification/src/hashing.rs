//! Content hashes.

use vstd::prelude::*;

verus! {

/// The BLAKE3 hash of `bytes`, written as 64 lower-case hexadecimal digits.
pub uninterp spec fn blake3_hex(bytes: Seq<u8>) -> Seq<char>;

/// Calls `blake3::hash` on the bytes and `Hash::to_hex` on the hash. The
/// digest is a function of the bytes alone; the contract gives it a name
/// and claims nothing else of it.
#[verifier::external_body]
pub(crate) fn content_hash(bytes: &[u8]) -> (hex: String)
    ensures
        hex@ == blake3_hex(bytes@),
{
    blake3::hash(bytes).to_hex().to_string()
}

} // verus!
