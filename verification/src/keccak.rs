use tiny_keccak::Hasher;
use vstd::prelude::*;

verus! {

/// The Keccak-256 digest of a byte string, as computed by `tiny_keccak`.
pub uninterp spec fn keccak256(data: Seq<u8>) -> Seq<u8>;

/// Hashes `data` with `tiny_keccak::Keccak::v256` (one `update`, then
/// `finalize` into a 32-byte buffer).
///
/// Trusted: the contract claims only that the digest is the value that
/// `keccak256` names for the bytes hashed; it says nothing about what that
/// value is.
#[verifier::external_body]
pub(crate) fn keccak256_digest(data: &[u8]) -> (digest: [u8; 32])
    ensures
        digest@ == keccak256(data@),
{
    let mut hasher = tiny_keccak::Keccak::v256();
    hasher.update(data);
    let mut output = [0u8; 32];
    hasher.finalize(&mut output);
    output
}

} // verus!
