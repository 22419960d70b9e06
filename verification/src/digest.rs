//! SHA-256.
use sha2::Digest;
use vstd::prelude::*;

verus! {

/// The SHA-256 digest of a byte string.
pub uninterp spec fn sha256_digest(data: Seq<u8>) -> Seq<u8>;

/// Calls `sha2::Sha256::digest`, which feeds `data` to a fresh hasher and finalizes it. The
/// contract claims that the 32 bytes it returns depend on the bytes of `data` alone. The
/// message length in bits, which the hasher computes, has to fit in 64 bits.
#[verifier::external_body]
pub(crate) fn sha256(data: &[u8]) -> (digest: [u8; 32])
    requires
        data@.len() < 0x2000_0000_0000_0000,
    ensures
        digest@ == sha256_digest(data@),
{
    sha2::Sha256::digest(data).into()
}

} // verus!
