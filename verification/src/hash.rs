//! The boundary to the digest provider.

use vstd::prelude::*;
use sha2::Digest;

verus! {

/// The SHA-256 digest of a byte string, named but not written out: the
/// compression schedule is the digest crate's concern, not this library's.
/// The digest is a deterministic function of the input alone.
pub uninterp spec fn sha256_of(input: Seq<u8>) -> Seq<u8>;

/// Relies on `sha2::Sha256::digest`: the 32-byte (256-bit) SHA-256 digest
/// of the input, a total function over all byte strings.
#[verifier::external_body]
pub(crate) fn hash_func(input: &[u8]) -> (r: Vec<u8>)
    ensures
        r@ == sha256_of(input@),
        r@.len() == 32,
{
    sha2::Sha256::digest(input).to_vec()
}

} // verus!
