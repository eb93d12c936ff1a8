//! The digest function that identifiers are made with.

use vstd::prelude::*;
use sha1::Digest;

verus! {

/// The SHA-1 digest of a byte sequence, as the `sha1` crate computes it.
pub uninterp spec fn sha1(data: Seq<u8>) -> Seq<u8>;

/// Calls `Sha1::digest`, the one-shot form of the `sha1` crate's hasher: a
/// fresh hasher is fed the whole input once and finalized. The outcome is
/// the twenty-byte SHA-1 digest, a function of the input bytes alone.
#[verifier::external_body]
pub(crate) fn sha1_of(data: &[u8]) -> (out: [u8; 20])
    ensures
        out@ == sha1(data@),
{
    sha1::Sha1::digest(data).into()
}

} // verus!
