use vstd::prelude::*;
use sha2::Digest;

verus! {

/// The SHA-256 digest of a byte sequence, as an abstract name: the digest is
/// a pure function of the input bytes alone, always 32 bytes long, and its
/// value on given bytes is not restated here.
pub uninterp spec fn sha256_of(input: Seq<u8>) -> Seq<u8>;

/// Relies on sha2::Sha256 through Digest::digest: a one-shot SHA-256 over the
/// input bytes, returning the 32-byte digest, a deterministic function of the
/// input alone.
#[verifier::external_body]
pub(crate) fn sha256(input: &[u8]) -> (r: [u8; 32])
    ensures
        r@ == sha256_of(input@),
{
    sha2::Sha256::digest(input).into()
}

} // verus!
