//! The MD5 digest, computed by the `md-5` crate.

use vstd::prelude::*;

verus! {

/// The MD5 digest of `data` (RFC 1321), as the `md-5` crate computes it.
pub uninterp spec fn md5_digest(data: Seq<u8>) -> Seq<u8>;

/// Calls `md5::Md5::digest` (the `digest::Digest` trait method of the `md-5`
/// crate) on `data`. Claimed: the 16 bytes returned are the MD5 digest of
/// `data` and depend on `data` alone; nothing more is stated of the digest.
#[verifier::external_body]
pub(crate) fn md5(data: &[u8]) -> (r: [u8; 16])
    ensures
        r@ == md5_digest(data@),
{
    let digest = <md5::Md5 as md5::Digest>::digest(data);
    let mut out = [0u8; 16];
    out.copy_from_slice(digest.as_slice());
    out
}

} // verus!
