//! The ledger's hash primitive: SHA-256 applied twice.

use vstd::prelude::*;

verus! {

/// The double-SHA-256 digest of a byte string, as 32 bytes in the order in
/// which the hash function emits them.
pub uninterp spec fn sha256d_digest(data: Seq<u8>) -> Seq<u8>;

/// Calls `bitcoin_hashes::sha256d::Hash::hash` on `data` and unwraps the
/// digest with `into_inner`. The contract only gives the outcome its name:
/// the digest is taken to depend on the bytes of `data` alone.
#[verifier::external_body]
pub(crate) fn sha256d(data: &[u8]) -> (digest: [u8; 32])
    ensures
        digest@ == sha256d_digest(data@),
{
    let hash: bitcoin_hashes::sha256d::Hash = bitcoin_hashes::Hash::hash(data);
    bitcoin_hashes::Hash::into_inner(hash)
}

} // verus!
