//! Keccak-256, by which tries and contract codes are named.

use vstd::prelude::*;

verus! {

/// The Keccak-256 hash of the bytes: 32 bytes.
pub uninterp spec fn keccak256_of(bytes: Seq<u8>) -> Seq<u8>;

/// Calls `ethers_core::utils::keccak256`. The hash is a function of the
/// bytes alone; it is named, not spelled out.
#[verifier::external_body]
pub(crate) fn keccak256(bytes: &[u8]) -> (digest: [u8; 32])
    ensures
        digest@ == keccak256_of(bytes@),
{
    ethers_core::utils::keccak256(bytes)
}

} // verus!
