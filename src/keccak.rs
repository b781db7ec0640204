//! The system hash function: Keccak-256, as the ledger's runtime computes it.
use vstd::prelude::*;

verus! {

/// The Keccak-256 digest of a byte string.
pub uninterp spec fn keccak256_of(data: Seq<u8>) -> Seq<u8>;

/// Relies on `anchor_lang::solana_program::keccak::hashv`: with one slice it
/// feeds exactly those bytes to a Keccak-256 hasher and returns the 32-byte
/// digest, which depends on the bytes alone.
#[verifier::external_body]
pub(crate) fn keccak256(data: &[u8]) -> (r: [u8; 32])
    ensures
        r@ == keccak256_of(data@),
{
    anchor_lang::solana_program::keccak::hashv(&[data]).0
}

} // verus!
