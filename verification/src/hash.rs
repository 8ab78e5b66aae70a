//! Keccak-256 digests from the two outside implementations the order book
//! relies on: `alloy` on the EVM side and the Solana keccak hasher (through
//! `anchor_lang::solana_program`) on the SVM side.
use vstd::prelude::*;

verus! {

/// The Keccak-256 digest that `alloy::primitives::keccak256` computes of a byte string.
pub uninterp spec fn spec_keccak256(data: Seq<u8>) -> Seq<u8>;

/// The digest that `anchor_lang::solana_program::keccak::hashv` computes of a list of byte strings.
pub uninterp spec fn spec_solana_keccak_hashv(parts: Seq<Seq<u8>>) -> Seq<u8>;

/// Calls `alloy::primitives::keccak256` on `data`.
/// Trusted: the 32 bytes returned are the digest named `spec_keccak256` of `data`;
/// nothing is said of the digest itself.
#[verifier::external_body]
pub(crate) fn keccak256_digest(data: &[u8]) -> (digest: [u8; 32])
    ensures
        digest@ == spec_keccak256(data@),
{
    alloy::primitives::keccak256(data).0
}

/// The views of a list of byte vectors.
pub open spec fn views(parts: Seq<Vec<u8>>) -> Seq<Seq<u8>> {
    parts.map_values(|p: Vec<u8>| p@)
}

/// Calls `anchor_lang::solana_program::keccak::hashv` on the given parts, in order.
/// Trusted: the 32 bytes returned are the digest named `spec_solana_keccak_hashv`
/// of the parts' contents; nothing is said of the digest itself.
#[verifier::external_body]
pub(crate) fn solana_keccak_hashv(parts: &Vec<Vec<u8>>) -> (digest: [u8; 32])
    ensures
        digest@ == spec_solana_keccak_hashv(views(parts@)),
{
    let slices: Vec<&[u8]> = parts.iter().map(|p| p.as_slice()).collect();
    #[allow(deprecated)]
    anchor_lang::solana_program::keccak::hashv(&slices).to_bytes()
}

} // verus!
