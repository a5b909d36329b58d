use vstd::prelude::*;
use anchor_lang::solana_program::hash::hash;

verus! {

/// The SHA-256 digest of a byte string.
pub uninterp spec fn sha256_digest(data: Seq<u8>) -> Seq<u8>;

/// Relies on `anchor_lang::solana_program::hash::hash`, the SHA-256 digest of
/// `data`, and on `Hash::to_bytes`, which hands out its 32 bytes.
#[verifier::external_body]
pub(crate) fn sha256(data: &[u8]) -> (r: [u8; 32])
    ensures
        r@ == sha256_digest(data@),
{
    hash(data).to_bytes()
}

} // verus!
