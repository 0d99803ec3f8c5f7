//! The two cryptographic primitives the derivation layer rests on: the
//! SHA-256 digest and the ed25519 curve-point test. Both come from the
//! ledger SDK; their results are named, not restated.

use vstd::prelude::*;

verus! {

/// The SHA-256 digest of a byte sequence. Its value is fixed by the input
/// bytes alone; nothing further is assumed about it.
pub uninterp spec fn sha256_of(data: Seq<u8>) -> Seq<u8>;

/// Whether 32 bytes decompress to a valid point on the ed25519 curve.
/// A function of the bytes alone.
pub uninterp spec fn on_curve(bytes: Seq<u8>) -> bool;

/// Relies on solana_program::hash::hash: returns the SHA-256 digest of the
/// input, a pure function of the input bytes.
#[verifier::external_body]
pub fn sha256(data: &[u8]) -> (r: [u8; 32])
    ensures
        r@ == sha256_of(data@),
{
    solana_program::hash::hash(data).to_bytes()
}

/// Relies on solana_program::pubkey::Pubkey::is_on_curve: returns whether
/// the bytes are a valid ed25519 curve point, a pure function of the bytes.
#[verifier::external_body]
pub fn is_on_curve(bytes: &[u8; 32]) -> (r: bool)
    ensures
        r == on_curve(bytes@),
{
    solana_program::pubkey::Pubkey::new_from_array(*bytes).is_on_curve()
}

} // verus!
