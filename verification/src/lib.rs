//! Client-side instruction encoding and transaction assembly for an
//! account-based ledger: deterministic address derivation, binary method
//! selectors and argument encoding, per-operation instruction builders,
//! and multi-signer message assembly.

pub mod addr;
pub mod builders;
pub mod crypto;
pub mod encode;
pub mod errors;
pub mod instruction;
pub mod message;
pub mod metadata;
pub mod pda;
pub mod pipeline;
