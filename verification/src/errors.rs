//! The failure taxonomy of the pipeline. Every error is terminal for the
//! invocation that raised it: there is no local recovery or retry.

use vstd::prelude::*;

verus! {

#[derive(Clone, Copy, Debug, PartialEq, Eq, Structural)]
pub enum ClientError {
    /// No bump candidate produced an off-curve derived address.
    NoValidBumpFound,
    /// An argument does not fit its declared width.
    EncodingRangeError,
    /// A message was assembled from zero instructions.
    EmptyInstructionSet,
    /// An account flagged as signer has no signing capability supplied.
    MissingSignerError,
    /// The freshness token could not be fetched from the node.
    BlockhashFetchError,
    /// The node rejected the submitted transaction.
    SubmissionError,
}

impl ClientError {
    /// A short description, for callers that print errors.
    pub fn describe(&self) -> (r: &'static str)
    {
        match self {
            ClientError::NoValidBumpFound => "no valid bump seed found for address derivation",
            ClientError::EncodingRangeError => "argument out of range for its declared width",
            ClientError::EmptyInstructionSet => "no instructions to assemble",
            ClientError::MissingSignerError => "a required signer is missing",
            ClientError::BlockhashFetchError => "unable to fetch a recent blockhash",
            ClientError::SubmissionError => "the node rejected the transaction",
        }
    }
}

} // verus!
