//! The signing and submission pipeline, as a pure state machine: one
//! submission attempt walks Built → BlockhashFetched → Signed → Submitted,
//! or ends in a terminal failure. The surrounding I/O performs the action
//! each state calls for and reports the outcome back; no retry exists
//! anywhere — every failure is terminal for the attempt.

use vstd::prelude::*;
use crate::addr::Address;
use crate::builders::{build_instruction, operation_buildable, operation_built, Operation};
use crate::errors::ClientError;
use crate::message::{assemble, table_well_formed, TransactionMessage};

verus! {

/// The stage a submission attempt has reached.
#[derive(Clone, Copy, Debug, PartialEq, Eq, Structural)]
pub enum SubmitState {
    /// The message is assembled; no freshness token is bound yet.
    Built,
    /// A fresh blockhash is bound to the message.
    BlockhashFetched,
    /// Every required signer has signed the message bytes.
    Signed,
    /// The node accepted the transaction into its pending pool; the caller
    /// holds its identifier. Ledger finality is not awaited.
    Submitted,
    /// The attempt ended; the error says at which step.
    Failed(ClientError),
}

/// What the surrounding I/O reports back after performing an action.
#[derive(Clone, Copy, Debug, PartialEq, Eq, Structural)]
pub enum SubmitEvent {
    /// The freshness-token fetch returned; true on success.
    BlockhashResult(bool),
    /// Signing completed; true when every required signature was produced.
    SigningResult(bool),
    /// The node answered the submission; true on acceptance.
    SubmissionResult(bool),
}

/// What the surrounding I/O must do next in a given state.
#[derive(Clone, Copy, Debug, PartialEq, Eq, Structural)]
pub enum SubmitAction {
    /// Fetch a fresh blockhash from the node.
    FetchBlockhash,
    /// Have every required signer sign the message bytes.
    Sign,
    /// Transmit the signed transaction, with preflight simulation skipped.
    Submit,
    /// The attempt is over, successfully or not.
    Stop,
}

/// The transition table of one submission attempt. An event that does not
/// answer the current state changes nothing, and the two terminal states —
/// accepted or failed — absorb every event: there is no retry edge.
pub open spec fn spec_advance(state: SubmitState, event: SubmitEvent) -> SubmitState {
    match (state, event) {
        (SubmitState::Built, SubmitEvent::BlockhashResult(ok)) => if ok {
            SubmitState::BlockhashFetched
        } else {
            SubmitState::Failed(ClientError::BlockhashFetchError)
        },
        (SubmitState::BlockhashFetched, SubmitEvent::SigningResult(ok)) => if ok {
            SubmitState::Signed
        } else {
            SubmitState::Failed(ClientError::MissingSignerError)
        },
        (SubmitState::Signed, SubmitEvent::SubmissionResult(ok)) => if ok {
            SubmitState::Submitted
        } else {
            SubmitState::Failed(ClientError::SubmissionError)
        },
        _ => state,
    }
}

/// The action a state calls for.
pub open spec fn spec_next_action(state: SubmitState) -> SubmitAction {
    match state {
        SubmitState::Built => SubmitAction::FetchBlockhash,
        SubmitState::BlockhashFetched => SubmitAction::Sign,
        SubmitState::Signed => SubmitAction::Submit,
        SubmitState::Submitted => SubmitAction::Stop,
        SubmitState::Failed(_) => SubmitAction::Stop,
    }
}

/// Advances one submission attempt by one reported outcome.
pub fn advance(state: &SubmitState, event: &SubmitEvent) -> (r: SubmitState)
    ensures
        r == spec_advance(*state, *event),
{
    match (state, event) {
        (SubmitState::Built, SubmitEvent::BlockhashResult(ok)) => if *ok {
            SubmitState::BlockhashFetched
        } else {
            SubmitState::Failed(ClientError::BlockhashFetchError)
        },
        (SubmitState::BlockhashFetched, SubmitEvent::SigningResult(ok)) => if *ok {
            SubmitState::Signed
        } else {
            SubmitState::Failed(ClientError::MissingSignerError)
        },
        (SubmitState::Signed, SubmitEvent::SubmissionResult(ok)) => if *ok {
            SubmitState::Submitted
        } else {
            SubmitState::Failed(ClientError::SubmissionError)
        },
        _ => *state,
    }
}

/// Names the action the surrounding I/O must perform in a state.
pub fn next_action(state: &SubmitState) -> (r: SubmitAction)
    ensures
        r == spec_next_action(*state),
{
    match state {
        SubmitState::Built => SubmitAction::FetchBlockhash,
        SubmitState::BlockhashFetched => SubmitAction::Sign,
        SubmitState::Signed => SubmitAction::Submit,
        SubmitState::Submitted => SubmitAction::Stop,
        SubmitState::Failed(_) => SubmitAction::Stop,
    }
}

/// A failed attempt stays failed: no event moves the machine out of a
/// terminal failure, so no retry can happen inside the pipeline.
pub proof fn lemma_failure_terminal(e: ClientError, event: SubmitEvent)
    ensures
        spec_advance(SubmitState::Failed(e), event) == SubmitState::Failed(e),
{
}

/// An accepted attempt is over: no event moves the machine past
/// acceptance into the pending pool; finality is never awaited here.
pub proof fn lemma_submitted_terminal(event: SubmitEvent)
    ensures
        spec_advance(SubmitState::Submitted, event) == SubmitState::Submitted,
{
}

/// Builds the instruction for one operation and assembles it into a
/// single-instruction message paid for by the given fee payer — everything
/// of an invocation that happens before the first network call.
pub fn prepare_operation(op: &Operation, fee_payer: &Address) -> (r: Result<
    TransactionMessage,
    ClientError,
>)
    ensures
        r is Ok <==> operation_buildable(*op),
        r matches Ok(msg) ==> msg.fee_payer@ == fee_payer@ && msg.instructions@.len() == 1
            && operation_built(*op, msg.instructions@[0]) && table_well_formed(msg),
{
    let ix = match build_instruction(op) {
        Ok(ix) => ix,
        Err(e) => {
            return Err(e);
        },
    };
    let mut instructions: Vec<crate::instruction::Instruction> = Vec::new();
    instructions.push(ix);
    match assemble(instructions, fee_payer) {
        Ok(msg) => Ok(msg),
        Err(e) => Err(e),
    }
}

} // verus!
