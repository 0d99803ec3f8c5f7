//! Message assembly, signer resolution, and the submission state machine.

use token_bridge_client::addr::Address;
use token_bridge_client::builders::Operation;
use token_bridge_client::errors::ClientError;
use token_bridge_client::instruction::{AccountRef, Instruction};
use token_bridge_client::message::{assemble, check_signers, required_signers};
use token_bridge_client::pipeline::{
    advance, next_action, prepare_operation, SubmitAction, SubmitEvent, SubmitState,
};

fn addr(b: [u8; 32]) -> Address {
    Address { bytes: b }
}

fn acct(b: [u8; 32], is_signer: bool, is_writable: bool) -> AccountRef {
    AccountRef { address: addr(b), is_signer, is_writable }
}

fn ix(program: [u8; 32], accounts: Vec<AccountRef>) -> Instruction {
    Instruction { program: addr(program), accounts, data: vec![1, 2, 3] }
}

#[test]
fn assemble_rejects_empty_instruction_set() {
    let r = assemble(Vec::new(), &addr([1u8; 32]));
    assert_eq!(r.unwrap_err(), ClientError::EmptyInstructionSet);
}

#[test]
fn assemble_puts_fee_payer_first_as_writable_signer() {
    let payer = [1u8; 32];
    let other = [2u8; 32];
    let msg = assemble(vec![ix([9u8; 32], vec![acct(other, false, false)])], &addr(payer))
        .unwrap();
    assert_eq!(msg.account_table.len(), 2);
    assert_eq!(msg.account_table[0].address.bytes, payer);
    assert!(msg.account_table[0].is_signer);
    assert!(msg.account_table[0].is_writable);
    assert_eq!(msg.account_table[1].address.bytes, other);
    assert!(!msg.account_table[1].is_signer);
    assert!(!msg.account_table[1].is_writable);
}

#[test]
fn assemble_merges_flags_across_instructions() {
    let payer = [1u8; 32];
    let shared = [2u8; 32];
    let readonly_ref = ix([9u8; 32], vec![acct(shared, false, false)]);
    let writable_ref = ix([8u8; 32], vec![acct(shared, false, true), acct(payer, false, false)]);
    let signer_ref = ix([7u8; 32], vec![acct(shared, true, false)]);
    let msg = assemble(vec![readonly_ref, writable_ref, signer_ref], &addr(payer)).unwrap();
    // one row per distinct address: the payer and the shared account
    assert_eq!(msg.account_table.len(), 2);
    assert_eq!(msg.account_table[0].address.bytes, payer);
    assert!(msg.account_table[0].is_signer && msg.account_table[0].is_writable);
    assert_eq!(msg.account_table[1].address.bytes, shared);
    assert!(msg.account_table[1].is_signer, "signer flag must be OR-ed in");
    assert!(msg.account_table[1].is_writable, "writable flag must be OR-ed in");
}

#[test]
fn required_signers_lists_signer_rows_in_order() {
    let payer = [1u8; 32];
    let s1 = [2u8; 32];
    let s2 = [3u8; 32];
    let plain = [4u8; 32];
    let msg = assemble(
        vec![ix(
            [9u8; 32],
            vec![acct(s1, true, false), acct(plain, false, true), acct(s2, true, true)],
        )],
        &addr(payer),
    )
    .unwrap();
    let signers = required_signers(&msg);
    let got: Vec<[u8; 32]> = signers.iter().map(|a| a.bytes).collect();
    assert_eq!(got, vec![payer, s1, s2]);
}

#[test]
fn missing_signer_fails_and_complete_signers_pass() {
    let payer = [1u8; 32];
    let extra = [2u8; 32];
    let msg = assemble(vec![ix([9u8; 32], vec![acct(extra, true, false)])], &addr(payer))
        .unwrap();
    // without the extra signer's capability the check must fail
    let r = check_signers(&msg, &vec![addr(payer)]);
    assert_eq!(r.unwrap_err(), ClientError::MissingSignerError);
    // with every required capability it must pass
    assert!(check_signers(&msg, &vec![addr(payer), addr(extra)]).is_ok());
    // the order of the capabilities does not matter
    assert!(check_signers(&msg, &vec![addr(extra), addr(payer)]).is_ok());
}

#[test]
fn submission_state_machine_happy_path() {
    let s0 = SubmitState::Built;
    assert_eq!(next_action(&s0), SubmitAction::FetchBlockhash);
    let s1 = advance(&s0, &SubmitEvent::BlockhashResult(true));
    assert_eq!(s1, SubmitState::BlockhashFetched);
    assert_eq!(next_action(&s1), SubmitAction::Sign);
    let s2 = advance(&s1, &SubmitEvent::SigningResult(true));
    assert_eq!(s2, SubmitState::Signed);
    assert_eq!(next_action(&s2), SubmitAction::Submit);
    let s3 = advance(&s2, &SubmitEvent::SubmissionResult(true));
    assert_eq!(s3, SubmitState::Submitted);
    assert_eq!(next_action(&s3), SubmitAction::Stop);
}

#[test]
fn submission_failures_are_terminal() {
    let failed = advance(&SubmitState::Built, &SubmitEvent::BlockhashResult(false));
    assert_eq!(failed, SubmitState::Failed(ClientError::BlockhashFetchError));
    assert_eq!(next_action(&failed), SubmitAction::Stop);
    // no event resumes a failed attempt: there is no retry edge
    for event in [
        SubmitEvent::BlockhashResult(true),
        SubmitEvent::SigningResult(true),
        SubmitEvent::SubmissionResult(true),
    ] {
        assert_eq!(advance(&failed, &event), failed);
    }
    assert_eq!(
        advance(&SubmitState::BlockhashFetched, &SubmitEvent::SigningResult(false)),
        SubmitState::Failed(ClientError::MissingSignerError)
    );
    assert_eq!(
        advance(&SubmitState::Signed, &SubmitEvent::SubmissionResult(false)),
        SubmitState::Failed(ClientError::SubmissionError)
    );
}

#[test]
fn mismatched_events_change_nothing() {
    assert_eq!(
        advance(&SubmitState::Built, &SubmitEvent::SigningResult(true)),
        SubmitState::Built
    );
    assert_eq!(
        advance(&SubmitState::Signed, &SubmitEvent::BlockhashResult(false)),
        SubmitState::Signed
    );
    assert_eq!(
        advance(&SubmitState::Submitted, &SubmitEvent::SubmissionResult(false)),
        SubmitState::Submitted
    );
}

#[test]
fn prepare_operation_assembles_one_instruction() {
    let signer = [61u8; 32];
    let program = [62u8; 32];
    let mint = [63u8; 32];
    let msg = prepare_operation(
        &Operation::AddLiquidity {
            signer: addr(signer),
            program: addr(program),
            mint: addr(mint),
            amount: 5,
        },
        &addr(signer),
    )
    .unwrap();
    assert_eq!(msg.fee_payer.bytes, signer);
    assert_eq!(msg.instructions.len(), 1);
    assert_eq!(msg.account_table[0].address.bytes, signer);
    assert!(msg.account_table[0].is_signer && msg.account_table[0].is_writable);
    // the depositor signs and pays: the only required signer is the payer
    let signers = required_signers(&msg);
    assert_eq!(signers.len(), 1);
    assert_eq!(signers[0].bytes, signer);
    assert!(check_signers(&msg, &vec![addr(signer)]).is_ok());
    assert_eq!(
        check_signers(&msg, &Vec::new()).unwrap_err(),
        ClientError::MissingSignerError
    );
}
