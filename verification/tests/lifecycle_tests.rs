//! End-to-end lifecycle: execution with its gates, fee movement, double
//! execution, cancellation and withdraw-close.

use conditional_executor::codec::encode_proof_message;
use conditional_executor::ed25519::ed25519_program_id;
use conditional_executor::error::ExecutorError;
use conditional_executor::fees::{transfer_keeper_fee, transfer_keeper_fee_from_pda};
use conditional_executor::instructions::{
    cancel_requirement, create_requirement, execute, fund_requirement, withdraw_and_close,
};
use conditional_executor::state::{Requirement, RequirementState};
use conditional_executor::types::{
    AccountMetaInput, ConditionRequirementInput, CreateRequirementArgs, ExecuteArgs, OracleProof,
    RawInstruction,
};

const OWNER: [u8; 32] = [7u8; 32];
const REQUIREMENT_KEY: [u8; 32] = [3u8; 32];
const TRUSTED_SIGNER: [u8; 32] = [9u8; 32];
const NOW: i64 = 1000;
const SLOT: u64 = 555;

fn accounts() -> Vec<AccountMetaInput> {
    vec![
        AccountMetaInput { pubkey: [4u8; 32], is_signer: false, is_writable: true },
        AccountMetaInput { pubkey: REQUIREMENT_KEY, is_signer: false, is_writable: true },
        AccountMetaInput { pubkey: [6u8; 32], is_signer: false, is_writable: false },
    ]
}

fn new_requirement() -> Requirement {
    let args = CreateRequirementArgs {
        nonce: 1,
        target_program: [2u8; 32],
        instruction_data: vec![5, 6],
        conditions: vec![
            ConditionRequirementInput { condition_id: [1u8; 32], expected_outcome: vec![10] },
            ConditionRequirementInput { condition_id: [2u8; 32], expected_outcome: vec![20, 21] },
        ],
        max_keeper_fee_lamports: 50,
        keeper_fee_recipient: None,
        max_proof_age_secs: 60,
        max_future_skew_secs: 30,
    };
    create_requirement::handler(args, &accounts(), &OWNER, 254, NOW - 100).unwrap()
}

fn signature_ix_data(pubkey: &[u8; 32], message: &[u8]) -> Vec<u8> {
    let pk_off: u16 = 2 + 14;
    let msg_off: u16 = pk_off + 32;
    let mut data = vec![1u8, 0u8];
    data.extend_from_slice(&0u16.to_le_bytes());
    data.extend_from_slice(&0u16.to_le_bytes());
    data.extend_from_slice(&pk_off.to_le_bytes());
    data.extend_from_slice(&0u16.to_le_bytes());
    data.extend_from_slice(&msg_off.to_le_bytes());
    data.extend_from_slice(&(message.len() as u16).to_le_bytes());
    data.extend_from_slice(&0u16.to_le_bytes());
    data.extend_from_slice(pubkey);
    data.extend_from_slice(message);
    data
}

fn proofs_and_bundle(timestamps: [i64; 2]) -> (Vec<OracleProof>, Vec<RawInstruction>) {
    let m1 = encode_proof_message(&[1u8; 32], &[10], timestamps[0]);
    let m2 = encode_proof_message(&[2u8; 32], &[20, 21], timestamps[1]);
    let bundle = vec![
        RawInstruction {
            program_id: ed25519_program_id(),
            data: signature_ix_data(&TRUSTED_SIGNER, &m1),
        },
        RawInstruction {
            program_id: ed25519_program_id(),
            data: signature_ix_data(&TRUSTED_SIGNER, &m2),
        },
    ];
    let proofs = vec![
        OracleProof { message: m1, signature: [0u8; 64] },
        OracleProof { message: m2, signature: [0u8; 64] },
    ];
    (proofs, bundle)
}

struct Run {
    requirement: Requirement,
    requirement_balance: u64,
    recipient_balance: u64,
    result: Result<conditional_executor::cpi::DelegatedCall, ExecutorError>,
}

fn run_execute(
    mut requirement: Requirement,
    proofs: Vec<OracleProof>,
    bundle: &[RawInstruction],
    supplied: &[AccountMetaInput],
    fee: u64,
    requirement_balance: u64,
) -> Run {
    let args = ExecuteArgs { proofs, keeper_fee_lamports: fee };
    let mut req_bal = requirement_balance;
    let mut rec_bal = 0u64;
    let result = execute::handler(
        &mut requirement,
        &REQUIREMENT_KEY,
        &args,
        NOW,
        SLOT,
        &TRUSTED_SIGNER,
        bundle,
        bundle.len(),
        supplied,
        &mut req_bal,
        &mut rec_bal,
    );
    Run { requirement, requirement_balance: req_bal, recipient_balance: rec_bal, result }
}

fn assert_failed_clean(run: &Run, expected: ExecutorError, balance_before: u64) {
    assert_eq!(*run.result.as_ref().unwrap_err(), expected);
    assert_eq!(run.requirement.state, RequirementState::Active);
    assert_eq!(run.requirement.executed_at_slot, None);
    assert_eq!(run.requirement_balance, balance_before);
    assert_eq!(run.recipient_balance, 0);
}

#[test]
fn test_execute_succeeds_with_fee_at_cap() {
    let (proofs, bundle) = proofs_and_bundle([NOW - 10, NOW]);
    let run = run_execute(new_requirement(), proofs, &bundle, &accounts(), 50, 100);
    let call = run.result.unwrap();
    assert_eq!(run.requirement.state, RequirementState::Executed);
    assert_eq!(run.requirement.executed_at_slot, Some(SLOT));
    assert_eq!(run.requirement_balance, 50);
    assert_eq!(run.recipient_balance, 50);
    assert_eq!(call.program_id, [2u8; 32]);
    assert_eq!(call.data, vec![5, 6]);
    // the record's own address is the only signer; writable flags as declared
    assert_eq!(call.accounts.len(), 3);
    assert!(!call.accounts[0].is_signer && call.accounts[0].is_writable);
    assert!(call.accounts[1].is_signer && call.accounts[1].is_writable);
    assert_eq!(call.accounts[1].pubkey, REQUIREMENT_KEY);
    assert!(!call.accounts[2].is_signer && !call.accounts[2].is_writable);
}

#[test]
fn test_execute_accepts_proof_at_age_boundary() {
    let (proofs, bundle) = proofs_and_bundle([NOW - 60, NOW + 30]);
    let run = run_execute(new_requirement(), proofs, &bundle, &accounts(), 0, 100);
    assert!(run.result.is_ok());
    assert_eq!(run.requirement_balance, 100);
    assert_eq!(run.recipient_balance, 0);
}

#[test]
fn test_execute_fails_over_fee_cap_before_any_transfer() {
    let (proofs, bundle) = proofs_and_bundle([NOW, NOW]);
    let run = run_execute(new_requirement(), proofs, &bundle, &accounts(), 51, 100);
    assert_failed_clean(&run, ExecutorError::KeeperFeeExceedsMax, 100);
}

#[test]
fn test_execute_fails_on_insufficient_held_balance() {
    let (proofs, bundle) = proofs_and_bundle([NOW, NOW]);
    let run = run_execute(new_requirement(), proofs, &bundle, &accounts(), 50, 49);
    assert_failed_clean(&run, ExecutorError::InsufficientFundsForFee, 49);
}

#[test]
fn test_execute_fails_on_proof_count_mismatch() {
    let (mut proofs, bundle) = proofs_and_bundle([NOW, NOW]);
    proofs.pop();
    let run = run_execute(new_requirement(), proofs, &bundle, &accounts(), 10, 100);
    assert_failed_clean(&run, ExecutorError::ProofCountMismatch, 100);
}

#[test]
fn test_execute_fails_on_outcome_mismatch() {
    let (mut proofs, bundle) = proofs_and_bundle([NOW, NOW]);
    let wrong = encode_proof_message(&[1u8; 32], &[11], NOW);
    proofs[0] = OracleProof { message: wrong, signature: [0u8; 64] };
    let run = run_execute(new_requirement(), proofs, &bundle, &accounts(), 10, 100);
    assert_failed_clean(&run, ExecutorError::OutcomeMismatch, 100);
}

#[test]
fn test_execute_fails_on_condition_id_mismatch() {
    let (mut proofs, bundle) = proofs_and_bundle([NOW, NOW]);
    let wrong = encode_proof_message(&[8u8; 32], &[10], NOW);
    proofs[0] = OracleProof { message: wrong, signature: [0u8; 64] };
    let run = run_execute(new_requirement(), proofs, &bundle, &accounts(), 10, 100);
    assert_failed_clean(&run, ExecutorError::ConditionIdMismatch, 100);
}

#[test]
fn test_execute_fails_when_stale_by_one_second() {
    // max age 60: a proof 61 seconds old is stale by exactly one second
    let (proofs, bundle) = proofs_and_bundle([NOW - 61, NOW]);
    let run = run_execute(new_requirement(), proofs, &bundle, &accounts(), 10, 100);
    assert_failed_clean(&run, ExecutorError::ProofTooOld, 100);
}

#[test]
fn test_execute_fails_on_flipped_permission_bit() {
    let (proofs, bundle) = proofs_and_bundle([NOW, NOW]);
    let mut supplied = accounts();
    supplied[2].is_writable = true;
    let run = run_execute(new_requirement(), proofs, &bundle, &supplied, 10, 100);
    assert_failed_clean(&run, ExecutorError::AccountsHashMismatch, 100);
}

#[test]
fn test_execute_fails_without_attestation() {
    let (proofs, mut bundle) = proofs_and_bundle([NOW, NOW]);
    bundle.pop();
    let run = run_execute(new_requirement(), proofs, &bundle, &accounts(), 10, 100);
    assert_failed_clean(&run, ExecutorError::Ed25519VerifyNotFound, 100);
}

#[test]
fn test_execute_fails_under_wrong_trusted_signer() {
    let (proofs, mut bundle) = proofs_and_bundle([NOW, NOW]);
    // re-sign the bundle under an identity that is not the trusted one
    let m1 = encode_proof_message(&[1u8; 32], &[10], NOW);
    bundle[0] =
        RawInstruction { program_id: ed25519_program_id(), data: signature_ix_data(&[8u8; 32], &m1) };
    let run = run_execute(new_requirement(), proofs, &bundle, &accounts(), 10, 100);
    assert_failed_clean(&run, ExecutorError::Ed25519VerifyNotFound, 100);
}

#[test]
fn test_double_execution_prevented() {
    let (proofs, bundle) = proofs_and_bundle([NOW, NOW]);
    let first = run_execute(new_requirement(), proofs.clone(), &bundle, &accounts(), 10, 100);
    assert!(first.result.is_ok());

    let executed = first.requirement;
    let args = ExecuteArgs { proofs, keeper_fee_lamports: 10 };
    let mut req = executed;
    let mut req_bal = first.requirement_balance;
    let mut rec_bal = first.recipient_balance;
    let second = execute::handler(
        &mut req,
        &REQUIREMENT_KEY,
        &args,
        NOW,
        SLOT + 1,
        &TRUSTED_SIGNER,
        &bundle,
        bundle.len(),
        &accounts(),
        &mut req_bal,
        &mut rec_bal,
    );
    assert_eq!(second.unwrap_err(), ExecutorError::AlreadyExecuted);
    // no additional transfer, no new execution slot
    assert_eq!(req_bal, 90);
    assert_eq!(rec_bal, 10);
    assert_eq!(req.executed_at_slot, Some(SLOT));
}

#[test]
fn test_cancel_then_execute_fails() {
    let mut req = new_requirement();
    assert!(cancel_requirement::handler(&mut req, &OWNER).is_ok());
    assert_eq!(req.state, RequirementState::Canceled);

    let (proofs, bundle) = proofs_and_bundle([NOW, NOW]);
    let run = run_execute(req, proofs, &bundle, &accounts(), 10, 100);
    assert_eq!(run.result.unwrap_err(), ExecutorError::RequirementCanceled);
    assert_eq!(run.requirement.state, RequirementState::Canceled);
    assert_eq!(run.requirement_balance, 100);
    assert_eq!(run.recipient_balance, 0);
}

#[test]
fn test_cancel_then_withdraw_close_succeeds() {
    let mut req = new_requirement();
    cancel_requirement::handler(&mut req, &OWNER).unwrap();
    let released = withdraw_and_close::handler(&req, &OWNER, 750).unwrap();
    // the whole balance is released: the record keeps nothing
    assert_eq!(released, 750);
}

#[test]
fn test_cancel_requires_owner() {
    let mut req = new_requirement();
    let r = cancel_requirement::handler(&mut req, &[8u8; 32]);
    assert_eq!(r.unwrap_err(), ExecutorError::UnauthorizedAuthority);
    assert_eq!(req.state, RequirementState::Active);
}

#[test]
fn test_cancel_twice_fails() {
    let mut req = new_requirement();
    cancel_requirement::handler(&mut req, &OWNER).unwrap();
    let r = cancel_requirement::handler(&mut req, &OWNER);
    assert_eq!(r.unwrap_err(), ExecutorError::RequirementCanceled);
}

#[test]
fn test_fund_active_requirement() {
    let req = new_requirement();
    assert_eq!(fund_requirement::handler(&req, 40, 60).unwrap(), 100);
    assert_eq!(req.state, RequirementState::Active);
}

#[test]
fn test_fund_terminal_requirement_fails() {
    let mut req = new_requirement();
    cancel_requirement::handler(&mut req, &OWNER).unwrap();
    assert_eq!(
        fund_requirement::handler(&req, 40, 60).unwrap_err(),
        ExecutorError::RequirementCanceled
    );
}

#[test]
fn test_withdraw_close_requires_terminal_state() {
    let req = new_requirement();
    assert_eq!(
        withdraw_and_close::handler(&req, &OWNER, 10).unwrap_err(),
        ExecutorError::RequirementNotActive
    );
}

#[test]
fn test_withdraw_close_requires_owner() {
    let mut req = new_requirement();
    cancel_requirement::handler(&mut req, &OWNER).unwrap();
    assert_eq!(
        withdraw_and_close::handler(&req, &[8u8; 32], 10).unwrap_err(),
        ExecutorError::UnauthorizedAuthority
    );
}

#[test]
fn test_withdraw_close_after_execution() {
    let (proofs, bundle) = proofs_and_bundle([NOW, NOW]);
    let run = run_execute(new_requirement(), proofs, &bundle, &accounts(), 10, 100);
    assert!(run.result.is_ok());
    let released =
        withdraw_and_close::handler(&run.requirement, &OWNER, run.requirement_balance).unwrap();
    assert_eq!(released, 90);
}

#[test]
fn test_keeper_fee_cap_and_balance_rules() {
    let req = new_requirement();
    // requested fee equal to the cap succeeds
    assert_eq!(transfer_keeper_fee(&req, 50, 100, 5).unwrap(), (50, 55));
    // one past the cap fails
    assert_eq!(
        transfer_keeper_fee(&req, 51, 100, 5).unwrap_err(),
        ExecutorError::KeeperFeeExceedsMax
    );
    // zero moves nothing
    assert_eq!(transfer_keeper_fee(&req, 0, 100, 5).unwrap(), (100, 5));
    // the payer must cover the fee
    assert_eq!(
        transfer_keeper_fee(&req, 30, 29, 5).unwrap_err(),
        ExecutorError::InsufficientFundsForFee
    );
    // the record-funded variant follows the same rules
    assert_eq!(transfer_keeper_fee_from_pda(&req, 50, 60, 0).unwrap(), (10, 50));
    assert_eq!(
        transfer_keeper_fee_from_pda(&req, 50, 49, 0).unwrap_err(),
        ExecutorError::InsufficientFundsForFee
    );
}
