//! Execution of a requirement.
//!
//! Execution demands, in order: an Active record; one proof per condition,
//! each naming its condition, carrying the expected outcome verbatim and
//! lying within the freshness window; a sibling signature-verification
//! operation attesting each proof's exact message bytes under the trusted
//! identity; an acceptable keeper fee; and the accounts-hash binding against
//! the actually supplied accounts. Only then is the fee accounted, the
//! delegated call built, and the record marked Executed. Any failure leaves
//! the record Active and moves no funds; the host discards the whole atomic
//! bundle on a later dispatch failure, so the commit below never outlives a
//! failed call.

use vstd::prelude::*;

use crate::cpi::{execute_delegated_cpi, spec_delegated_call_built, DelegatedCall};
use crate::ed25519::{spec_attested, verify_ed25519_instruction};
use crate::error::ExecutorError;
use crate::fees::{spec_fee_error, spec_fee_ok, transfer_keeper_fee_from_pda};
use crate::hash::{spec_accounts_preimage, spec_sha256};
use crate::state::{Requirement, RequirementState};
use crate::types::{AccountMetaInput, ExecuteArgs, OracleProof, RawInstruction};
use crate::validate::{require_active, spec_lifecycle_error};
use crate::verify::{spec_all_proofs_pass, spec_verify_proofs_error, verify_proofs_match_conditions};

verus! {

/// Every proof's exact message bytes are attested by some sibling operation
/// preceding the current one, under the trusted identity.
pub open spec fn spec_all_proofs_attested(
    proofs: Seq<OracleProof>,
    instructions: Seq<RawInstruction>,
    current_index: int,
    trusted_signer: Seq<u8>,
) -> bool {
    forall|i: int|
        0 <= i < proofs.len() ==> spec_attested(
            instructions,
            current_index,
            trusted_signer,
            (#[trigger] proofs[i]).message@,
        )
}

/// Execution succeeds exactly when every gate passes: lifecycle, proof
/// matching, attestation presence, fee, and the accounts-hash binding.
pub open spec fn spec_execute_ok(
    requirement: Requirement,
    args: ExecuteArgs,
    current_time: i64,
    instructions: Seq<RawInstruction>,
    current_index: int,
    trusted_signer: Seq<u8>,
    requirement_balance: u64,
    remaining_accounts: Seq<AccountMetaInput>,
) -> bool {
    &&& requirement.state is Active
    &&& spec_all_proofs_pass(requirement, args.proofs@, current_time)
    &&& spec_all_proofs_attested(args.proofs@, instructions, current_index, trusted_signer)
    &&& spec_fee_ok(requirement, args.keeper_fee_lamports, requirement_balance)
    &&& spec_sha256(spec_accounts_preimage(remaining_accounts)) == requirement.accounts_hash@
}

/// The error execution is rejected with, if any, in gate order: lifecycle,
/// proof matching, attestation presence, fee, accounts-hash binding.
pub open spec fn spec_execute_error(
    requirement: Requirement,
    args: ExecuteArgs,
    current_time: i64,
    instructions: Seq<RawInstruction>,
    current_index: int,
    trusted_signer: Seq<u8>,
    requirement_balance: u64,
    remaining_accounts: Seq<AccountMetaInput>,
) -> Option<ExecutorError> {
    if spec_lifecycle_error(requirement.state) is Some {
        spec_lifecycle_error(requirement.state)
    } else if !spec_all_proofs_pass(requirement, args.proofs@, current_time) {
        spec_verify_proofs_error(requirement, args.proofs@, current_time)
    } else if !spec_all_proofs_attested(args.proofs@, instructions, current_index, trusted_signer) {
        Some(ExecutorError::Ed25519VerifyNotFound)
    } else if spec_fee_error(requirement, args.keeper_fee_lamports, requirement_balance) is Some {
        spec_fee_error(requirement, args.keeper_fee_lamports, requirement_balance)
    } else if spec_sha256(spec_accounts_preimage(remaining_accounts))
        != requirement.accounts_hash@ {
        Some(ExecutorError::AccountsHashMismatch)
    } else {
        None
    }
}

/// Execute a requirement: check every gate, account for the keeper fee from
/// the record's held balance, build the delegated call for the host to
/// dispatch, and mark the record Executed at the current slot.
///
/// On failure the record and both balances are exactly as before: no gate
/// mutates anything, a repeated execution of an already Executed record is a
/// lifecycle error before any transfer or dispatch, and a fee one past the
/// cap is rejected before any funds move.
#[verifier::loop_isolation(false)]
pub fn handler(
    requirement: &mut Requirement,
    requirement_key: &[u8; 32],
    args: &ExecuteArgs,
    current_time: i64,
    current_slot: u64,
    trusted_signer: &[u8; 32],
    instructions: &[RawInstruction],
    current_index: usize,
    remaining_accounts: &[AccountMetaInput],
    requirement_balance: &mut u64,
    recipient_balance: &mut u64,
) -> (r: Result<DelegatedCall, ExecutorError>)
    requires
        current_index <= instructions@.len(),
        *old(recipient_balance) + args.keeper_fee_lamports <= u64::MAX,
    ensures
        r is Ok <==> spec_execute_ok(
            *old(requirement),
            *args,
            current_time,
            instructions@,
            current_index as int,
            trusted_signer@,
            *old(requirement_balance),
            remaining_accounts@,
        ),
        r matches Err(e) ==> spec_execute_error(
            *old(requirement),
            *args,
            current_time,
            instructions@,
            current_index as int,
            trusted_signer@,
            *old(requirement_balance),
            remaining_accounts@,
        ) == Some(e),
        old(requirement).state is Executed ==> r == Err::<DelegatedCall, ExecutorError>(
            ExecutorError::AlreadyExecuted,
        ),
        old(requirement).state is Canceled ==> r == Err::<DelegatedCall, ExecutorError>(
            ExecutorError::RequirementCanceled,
        ),
        r is Err ==> {
            &&& *final(requirement) == *old(requirement)
            &&& *final(requirement_balance) == *old(requirement_balance)
            &&& *final(recipient_balance) == *old(recipient_balance)
        },
        r is Ok ==> {
            &&& *final(requirement) == (Requirement {
                state: RequirementState::Executed,
                executed_at_slot: Some(current_slot),
                ..*old(requirement)
            })
            &&& *final(requirement_balance) == *old(requirement_balance)
                - args.keeper_fee_lamports
            &&& *final(recipient_balance) == *old(recipient_balance) + args.keeper_fee_lamports
        },
        r matches Ok(call) ==> spec_delegated_call_built(
            call,
            *old(requirement),
            requirement_key@,
            remaining_accounts@,
        ),
{
    match require_active(requirement.state) {
        Ok(()) => (),
        Err(e) => {
            return Err(e);
        },
    }

    match verify_proofs_match_conditions(requirement, args.proofs.as_slice(), current_time) {
        Ok(_) => (),
        Err(e) => {
            return Err(e);
        },
    }

    let n = args.proofs.len();
    let mut i: usize = 0;
    while i < n
        invariant
            0 <= i <= n,
            n == args.proofs@.len(),
            current_index <= instructions@.len(),
            forall|k: int|
                0 <= k < i ==> spec_attested(
                    instructions@,
                    current_index as int,
                    trusted_signer@,
                    (#[trigger] args.proofs@[k]).message@,
                ),
        decreases n - i,
    {
        match verify_ed25519_instruction(
            instructions,
            current_index,
            trusted_signer,
            args.proofs[i].message.as_slice(),
        ) {
            Ok(()) => (),
            Err(e) => {
                return Err(e);
            },
        }
        i = i + 1;
    }

    let fee = args.keeper_fee_lamports;
    let moved_balances = if fee > 0 {
        match transfer_keeper_fee_from_pda(requirement, fee, *requirement_balance, *recipient_balance) {
            Ok(balances) => balances,
            Err(e) => {
                return Err(e);
            },
        }
    } else {
        (*requirement_balance, *recipient_balance)
    };

    let call = match execute_delegated_cpi(requirement, requirement_key, remaining_accounts) {
        Ok(c) => c,
        Err(e) => {
            return Err(e);
        },
    };

    requirement.state = RequirementState::Executed;
    requirement.executed_at_slot = Some(current_slot);
    *requirement_balance = moved_balances.0;
    *recipient_balance = moved_balances.1;
    Ok(call)
}

/// Law: a canceled requirement never executes. Whatever proofs, bundle
/// contents, fee or accounts are supplied, execution of a record in the
/// Canceled state fails with the lifecycle error — and, by the handler's
/// contract, a failed execution changes neither the record nor any balance.
pub proof fn lemma_canceled_blocks_execute(
    requirement: Requirement,
    args: ExecuteArgs,
    current_time: i64,
    instructions: Seq<RawInstruction>,
    current_index: int,
    trusted_signer: Seq<u8>,
    requirement_balance: u64,
    remaining_accounts: Seq<AccountMetaInput>,
)
    requires
        requirement.state is Canceled,
    ensures
        !spec_execute_ok(
            requirement,
            args,
            current_time,
            instructions,
            current_index,
            trusted_signer,
            requirement_balance,
            remaining_accounts,
        ),
        spec_execute_error(
            requirement,
            args,
            current_time,
            instructions,
            current_index,
            trusted_signer,
            requirement_balance,
            remaining_accounts,
        ) == Some(ExecutorError::RequirementCanceled),
{
}

} // verus!
