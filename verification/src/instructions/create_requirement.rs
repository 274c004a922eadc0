//! Creation of a requirement record.
//!
//! Creation validates the condition list and the payload, computes the
//! accounts-hash from the caller-declared account list, substitutes the
//! default freshness windows for zero inputs, and persists every field with
//! the state set to Active. Nothing is persisted when validation fails.

use vstd::prelude::*;

use crate::codec::spec_effective_window;
use crate::constants::{
    DEFAULT_MAX_FUTURE_SKEW_SECS, DEFAULT_MAX_PROOF_AGE_SECS, MAX_IX_DATA_LEN,
};
use crate::error::ExecutorError;
use crate::hash::{compute_accounts_hash, spec_accounts_preimage, spec_sha256};
use crate::state::{ConditionRequirement, Requirement, RequirementState};
use crate::types::{AccountMetaInput, CreateRequirementArgs};
use crate::validate::{
    spec_conditions_valid, spec_validate_conditions_error, validate_conditions,
    validate_instruction_data,
};

verus! {

/// Creation succeeds exactly when the condition list is valid and the payload
/// is bounded.
pub open spec fn spec_create_ok(args: CreateRequirementArgs) -> bool {
    &&& spec_conditions_valid(args.conditions@)
    &&& args.instruction_data@.len() <= MAX_IX_DATA_LEN
}

/// The error creation is rejected with, if any: the condition list is checked
/// before the payload length.
pub open spec fn spec_create_error(args: CreateRequirementArgs) -> Option<ExecutorError> {
    if spec_validate_conditions_error(args.conditions@) is Some {
        spec_validate_conditions_error(args.conditions@)
    } else if args.instruction_data@.len() > MAX_IX_DATA_LEN {
        Some(ExecutorError::InstructionDataTooLong)
    } else {
        None
    }
}

/// The record creation builds: every argument persisted verbatim, the
/// accounts-hash of the declared list, default freshness windows substituted
/// for zero inputs, and the state Active.
pub open spec fn spec_created_requirement(
    req: Requirement,
    args: CreateRequirementArgs,
    declared_accounts: Seq<AccountMetaInput>,
    authority: Seq<u8>,
    bump: u8,
    current_time: i64,
) -> bool {
    &&& req.authority@ == authority
    &&& req.state is Active
    &&& req.created_at_unix == current_time
    &&& req.executed_at_slot is None
    &&& req.bump == bump
    &&& req.nonce == args.nonce
    &&& req.target_program@ == args.target_program@
    &&& req.instruction_data@ == args.instruction_data@
    &&& req.accounts_hash@ == spec_sha256(spec_accounts_preimage(declared_accounts))
    &&& req.conditions@.len() == args.conditions@.len()
    &&& forall|i: int|
        0 <= i < args.conditions@.len() ==> {
            &&& (#[trigger] req.conditions@[i]).condition_id@ == args.conditions@[i].condition_id@
            &&& req.conditions@[i].expected_outcome@ == args.conditions@[i].expected_outcome@
        }
    &&& req.max_keeper_fee_lamports == args.max_keeper_fee_lamports
    &&& req.keeper_fee_recipient == args.keeper_fee_recipient
    &&& req.max_proof_age_secs == spec_effective_window(
        args.max_proof_age_secs,
        DEFAULT_MAX_PROOF_AGE_SECS,
    )
    &&& req.max_future_skew_secs == spec_effective_window(
        args.max_future_skew_secs,
        DEFAULT_MAX_FUTURE_SKEW_SECS,
    )
}

/// Create a requirement record. Succeeds on every valid condition list of one
/// to eight uniquely identified conditions with bounded outcomes and a
/// bounded payload, and then leaves the record Active; rejects anything else
/// before any state exists.
pub fn handler(
    args: CreateRequirementArgs,
    expected_accounts: &[AccountMetaInput],
    authority: &[u8; 32],
    bump: u8,
    current_time: i64,
) -> (r: Result<Requirement, ExecutorError>)
    ensures
        r is Ok <==> spec_create_ok(args),
        r matches Err(e) ==> spec_create_error(args) == Some(e),
        r matches Ok(req) ==> spec_created_requirement(
            req,
            args,
            expected_accounts@,
            authority@,
            bump,
            current_time,
        ),
        r matches Ok(req) ==> req.wf(),
{
    match validate_conditions(args.conditions.as_slice()) {
        Ok(()) => (),
        Err(e) => {
            return Err(e);
        },
    }
    match validate_instruction_data(args.instruction_data.as_slice()) {
        Ok(()) => (),
        Err(e) => {
            return Err(e);
        },
    }

    let accounts_hash = compute_accounts_hash(expected_accounts);

    let CreateRequirementArgs {
        nonce,
        target_program,
        instruction_data,
        conditions,
        max_keeper_fee_lamports,
        keeper_fee_recipient,
        max_proof_age_secs,
        max_future_skew_secs,
    } = args;

    let mut inputs = conditions;
    let mut stored: Vec<ConditionRequirement> = Vec::new();
    let ghost orig = inputs@;
    while inputs.len() > 0
        invariant
            stored@.len() + inputs@.len() == orig.len(),
            inputs@ =~= orig.skip(stored@.len() as int),
            forall|k: int|
                0 <= k < stored@.len() ==> {
                    &&& (#[trigger] stored@[k]).condition_id@ == orig[k].condition_id@
                    &&& stored@[k].expected_outcome@ == orig[k].expected_outcome@
                },
        decreases inputs@.len(),
    {
        let c = inputs.remove(0);
        proof {
            assert(c == orig[stored@.len() as int]);
            assert(inputs@ =~= orig.skip(stored@.len() as int + 1));
        }
        stored.push(c.into_condition());
    }

    let effective_age = if max_proof_age_secs == 0 {
        DEFAULT_MAX_PROOF_AGE_SECS
    } else {
        max_proof_age_secs
    };
    let effective_skew = if max_future_skew_secs == 0 {
        DEFAULT_MAX_FUTURE_SKEW_SECS
    } else {
        max_future_skew_secs
    };

    let req = Requirement {
        authority: *authority,
        state: RequirementState::Active,
        created_at_unix: current_time,
        executed_at_slot: None,
        bump,
        nonce,
        target_program,
        instruction_data,
        accounts_hash,
        conditions: stored,
        max_keeper_fee_lamports,
        keeper_fee_recipient,
        max_proof_age_secs: effective_age,
        max_future_skew_secs: effective_skew,
    };
    proof {
        assert forall|i: int, j: int| 0 <= i < j < req.conditions@.len() implies req.conditions@[i].condition_id@
            != req.conditions@[j].condition_id@ by {
            assert(args.conditions@[i].condition_id@ != args.conditions@[j].condition_id@);
        }
    }
    Ok(req)
}

} // verus!
