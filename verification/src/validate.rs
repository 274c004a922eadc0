//! Structural validation of creation inputs and the lifecycle gate.

use vstd::prelude::*;

use crate::constants::{MAX_CONDITIONS, MAX_IX_DATA_LEN, MAX_OUTCOME_LEN};
use crate::error::ExecutorError;
use crate::state::RequirementState;
use crate::types::ConditionRequirementInput;
use crate::util::bytes32_eq;

verus! {

/// The condition at position `i` repeats an identifier that already occurs
/// earlier in the list.
pub open spec fn spec_duplicate_at(conds: Seq<ConditionRequirementInput>, i: int) -> bool {
    exists|j: int| 0 <= j < i && conds[j].condition_id@ == conds[i].condition_id@
}

/// The defect of the condition at position `i`, if any; a repeated identifier
/// is reported before an oversized outcome.
pub open spec fn spec_condition_entry_error(
    conds: Seq<ConditionRequirementInput>,
    i: int,
) -> Option<ExecutorError>
    recommends
        0 <= i < conds.len(),
{
    if spec_duplicate_at(conds, i) {
        Some(ExecutorError::DuplicateConditionId)
    } else if conds[i].expected_outcome@.len() > MAX_OUTCOME_LEN {
        Some(ExecutorError::OutcomeTooLong)
    } else {
        None
    }
}

/// The first defect at position `i` or later, scanning in list order.
pub open spec fn spec_conditions_scan(
    conds: Seq<ConditionRequirementInput>,
    i: int,
) -> Option<ExecutorError>
    decreases conds.len() - i,
{
    if i < 0 || i >= conds.len() {
        None
    } else if spec_condition_entry_error(conds, i) is Some {
        spec_condition_entry_error(conds, i)
    } else {
        spec_conditions_scan(conds, i + 1)
    }
}

/// A condition list is valid when it is non-empty, within the structural
/// bound, free of repeated identifiers, and every outcome is bounded.
pub open spec fn spec_conditions_valid(conds: Seq<ConditionRequirementInput>) -> bool {
    &&& 1 <= conds.len() <= MAX_CONDITIONS
    &&& forall|i: int, j: int|
        0 <= i < j < conds.len() ==> conds[i].condition_id@ != conds[j].condition_id@
    &&& forall|i: int|
        0 <= i < conds.len() ==> #[trigger] conds[i].expected_outcome@.len() <= MAX_OUTCOME_LEN
}

/// The error a condition list is rejected with, if any: the count checks come
/// first, then the scan in list order.
pub open spec fn spec_validate_conditions_error(
    conds: Seq<ConditionRequirementInput>,
) -> Option<ExecutorError> {
    if conds.len() == 0 {
        Some(ExecutorError::NoConditions)
    } else if conds.len() > MAX_CONDITIONS {
        Some(ExecutorError::TooManyConditions)
    } else {
        spec_conditions_scan(conds, 0)
    }
}

/// The scan finds no defect at or after `i` exactly when every position at or
/// after `i` is free of defects.
proof fn lemma_conditions_scan_none(conds: Seq<ConditionRequirementInput>, i: int)
    requires
        0 <= i,
    ensures
        spec_conditions_scan(conds, i) is None <==> forall|k: int|
            i <= k < conds.len() ==> spec_condition_entry_error(conds, k) is None,
    decreases conds.len() - i,
{
    if 0 <= i < conds.len() {
        lemma_conditions_scan_none(conds, i + 1);
    }
}

/// A condition list is rejected by nothing exactly when it is valid.
proof fn lemma_validate_conditions_error_none(conds: Seq<ConditionRequirementInput>)
    ensures
        spec_validate_conditions_error(conds) is None <==> spec_conditions_valid(conds),
{
    lemma_conditions_scan_none(conds, 0);
    if spec_validate_conditions_error(conds) is None {
        assert forall|i: int, j: int| 0 <= i < j < conds.len() implies conds[i].condition_id@
            != conds[j].condition_id@ by {
            assert(spec_condition_entry_error(conds, j) is None);
            assert(!spec_duplicate_at(conds, j));
        }
        assert forall|i: int| 0 <= i < conds.len() implies #[trigger] conds[i].expected_outcome@.len()
            <= MAX_OUTCOME_LEN by {
            assert(spec_condition_entry_error(conds, i) is None);
        }
    }
    if spec_conditions_valid(conds) {
        assert forall|k: int| 0 <= k < conds.len() implies spec_condition_entry_error(
            conds,
            k,
        ) is None by {
            assert(!spec_duplicate_at(conds, k));
        }
    }
}

/// Validate a condition list: non-empty, bounded count, unique identifiers,
/// bounded outcomes. Rejections name the first defect in list order.
pub fn validate_conditions(conditions: &[ConditionRequirementInput]) -> (r: Result<
    (),
    ExecutorError,
>)
    ensures
        r is Ok <==> spec_conditions_valid(conditions@),
        r is Ok <==> spec_validate_conditions_error(conditions@) is None,
        r matches Err(e) ==> spec_validate_conditions_error(conditions@) == Some(e),
{
    proof {
        lemma_validate_conditions_error_none(conditions@);
    }
    let n = conditions.len();
    if n == 0 {
        return Err(ExecutorError::NoConditions);
    }
    if n > MAX_CONDITIONS {
        return Err(ExecutorError::TooManyConditions);
    }

    let mut i: usize = 0;
    while i < n
        invariant
            0 <= i <= n,
            n == conditions@.len(),
            1 <= n <= MAX_CONDITIONS,
            spec_conditions_scan(conditions@, 0) == spec_conditions_scan(conditions@, i as int),
            forall|k: int| 0 <= k < i ==> spec_condition_entry_error(conditions@, k) is None,
        decreases n - i,
    {
        let mut j: usize = 0;
        let mut dup = false;
        while j < i
            invariant
                0 <= j <= i < n,
                n == conditions@.len(),
                dup <==> exists|t: int|
                    0 <= t < j && conditions@[t].condition_id@
                        == conditions@[i as int].condition_id@,
            decreases i - j,
        {
            if bytes32_eq(&conditions[j].condition_id, &conditions[i].condition_id) {
                dup = true;
            }
            j = j + 1;
        }
        if dup {
            assert(spec_duplicate_at(conditions@, i as int));
            return Err(ExecutorError::DuplicateConditionId);
        }
        assert(!spec_duplicate_at(conditions@, i as int));
        if conditions[i].expected_outcome.len() > MAX_OUTCOME_LEN {
            return Err(ExecutorError::OutcomeTooLong);
        }
        i = i + 1;
    }
    Ok(())
}

/// Validate the length of the stored call payload.
pub fn validate_instruction_data(data: &[u8]) -> (r: Result<(), ExecutorError>)
    ensures
        r is Ok <==> data@.len() <= MAX_IX_DATA_LEN,
        r is Err ==> r == Err::<(), ExecutorError>(ExecutorError::InstructionDataTooLong),
{
    if data.len() > MAX_IX_DATA_LEN {
        return Err(ExecutorError::InstructionDataTooLong);
    }
    Ok(())
}

/// The lifecycle error a state-changing operation is rejected with when the
/// requirement is no longer active.
pub open spec fn spec_lifecycle_error(state: RequirementState) -> Option<ExecutorError> {
    match state {
        RequirementState::Active => None,
        RequirementState::Canceled => Some(ExecutorError::RequirementCanceled),
        RequirementState::Executed => Some(ExecutorError::AlreadyExecuted),
    }
}

/// Gate a state-changing operation on the Active state; each terminal state
/// is reported with its own error.
pub fn require_active(state: RequirementState) -> (r: Result<(), ExecutorError>)
    ensures
        r is Ok <==> state is Active,
        r matches Err(e) ==> spec_lifecycle_error(state) == Some(e),
{
    match state {
        RequirementState::Active => Ok(()),
        RequirementState::Canceled => Err(ExecutorError::RequirementCanceled),
        RequirementState::Executed => Err(ExecutorError::AlreadyExecuted),
    }
}

} // verus!
