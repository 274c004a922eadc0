//! Withdrawal and removal of a finished requirement record.
//!
//! Only the owner may close, and only a record in a terminal state; an Active
//! record must be canceled first. The whole held balance is released to the
//! owner — the record's balance ends at zero — and the host then removes the
//! record.

use vstd::prelude::*;

use crate::error::ExecutorError;
use crate::state::Requirement;
use crate::util::bytes32_eq;

verus! {

/// The error withdraw-close is rejected with, if any: the owner gate comes
/// before the lifecycle gate.
pub open spec fn spec_withdraw_error(requirement: Requirement, caller: Seq<u8>) -> Option<
    ExecutorError,
> {
    if caller != requirement.authority@ {
        Some(ExecutorError::UnauthorizedAuthority)
    } else if requirement.state is Active {
        Some(ExecutorError::RequirementNotActive)
    } else {
        None
    }
}

/// Withdraw the whole held balance and clear the record for removal. Succeeds
/// exactly when the caller is the owner and the record is terminal; the
/// released amount is the full balance, so nothing stays behind.
pub fn handler(requirement: &Requirement, caller: &[u8; 32], requirement_balance: u64) -> (r:
    Result<u64, ExecutorError>)
    ensures
        r is Ok <==> (requirement.state is Canceled || requirement.state is Executed) && caller@
            == requirement.authority@,
        r matches Err(e) ==> spec_withdraw_error(*requirement, caller@) == Some(e),
        r matches Ok(released) ==> released == requirement_balance,
{
    if !bytes32_eq(caller, &requirement.authority) {
        return Err(ExecutorError::UnauthorizedAuthority);
    }
    if requirement.state.is_active() {
        return Err(ExecutorError::RequirementNotActive);
    }
    Ok(requirement_balance)
}

/// Law: a canceled requirement owes its owner the withdraw-close. The owner
/// is rejected by nothing, and the handler's contract then releases the whole
/// held balance, leaving the record's balance at zero for removal.
pub proof fn lemma_canceled_allows_withdraw(requirement: Requirement)
    requires
        requirement.state is Canceled,
    ensures
        spec_withdraw_error(requirement, requirement.authority@) is None,
{
}

} // verus!
