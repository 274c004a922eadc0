//! Cancellation of a requirement record.
//!
//! Only the owner may cancel, and only an Active record; cancellation is
//! terminal and permanently blocks execution.

use vstd::prelude::*;

use crate::error::ExecutorError;
use crate::state::{Requirement, RequirementState};
use crate::util::bytes32_eq;
use crate::validate::{require_active, spec_lifecycle_error};

verus! {

/// The error cancellation is rejected with, if any: the owner gate comes
/// before the lifecycle gate.
pub open spec fn spec_cancel_error(requirement: Requirement, caller: Seq<u8>) -> Option<
    ExecutorError,
> {
    if caller != requirement.authority@ {
        Some(ExecutorError::UnauthorizedAuthority)
    } else {
        spec_lifecycle_error(requirement.state)
    }
}

/// Cancel a requirement. Succeeds exactly when the caller is the owner and
/// the record is Active, and then only the state changes, to Canceled; on
/// failure nothing changes.
pub fn handler(requirement: &mut Requirement, caller: &[u8; 32]) -> (r: Result<(), ExecutorError>)
    ensures
        r is Ok <==> old(requirement).state is Active && caller@ == old(requirement).authority@,
        r matches Err(e) ==> spec_cancel_error(*old(requirement), caller@) == Some(e),
        r is Err ==> *final(requirement) == *old(requirement),
        r is Ok ==> *final(requirement) == (Requirement {
            state: RequirementState::Canceled,
            ..*old(requirement)
        }),
{
    if !bytes32_eq(caller, &requirement.authority) {
        return Err(ExecutorError::UnauthorizedAuthority);
    }
    match require_active(requirement.state) {
        Ok(()) => (),
        Err(e) => {
            return Err(e);
        },
    }
    requirement.state = RequirementState::Canceled;
    Ok(())
}

} // verus!
