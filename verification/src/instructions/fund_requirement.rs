//! Funding of a requirement record.
//!
//! Anyone may add funds to an Active record's held balance, from which the
//! keeper fee and the owner's final withdrawal are paid. The state never
//! changes. The host moves the funds and hands the balances in as plain
//! values.

use vstd::prelude::*;

use crate::error::ExecutorError;
use crate::state::Requirement;
use crate::validate::{require_active, spec_lifecycle_error};

verus! {

/// Fund a requirement: on an Active record the held balance grows by exactly
/// the amount; a terminal record accepts nothing.
pub fn handler(requirement: &Requirement, requirement_balance: u64, amount: u64) -> (r: Result<
    u64,
    ExecutorError,
>)
    requires
        requirement_balance + amount <= u64::MAX,
    ensures
        r is Ok <==> requirement.state is Active,
        r matches Err(e) ==> spec_lifecycle_error(requirement.state) == Some(e),
        r matches Ok(new_balance) ==> new_balance == requirement_balance + amount,
{
    match require_active(requirement.state) {
        Ok(()) => (),
        Err(e) => {
            return Err(e);
        },
    }
    Ok(requirement_balance + amount)
}

} // verus!
