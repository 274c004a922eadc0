//! Keeper-fee economics: a capped, optional payout to the submitter or a
//! configured recipient.
//!
//! The functions decide and account for the payout over plain balances; the
//! host performs the actual movement of funds and aborts the whole bundle if
//! it cannot. A zero fee is a no-op, a fee over the stored cap is rejected,
//! and the paying balance must cover the fee in full.

use vstd::prelude::*;

use crate::error::ExecutorError;
use crate::state::Requirement;

verus! {

/// A requested fee is acceptable against a payer balance: within the stored
/// cap, and covered by the payer unless it is zero.
pub open spec fn spec_fee_ok(requirement: Requirement, fee_lamports: u64, payer_balance: u64) -> bool {
    &&& fee_lamports <= requirement.max_keeper_fee_lamports
    &&& (fee_lamports == 0 || payer_balance >= fee_lamports)
}

/// The error a requested fee is rejected with, if any: the cap is checked
/// before the balance, and a zero fee moves nothing and cannot fail.
pub open spec fn spec_fee_error(
    requirement: Requirement,
    fee_lamports: u64,
    payer_balance: u64,
) -> Option<ExecutorError> {
    if fee_lamports > requirement.max_keeper_fee_lamports {
        Some(ExecutorError::KeeperFeeExceedsMax)
    } else if fee_lamports > 0 && payer_balance < fee_lamports {
        Some(ExecutorError::InsufficientFundsForFee)
    } else {
        None
    }
}

/// Validate and account for a keeper fee funded by an external payer: on
/// success the fee moves from the payer balance to the recipient balance,
/// conserving their sum; on failure nothing moves.
pub fn transfer_keeper_fee(
    requirement: &Requirement,
    fee_lamports: u64,
    payer_balance: u64,
    recipient_balance: u64,
) -> (r: Result<(u64, u64), ExecutorError>)
    requires
        recipient_balance + fee_lamports <= u64::MAX,
    ensures
        r is Ok <==> spec_fee_ok(*requirement, fee_lamports, payer_balance),
        r matches Err(e) ==> spec_fee_error(*requirement, fee_lamports, payer_balance) == Some(e),
        r matches Ok(balances) ==> {
            &&& balances.0 == payer_balance - fee_lamports
            &&& balances.1 == recipient_balance + fee_lamports
        },
{
    if fee_lamports > requirement.max_keeper_fee_lamports {
        return Err(ExecutorError::KeeperFeeExceedsMax);
    }
    if fee_lamports == 0 {
        return Ok((payer_balance, recipient_balance));
    }
    if payer_balance < fee_lamports {
        return Err(ExecutorError::InsufficientFundsForFee);
    }
    Ok((payer_balance - fee_lamports, recipient_balance + fee_lamports))
}

/// Validate and account for a keeper fee paid from the requirement record's
/// own held balance under its derived authority: on success the fee moves
/// from the record's balance to the recipient balance, conserving their sum;
/// on failure nothing moves. The host signs the actual movement with the
/// record's derived seeds.
pub fn transfer_keeper_fee_from_pda(
    requirement: &Requirement,
    fee_lamports: u64,
    requirement_balance: u64,
    recipient_balance: u64,
) -> (r: Result<(u64, u64), ExecutorError>)
    requires
        recipient_balance + fee_lamports <= u64::MAX,
    ensures
        r is Ok <==> spec_fee_ok(*requirement, fee_lamports, requirement_balance),
        r matches Err(e) ==> spec_fee_error(*requirement, fee_lamports, requirement_balance)
            == Some(e),
        r matches Ok(balances) ==> {
            &&& balances.0 == requirement_balance - fee_lamports
            &&& balances.1 == recipient_balance + fee_lamports
        },
{
    if fee_lamports > requirement.max_keeper_fee_lamports {
        return Err(ExecutorError::KeeperFeeExceedsMax);
    }
    if fee_lamports == 0 {
        return Ok((requirement_balance, recipient_balance));
    }
    if requirement_balance < fee_lamports {
        return Err(ExecutorError::InsufficientFundsForFee);
    }
    Ok((requirement_balance - fee_lamports, recipient_balance + fee_lamports))
}

} // verus!
