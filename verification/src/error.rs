//! Error conditions of the executor. Every failure of a handler maps to one
//! distinct variant; no operation mutates anything before it fails.

use vstd::prelude::*;

verus! {

/// One named condition for each way an operation can be rejected.
#[derive(Clone, Copy, Debug, PartialEq, Eq, Structural)]
pub enum ExecutorError {
    /// More conditions than the structural bound allows.
    TooManyConditions,
    /// The call payload exceeds its maximum length.
    InstructionDataTooLong,
    /// Two conditions carry the same identifier.
    DuplicateConditionId,
    /// An expected outcome exceeds its maximum length.
    OutcomeTooLong,
    /// The condition list is empty.
    NoConditions,
    /// The requirement is not in the Active state.
    RequirementNotActive,
    /// The requirement has already been executed.
    AlreadyExecuted,
    /// The requirement has been canceled.
    RequirementCanceled,
    /// The caller is not the requirement's owner.
    UnauthorizedAuthority,
    /// The number of proofs differs from the number of conditions.
    ProofCountMismatch,
    /// A proof names a condition other than the one at its position.
    ConditionIdMismatch,
    /// A proof's outcome differs from the expected outcome.
    OutcomeMismatch,
    /// A proof's timestamp is older than the maximum age allows.
    ProofTooOld,
    /// A proof's timestamp lies too far in the future.
    ProofInFuture,
    /// A proof message is malformed.
    ProofParseError,
    /// No sibling signature-verification operation covers a proof.
    Ed25519VerifyNotFound,
    /// The requested keeper fee exceeds the stored cap.
    KeeperFeeExceedsMax,
    /// The paying balance cannot cover the keeper fee.
    InsufficientFundsForFee,
    /// The supplied accounts do not match the stored accounts-hash.
    AccountsHashMismatch,
}

} // verus!
