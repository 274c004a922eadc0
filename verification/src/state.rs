//! Persisted record types and the requirement lifecycle state machine.

use vstd::prelude::*;

use crate::constants::{MAX_CONDITIONS, MAX_IX_DATA_LEN, MAX_OUTCOME_LEN};

verus! {

/// Lifecycle state of a requirement. `Active` is the initial state; the two
/// terminal states are mutually exclusive and no transition leaves either.
#[derive(Clone, Copy, Debug, PartialEq, Eq, Structural)]
pub enum RequirementState {
    Active,
    Canceled,
    Executed,
}

/// A single condition that must be attested before execution.
#[derive(Clone, Debug)]
pub struct ConditionRequirement {
    /// 32-byte digest identifying the external condition.
    pub condition_id: [u8; 32],
    /// Expected outcome value (domain-specific, bounded).
    pub expected_outcome: Vec<u8>,
}

/// Optional singleton configuration record holding an override trusted
/// attester identity.
#[derive(Clone, Debug)]
pub struct Config {
    /// Identity allowed to update the configuration.
    pub authority: [u8; 32],
    /// Trusted attester identity used for proof verification.
    pub stork_signer_pubkey: [u8; 32],
    /// Derivation bump of the configuration record's address.
    pub bump: u8,
}

/// The escrow record: a delegated call intent, its conditions, its lifecycle
/// state and its fee policy. Created once, mutated only by execution or
/// cancellation, destroyed by withdraw-close.
#[derive(Clone, Debug)]
pub struct Requirement {
    /// Owner who created this requirement and can cancel or close it.
    pub authority: [u8; 32],
    /// Current lifecycle state.
    pub state: RequirementState,
    /// Unix timestamp at creation.
    pub created_at_unix: i64,
    /// Slot of the successful execution, if any.
    pub executed_at_slot: Option<u64>,
    /// Derivation bump of the record's address.
    pub bump: u8,
    /// Owner-chosen disambiguator of the record's address.
    pub nonce: u64,
    /// Target identity of the delegated call.
    pub target_program: [u8; 32],
    /// Payload of the delegated call, stored verbatim.
    pub instruction_data: Vec<u8>,
    /// Digest binding the call to an exact ordered account-permission list.
    pub accounts_hash: [u8; 32],
    /// Conditions that must all be attested before execution.
    pub conditions: Vec<ConditionRequirement>,
    /// Upper bound on the keeper fee.
    pub max_keeper_fee_lamports: u64,
    /// Optional fee recipient override; the submitter receives the fee
    /// otherwise.
    pub keeper_fee_recipient: Option<[u8; 32]>,
    /// Maximum accepted proof age in seconds.
    pub max_proof_age_secs: u32,
    /// Maximum accepted future skew in seconds.
    pub max_future_skew_secs: u32,
}

impl RequirementState {
    /// The state in which creation leaves a requirement and from which all
    /// state-changing operations must start.
    pub fn is_active(&self) -> (r: bool)
        ensures
            r <==> *self is Active,
    {
        matches!(self, RequirementState::Active)
    }

    /// A terminal state admits no further transition.
    pub fn is_terminal(&self) -> (r: bool)
        ensures
            r <==> (*self is Canceled || *self is Executed),
    {
        matches!(self, RequirementState::Canceled | RequirementState::Executed)
    }
}

impl Requirement {
    /// Structural invariant that creation establishes and that execution and
    /// cancellation preserve: a non-empty, bounded condition list with unique
    /// identifiers and bounded outcomes, and a bounded payload.
    pub open spec fn wf(&self) -> bool {
        &&& 1 <= self.conditions@.len() <= MAX_CONDITIONS
        &&& forall|i: int, j: int|
            0 <= i < j < self.conditions@.len()
                ==> self.conditions@[i].condition_id@ != self.conditions@[j].condition_id@
        &&& forall|i: int|
            0 <= i < self.conditions@.len()
                ==> #[trigger] self.conditions@[i].expected_outcome@.len() <= MAX_OUTCOME_LEN
        &&& self.instruction_data@.len() <= MAX_IX_DATA_LEN
    }
}

} // verus!
