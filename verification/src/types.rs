//! Request argument types and the account-permission entry used by the
//! accounts-hash binder.

use vstd::prelude::*;

use crate::state::ConditionRequirement;

verus! {

/// Arguments for creating a new requirement.
#[derive(Clone, Debug)]
pub struct CreateRequirementArgs {
    /// Owner-chosen disambiguator of the record's address.
    pub nonce: u64,
    /// Target identity of the delegated call.
    pub target_program: [u8; 32],
    /// Payload of the delegated call.
    pub instruction_data: Vec<u8>,
    /// Conditions that must be attested before execution.
    pub conditions: Vec<ConditionRequirementInput>,
    /// Upper bound on the keeper fee.
    pub max_keeper_fee_lamports: u64,
    /// Optional fee recipient override.
    pub keeper_fee_recipient: Option<[u8; 32]>,
    /// Maximum proof age in seconds; zero selects the default window.
    pub max_proof_age_secs: u32,
    /// Maximum future skew in seconds; zero selects the default window.
    pub max_future_skew_secs: u32,
}

/// Caller-supplied form of a single condition.
#[derive(Clone, Debug)]
pub struct ConditionRequirementInput {
    /// 32-byte digest identifying the external condition.
    pub condition_id: [u8; 32],
    /// Expected outcome value.
    pub expected_outcome: Vec<u8>,
}

impl ConditionRequirementInput {
    /// The stored form of this condition: same identifier, same outcome.
    pub fn into_condition(self) -> (r: ConditionRequirement)
        ensures
            r.condition_id@ == self.condition_id@,
            r.expected_outcome@ == self.expected_outcome@,
    {
        ConditionRequirement { condition_id: self.condition_id, expected_outcome: self.expected_outcome }
    }
}

/// An externally supplied attestation: a signed message asserting one
/// condition's outcome and observation time. Ephemeral, never persisted.
#[derive(Clone, Debug)]
pub struct OracleProof {
    /// Canonical serialized message signed by the attester.
    pub message: Vec<u8>,
    /// Signature over the message, delivered alongside it.
    pub signature: [u8; 64],
}

/// The structured content of a well-formed proof message.
#[derive(Clone, Debug)]
pub struct ParsedProof {
    /// Condition identifier named by the proof.
    pub condition_id: [u8; 32],
    /// Outcome value carried by the proof.
    pub outcome: Vec<u8>,
    /// Unix timestamp at which the outcome was observed.
    pub timestamp_unix: i64,
}

/// Arguments for executing a requirement.
#[derive(Clone, Debug)]
pub struct ExecuteArgs {
    /// One proof per condition, in condition order.
    pub proofs: Vec<OracleProof>,
    /// Keeper fee claimed by the submitter; must not exceed the stored cap.
    pub keeper_fee_lamports: u64,
}

/// One sibling operation of the atomic bundle, as the host's inspection
/// facility reports it: the identity of the program it targets and its raw
/// bytes.
#[derive(Clone, Debug)]
pub struct RawInstruction {
    /// Identity of the program the operation targets.
    pub program_id: [u8; 32],
    /// The operation's raw data bytes.
    pub data: Vec<u8>,
}

/// One entry of an ordered account-permission list: an identity with its
/// signer and writable flags.
#[derive(Clone, Copy, Debug)]
pub struct AccountMetaInput {
    /// 32-byte account identity.
    pub pubkey: [u8; 32],
    /// Whether the account signs the call.
    pub is_signer: bool,
    /// Whether the call may write to the account.
    pub is_writable: bool,
}

} // verus!
