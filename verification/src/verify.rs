//! Proof-to-condition matching: each proof must name its condition, carry the
//! expected outcome verbatim, and lie within the freshness window.

use vstd::prelude::*;

use crate::codec::{
    check_proof_freshness, parse_proof_message, proof_message_wf, spec_freshness_error,
    spec_freshness_ok, spec_parsed_condition_id, spec_parsed_outcome, spec_parsed_timestamp,
};
use crate::error::ExecutorError;
use crate::state::{ConditionRequirement, Requirement};
use crate::types::{OracleProof, ParsedProof};
use crate::util::{bytes32_eq, bytes_eq};

verus! {

/// A proof satisfies a condition: its message is well formed, names the
/// condition's identifier, carries the expected outcome verbatim, and its
/// timestamp is fresh.
pub open spec fn spec_proof_passes(
    condition: ConditionRequirement,
    oracle_proof: OracleProof,
    current_time: i64,
    max_age_secs: u32,
    max_future_skew_secs: u32,
) -> bool {
    let msg = oracle_proof.message@;
    &&& proof_message_wf(msg)
    &&& spec_parsed_condition_id(msg) == condition.condition_id@
    &&& spec_parsed_outcome(msg) == condition.expected_outcome@
    &&& spec_freshness_ok(spec_parsed_timestamp(msg), current_time, max_age_secs, max_future_skew_secs)
}

/// The defect of one proof against one condition, if any, in the order the
/// checks are made: malformed message, wrong identifier, wrong outcome, then
/// freshness.
pub open spec fn spec_single_proof_error(
    condition: ConditionRequirement,
    oracle_proof: OracleProof,
    current_time: i64,
    max_age_secs: u32,
    max_future_skew_secs: u32,
) -> Option<ExecutorError> {
    let msg = oracle_proof.message@;
    if !proof_message_wf(msg) {
        Some(ExecutorError::ProofParseError)
    } else if spec_parsed_condition_id(msg) != condition.condition_id@ {
        Some(ExecutorError::ConditionIdMismatch)
    } else if spec_parsed_outcome(msg) != condition.expected_outcome@ {
        Some(ExecutorError::OutcomeMismatch)
    } else {
        spec_freshness_error(
            spec_parsed_timestamp(msg),
            current_time,
            max_age_secs,
            max_future_skew_secs,
        )
    }
}

/// Verify a single proof against a single condition; on success hand back its
/// parsed content.
pub fn verify_single_proof(
    condition: &ConditionRequirement,
    oracle_proof: &OracleProof,
    current_time: i64,
    max_proof_age_secs: u32,
    max_future_skew_secs: u32,
) -> (r: Result<ParsedProof, ExecutorError>)
    ensures
        r is Ok <==> spec_proof_passes(
            *condition,
            *oracle_proof,
            current_time,
            max_proof_age_secs,
            max_future_skew_secs,
        ),
        r matches Err(e) ==> spec_single_proof_error(
            *condition,
            *oracle_proof,
            current_time,
            max_proof_age_secs,
            max_future_skew_secs,
        ) == Some(e),
        r matches Ok(p) ==> {
            &&& p.condition_id@ == spec_parsed_condition_id(oracle_proof.message@)
            &&& p.outcome@ == spec_parsed_outcome(oracle_proof.message@)
            &&& p.timestamp_unix == spec_parsed_timestamp(oracle_proof.message@)
        },
{
    let parsed = match parse_proof_message(oracle_proof) {
        Ok(p) => p,
        Err(e) => {
            return Err(e);
        },
    };

    if !bytes32_eq(&parsed.condition_id, &condition.condition_id) {
        return Err(ExecutorError::ConditionIdMismatch);
    }

    if !bytes_eq(parsed.outcome.as_slice(), condition.expected_outcome.as_slice()) {
        return Err(ExecutorError::OutcomeMismatch);
    }

    match check_proof_freshness(
        parsed.timestamp_unix,
        current_time,
        max_proof_age_secs,
        max_future_skew_secs,
    ) {
        Ok(()) => Ok(parsed),
        Err(e) => Err(e),
    }
}

/// The first defect among the proof-condition pairs at position `i` or later,
/// scanning in condition order.
pub open spec fn spec_proofs_scan(
    conditions: Seq<ConditionRequirement>,
    proofs: Seq<OracleProof>,
    current_time: i64,
    max_age_secs: u32,
    max_future_skew_secs: u32,
    i: int,
) -> Option<ExecutorError>
    recommends
        proofs.len() == conditions.len(),
    decreases proofs.len() - i,
{
    if i < 0 || i >= proofs.len() || i >= conditions.len() {
        None
    } else if spec_single_proof_error(
        conditions[i],
        proofs[i],
        current_time,
        max_age_secs,
        max_future_skew_secs,
    ) is Some {
        spec_single_proof_error(
            conditions[i],
            proofs[i],
            current_time,
            max_age_secs,
            max_future_skew_secs,
        )
    } else {
        spec_proofs_scan(conditions, proofs, current_time, max_age_secs, max_future_skew_secs, i + 1)
    }
}

/// Every proof satisfies its condition, one proof per condition in order.
pub open spec fn spec_all_proofs_pass(
    requirement: Requirement,
    proofs: Seq<OracleProof>,
    current_time: i64,
) -> bool {
    &&& proofs.len() == requirement.conditions@.len()
    &&& forall|i: int|
        0 <= i < proofs.len() ==> spec_proof_passes(
            requirement.conditions@[i],
            #[trigger] proofs[i],
            current_time,
            requirement.max_proof_age_secs,
            requirement.max_future_skew_secs,
        )
}

/// The error the proof set is rejected with, if any: a count mismatch first,
/// then the first defective pair in order.
pub open spec fn spec_verify_proofs_error(
    requirement: Requirement,
    proofs: Seq<OracleProof>,
    current_time: i64,
) -> Option<ExecutorError> {
    if proofs.len() != requirement.conditions@.len() {
        Some(ExecutorError::ProofCountMismatch)
    } else {
        spec_proofs_scan(
            requirement.conditions@,
            proofs,
            current_time,
            requirement.max_proof_age_secs,
            requirement.max_future_skew_secs,
            0,
        )
    }
}

/// The scan finds no defect at or after `i` exactly when every pair at or
/// after `i` passes.
proof fn lemma_proofs_scan_none(
    conditions: Seq<ConditionRequirement>,
    proofs: Seq<OracleProof>,
    current_time: i64,
    max_age_secs: u32,
    max_future_skew_secs: u32,
    i: int,
)
    requires
        0 <= i,
        proofs.len() == conditions.len(),
    ensures
        spec_proofs_scan(conditions, proofs, current_time, max_age_secs, max_future_skew_secs, i)
            is None <==> forall|k: int|
            i <= k < proofs.len() ==> spec_single_proof_error(
                conditions[k],
                #[trigger] proofs[k],
                current_time,
                max_age_secs,
                max_future_skew_secs,
            ) is None,
    decreases proofs.len() - i,
{
    if 0 <= i < proofs.len() {
        lemma_proofs_scan_none(
            conditions,
            proofs,
            current_time,
            max_age_secs,
            max_future_skew_secs,
            i + 1,
        );
    }
}

/// A pair passes exactly when it has no defect.
proof fn lemma_proof_passes_iff_no_error(
    condition: ConditionRequirement,
    oracle_proof: OracleProof,
    current_time: i64,
    max_age_secs: u32,
    max_future_skew_secs: u32,
)
    ensures
        spec_proof_passes(condition, oracle_proof, current_time, max_age_secs, max_future_skew_secs)
            <==> spec_single_proof_error(
            condition,
            oracle_proof,
            current_time,
            max_age_secs,
            max_future_skew_secs,
        ) is None,
{
}

/// Verify every proof against its condition, in order; on success hand back
/// the parsed proofs for the attestation-presence check.
pub fn verify_proofs_match_conditions(
    requirement: &Requirement,
    proofs: &[OracleProof],
    current_time: i64,
) -> (r: Result<Vec<ParsedProof>, ExecutorError>)
    ensures
        r is Ok <==> spec_all_proofs_pass(*requirement, proofs@, current_time),
        r matches Err(e) ==> spec_verify_proofs_error(*requirement, proofs@, current_time) == Some(
            e,
        ),
        r matches Ok(v) ==> {
            &&& v@.len() == proofs@.len()
            &&& forall|i: int|
                0 <= i < proofs@.len() ==> {
                    &&& (#[trigger] v@[i]).condition_id@ == spec_parsed_condition_id(
                        proofs@[i].message@,
                    )
                    &&& v@[i].outcome@ == spec_parsed_outcome(proofs@[i].message@)
                    &&& v@[i].timestamp_unix == spec_parsed_timestamp(proofs@[i].message@)
                }
        },
{
    let n = requirement.conditions.len();
    if proofs.len() != n {
        return Err(ExecutorError::ProofCountMismatch);
    }

    proof {
        lemma_proofs_scan_none(
            requirement.conditions@,
            proofs@,
            current_time,
            requirement.max_proof_age_secs,
            requirement.max_future_skew_secs,
            0,
        );
    }

    let mut parsed_proofs: Vec<ParsedProof> = Vec::new();
    let mut i: usize = 0;
    while i < n
        invariant
            0 <= i <= n,
            n == requirement.conditions@.len() == proofs@.len(),
            parsed_proofs@.len() == i,
            spec_proofs_scan(
                requirement.conditions@,
                proofs@,
                current_time,
                requirement.max_proof_age_secs,
                requirement.max_future_skew_secs,
                0,
            ) == spec_proofs_scan(
                requirement.conditions@,
                proofs@,
                current_time,
                requirement.max_proof_age_secs,
                requirement.max_future_skew_secs,
                i as int,
            ),
            forall|k: int|
                0 <= k < i ==> spec_single_proof_error(
                    requirement.conditions@[k],
                    #[trigger] proofs@[k],
                    current_time,
                    requirement.max_proof_age_secs,
                    requirement.max_future_skew_secs,
                ) is None,
            forall|k: int|
                0 <= k < i ==> {
                    &&& (#[trigger] parsed_proofs@[k]).condition_id@ == spec_parsed_condition_id(
                        proofs@[k].message@,
                    )
                    &&& parsed_proofs@[k].outcome@ == spec_parsed_outcome(proofs@[k].message@)
                    &&& parsed_proofs@[k].timestamp_unix == spec_parsed_timestamp(
                        proofs@[k].message@,
                    )
                },
        decreases n - i,
    {
        let parsed = match verify_single_proof(
            &requirement.conditions[i],
            &proofs[i],
            current_time,
            requirement.max_proof_age_secs,
            requirement.max_future_skew_secs,
        ) {
            Ok(p) => p,
            Err(e) => {
                return Err(e);
            },
        };
        proof {
            lemma_proof_passes_iff_no_error(
                requirement.conditions@[i as int],
                proofs@[i as int],
                current_time,
                requirement.max_proof_age_secs,
                requirement.max_future_skew_secs,
            );
        }
        parsed_proofs.push(parsed);
        i = i + 1;
    }
    proof {
        assert forall|k: int| 0 <= k < proofs@.len() implies spec_proof_passes(
            requirement.conditions@[k],
            #[trigger] proofs@[k],
            current_time,
            requirement.max_proof_age_secs,
            requirement.max_future_skew_secs,
        ) by {
            lemma_proof_passes_iff_no_error(
                requirement.conditions@[k],
                proofs@[k],
                current_time,
                requirement.max_proof_age_secs,
                requirement.max_future_skew_secs,
            );
        }
    }
    Ok(parsed_proofs)
}

} // verus!
