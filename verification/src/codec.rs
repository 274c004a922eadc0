//! The attestation-message codec and the freshness check.
//!
//! A proof message has a fixed packed layout: a 32-byte condition identifier,
//! a 2-byte little-endian outcome length, the outcome bytes, and an 8-byte
//! little-endian signed timestamp. The minimum length is therefore 42 bytes.

use vstd::prelude::*;
use vstd::bytes::{
    lemma_auto_spec_u16_to_from_le_bytes, lemma_auto_spec_u64_to_from_le_bytes,
    spec_u16_from_le_bytes, spec_u16_to_le_bytes, spec_u64_from_le_bytes, spec_u64_to_le_bytes,
    u16_from_le_bytes, u16_to_le_bytes, u64_from_le_bytes, u64_to_le_bytes,
};
use vstd::slice::{slice_subrange, slice_to_vec};

use crate::constants::{DEFAULT_MAX_FUTURE_SKEW_SECS, DEFAULT_MAX_PROOF_AGE_SECS};
use crate::error::ExecutorError;
use crate::types::{OracleProof, ParsedProof};

verus! {

/// Minimum length of a proof message: 32 + 2 + 0 + 8 bytes.
pub const MIN_MESSAGE_LEN: usize = 42;

/// The byte layout of a proof message for a given identifier, outcome and
/// timestamp. The timestamp is stored as its two's-complement bit pattern.
pub open spec fn spec_encode_proof_message(
    condition_id: Seq<u8>,
    outcome: Seq<u8>,
    timestamp_unix: i64,
) -> Seq<u8>
    recommends
        condition_id.len() == 32,
        outcome.len() <= u16::MAX,
{
    condition_id + spec_u16_to_le_bytes(outcome.len() as u16) + outcome
        + spec_u64_to_le_bytes(timestamp_unix as u64)
}

/// The outcome length a message declares in its 2-byte length field.
pub open spec fn spec_declared_outcome_len(msg: Seq<u8>) -> int
    recommends
        msg.len() >= 34,
{
    spec_u16_from_le_bytes(msg.subrange(32, 34)) as int
}

/// A message is well formed when it holds the fixed fields and at least as
/// many outcome bytes as its length field declares. Trailing bytes beyond the
/// declared layout are tolerated and ignored.
pub open spec fn proof_message_wf(msg: Seq<u8>) -> bool {
    &&& msg.len() >= MIN_MESSAGE_LEN
    &&& msg.len() >= MIN_MESSAGE_LEN + spec_declared_outcome_len(msg)
}

/// The condition identifier of a well-formed message.
pub open spec fn spec_parsed_condition_id(msg: Seq<u8>) -> Seq<u8>
    recommends
        proof_message_wf(msg),
{
    msg.subrange(0, 32)
}

/// The outcome bytes of a well-formed message.
pub open spec fn spec_parsed_outcome(msg: Seq<u8>) -> Seq<u8>
    recommends
        proof_message_wf(msg),
{
    msg.subrange(34, 34 + spec_declared_outcome_len(msg))
}

/// The timestamp of a well-formed message, read back from its
/// two's-complement bit pattern.
pub open spec fn spec_parsed_timestamp(msg: Seq<u8>) -> i64
    recommends
        proof_message_wf(msg),
{
    let off = 34 + spec_declared_outcome_len(msg);
    spec_u64_from_le_bytes(msg.subrange(off, off + 8)) as i64
}

/// Parse a proof message into its structured content. Succeeds exactly on
/// well-formed messages and extracts the declared fields verbatim.
pub fn parse_proof_message(proof: &OracleProof) -> (r: Result<ParsedProof, ExecutorError>)
    ensures
        r is Ok <==> proof_message_wf(proof.message@),
        r is Err ==> r == Err::<ParsedProof, ExecutorError>(ExecutorError::ProofParseError),
        r matches Ok(p) ==> {
            &&& p.condition_id@ == spec_parsed_condition_id(proof.message@)
            &&& p.outcome@ == spec_parsed_outcome(proof.message@)
            &&& p.timestamp_unix == spec_parsed_timestamp(proof.message@)
        },
{
    let msg = proof.message.as_slice();

    if msg.len() < MIN_MESSAGE_LEN {
        return Err(ExecutorError::ProofParseError);
    }

    let mut condition_id = [0u8; 32];
    let mut i: usize = 0;
    while i < 32
        invariant
            0 <= i <= 32,
            msg@ == proof.message@,
            msg@.len() >= MIN_MESSAGE_LEN,
            condition_id@.len() == 32,
            forall|k: int| 0 <= k < i ==> condition_id@[k] == msg@[k],
        decreases 32 - i,
    {
        condition_id[i] = msg[i];
        i = i + 1;
    }

    let outcome_len = u16_from_le_bytes(slice_subrange(msg, 32, 34)) as usize;
    assert(outcome_len == spec_declared_outcome_len(proof.message@));

    if msg.len() < MIN_MESSAGE_LEN + outcome_len {
        return Err(ExecutorError::ProofParseError);
    }

    let outcome = slice_to_vec(slice_subrange(msg, 34, 34 + outcome_len));
    let timestamp_bits = u64_from_le_bytes(slice_subrange(msg, 34 + outcome_len, 42 + outcome_len));
    let timestamp_unix = timestamp_bits as i64;

    assert(condition_id@ =~= spec_parsed_condition_id(proof.message@));
    Ok(ParsedProof { condition_id, outcome, timestamp_unix })
}

/// Encode a proof message from its components; the exact inverse of parsing,
/// used to build fixtures and off-ledger messages.
pub fn encode_proof_message(condition_id: &[u8; 32], outcome: &[u8], timestamp_unix: i64) -> (msg:
    Vec<u8>)
    requires
        outcome@.len() <= u16::MAX,
    ensures
        msg@ == spec_encode_proof_message(condition_id@, outcome@, timestamp_unix),
{
    let mut msg: Vec<u8> = Vec::new();
    msg.extend_from_slice(condition_id.as_slice());
    let mut len_bytes = u16_to_le_bytes(outcome.len() as u16);
    msg.append(&mut len_bytes);
    msg.extend_from_slice(outcome);
    let mut ts_bytes = u64_to_le_bytes(timestamp_unix as u64);
    msg.append(&mut ts_bytes);
    assert(msg@ =~= spec_encode_proof_message(condition_id@, outcome@, timestamp_unix));
    msg
}

/// The freshness windows that apply once a zero input has been replaced by
/// the default.
pub open spec fn spec_effective_window(window_secs: u32, default_secs: u32) -> u32 {
    if window_secs == 0 {
        default_secs
    } else {
        window_secs
    }
}

/// A proof timestamp T is fresh for current time N, maximum age A and maximum
/// future skew S (after default substitution) exactly when
/// N - A <= T <= N + S, inclusive at both boundaries.
pub open spec fn spec_freshness_ok(
    proof_timestamp: i64,
    current_time: i64,
    max_age_secs: u32,
    max_future_skew_secs: u32,
) -> bool {
    let age_limit = spec_effective_window(max_age_secs, DEFAULT_MAX_PROOF_AGE_SECS);
    let skew_limit = spec_effective_window(max_future_skew_secs, DEFAULT_MAX_FUTURE_SKEW_SECS);
    current_time - age_limit <= proof_timestamp <= current_time + skew_limit
}

/// The freshness error a proof timestamp is rejected with, if any: staleness
/// is checked before future skew.
pub open spec fn spec_freshness_error(
    proof_timestamp: i64,
    current_time: i64,
    max_age_secs: u32,
    max_future_skew_secs: u32,
) -> Option<ExecutorError> {
    let age_limit = spec_effective_window(max_age_secs, DEFAULT_MAX_PROOF_AGE_SECS);
    let skew_limit = spec_effective_window(max_future_skew_secs, DEFAULT_MAX_FUTURE_SKEW_SECS);
    if current_time - proof_timestamp > age_limit {
        Some(ExecutorError::ProofTooOld)
    } else if proof_timestamp - current_time > skew_limit {
        Some(ExecutorError::ProofInFuture)
    } else {
        None
    }
}

/// Check a proof timestamp against the current time and the freshness
/// windows; a zero window selects the corresponding default.
pub fn check_proof_freshness(
    proof_timestamp: i64,
    current_time: i64,
    max_age_secs: u32,
    max_future_skew_secs: u32,
) -> (r: Result<(), ExecutorError>)
    ensures
        r is Ok <==> spec_freshness_ok(
            proof_timestamp,
            current_time,
            max_age_secs,
            max_future_skew_secs,
        ),
        r matches Err(e) ==> spec_freshness_error(
            proof_timestamp,
            current_time,
            max_age_secs,
            max_future_skew_secs,
        ) == Some(e),
{
    let age_limit: u32 = if max_age_secs == 0 {
        DEFAULT_MAX_PROOF_AGE_SECS
    } else {
        max_age_secs
    };
    let skew_limit: u32 = if max_future_skew_secs == 0 {
        DEFAULT_MAX_FUTURE_SKEW_SECS
    } else {
        max_future_skew_secs
    };

    let age: i128 = current_time as i128 - proof_timestamp as i128;
    if age > age_limit as i128 {
        return Err(ExecutorError::ProofTooOld);
    }

    let future_skew: i128 = proof_timestamp as i128 - current_time as i128;
    if future_skew > skew_limit as i128 {
        return Err(ExecutorError::ProofInFuture);
    }

    Ok(())
}

/// Law: decoding inverts encoding. Every message encoded from a 32-byte
/// identifier, an outcome of at most 65535 bytes and any signed timestamp is
/// well formed and parses back to exactly those components.
pub proof fn lemma_proof_message_round_trip(
    condition_id: Seq<u8>,
    outcome: Seq<u8>,
    timestamp_unix: i64,
)
    requires
        condition_id.len() == 32,
        outcome.len() <= u16::MAX,
    ensures
        proof_message_wf(spec_encode_proof_message(condition_id, outcome, timestamp_unix)),
        spec_parsed_condition_id(spec_encode_proof_message(condition_id, outcome, timestamp_unix))
            == condition_id,
        spec_parsed_outcome(spec_encode_proof_message(condition_id, outcome, timestamp_unix))
            == outcome,
        spec_parsed_timestamp(spec_encode_proof_message(condition_id, outcome, timestamp_unix))
            == timestamp_unix,
{
    let msg = spec_encode_proof_message(condition_id, outcome, timestamp_unix);
    lemma_auto_spec_u16_to_from_le_bytes();
    lemma_auto_spec_u64_to_from_le_bytes();
    assert(msg.subrange(32, 34) =~= spec_u16_to_le_bytes(outcome.len() as u16));
    assert(spec_declared_outcome_len(msg) == outcome.len());
    assert(msg.subrange(0, 32) =~= condition_id);
    assert(spec_parsed_outcome(msg) =~= outcome);
    let off = 34 + spec_declared_outcome_len(msg);
    assert(msg.subrange(off, off + 8) =~= spec_u64_to_le_bytes(timestamp_unix as u64));
    assert(((timestamp_unix as u64) as i64) == timestamp_unix) by (bit_vector);
}

} // verus!
