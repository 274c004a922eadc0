//! The attestation codec and the freshness check.

use conditional_executor::codec::{check_proof_freshness, encode_proof_message, parse_proof_message};
use conditional_executor::error::ExecutorError;
use conditional_executor::types::OracleProof;

fn proof_of(message: Vec<u8>) -> OracleProof {
    OracleProof { message, signature: [0u8; 64] }
}

#[test]
fn test_encode_exact_layout() {
    let id = [0xabu8; 32];
    let outcome = vec![1u8, 2, 3];
    let msg = encode_proof_message(&id, &outcome, 0x0102030405060708);
    assert_eq!(msg.len(), 32 + 2 + 3 + 8);
    assert_eq!(&msg[0..32], &id);
    assert_eq!(&msg[32..34], &[3u8, 0]);
    assert_eq!(&msg[34..37], &[1u8, 2, 3]);
    assert_eq!(&msg[37..45], &[8u8, 7, 6, 5, 4, 3, 2, 1]);
}

#[test]
fn test_decode_encode_round_trip() {
    let id = [0x5au8; 32];
    let outcome = vec![9u8; 64];
    let t = -1234567890123i64;
    let msg = encode_proof_message(&id, &outcome, t);
    let parsed = parse_proof_message(&proof_of(msg)).unwrap();
    assert_eq!(parsed.condition_id, id);
    assert_eq!(parsed.outcome, outcome);
    assert_eq!(parsed.timestamp_unix, t);
}

#[test]
fn test_round_trip_empty_outcome_and_extreme_timestamps() {
    let id = [7u8; 32];
    for &t in &[i64::MIN, -1, 0, 1, i64::MAX] {
        let msg = encode_proof_message(&id, &[], t);
        assert_eq!(msg.len(), 42);
        let parsed = parse_proof_message(&proof_of(msg)).unwrap();
        assert_eq!(parsed.condition_id, id);
        assert!(parsed.outcome.is_empty());
        assert_eq!(parsed.timestamp_unix, t);
    }
}

#[test]
fn test_round_trip_large_outcome() {
    let id = [1u8; 32];
    let outcome: Vec<u8> = (0..65535u32).map(|i| (i % 251) as u8).collect();
    let msg = encode_proof_message(&id, &outcome, 42);
    let parsed = parse_proof_message(&proof_of(msg)).unwrap();
    assert_eq!(parsed.outcome, outcome);
    assert_eq!(parsed.timestamp_unix, 42);
}

#[test]
fn test_parse_rejects_short_message() {
    let r = parse_proof_message(&proof_of(vec![0u8; 41]));
    assert_eq!(r.unwrap_err(), ExecutorError::ProofParseError);
}

#[test]
fn test_parse_rejects_truncated_outcome() {
    // declares 10 outcome bytes but carries only 9 before the timestamp
    let mut msg = vec![0u8; 32];
    msg.extend_from_slice(&10u16.to_le_bytes());
    msg.extend_from_slice(&[0u8; 9 + 8]);
    let r = parse_proof_message(&proof_of(msg));
    assert_eq!(r.unwrap_err(), ExecutorError::ProofParseError);
}

#[test]
fn test_parse_tolerates_trailing_bytes() {
    let id = [3u8; 32];
    let mut msg = encode_proof_message(&id, &[4, 5], 77);
    msg.extend_from_slice(&[0xff; 5]);
    let parsed = parse_proof_message(&proof_of(msg)).unwrap();
    assert_eq!(parsed.outcome, vec![4, 5]);
    assert_eq!(parsed.timestamp_unix, 77);
}

#[test]
fn test_freshness_boundaries_inclusive() {
    // T in [N - A, N + S], both ends inclusive
    assert!(check_proof_freshness(90, 100, 10, 20).is_ok());
    assert!(check_proof_freshness(120, 100, 10, 20).is_ok());
    assert!(check_proof_freshness(100, 100, 10, 20).is_ok());
    assert_eq!(
        check_proof_freshness(89, 100, 10, 20).unwrap_err(),
        ExecutorError::ProofTooOld
    );
    assert_eq!(
        check_proof_freshness(121, 100, 10, 20).unwrap_err(),
        ExecutorError::ProofInFuture
    );
}

#[test]
fn test_freshness_zero_selects_defaults() {
    // defaults: 3600 seconds of age, 300 seconds of skew
    assert!(check_proof_freshness(1_000_000, 1_003_600, 0, 0).is_ok());
    assert_eq!(
        check_proof_freshness(1_000_000, 1_003_601, 0, 0).unwrap_err(),
        ExecutorError::ProofTooOld
    );
    assert!(check_proof_freshness(1_000_300, 1_000_000, 0, 0).is_ok());
    assert_eq!(
        check_proof_freshness(1_000_301, 1_000_000, 0, 0).unwrap_err(),
        ExecutorError::ProofInFuture
    );
}

#[test]
fn test_freshness_adversarial_timestamps() {
    // extreme values must not pass through over- or underflow
    assert_eq!(
        check_proof_freshness(i64::MIN, 0, 10, 10).unwrap_err(),
        ExecutorError::ProofTooOld
    );
    assert_eq!(
        check_proof_freshness(i64::MAX, 0, 10, 10).unwrap_err(),
        ExecutorError::ProofInFuture
    );
    assert_eq!(
        check_proof_freshness(0, i64::MAX, 10, 10).unwrap_err(),
        ExecutorError::ProofTooOld
    );
}
