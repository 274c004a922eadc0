//! The accounts-hash binder: determinism, order sensitivity, flag
//! sensitivity.

use conditional_executor::hash::{compute_accounts_hash, verify_accounts_hash};
use conditional_executor::types::AccountMetaInput;

fn meta(byte: u8, is_signer: bool, is_writable: bool) -> AccountMetaInput {
    AccountMetaInput { pubkey: [byte; 32], is_signer, is_writable }
}

#[test]
fn test_empty_accounts_hash() {
    let hash = compute_accounts_hash(&[]);
    // Should produce a valid 32-byte hash
    assert_eq!(hash.len(), 32);
}

#[test]
fn test_empty_accounts_hash_exact_digest() {
    // the digest of the empty preimage is the well-known SHA-256 of no bytes
    let expected: [u8; 32] = [
        0xe3, 0xb0, 0xc4, 0x42, 0x98, 0xfc, 0x1c, 0x14, 0x9a, 0xfb, 0xf4, 0xc8, 0x99, 0x6f, 0xb9,
        0x24, 0x27, 0xae, 0x41, 0xe4, 0x64, 0x9b, 0x93, 0x4c, 0xa4, 0x95, 0x99, 0x1b, 0x78, 0x52,
        0xb8, 0x55,
    ];
    assert_eq!(compute_accounts_hash(&[]), expected);
}

#[test]
fn test_accounts_hash_deterministic() {
    let accounts = vec![meta(11, true, false), meta(22, false, true)];

    let hash1 = compute_accounts_hash(&accounts);
    let hash2 = compute_accounts_hash(&accounts);
    assert_eq!(hash1, hash2);
}

#[test]
fn test_accounts_hash_order_sensitive() {
    let a = meta(1, true, false);
    let b = meta(2, false, true);
    let original = compute_accounts_hash(&[a, b]);
    let permuted = compute_accounts_hash(&[b, a]);
    assert_ne!(original, permuted);

    // restoring the original order restores the hash
    let restored = compute_accounts_hash(&[a, b]);
    assert_eq!(original, restored);
}

#[test]
fn test_accounts_hash_flag_sensitive() {
    let base = compute_accounts_hash(&[meta(5, false, false)]);
    let signer_flipped = compute_accounts_hash(&[meta(5, true, false)]);
    let writable_flipped = compute_accounts_hash(&[meta(5, false, true)]);
    assert_ne!(base, signer_flipped);
    assert_ne!(base, writable_flipped);
    assert_ne!(signer_flipped, writable_flipped);
}

#[test]
fn test_verify_accounts_hash_exact_match_only() {
    let accounts = vec![meta(1, true, true), meta(2, false, false)];
    let stored = compute_accounts_hash(&accounts);
    assert!(verify_accounts_hash(&accounts, &stored));

    // a permutation of the same set does not match
    let permuted = vec![meta(2, false, false), meta(1, true, true)];
    assert!(!verify_accounts_hash(&permuted, &stored));

    // a partial list does not match
    assert!(!verify_accounts_hash(&accounts[..1], &stored));
}
