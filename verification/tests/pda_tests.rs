//! Derived addresses and trusted-identity resolution.

use anchor_lang::prelude::Pubkey;
use conditional_executor::config::{get_trusted_signer, is_trusted_signer};
use conditional_executor::pda::{
    derive_config_pda, derive_requirement_pda, requirement_signer_seeds,
};
use conditional_executor::state::Config;

#[test]
fn test_requirement_pda_matches_direct_derivation() {
    let authority = [1u8; 32];
    let nonce = 42u64;
    let program_id = [2u8; 32];
    let (addr, bump) = derive_requirement_pda(&authority, nonce, &program_id).unwrap();
    let (expected, expected_bump) = Pubkey::find_program_address(
        &[b"requirement", &authority, &nonce.to_le_bytes()],
        &Pubkey::new_from_array(program_id),
    );
    assert_eq!(addr, expected.to_bytes());
    assert_eq!(bump, expected_bump);
}

#[test]
fn test_config_pda_matches_direct_derivation() {
    let program_id = [2u8; 32];
    let (addr, bump) = derive_config_pda(&program_id).unwrap();
    let (expected, expected_bump) =
        Pubkey::find_program_address(&[b"config"], &Pubkey::new_from_array(program_id));
    assert_eq!(addr, expected.to_bytes());
    assert_eq!(bump, expected_bump);
}

#[test]
fn test_pda_depends_on_owner_and_nonce() {
    let program_id = [2u8; 32];
    let (a, _) = derive_requirement_pda(&[1u8; 32], 1, &program_id).unwrap();
    let (b, _) = derive_requirement_pda(&[1u8; 32], 2, &program_id).unwrap();
    let (c, _) = derive_requirement_pda(&[9u8; 32], 1, &program_id).unwrap();
    assert_ne!(a, b);
    assert_ne!(a, c);
}

#[test]
fn test_signer_seeds_layout() {
    let authority = [1u8; 32];
    let seeds = requirement_signer_seeds(&authority, 0x0102030405060708, 253);
    assert_eq!(seeds.len(), 4);
    assert_eq!(seeds[0], b"requirement".to_vec());
    assert_eq!(seeds[1], authority.to_vec());
    assert_eq!(seeds[2], vec![8u8, 7, 6, 5, 4, 3, 2, 1]);
    assert_eq!(seeds[3], vec![253u8]);
}

#[test]
fn test_signer_seeds_reproduce_the_derived_address() {
    let authority = [1u8; 32];
    let nonce = 7u64;
    let program_id = [2u8; 32];
    let (addr, bump) = derive_requirement_pda(&authority, nonce, &program_id).unwrap();
    let seeds = requirement_signer_seeds(&authority, nonce, bump);
    let slices: Vec<&[u8]> = seeds.iter().map(|s| s.as_slice()).collect();
    let reproduced =
        Pubkey::create_program_address(&slices, &Pubkey::new_from_array(program_id)).unwrap();
    assert_eq!(addr, reproduced.to_bytes());
}

#[test]
fn test_trusted_signer_default_and_override() {
    assert_eq!(get_trusted_signer(None), [0u8; 32]);

    let cfg = Config { authority: [1u8; 32], stork_signer_pubkey: [9u8; 32], bump: 255 };
    assert_eq!(get_trusted_signer(Some(&cfg)), [9u8; 32]);

    assert!(is_trusted_signer(&[0u8; 32], None));
    assert!(!is_trusted_signer(&[9u8; 32], None));
    assert!(is_trusted_signer(&[9u8; 32], Some(&cfg)));
    assert!(!is_trusted_signer(&[0u8; 32], Some(&cfg)));
}
