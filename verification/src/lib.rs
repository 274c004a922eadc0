//! An escrow-based delegated execution engine for an account-model ledger.
//!
//! An owner locks a delegated external-call intent in a program-owned
//! requirement record. The call executes only when a submitter supplies
//! signed attestations proving that a bounded set of conditions held within
//! a recent time window, and only against the exact ordered set of target
//! accounts fixed at creation time.
//!
//! The library holds the verified core: the requirement lifecycle state
//! machine, the binary attestation-message codec with its freshness check,
//! the accounts-hash binding that prevents call-target substitution, the
//! attestation-presence verifier over sibling operations of the atomic
//! bundle, the delegated-call builder, and the keeper-fee rules. The host
//! runtime supplies the clock, the bundle contents, the balances and the
//! actual dispatch, and applies the decisions made here.

pub mod codec;
pub mod config;
pub mod constants;
pub mod cpi;
pub mod ed25519;
pub mod error;
pub mod fees;
pub mod hash;
pub mod instructions;
pub mod pda;
pub mod state;
pub mod types;
pub mod util;
pub mod validate;
pub mod verify;
