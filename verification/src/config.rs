//! Trusted-identity resolution: an optional override record chooses the
//! attester identity, else a fixed default applies.

use vstd::prelude::*;

use crate::state::Config;
use crate::util::bytes32_eq;

verus! {

/// The fixed default attester identity used when no configuration record is
/// present. A placeholder value until a real identity is deployed.
pub open spec fn spec_default_trusted_signer() -> Seq<u8> {
    Seq::new(32, |i: int| 0u8)
}

/// The trusted attester identity a given optional configuration selects:
/// the override record's identity when one is present, the default otherwise.
pub open spec fn spec_trusted_signer(config: Option<Config>) -> Seq<u8> {
    match config {
        Some(cfg) => cfg.stork_signer_pubkey@,
        None => spec_default_trusted_signer(),
    }
}

/// Resolve the trusted attester identity from an optional configuration
/// record.
pub fn get_trusted_signer(config: Option<&Config>) -> (r: [u8; 32])
    ensures
        config matches Some(cfg) ==> r@ == cfg.stork_signer_pubkey@,
        config is None ==> r@ == spec_default_trusted_signer(),
{
    match config {
        Some(cfg) => cfg.stork_signer_pubkey,
        None => {
            let r = [0u8; 32];
            proof {
                assert(r@ =~= spec_default_trusted_signer());
            }
            r
        },
    }
}

/// Decide whether an identity is the trusted attester under an optional
/// configuration record.
pub fn is_trusted_signer(pubkey: &[u8; 32], config: Option<&Config>) -> (r: bool)
    ensures
        config matches Some(cfg) ==> (r <==> pubkey@ == cfg.stork_signer_pubkey@),
        config is None ==> (r <==> pubkey@ == spec_default_trusted_signer()),
{
    let trusted = get_trusted_signer(config);
    bytes32_eq(pubkey, &trusted)
}

} // verus!
