//! Derived-address helpers.
//!
//! A requirement record lives at an address derived from a fixed tag, the
//! owner identity and the owner-chosen nonce; the configuration record lives
//! at an address derived from its own tag. Such an address has no private
//! key: only logic that can reproduce its seeds controls it, which is what
//! lets the record itself sign the delegated call and its fee payout.

use vstd::prelude::*;
use vstd::bytes::{spec_u64_to_le_bytes, u64_to_le_bytes};
use vstd::slice::slice_to_vec;

verus! {

/// The address and bump the outside derivation assigns to a seed list under a
/// program identity, or nothing in the statistically improbable case that no
/// bump yields a valid address.
pub uninterp spec fn spec_find_program_address(seeds: Seq<Seq<u8>>, program_id: Seq<u8>) -> Option<
    ([u8; 32], u8),
>;

/// Relies on Pubkey::try_find_program_address of the ledger SDK: the derived
/// address and bump are a function of the seeds and the program identity
/// alone; it returns None only when no bump yields a valid address.
#[verifier::external_body]
fn find_program_address(seeds: &Vec<Vec<u8>>, program_id: &[u8; 32]) -> (r: Option<([u8; 32], u8)>)
    ensures
        r == spec_find_program_address(seeds.deep_view(), program_id@),
{
    let seed_slices: Vec<&[u8]> = seeds.iter().map(|s| s.as_slice()).collect();
    let pk = anchor_lang::prelude::Pubkey::new_from_array(*program_id);
    anchor_lang::prelude::Pubkey::try_find_program_address(&seed_slices, &pk)
        .map(|(addr, bump)| (addr.to_bytes(), bump))
}

/// The fixed tag that starts every requirement record's seed list.
pub open spec fn spec_requirement_seed_tag() -> Seq<u8> {
    seq![114u8, 101u8, 113u8, 117u8, 105u8, 114u8, 101u8, 109u8, 101u8, 110u8, 116u8]
}

/// The fixed tag that forms the configuration record's seed list.
pub open spec fn spec_config_seed_tag() -> Seq<u8> {
    seq![99u8, 111u8, 110u8, 102u8, 105u8, 103u8]
}

/// The tag bytes that start every requirement record's seed list.
pub fn requirement_seed_tag() -> (r: Vec<u8>)
    ensures
        r@ == spec_requirement_seed_tag(),
{
    let r: Vec<u8> = vec![114u8, 101u8, 113u8, 117u8, 105u8, 114u8, 101u8, 109u8, 101u8, 110u8, 116u8];
    proof {
        assert(r@ =~= spec_requirement_seed_tag());
    }
    r
}

/// The tag bytes that form the configuration record's seed list.
pub fn config_seed_tag() -> (r: Vec<u8>)
    ensures
        r@ == spec_config_seed_tag(),
{
    let r: Vec<u8> = vec![99u8, 111u8, 110u8, 102u8, 105u8, 103u8];
    proof {
        assert(r@ =~= spec_config_seed_tag());
    }
    r
}

/// The seed list that derives a requirement record's address: the tag, the
/// owner identity, and the little-endian nonce.
pub open spec fn spec_requirement_seeds(authority: Seq<u8>, nonce: u64) -> Seq<Seq<u8>> {
    seq![spec_requirement_seed_tag(), authority, spec_u64_to_le_bytes(nonce)]
}

/// The seed list a requirement record signs with: its derivation seeds
/// followed by the bump.
pub open spec fn spec_requirement_signer_seeds(authority: Seq<u8>, nonce: u64, bump: u8) -> Seq<
    Seq<u8>,
> {
    spec_requirement_seeds(authority, nonce).push(seq![bump])
}

/// Derive the address and bump of the requirement record keyed by an owner
/// and a nonce under a program identity.
pub fn derive_requirement_pda(authority: &[u8; 32], nonce: u64, program_id: &[u8; 32]) -> (r:
    Option<([u8; 32], u8)>)
    ensures
        r == spec_find_program_address(spec_requirement_seeds(authority@, nonce), program_id@),
{
    let mut seeds: Vec<Vec<u8>> = Vec::new();
    seeds.push(requirement_seed_tag());
    seeds.push(slice_to_vec(authority.as_slice()));
    seeds.push(u64_to_le_bytes(nonce));
    proof {
        assert(seeds.deep_view() =~~= spec_requirement_seeds(authority@, nonce));
    }
    find_program_address(&seeds, program_id)
}

/// Derive the address and bump of the singleton configuration record under a
/// program identity.
pub fn derive_config_pda(program_id: &[u8; 32]) -> (r: Option<([u8; 32], u8)>)
    ensures
        r == spec_find_program_address(seq![spec_config_seed_tag()], program_id@),
{
    let mut seeds: Vec<Vec<u8>> = Vec::new();
    seeds.push(config_seed_tag());
    proof {
        assert(seeds.deep_view() =~~= seq![spec_config_seed_tag()]);
    }
    find_program_address(&seeds, program_id)
}

/// Build the seed list a requirement record signs with, for the host to hand
/// to its signing primitive.
pub fn requirement_signer_seeds(authority: &[u8; 32], nonce: u64, bump: u8) -> (r: Vec<Vec<u8>>)
    ensures
        r.deep_view() == spec_requirement_signer_seeds(authority@, nonce, bump),
{
    let mut seeds: Vec<Vec<u8>> = Vec::new();
    seeds.push(requirement_seed_tag());
    seeds.push(slice_to_vec(authority.as_slice()));
    seeds.push(u64_to_le_bytes(nonce));
    let mut bump_seed: Vec<u8> = Vec::new();
    bump_seed.push(bump);
    seeds.push(bump_seed);
    proof {
        assert(bump_seed@ =~= seq![bump]);
        assert(seeds.deep_view() =~~= spec_requirement_signer_seeds(authority@, nonce, bump));
    }
    seeds
}

} // verus!
