//! The accounts-hash binder: a canonical digest of an ordered
//! account-permission list.
//!
//! The digest covers, for each account in order, its 32-byte identity, one
//! signer-flag byte and one writable-flag byte. It is computed once at
//! creation from the caller-declared list and recomputed independently at
//! execution from the actually supplied accounts; execution proceeds only on
//! exact equality. This prevents a confused-deputy substitution where the
//! delegated authority is pointed at accounts the owner never approved.

use vstd::prelude::*;

use crate::types::AccountMetaInput;
use crate::util::bytes32_eq;

verus! {

/// The digest that the outside hash function assigns to a byte string.
pub uninterp spec fn spec_sha256(data: Seq<u8>) -> Seq<u8>;

/// Relies on sha2's Sha256: the 32-byte digest is a function of the input
/// bytes alone.
#[verifier::external_body]
fn sha256_digest(data: &[u8]) -> (r: [u8; 32])
    ensures
        r@ == spec_sha256(data@),
{
    let digest = <sha2::Sha256 as sha2::Digest>::digest(data);
    let mut out = [0u8; 32];
    out.copy_from_slice(&digest);
    out
}

/// The 34 bytes that one account-permission entry contributes to the digest
/// preimage: identity, signer flag, writable flag.
pub open spec fn spec_account_meta_bytes(meta: AccountMetaInput) -> Seq<u8> {
    meta.pubkey@ + seq![
        if meta.is_signer {
            1u8
        } else {
            0u8
        },
        if meta.is_writable {
            1u8
        } else {
            0u8
        },
    ]
}

/// The ordered concatenation of every entry's bytes: the digest preimage.
pub open spec fn spec_accounts_preimage(accounts: Seq<AccountMetaInput>) -> Seq<u8>
    decreases accounts.len(),
{
    if accounts.len() == 0 {
        Seq::empty()
    } else {
        spec_account_meta_bytes(accounts[0]) + spec_accounts_preimage(accounts.drop_first())
    }
}

/// Each entry contributes exactly 34 bytes to the preimage.
pub proof fn lemma_accounts_preimage_len(accounts: Seq<AccountMetaInput>)
    ensures
        spec_accounts_preimage(accounts).len() == 34 * accounts.len(),
    decreases accounts.len(),
{
    if accounts.len() > 0 {
        lemma_accounts_preimage_len(accounts.drop_first());
    }
}

/// Two entries agree on everything the preimage records.
pub open spec fn spec_meta_equal(a: AccountMetaInput, b: AccountMetaInput) -> bool {
    &&& a.pubkey@ == b.pubkey@
    &&& a.is_signer == b.is_signer
    &&& a.is_writable == b.is_writable
}

/// Law: the preimage determines the ordered account-permission list. Two
/// lists with the same preimage agree entry by entry, so reordering a list of
/// distinct entries, or flipping any permission bit, always changes the bytes
/// that are hashed. (That the digest itself then differs is the hash
/// function's collision resistance, which is relied on, not proved.)
pub proof fn lemma_accounts_preimage_injective(a: Seq<AccountMetaInput>, b: Seq<AccountMetaInput>)
    requires
        spec_accounts_preimage(a) == spec_accounts_preimage(b),
    ensures
        a.len() == b.len(),
        forall|i: int| 0 <= i < a.len() ==> spec_meta_equal(a[i], b[i]),
    decreases a.len(),
{
    lemma_accounts_preimage_len(a);
    lemma_accounts_preimage_len(b);
    if a.len() > 0 {
        let pa = spec_accounts_preimage(a);
        let pb = spec_accounts_preimage(b);
        let ha = spec_account_meta_bytes(a[0]);
        let hb = spec_account_meta_bytes(b[0]);
        lemma_accounts_preimage_len(a.drop_first());
        assert(ha =~= pa.subrange(0, 34));
        assert(hb =~= pb.subrange(0, 34));
        assert(a[0].pubkey@ =~= ha.subrange(0, 32));
        assert(b[0].pubkey@ =~= hb.subrange(0, 32));
        assert(ha[32] == (if a[0].is_signer { 1u8 } else { 0u8 }));
        assert(hb[32] == (if b[0].is_signer { 1u8 } else { 0u8 }));
        assert(ha[33] == (if a[0].is_writable { 1u8 } else { 0u8 }));
        assert(hb[33] == (if b[0].is_writable { 1u8 } else { 0u8 }));
        assert(spec_meta_equal(a[0], b[0]));
        assert(spec_accounts_preimage(a.drop_first()) =~= pa.subrange(34, pa.len() as int));
        assert(spec_accounts_preimage(b.drop_first()) =~= pb.subrange(34, pb.len() as int));
        lemma_accounts_preimage_injective(a.drop_first(), b.drop_first());
        assert forall|i: int| 0 <= i < a.len() implies spec_meta_equal(a[i], b[i]) by {
            if i > 0 {
                assert(a.drop_first()[i - 1] == a[i]);
                assert(b.drop_first()[i - 1] == b[i]);
                assert(spec_meta_equal(a.drop_first()[i - 1], b.drop_first()[i - 1]));
            }
        }
    }
}

/// Compute the digest of an ordered account-permission list.
pub fn compute_accounts_hash(accounts: &[AccountMetaInput]) -> (r: [u8; 32])
    ensures
        r@ == spec_sha256(spec_accounts_preimage(accounts@)),
{
    let mut preimage: Vec<u8> = Vec::new();
    let n = accounts.len();
    let mut i: usize = 0;
    assert(accounts@.skip(0) == accounts@);
    while i < n
        invariant
            0 <= i <= n,
            n == accounts@.len(),
            spec_accounts_preimage(accounts@) =~= preimage@ + spec_accounts_preimage(
                accounts@.skip(i as int),
            ),
        decreases n - i,
    {
        let meta = accounts[i];
        preimage.extend_from_slice(meta.pubkey.as_slice());
        preimage.push(if meta.is_signer {
            1
        } else {
            0
        });
        preimage.push(if meta.is_writable {
            1
        } else {
            0
        });
        proof {
            assert(accounts@.skip(i as int)[0] == accounts@[i as int]);
            assert(accounts@.skip(i as int).drop_first() == accounts@.skip(i + 1));
            assert(spec_account_meta_bytes(accounts@[i as int]) =~= meta.pubkey@ + seq![
                if meta.is_signer {
                    1u8
                } else {
                    0u8
                },
                if meta.is_writable {
                    1u8
                } else {
                    0u8
                },
            ]);
        }
        i = i + 1;
    }
    assert(preimage@ == spec_accounts_preimage(accounts@));
    sha256_digest(preimage.as_slice())
}

/// Recompute the digest of the supplied accounts and compare it with the
/// stored one; true exactly on a byte-for-byte match.
pub fn verify_accounts_hash(accounts: &[AccountMetaInput], stored_hash: &[u8; 32]) -> (r: bool)
    ensures
        r <==> spec_sha256(spec_accounts_preimage(accounts@)) == stored_hash@,
{
    let computed = compute_accounts_hash(accounts);
    bytes32_eq(&computed, stored_hash)
}

} // verus!
