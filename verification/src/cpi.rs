//! The delegated-call dispatcher's decision half: recheck the accounts-hash
//! binding and build the exact call for the host to issue.
//!
//! The built call reuses the stored target identity and payload verbatim. Its
//! account metas keep the caller-declared writable flags, and the signer flag
//! is set exactly on the requirement record's own address: the record's
//! derived authority is the only signer the call acquires. The host issues
//! the call with the record's signer seeds; a dispatch failure discards the
//! whole atomic bundle, so no partial effect persists.

use vstd::prelude::*;
use vstd::slice::slice_to_vec;

use crate::error::ExecutorError;
use crate::hash::{spec_accounts_preimage, spec_sha256, verify_accounts_hash};
use crate::state::Requirement;
use crate::types::AccountMetaInput;
use crate::util::bytes32_eq;

verus! {

/// A fully built delegated call: the target program, the ordered account
/// metas with their final permission flags, and the payload.
#[derive(Clone, Debug)]
pub struct DelegatedCall {
    /// Identity of the program the call targets.
    pub program_id: [u8; 32],
    /// Ordered account metas of the call.
    pub accounts: Vec<AccountMetaInput>,
    /// Payload of the call.
    pub data: Vec<u8>,
}

/// The call's account metas are built from the supplied list: identities and
/// writable flags as declared, and the signer flag true exactly on the
/// requirement record's own address.
pub open spec fn spec_call_accounts_built(
    built: Seq<AccountMetaInput>,
    supplied: Seq<AccountMetaInput>,
    requirement_key: Seq<u8>,
) -> bool {
    &&& built.len() == supplied.len()
    &&& forall|i: int|
        0 <= i < supplied.len() ==> {
            &&& (#[trigger] built[i]).pubkey@ == supplied[i].pubkey@
            &&& built[i].is_writable == supplied[i].is_writable
            &&& built[i].is_signer == (supplied[i].pubkey@ == requirement_key)
        }
}

/// The call is built from the stored intent: target and payload verbatim, and
/// account metas as the builder assigns them.
pub open spec fn spec_delegated_call_built(
    call: DelegatedCall,
    requirement: Requirement,
    requirement_key: Seq<u8>,
    supplied: Seq<AccountMetaInput>,
) -> bool {
    &&& call.program_id@ == requirement.target_program@
    &&& call.data@ == requirement.instruction_data@
    &&& spec_call_accounts_built(call.accounts@, supplied, requirement_key)
}

/// Recheck the accounts-hash binding against the actually supplied accounts
/// and build the delegated call; on any mismatch no call is built and the
/// dispatch never happens.
pub fn execute_delegated_cpi(
    requirement: &Requirement,
    requirement_key: &[u8; 32],
    remaining_accounts: &[AccountMetaInput],
) -> (r: Result<DelegatedCall, ExecutorError>)
    ensures
        r is Ok <==> spec_sha256(spec_accounts_preimage(remaining_accounts@))
            == requirement.accounts_hash@,
        r is Err ==> r == Err::<DelegatedCall, ExecutorError>(ExecutorError::AccountsHashMismatch),
        r matches Ok(call) ==> spec_delegated_call_built(
            call,
            *requirement,
            requirement_key@,
            remaining_accounts@,
        ),
{
    if !verify_accounts_hash(remaining_accounts, &requirement.accounts_hash) {
        return Err(ExecutorError::AccountsHashMismatch);
    }

    let n = remaining_accounts.len();
    let mut accounts: Vec<AccountMetaInput> = Vec::new();
    let mut i: usize = 0;
    while i < n
        invariant
            0 <= i <= n,
            n == remaining_accounts@.len(),
            accounts@.len() == i,
            forall|k: int|
                0 <= k < i ==> {
                    &&& (#[trigger] accounts@[k]).pubkey@ == remaining_accounts@[k].pubkey@
                    &&& accounts@[k].is_writable == remaining_accounts@[k].is_writable
                    &&& accounts@[k].is_signer == (remaining_accounts@[k].pubkey@
                        == requirement_key@)
                },
        decreases n - i,
    {
        let acc = remaining_accounts[i];
        let is_signer = bytes32_eq(&acc.pubkey, requirement_key);
        accounts.push(
            AccountMetaInput { pubkey: acc.pubkey, is_signer, is_writable: acc.is_writable },
        );
        i = i + 1;
    }

    Ok(
        DelegatedCall {
            program_id: requirement.target_program,
            accounts,
            data: slice_to_vec(requirement.instruction_data.as_slice()),
        },
    )
}

/// Build a call that keeps every caller-declared flag verbatim, acquiring no
/// authority of the requirement record; for hosts that dispatch without the
/// derived signer.
pub fn execute_cpi_unsigned(
    target_program: &[u8; 32],
    instruction_data: &[u8],
    accounts: &[AccountMetaInput],
) -> (call: DelegatedCall)
    ensures
        call.program_id@ == target_program@,
        call.data@ == instruction_data@,
        call.accounts@ == accounts@,
{
    DelegatedCall {
        program_id: *target_program,
        accounts: slice_to_vec(accounts),
        data: slice_to_vec(instruction_data),
    }
}

} // verus!
