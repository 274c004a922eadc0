//! The attestation-presence verifier.
//!
//! Execution relies on an atomic-bundle model: several operations commit or
//! abort together, and an earlier operation in the bundle may be the native
//! signature-verification primitive. That primitive's data carries a count of
//! entries, each encoding offsets and lengths for a signature, a public key
//! and a message within the same buffer. A proof is considered attested when
//! some preceding operation targets the primitive and one of its in-bounds
//! entries names the trusted identity and the proof's exact message bytes.
//! Entries whose offsets fall outside the buffer are skipped, not fatal.
//!
//! The host loads the bundle's operations and the current position from its
//! environment and hands them in as plain values.

use vstd::prelude::*;
use vstd::bytes::{spec_u16_from_le_bytes, u16_from_le_bytes};
use vstd::slice::slice_subrange;

use crate::error::ExecutorError;
use crate::types::RawInstruction;
use crate::util::{bytes32_eq, bytes_eq};

verus! {

/// Minimum length the primitive's data must have before any entry is read:
/// the 2-byte header plus room for one padded entry.
pub const ED25519_IX_DATA_MIN_LEN: usize = 18;

/// Size of one entry: seven little-endian u16 fields giving the signature
/// offset and operation index, the public-key offset and operation index, and
/// the message offset, length and operation index.
pub const SIGNATURE_ENTRY_SIZE: usize = 14;

/// The fixed identity of the native signature-verification primitive.
pub open spec fn spec_ed25519_program_id() -> Seq<u8> {
    seq![
        0x03u8,
        0x7du8,
        0xbbu8,
        0x0eu8,
        0x40u8,
        0x1bu8,
        0x9fu8,
        0x30u8,
        0x4cu8,
        0x82u8,
        0x99u8,
        0x29u8,
        0x6au8,
        0xc0u8,
        0xbeu8,
        0xefu8,
        0xa0u8,
        0x35u8,
        0xf1u8,
        0x1au8,
        0x5du8,
        0xb2u8,
        0x65u8,
        0xfbu8,
        0x66u8,
        0x68u8,
        0xc8u8,
        0xfcu8,
        0x21u8,
        0x73u8,
        0x73u8,
        0x00u8,
    ]
}

/// The identity of the native signature-verification primitive.
pub fn ed25519_program_id() -> (r: [u8; 32])
    ensures
        r@ == spec_ed25519_program_id(),
{
    let r: [u8; 32] = [
        0x03, 0x7d, 0xbb, 0x0e, 0x40, 0x1b, 0x9f, 0x30, 0x4c, 0x82, 0x99, 0x29, 0x6a, 0xc0, 0xbe,
        0xef, 0xa0, 0x35, 0xf1, 0x1a, 0x5d, 0xb2, 0x65, 0xfb, 0x66, 0x68, 0xc8, 0xfc, 0x21, 0x73,
        0x73, 0x00,
    ];
    proof {
        assert(r@ =~= spec_ed25519_program_id());
    }
    r
}

/// The u16 stored little-endian at position `off` of the buffer.
pub open spec fn spec_u16_at(data: Seq<u8>, off: int) -> int
    recommends
        0 <= off,
        off + 2 <= data.len(),
{
    spec_u16_from_le_bytes(data.subrange(off, off + 2)) as int
}

/// Entry `j` of the primitive's data fits in the buffer, its public-key and
/// message fields lie in bounds, and they name the given identity and exact
/// message bytes.
pub open spec fn spec_entry_matches(
    data: Seq<u8>,
    j: int,
    pubkey: Seq<u8>,
    message: Seq<u8>,
) -> bool {
    let off = 2 + SIGNATURE_ENTRY_SIZE * j;
    let pk_off = spec_u16_at(data, off + 4);
    let msg_off = spec_u16_at(data, off + 8);
    let msg_len = spec_u16_at(data, off + 10);
    &&& off + SIGNATURE_ENTRY_SIZE <= data.len()
    &&& pk_off + 32 <= data.len()
    &&& msg_off + msg_len <= data.len()
    &&& data.subrange(pk_off, pk_off + 32) == pubkey
    &&& data.subrange(msg_off, msg_off + msg_len) == message
}

/// The primitive's data attests the given identity and message: it is long
/// enough to hold its header, declares at least one entry, and one of its
/// declared entries matches.
pub open spec fn spec_ix_data_matches(data: Seq<u8>, pubkey: Seq<u8>, message: Seq<u8>) -> bool {
    &&& data.len() >= ED25519_IX_DATA_MIN_LEN
    &&& data[0] >= 1
    &&& exists|j: int| 0 <= j < data[0] && spec_entry_matches(data, j, pubkey, message)
}

/// The operation targets the signature-verification primitive and its data
/// attests the given identity and message.
pub open spec fn spec_ix_verifies(ix: RawInstruction, pubkey: Seq<u8>, message: Seq<u8>) -> bool {
    &&& ix.program_id@ == spec_ed25519_program_id()
    &&& spec_ix_data_matches(ix.data@, pubkey, message)
}

/// Some operation before the current one attests the given identity and
/// message.
pub open spec fn spec_attested(
    instructions: Seq<RawInstruction>,
    current_index: int,
    pubkey: Seq<u8>,
    message: Seq<u8>,
) -> bool {
    exists|i: int|
        0 <= i < current_index && spec_ix_verifies(#[trigger] instructions[i], pubkey, message)
}

/// Parse the primitive's data and decide whether one of its entries names the
/// expected identity and exact message bytes.
fn verify_ed25519_ix_data(data: &[u8], expected_pubkey: &[u8; 32], expected_message: &[u8]) -> (r:
    bool)
    ensures
        r <==> spec_ix_data_matches(data@, expected_pubkey@, expected_message@),
{
    if data.len() < ED25519_IX_DATA_MIN_LEN {
        return false;
    }

    let num_signatures = data[0] as usize;
    if num_signatures == 0 {
        return false;
    }

    let mut offset: usize = 2;
    let mut j: usize = 0;
    while j < num_signatures
        invariant
            0 <= j <= num_signatures,
            num_signatures == data@[0],
            data@.len() >= ED25519_IX_DATA_MIN_LEN,
            offset == 2 + SIGNATURE_ENTRY_SIZE * j,
            forall|t: int|
                0 <= t < j ==> !spec_entry_matches(data@, t, expected_pubkey@, expected_message@),
        decreases num_signatures - j,
    {
        if offset + SIGNATURE_ENTRY_SIZE > data.len() {
            proof {
                assert forall|t: int|
                    j <= t < num_signatures implies !spec_entry_matches(
                    data@,
                    t,
                    expected_pubkey@,
                    expected_message@,
                ) by {
                    assert(2 + SIGNATURE_ENTRY_SIZE * t + SIGNATURE_ENTRY_SIZE >= offset
                        + SIGNATURE_ENTRY_SIZE) by (nonlinear_arith)
                        requires
                            t >= j,
                            offset == 2 + SIGNATURE_ENTRY_SIZE * j,
                    ;
                }
            }
            return false;
        }

        let pk_off = u16_from_le_bytes(slice_subrange(data, offset + 4, offset + 6)) as usize;
        let msg_off = u16_from_le_bytes(slice_subrange(data, offset + 8, offset + 10)) as usize;
        let msg_len = u16_from_le_bytes(slice_subrange(data, offset + 10, offset + 12)) as usize;

        if pk_off + 32 <= data.len() && msg_off + msg_len <= data.len() {
            let pk_bytes = slice_subrange(data, pk_off, pk_off + 32);
            let msg_bytes = slice_subrange(data, msg_off, msg_off + msg_len);
            if bytes_eq(pk_bytes, expected_pubkey.as_slice()) && bytes_eq(
                msg_bytes,
                expected_message,
            ) {
                proof {
                    assert(spec_entry_matches(data@, j as int, expected_pubkey@, expected_message@));
                }
                return true;
            }
        }

        proof {
            assert(!spec_entry_matches(data@, j as int, expected_pubkey@, expected_message@));
        }
        offset = offset + SIGNATURE_ENTRY_SIZE;
        j = j + 1;
    }
    false
}

/// Decide whether some operation preceding the current one is a
/// signature-verification primitive attesting the expected identity and exact
/// message bytes; absence is the error every unattested proof rejects with.
pub fn verify_ed25519_instruction(
    instructions: &[RawInstruction],
    current_index: usize,
    expected_pubkey: &[u8; 32],
    expected_message: &[u8],
) -> (r: Result<(), ExecutorError>)
    requires
        current_index <= instructions@.len(),
    ensures
        r is Ok <==> spec_attested(
            instructions@,
            current_index as int,
            expected_pubkey@,
            expected_message@,
        ),
        r is Err ==> r == Err::<(), ExecutorError>(ExecutorError::Ed25519VerifyNotFound),
{
    let expected_id = ed25519_program_id();
    let mut i: usize = 0;
    while i < current_index
        invariant
            0 <= i <= current_index <= instructions@.len(),
            expected_id@ == spec_ed25519_program_id(),
            forall|t: int|
                0 <= t < i ==> !spec_ix_verifies(
                    #[trigger] instructions@[t],
                    expected_pubkey@,
                    expected_message@,
                ),
        decreases current_index - i,
    {
        let ix = &instructions[i];
        if bytes32_eq(&ix.program_id, &expected_id) {
            if verify_ed25519_ix_data(ix.data.as_slice(), expected_pubkey, expected_message) {
                return Ok(());
            }
        }
        i = i + 1;
    }
    Err(ExecutorError::Ed25519VerifyNotFound)
}

/// Decide whether any operation preceding the current one targets the
/// signature-verification primitive at all.
pub fn has_ed25519_instruction(instructions: &[RawInstruction], current_index: usize) -> (r: bool)
    requires
        current_index <= instructions@.len(),
    ensures
        r <==> exists|i: int|
            0 <= i < current_index && (#[trigger] instructions@[i].program_id@)
                == spec_ed25519_program_id(),
{
    let expected_id = ed25519_program_id();
    let mut i: usize = 0;
    while i < current_index
        invariant
            0 <= i <= current_index <= instructions@.len(),
            expected_id@ == spec_ed25519_program_id(),
            forall|t: int|
                0 <= t < i ==> (#[trigger] instructions@[t].program_id@)
                    != spec_ed25519_program_id(),
        decreases current_index - i,
    {
        if bytes32_eq(&instructions[i].program_id, &expected_id) {
            return true;
        }
        i = i + 1;
    }
    false
}

} // verus!
