//! The fixed-width integer encoding of a slot, as the chain's codec writes it.

use parity_scale_codec::{DecodeAll, Encode};
use sp_consensus_slots::Slot;
use vstd::bytes::{spec_u64_from_le_bytes, spec_u64_to_le_bytes};
use vstd::prelude::*;

verus! {

/// The bytes that stand for `slot` on the wire: its eight bytes, least significant first.
pub open spec fn slot_bytes(slot: u64) -> Seq<u8> {
    spec_u64_to_le_bytes(slot)
}

/// The slot that `bytes` stand for: defined for exactly eight bytes, absent otherwise.
pub open spec fn slot_of_bytes(bytes: Seq<u8>) -> Option<u64> {
    if bytes.len() == 8 {
        Some(spec_u64_from_le_bytes(bytes))
    } else {
        None
    }
}

/// Calls `Encode::encode` of `parity_scale_codec` on an `sp_consensus_slots::Slot`.
///
/// Trusted: a `Slot` is a transparent wrapper of a `u64`, and the codec writes a
/// `u64` as its eight little-endian bytes.
#[verifier::external_body]
pub(crate) fn encode_slot(slot: u64) -> (bytes: Vec<u8>)
    ensures
        bytes@ == slot_bytes(slot),
{
    Slot::from(slot).encode()
}

/// Calls `DecodeAll::decode_all` of `parity_scale_codec` for an
/// `sp_consensus_slots::Slot`.
///
/// Trusted: the codec reads a `u64` from eight little-endian bytes, fails on fewer,
/// and `decode_all` fails where bytes are left over.
#[verifier::external_body]
pub(crate) fn decode_slot(bytes: &[u8]) -> (slot: Option<u64>)
    ensures
        slot == slot_of_bytes(bytes@),
{
    let mut input: &[u8] = bytes;
    Slot::decode_all(&mut input).ok().map(u64::from)
}

/// Decoding what was encoded gives the slot back, and the encoding is eight bytes long.
pub proof fn lemma_slot_bytes_round_trip(slot: u64)
    ensures
        slot_bytes(slot).len() == 8,
        slot_of_bytes(slot_bytes(slot)) == Some(slot),
{
    vstd::bytes::lemma_auto_spec_u64_to_from_le_bytes();
}

} // verus!
