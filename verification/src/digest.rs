//! Header log entries, and the two entries that this engine adds to a header:
//! the pre-digest, which carries the slot, and the seal, which carries the signature.

use crate::codec::{decode_slot, encode_slot, slot_bytes, slot_of_bytes};
use vstd::prelude::*;

verus! {

/// A slot: the index of a fixed-duration time bucket.
pub type Slot = u64;

/// The four bytes that tag a log entry with the consensus engine it belongs to.
pub type ConsensusEngineId = [u8; 4];

/// The identifier of this engine: the bytes of `aura`.
pub const AURA_ENGINE_ID: ConsensusEngineId = [97u8, 117u8, 114u8, 97u8];

/// The identifier of this engine as a sequence of bytes.
pub open spec fn aura_engine_id() -> Seq<u8> {
    seq![97u8, 117u8, 114u8, 97u8]
}

/// One entry of a header's log.
#[derive(Clone, Debug, PartialEq, Eq)]
pub enum DigestItem {
    /// Written by an engine before the block is built.
    PreRuntime(ConsensusEngineId, Vec<u8>),
    /// A message from the runtime to an engine.
    Consensus(ConsensusEngineId, Vec<u8>),
    /// Written by an engine after the block is built; not part of the signed hash.
    Seal(ConsensusEngineId, Vec<u8>),
    /// Anything else.
    Other(Vec<u8>),
    /// The runtime's code or heap size changed.
    RuntimeEnvironmentUpdated,
}

/// Whether `id` names this engine.
pub fn is_aura_id(id: &ConsensusEngineId) -> (yes: bool)
    ensures
        yes == (id@ == aura_engine_id()),
{
    let yes = id[0] == 97u8 && id[1] == 117u8 && id[2] == 114u8 && id[3] == 97u8;
    proof {
        if yes {
            assert(id@ =~= aura_engine_id());
        } else {
            assert(aura_engine_id()[0] == 97u8 && aura_engine_id()[1] == 117u8
                && aura_engine_id()[2] == 114u8 && aura_engine_id()[3] == 97u8);
        }
    }
    yes
}


/// What a log entry holds, as mathematical values.
pub enum DigestItemView {
    PreRuntime(Seq<u8>, Seq<u8>),
    Consensus(Seq<u8>, Seq<u8>),
    Seal(Seq<u8>, Seq<u8>),
    Other(Seq<u8>),
    RuntimeEnvironmentUpdated,
}

impl View for DigestItem {
    type V = DigestItemView;

    open spec fn view(&self) -> DigestItemView {
        match *self {
            DigestItem::PreRuntime(id, data) => DigestItemView::PreRuntime(id@, data@),
            DigestItem::Consensus(id, data) => DigestItemView::Consensus(id@, data@),
            DigestItem::Seal(id, data) => DigestItemView::Seal(id@, data@),
            DigestItem::Other(data) => DigestItemView::Other(data@),
            DigestItem::RuntimeEnvironmentUpdated => DigestItemView::RuntimeEnvironmentUpdated,
        }
    }
}

/// The pre-digest that declares `slot`.
pub open spec fn pre_digest_view(slot: Slot) -> DigestItemView {
    DigestItemView::PreRuntime(aura_engine_id(), slot_bytes(slot))
}

/// The seal that carries `signature`.
pub open spec fn seal_view(signature: Seq<u8>) -> DigestItemView {
    DigestItemView::Seal(aura_engine_id(), signature)
}

/// The slot that `item` declares, if it is a pre-digest of this engine whose payload
/// is a slot; `None` for every other entry.
pub open spec fn pre_digest_slot(item: DigestItemView) -> Option<Slot> {
    match item {
        DigestItemView::PreRuntime(id, data) => if id == aura_engine_id() {
            slot_of_bytes(data)
        } else {
            None
        },
        _ => None,
    }
}

/// The signature bytes that `item` carries, if it is a seal of this engine; `None`
/// for every other entry.
pub open spec fn seal_signature(item: DigestItemView) -> Option<Seq<u8>> {
    match item {
        DigestItemView::Seal(id, data) => if id == aura_engine_id() {
            Some(data)
        } else {
            None
        },
        _ => None,
    }
}

/// Builds the pre-digest that declares `slot`.
pub fn aura_pre_digest(slot: Slot) -> (item: DigestItem)
    ensures
        item@ == pre_digest_view(slot),
        pre_digest_slot(item@) == Some(slot),
{
    proof {
        crate::codec::lemma_slot_bytes_round_trip(slot);
    }
    let item = DigestItem::PreRuntime(AURA_ENGINE_ID, encode_slot(slot));
    assert(AURA_ENGINE_ID@ =~= aura_engine_id());
    item
}

/// Reads the slot out of `item` where it is a pre-digest of this engine; entries of
/// other kinds or of other engines give `None`.
pub fn as_aura_pre_digest(item: &DigestItem) -> (slot: Option<Slot>)
    ensures
        slot == pre_digest_slot(item@),
{
    match item {
        DigestItem::PreRuntime(id, data) => {
            if is_aura_id(id) {
                decode_slot(data.as_slice())
            } else {
                None
            }
        },
        _ => None,
    }
}

/// Builds the seal that carries `signature`.
pub fn aura_seal(signature: Vec<u8>) -> (item: DigestItem)
    ensures
        item@ == seal_view(signature@),
        seal_signature(item@) == Some(signature@),
{
    let item = DigestItem::Seal(AURA_ENGINE_ID, signature);
    assert(AURA_ENGINE_ID@ =~= aura_engine_id());
    item
}

/// Reads the signature bytes out of `item` where it is a seal of this engine; entries
/// of other kinds or of other engines give `None`.
///
/// The payload comes back as it is, at any length. Whether it has the form of a
/// signature is for the key scheme to say.
pub fn as_aura_seal(item: &DigestItem) -> (signature: Option<&Vec<u8>>)
    ensures
        signature.is_some() == seal_signature(item@).is_some(),
        signature matches Some(s) ==> seal_signature(item@) == Some(s@),
{
    match item {
        DigestItem::Seal(id, data) => {
            if is_aura_id(id) {
                Some(data)
            } else {
                None
            }
        },
        _ => None,
    }
}

/// A slot survives the way into a pre-digest and back.
pub proof fn lemma_pre_digest_round_trip(slot: Slot)
    ensures
        pre_digest_slot(pre_digest_view(slot)) == Some(slot),
{
    crate::codec::lemma_slot_bytes_round_trip(slot);
}

/// A signature survives the way into a seal and back, byte for byte.
pub proof fn lemma_seal_round_trip(signature: Seq<u8>)
    ensures
        seal_signature(seal_view(signature)) == Some(signature),
{
}

} // verus!
