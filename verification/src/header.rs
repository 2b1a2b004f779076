//! A block header as this engine reads it, and the search for the engine's two
//! entries in its log.

use crate::bytes::bytes_copy;
use crate::digest::{
    as_aura_pre_digest, as_aura_seal, pre_digest_slot, seal_signature, DigestItem, Slot,
};
use crate::error::Error;
use vstd::prelude::*;

verus! {

/// The parts of a block header that this engine reads.
#[derive(Clone, Debug, PartialEq, Eq)]
pub struct Header {
    /// The block's number; 0 is genesis.
    pub number: u64,
    /// The hash of the parent block.
    pub parent_hash: Vec<u8>,
    /// The log, in the order in which the entries were added.
    pub logs: Vec<DigestItem>,
}

/// The slots declared by the pre-digests of this engine in `logs`, in log order.
/// Entries of other kinds and of other engines leave no trace.
pub open spec fn aura_slots(logs: Seq<DigestItem>) -> Seq<Slot>
    decreases logs.len(),
{
    if logs.len() == 0 {
        Seq::empty()
    } else {
        let before = aura_slots(logs.drop_last());
        match pre_digest_slot(logs.last()@) {
            Some(slot) => before.push(slot),
            None => before,
        }
    }
}

/// The signatures carried by the seals of this engine in `logs`, in log order.
pub open spec fn aura_seals(logs: Seq<DigestItem>) -> Seq<Seq<u8>>
    decreases logs.len(),
{
    if logs.len() == 0 {
        Seq::empty()
    } else {
        let before = aura_seals(logs.drop_last());
        match seal_signature(logs.last()@) {
            Some(signature) => before.push(signature),
            None => before,
        }
    }
}

/// The slot of a header that is not genesis: that of its only pre-digest.
pub open spec fn pre_digest_of(logs: Seq<DigestItem>) -> Result<Slot, Error> {
    let slots = aura_slots(logs);
    if slots.len() == 0 {
        Err(Error::NoDigestFound)
    } else if slots.len() == 1 {
        Ok(slots[0])
    } else {
        Err(Error::MultipleHeaders)
    }
}

/// The slot that a header declares: 0 for genesis, whatever its log holds, and for
/// every other block what its log gives.
pub open spec fn header_slot(number: u64, logs: Seq<DigestItem>) -> Result<Slot, Error> {
    if number == 0 {
        Ok(0u64)
    } else {
        pre_digest_of(logs)
    }
}

/// The pre-digests among the first `i` entries are among those of the whole log.
pub proof fn lemma_aura_slots_prefix(logs: Seq<DigestItem>, i: int)
    requires
        0 <= i <= logs.len(),
    ensures
        aura_slots(logs.take(i)).len() <= aura_slots(logs).len(),
    decreases logs.len(),
{
    if i == logs.len() {
        assert(logs.take(i) =~= logs);
    } else {
        assert(logs.drop_last().take(i) =~= logs.take(i));
        lemma_aura_slots_prefix(logs.drop_last(), i);
    }
}

/// Finds the slot that `header` declares.
///
/// Genesis is slot 0 and its log is not read. Any other header must hold exactly one
/// pre-digest of this engine: none is `NoDigestFound`, more than one is
/// `MultipleHeaders`. Entries of other engines are passed over.
pub fn find_pre_digest(header: &Header) -> (slot: Result<Slot, Error>)
    ensures
        slot == header_slot(header.number, header.logs@),
{
    if header.number == 0 {
        return Ok(0);
    }
    let mut pre_digest: Option<Slot> = None;
    let mut i: usize = 0;
    while i < header.logs.len()
        invariant
            header.number != 0,
            i <= header.logs.len(),
            aura_slots(header.logs@.take(i as int)) == match pre_digest {
                Some(slot) => seq![slot],
                None => Seq::<Slot>::empty(),
            },
        decreases header.logs.len() - i,
    {
        let found = as_aura_pre_digest(&header.logs[i]);
        proof {
            let next = header.logs@.take(i + 1);
            assert(next.drop_last() =~= header.logs@.take(i as int));
            assert(next.last() == header.logs@[i as int]);
            lemma_aura_slots_prefix(header.logs@, i + 1);
            assert(aura_slots(next) == match found {
                Some(slot) => aura_slots(next.drop_last()).push(slot),
                None => aura_slots(next.drop_last()),
            });
        }
        match found {
            Some(slot) => {
                if pre_digest.is_some() {
                    return Err(Error::MultipleHeaders);
                }
                pre_digest = Some(slot);
            },
            None => {},
        }
        i += 1;
    }
    proof {
        assert(header.logs@.take(i as int) =~= header.logs@);
    }
    match pre_digest {
        Some(slot) => Ok(slot),
        None => Err(Error::NoDigestFound),
    }
}

/// What the search for a header's seal can find.
pub enum SealSearch {
    /// The log holds no seal of this engine.
    Unsealed,
    /// The log holds such a seal, but not as its one and last entry.
    Misplaced,
    /// The log ends in the only seal of this engine, which carries these bytes.
    Sealed(Seq<u8>),
}

/// A header is sealed where its log holds exactly one seal of this engine, as its last
/// entry. Without any such seal it is unsealed; every other count or place is a bad
/// seal.
pub open spec fn seal_search(logs: Seq<DigestItem>) -> SealSearch {
    let seals = aura_seals(logs);
    if seals.len() == 0 {
        SealSearch::Unsealed
    } else if seals.len() == 1 && seal_signature(logs.last()@).is_some() {
        SealSearch::Sealed(seals[0])
    } else {
        SealSearch::Misplaced
    }
}

/// Takes the seal off `header`.
///
/// For a sealed header the result is the header without its last entry, which is the
/// one that was signed, and the signature bytes that the seal carried. A header
/// without a seal of this engine is `HeaderUnsealed`, one whose seal is not its one
/// and last entry is `HeaderBadSeal`; both carry `hash`.
pub fn take_seal(header: Header, hash: &Vec<u8>) -> (taken: Result<(Header, Vec<u8>), Error>)
    ensures
        match seal_search(header.logs@) {
            SealSearch::Unsealed => taken matches Err(Error::HeaderUnsealed(h)) && h@ == hash@,
            SealSearch::Misplaced => taken matches Err(Error::HeaderBadSeal(h)) && h@ == hash@,
            SealSearch::Sealed(signature) => taken matches Ok((pre_header, s))
                && s@ == signature
                && pre_header.number == header.number
                && pre_header.parent_hash == header.parent_hash
                && pre_header.logs@ == header.logs@.drop_last(),
        },
{
    let mut count: usize = 0;
    let mut i: usize = 0;
    while i < header.logs.len()
        invariant
            i <= header.logs.len(),
            count <= i,
            count == aura_seals(header.logs@.take(i as int)).len(),
        decreases header.logs.len() - i,
    {
        proof {
            let next = header.logs@.take(i + 1);
            assert(next.drop_last() =~= header.logs@.take(i as int));
            assert(next.last() == header.logs@[i as int]);
        }
        if as_aura_seal(&header.logs[i]).is_some() {
            count += 1;
        }
        i += 1;
    }
    proof {
        assert(header.logs@.take(i as int) =~= header.logs@);
    }
    if count == 0 {
        return Err(Error::HeaderUnsealed(bytes_copy(hash)));
    }
    let mut pre_header = header;
    let ghost logs = pre_header.logs@;
    let last = pre_header.logs.pop();
    match last {
        Some(item) => {
            match as_aura_seal(&item) {
                Some(signature) => {
                    if count == 1 {
                        proof {
                            assert(aura_seals(logs) == aura_seals(logs.drop_last()).push(
                                signature@,
                            ));
                        }
                        Ok((pre_header, bytes_copy(signature)))
                    } else {
                        Err(Error::HeaderBadSeal(bytes_copy(hash)))
                    }
                },
                None => Err(Error::HeaderBadSeal(bytes_copy(hash))),
            }
        },
        None => Err(Error::HeaderBadSeal(bytes_copy(hash))),
    }
}

/// A log without a pre-digest of this engine declares no slot: `NoDigestFound`.
pub proof fn lemma_without_pre_digest(logs: Seq<DigestItem>)
    requires
        forall|i: int| 0 <= i < logs.len() ==> pre_digest_slot(#[trigger] logs[i]@) is None,
    ensures
        aura_slots(logs).len() == 0,
        pre_digest_of(logs) == Err::<Slot, Error>(Error::NoDigestFound),
    decreases logs.len(),
{
    if logs.len() > 0 {
        let front = logs.drop_last();
        assert forall|i: int| 0 <= i < front.len() implies pre_digest_slot(
            #[trigger] front[i]@,
        ) is None by {
            assert(front[i] == logs[i]);
        }
        lemma_without_pre_digest(front);
        assert(logs.last() == logs[logs.len() - 1]);
    }
}

/// A log with exactly one pre-digest of this engine declares its slot, wherever the
/// entry stands and whatever the others are.
pub proof fn lemma_with_one_pre_digest(logs: Seq<DigestItem>, at: int, slot: Slot)
    requires
        0 <= at < logs.len(),
        pre_digest_slot(logs[at]@) == Some(slot),
        forall|i: int|
            0 <= i < logs.len() && i != at ==> pre_digest_slot(#[trigger] logs[i]@) is None,
    ensures
        aura_slots(logs) == seq![slot],
        pre_digest_of(logs) == Ok::<Slot, Error>(slot),
    decreases logs.len(),
{
    let front = logs.drop_last();
    assert(logs.last() == logs[logs.len() - 1]);
    if at == logs.len() - 1 {
        assert forall|i: int| 0 <= i < front.len() implies pre_digest_slot(
            #[trigger] front[i]@,
        ) is None by {
            assert(front[i] == logs[i]);
        }
        lemma_without_pre_digest(front);
        assert(aura_slots(logs) =~= seq![slot]);
    } else {
        assert(front[at] == logs[at]);
        assert forall|i: int| 0 <= i < front.len() && i != at implies pre_digest_slot(
            #[trigger] front[i]@,
        ) is None by {
            assert(front[i] == logs[i]);
        }
        lemma_with_one_pre_digest(front, at, slot);
    }
}

/// A log with two pre-digests of this engine declares no slot: `MultipleHeaders`.
pub proof fn lemma_with_two_pre_digests(logs: Seq<DigestItem>, first: int, second: int)
    requires
        0 <= first < second < logs.len(),
        pre_digest_slot(logs[first]@) is Some,
        pre_digest_slot(logs[second]@) is Some,
    ensures
        aura_slots(logs).len() >= 2,
        pre_digest_of(logs) == Err::<Slot, Error>(Error::MultipleHeaders),
{
    let upto_first = logs.take(first + 1);
    assert(upto_first.drop_last() =~= logs.take(first));
    assert(upto_first.last() == logs[first]);
    assert(aura_slots(upto_first).len() >= 1);
    let before_second = logs.take(second);
    assert(before_second.take(first + 1) =~= upto_first);
    lemma_aura_slots_prefix(before_second, first + 1);
    let upto_second = logs.take(second + 1);
    assert(upto_second.drop_last() =~= before_second);
    assert(upto_second.last() == logs[second]);
    assert(aura_slots(upto_second).len() >= 2);
    lemma_aura_slots_prefix(logs, second + 1);
}

/// Genesis declares slot 0, whatever its log holds.
pub proof fn lemma_genesis_slot(logs: Seq<DigestItem>)
    ensures
        header_slot(0, logs) == Ok::<Slot, Error>(0u64),
{
}

/// A log without a seal of this engine is unsealed.
pub proof fn lemma_without_seal(logs: Seq<DigestItem>)
    requires
        forall|i: int| 0 <= i < logs.len() ==> seal_signature(#[trigger] logs[i]@) is None,
    ensures
        aura_seals(logs).len() == 0,
        seal_search(logs) is Unsealed,
    decreases logs.len(),
{
    if logs.len() > 0 {
        let front = logs.drop_last();
        assert forall|i: int| 0 <= i < front.len() implies seal_signature(
            #[trigger] front[i]@,
        ) is None by {
            assert(front[i] == logs[i]);
        }
        lemma_without_seal(front);
        assert(logs.last() == logs[logs.len() - 1]);
    }
}

/// A log that ends in its only seal of this engine is sealed with that signature.
pub proof fn lemma_with_last_seal(logs: Seq<DigestItem>, signature: Seq<u8>)
    requires
        logs.len() > 0,
        seal_signature(logs.last()@) == Some(signature),
        forall|i: int| 0 <= i < logs.len() - 1 ==> seal_signature(#[trigger] logs[i]@) is None,
    ensures
        seal_search(logs) == SealSearch::Sealed(signature),
{
    let front = logs.drop_last();
    assert forall|i: int| 0 <= i < front.len() implies seal_signature(
        #[trigger] front[i]@,
    ) is None by {
        assert(front[i] == logs[i]);
    }
    lemma_without_seal(front);
}

} // verus!
