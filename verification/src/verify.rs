//! The verifier: what a node does with a block that a peer sent, before the block
//! is handed to import.
//!
//! A block is taken apart first. Its authorities are then fetched by the caller,
//! and with them the block is judged: accepted, turned down, or put aside until the
//! local clock has reached its slot.

use crate::authorities::{authorities, first_call, CompatibilityMode, RuntimeCall};
use crate::bytes::bytes_copy;
use crate::crypto::KeyScheme;
use crate::digest::{aura_seal, seal_view, DigestItem, Slot};
use crate::equivocation::{
    conflicting, remembered, Equivocation, EquivocationTracker, SightingView,
};
use crate::error::{ConsensusError, Error};
use crate::header::{find_pre_digest, header_slot, seal_search, take_seal, Header, SealSearch};
use crate::import::{BlockImportParams, BlockOrigin, ForkChoiceStrategy, StateAction};
use crate::schedule::{expected_author, slot_author};
use vstd::prelude::*;

verus! {

/// What follows from an equivocation.
#[derive(Clone, Copy, Debug, PartialEq, Eq)]
pub enum EquivocationPolicy {
    /// It is reported, and the block is judged as if there were none.
    ReportOnly,
    /// It is reported, and the block is turned down.
    Enforce,
}

/// What a verifier is built from.
#[derive(Clone, Copy, Debug, PartialEq, Eq)]
pub struct BuildVerifierParams {
    /// The scheme of the authorities' keys.
    pub key_scheme: KeyScheme,
    /// How the authorities are fetched.
    pub compatibility_mode: CompatibilityMode,
    /// What follows from an equivocation.
    pub equivocation_policy: EquivocationPolicy,
    /// How many slots ahead of the local clock a block may be and still be put
    /// aside for later. A block further ahead is turned down.
    pub future_tolerance: u64,
    /// For how many slots behind the local clock sightings are remembered.
    pub equivocation_retention: u64,
}

/// A block taken apart: what its header declares, ready to be judged.
#[derive(Debug, PartialEq)]
pub struct Pending<B> {
    /// The header without its seal: the part that was signed.
    pub header: Header,
    /// The hash of the header with its seal.
    pub hash: Vec<u8>,
    /// The slot that the header declares.
    pub slot: Slot,
    /// The signature that the seal carried.
    pub signature: Vec<u8>,
    pub body: Option<B>,
}

/// How a block fared.
#[derive(Debug, PartialEq)]
pub enum Outcome<B> {
    /// It goes to block import.
    Accepted(BlockImportParams<B, ()>),
    /// Its slot is ahead of the local clock, within the tolerance. It is judged
    /// again later, as it stands here.
    Deferred(Pending<B>),
    /// It is turned down.
    Rejected(Error),
}

/// The judgement on a block, and the equivocation that its sighting brought to
/// light, whatever the judgement is.
#[derive(Debug, PartialEq)]
pub struct Verdict<B> {
    pub outcome: Outcome<B>,
    pub equivocation: Option<Equivocation>,
}

/// Who sealed a block.
pub enum Authorship {
    /// The authorities could not be fetched.
    Unresolved,
    /// There is no authority, so nobody is expected.
    NoAuthor,
    /// The seal does not hold the expected author's signature.
    Forged,
    /// The expected author, whose public key this is.
    By(Seq<u8>),
}

/// How a slot stands to the local clock.
pub enum Timing {
    /// It has begun.
    Due,
    /// It is ahead by no more than the tolerance.
    Ahead,
    /// It is ahead by more than the tolerance.
    TooFarAhead,
}

/// Compares `slot` with the local clock's `slot_now`.
pub open spec fn timing(slot: Slot, slot_now: Slot, tolerance: u64) -> Timing {
    if slot <= slot_now {
        Timing::Due
    } else if slot - slot_now <= tolerance {
        Timing::Ahead
    } else {
        Timing::TooFarAhead
    }
}

/// The verifier, with its memory of the blocks it has seen.
pub struct AuraVerifier {
    pub params: BuildVerifierParams,
    pub tracker: EquivocationTracker,
}

/// Builds a verifier that has seen nothing yet.
pub fn build_verifier(params: BuildVerifierParams) -> (verifier: AuraVerifier)
    ensures
        verifier.params == params,
        verifier.tracker.retention_slots() == params.equivocation_retention,
        verifier.tracker.sightings() == Seq::<SightingView>::empty(),
{
    AuraVerifier { params, tracker: EquivocationTracker::new(params.equivocation_retention) }
}

impl AuraVerifier {
    /// Whether `taken` is what taking apart the block `header` with hash `hash`
    /// gives.
    ///
    /// The seal comes off first: a header without one is `HeaderUnsealed`, one with
    /// a misplaced seal, or a seal that holds no signature of the scheme, is
    /// `HeaderBadSeal`. What is left must declare its slot, or the error says why it
    /// does not. Then the block is pending, and the first call of the resolution of
    /// its authorities, at its parent and for its number, goes with it.
    pub open spec fn takes_apart<B>(
        self,
        header: Header,
        hash: Vec<u8>,
        body: Option<B>,
        taken: Result<(Pending<B>, RuntimeCall), Error>,
    ) -> bool {
        match seal_search(header.logs@) {
            SealSearch::Unsealed => taken matches Err(Error::HeaderUnsealed(h)) && h@ == hash@,
            SealSearch::Misplaced => taken matches Err(Error::HeaderBadSeal(h)) && h@ == hash@,
            SealSearch::Sealed(signature) => if !self.params.key_scheme.is_signature(signature) {
                taken matches Err(Error::HeaderBadSeal(h)) && h@ == hash@
            } else {
                match header_slot(header.number, header.logs@.drop_last()) {
                    Err(error) => taken == Err::<(Pending<B>, RuntimeCall), Error>(error),
                    Ok(slot) => match taken {
                        Ok((pending, call)) => {
                            &&& pending.header.number == header.number
                            &&& pending.header.parent_hash == header.parent_hash
                            &&& pending.header.logs@ == header.logs@.drop_last()
                            &&& pending.hash == hash
                            &&& pending.slot == slot
                            &&& pending.signature@ == signature
                            &&& pending.body == body
                            &&& first_call(
                                header.parent_hash@,
                                header.number,
                                self.params.compatibility_mode,
                                call,
                            )
                        },
                        Err(_) => false,
                    },
                }
            },
        }
    }

    /// Takes a block apart: its seal, its slot, and the call that starts the
    /// resolution of its authorities.
    pub fn begin<B>(&self, header: Header, hash: Vec<u8>, body: Option<B>) -> (taken: Result<
        (Pending<B>, RuntimeCall),
        Error,
    >)
        ensures
            self.takes_apart(header, hash, body, taken),
    {
        let (pre_header, signature) = match take_seal(header, &hash) {
            Ok(parts) => parts,
            Err(error) => {
                return Err(error);
            },
        };
        if signature.len() != self.params.key_scheme.signature_len() {
            return Err(Error::HeaderBadSeal(hash));
        }
        let slot = match find_pre_digest(&pre_header) {
            Ok(slot) => slot,
            Err(error) => {
                return Err(error);
            },
        };
        let call = authorities(
            &pre_header.parent_hash,
            pre_header.number,
            &self.params.compatibility_mode,
        );
        Ok((Pending { header: pre_header, hash, slot, signature, body }, call))
    }

    /// Who sealed `pending`, as far as the authorities of its context tell.
    ///
    /// The author is the one expected for the block's slot, and the seal must hold
    /// that author's signature on `pre_hash`.
    pub open spec fn authorship<B>(
        self,
        pending: Pending<B>,
        resolved: Result<Vec<Vec<u8>>, ConsensusError>,
        pre_hash: Seq<u8>,
    ) -> Authorship {
        match resolved {
            Err(_) => Authorship::Unresolved,
            Ok(list) => match expected_author(pending.slot, list@) {
                None => Authorship::NoAuthor,
                Some(expected) => if self.params.key_scheme.accepts(
                    pending.signature@,
                    pre_hash,
                    expected@,
                ) {
                    Authorship::By(expected@)
                } else {
                    Authorship::Forged
                },
            },
        }
    }

    /// The block was turned down before it reached the memory of sightings, which
    /// is as it was.
    pub open spec fn turned_down<B>(self, after: Self, verdict: Verdict<B>) -> bool {
        &&& after.params == self.params
        &&& after.tracker.retention_slots() == self.tracker.retention_slots()
        &&& after.tracker.sightings() == self.tracker.sightings()
        &&& verdict.equivocation is None
        &&& verdict.outcome is Rejected
    }

    /// Whether `verdict` and the verifier `after` are what judging `pending` at
    /// local slot `slot_now` gives, for a block that `author` sealed.
    ///
    /// The block is shown to the memory of sightings, whatever becomes of it, and a
    /// conflict found there is part of the verdict. Under the enforcing policy a
    /// conflict turns the block down. Otherwise the slot decides: a block whose
    /// slot has begun is accepted, one ahead within the tolerance is put aside, one
    /// further ahead is turned down.
    pub open spec fn judges<B>(
        self,
        pending: Pending<B>,
        author: Seq<u8>,
        slot_now: Slot,
        after: Self,
        verdict: Verdict<B>,
    ) -> bool {
        let sighting = SightingView { author, slot: pending.slot, hash: pending.hash@ };
        let conflict = conflicting(
            self.tracker.sightings(),
            self.tracker.retention_slots(),
            sighting,
            slot_now,
        );
        &&& after.params == self.params
        &&& after.tracker.retention_slots() == self.tracker.retention_slots()
        &&& after.tracker.sightings().no_duplicates()
        &&& after.tracker.sightings() == remembered(
            self.tracker.sightings(),
            self.tracker.retention_slots(),
            sighting,
            slot_now,
        )
        &&& match conflict {
            Some(first) => verdict.equivocation matches Some(e) && e.author@ == author && e.slot
                == pending.slot && e.first_hash@ == first && e.second_hash@ == pending.hash@,
            None => verdict.equivocation is None,
        }
        &&& match conflict {
            Some(first) if self.params.equivocation_policy is Enforce => {
                verdict.outcome matches Outcome::Rejected(Error::Equivocation(a, b)) && a@
                    == first && b@ == pending.hash@
            },
            _ => match timing(pending.slot, slot_now, self.params.future_tolerance) {
                Timing::TooFarAhead => {
                    verdict.outcome matches Outcome::Rejected(Error::TooFarInFuture(h)) && h@
                        == pending.hash@
                },
                Timing::Ahead => verdict.outcome == Outcome::Deferred(pending),
                Timing::Due => match verdict.outcome {
                    Outcome::Accepted(block) => {
                        &&& block.origin is Network
                        &&& block.header == pending.header
                        &&& block.post_digests@.len() == 1
                        &&& block.post_digests@[0]@ == seal_view(pending.signature@)
                        &&& block.body == pending.body
                        &&& block.state_action is Execute
                        &&& block.fork_choice matches Some(ForkChoiceStrategy::LongestChain)
                        &&& block.post_hash matches Some(h) && h@ == pending.hash@
                    },
                    _ => false,
                },
            },
        }
    }

    /// Whether `verdict` and the verifier `after` are what checking `pending`
    /// gives.
    ///
    /// Without authorities the block is turned down with `InvalidAuthoritiesSet`,
    /// with an empty set with `SlotAuthorNotFound`, with a seal that is not the
    /// expected author's signature with `BadSignature`. Otherwise it is judged as
    /// a block of that author.
    pub open spec fn checks<B>(
        self,
        pending: Pending<B>,
        resolved: Result<Vec<Vec<u8>>, ConsensusError>,
        pre_hash: Seq<u8>,
        slot_now: Slot,
        after: Self,
        verdict: Verdict<B>,
    ) -> bool {
        match self.authorship(pending, resolved, pre_hash) {
            Authorship::Unresolved => {
                &&& self.turned_down(after, verdict)
                &&& verdict.outcome matches Outcome::Rejected(Error::InvalidAuthoritiesSet)
            },
            Authorship::NoAuthor => {
                &&& self.turned_down(after, verdict)
                &&& verdict.outcome matches Outcome::Rejected(Error::SlotAuthorNotFound)
            },
            Authorship::Forged => {
                &&& self.turned_down(after, verdict)
                &&& verdict.outcome matches Outcome::Rejected(Error::BadSignature(h)) && h@
                    == pending.hash@
            },
            Authorship::By(author) => self.judges(pending, author, slot_now, after, verdict),
        }
    }

    /// Checks a pending block against the authorities that were fetched for it.
    ///
    /// `resolved` is the outcome of the resolution that [`Self::begin`] started,
    /// `pre_hash` the hash of the pending header, which is the message that was
    /// signed, and `slot_now` the slot of the local clock.
    pub fn check<B>(
        &mut self,
        pending: Pending<B>,
        resolved: Result<Vec<Vec<u8>>, ConsensusError>,
        pre_hash: &Vec<u8>,
        slot_now: Slot,
    ) -> (verdict: Verdict<B>)
        ensures
            old(self).checks(pending, resolved, pre_hash@, slot_now, *final(self), verdict),
    {
        let list = match resolved {
            Ok(list) => list,
            Err(_) => {
                return Verdict {
                    outcome: Outcome::Rejected(Error::InvalidAuthoritiesSet),
                    equivocation: None,
                };
            },
        };
        let author = match slot_author(pending.slot, list.as_slice()) {
            Some(author) => author,
            None => {
                return Verdict {
                    outcome: Outcome::Rejected(Error::SlotAuthorNotFound),
                    equivocation: None,
                };
            },
        };
        if !self.params.key_scheme.verify(&pending.signature, pre_hash, author) {
            let error = Error::BadSignature(bytes_copy(&pending.hash));
            return Verdict { outcome: Outcome::Rejected(error), equivocation: None };
        }
        self.judge(pending, author, slot_now)
    }

    /// Judges a pending block whose seal is the signature of `author`.
    pub fn judge<B>(&mut self, pending: Pending<B>, author: &Vec<u8>, slot_now: Slot) -> (verdict:
        Verdict<B>)
        ensures
            old(self).judges(pending, author@, slot_now, *final(self), verdict),
    {
        let equivocation = self.tracker.observe(author, pending.slot, &pending.hash, slot_now);
        let enforce = match self.params.equivocation_policy {
            EquivocationPolicy::Enforce => true,
            EquivocationPolicy::ReportOnly => false,
        };
        if enforce {
            match &equivocation {
                Some(found) => {
                    let error = Error::Equivocation(
                        bytes_copy(&found.first_hash),
                        bytes_copy(&found.second_hash),
                    );
                    return Verdict { outcome: Outcome::Rejected(error), equivocation };
                },
                None => {},
            }
        }
        if pending.slot > slot_now {
            if pending.slot - slot_now > self.params.future_tolerance {
                let error = Error::TooFarInFuture(bytes_copy(&pending.hash));
                return Verdict { outcome: Outcome::Rejected(error), equivocation };
            }
            return Verdict { outcome: Outcome::Deferred(pending), equivocation };
        }
        let Pending { header, hash, slot: _, signature, body } = pending;
        let mut post_digests: Vec<DigestItem> = Vec::new();
        post_digests.push(aura_seal(signature));
        let block = BlockImportParams {
            origin: BlockOrigin::Network,
            header,
            post_digests,
            body,
            state_action: StateAction::Execute,
            fork_choice: Some(ForkChoiceStrategy::LongestChain),
            post_hash: Some(hash),
        };
        Verdict { outcome: Outcome::Accepted(block), equivocation }
    }
}

/// A block whose slot is ahead of the local clock by more than the tolerance is
/// turned down. One that is ahead by no more than that is put aside, and comes back
/// as it was, to be judged again. Only an equivocation under the enforcing policy
/// turns such a block down for another reason.
pub proof fn lemma_blocks_ahead<B>(
    verifier: AuraVerifier,
    pending: Pending<B>,
    author: Seq<u8>,
    slot_now: Slot,
    after: AuraVerifier,
    verdict: Verdict<B>,
)
    requires
        verifier.judges(pending, author, slot_now, after, verdict),
        pending.slot > slot_now,
        verdict.equivocation is None || verifier.params.equivocation_policy is ReportOnly,
    ensures
        pending.slot - slot_now > verifier.params.future_tolerance ==> (
        verdict.outcome matches Outcome::Rejected(Error::TooFarInFuture(h)) && h@
            == pending.hash@),
        pending.slot - slot_now <= verifier.params.future_tolerance ==> verdict.outcome
            == Outcome::Deferred(pending),
{
}

/// A block is accepted only where its slot has begun, and then it goes to import
/// as it came: the signed header, the seal after it, from the network, for the
/// longest chain.
pub proof fn lemma_accepted_is_due<B>(
    verifier: AuraVerifier,
    pending: Pending<B>,
    author: Seq<u8>,
    slot_now: Slot,
    after: AuraVerifier,
    verdict: Verdict<B>,
)
    requires
        verifier.judges(pending, author, slot_now, after, verdict),
        verdict.outcome is Accepted,
    ensures
        pending.slot <= slot_now,
        verdict.outcome->Accepted_0.header == pending.header,
        verdict.outcome->Accepted_0.origin is Network,
        verdict.equivocation is Some ==> verifier.params.equivocation_policy is ReportOnly,
{
}

} // verus!
