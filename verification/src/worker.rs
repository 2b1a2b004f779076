//! The authoring worker: what a node does between a slot's tick and the hand-off of
//! the block it built for the slot.
//!
//! The worker asks nothing of the outside world itself. Each step takes what the
//! outside world answered and says what is to be asked next; the caller asks.

use crate::authorities::{
    after_authorities, after_initialize_block, authorities, first_call, CompatibilityMode,
    RuntimeCall,
};
use crate::bytes::bytes_copy;
use crate::crypto::KeyScheme;
use crate::digest::{aura_pre_digest, pre_digest_view, DigestItem, Slot};
use crate::error::ConsensusError;
use crate::header::{find_pre_digest, header_slot, Header};
use crate::import::{block_import_params, seals, BlockImportParams, SignOutcome};
use crate::schedule::{expected_author, slot_author};
use vstd::prelude::*;

verus! {

/// What a worker is built from.
#[derive(Clone, Copy, Debug, PartialEq, Eq)]
pub struct BuildAuraWorkerParams {
    /// Whether the expected author is claimed even where the local key is missing.
    pub force_authoring: bool,
    /// Whether a backoff strategy is configured.
    pub backoff_authoring_blocks: bool,
    /// How the authorities are fetched.
    pub compatibility_mode: CompatibilityMode,
    /// The scheme of the authorities' keys.
    pub key_scheme: KeyScheme,
}

/// A block as the proposer returned it.
#[derive(Debug, PartialEq)]
pub struct Proposal<B, S> {
    pub header: Header,
    pub header_hash: Vec<u8>,
    pub body: B,
    pub storage_changes: S,
}

/// Where the worker stands within a slot.
#[derive(Debug, PartialEq)]
pub enum WorkerState<B, S> {
    /// Nothing is under way.
    Idle,
    /// The runtime initialises a block before the authorities are fetched.
    InitializingBlock { slot: Slot, chain_head: Header, chain_head_hash: Vec<u8> },
    /// The authorities are being fetched.
    ResolvingAuthorities { slot: Slot, chain_head: Header, chain_head_hash: Vec<u8> },
    /// The signer is asked whether it holds the expected author's key.
    Claiming { slot: Slot, chain_head: Header, chain_head_hash: Vec<u8>, author: Vec<u8> },
    /// The backoff strategy is asked whether the slot is skipped.
    BackoffCheck { slot: Slot, chain_head: Header, chain_head_hash: Vec<u8>, claim: Vec<u8> },
    /// The proposer builds a block.
    Proposing { slot: Slot, claim: Vec<u8> },
    /// The signer signs the hash of the proposed header.
    Signing { slot: Slot, claim: Vec<u8>, proposal: Proposal<B, S> },
    /// The sealed block is with block import.
    HandingOff { slot: Slot },
}

/// What the outside world tells the worker. Every answer names the slot of the
/// attempt that asked.
#[derive(Debug, PartialEq)]
pub enum WorkerEvent<B, S> {
    /// A slot began, with this block as the head of the chain.
    SlotTick { slot: Slot, chain_head: Header, chain_head_hash: Vec<u8> },
    /// The runtime initialised the block, or failed to.
    BlockInitialized { slot: Slot, succeeded: bool },
    /// The runtime returned the authorities, or failed to.
    AuthoritiesFetched { slot: Slot, fetched: Option<Vec<Vec<u8>>> },
    /// The signer holds the key that was asked for, or does not.
    KeyChecked { slot: Slot, held: bool },
    /// The backoff strategy decided.
    BackoffDecided { slot: Slot, backoff: bool },
    /// The proposer returned a block, or nothing.
    Proposed { slot: Slot, proposal: Option<Proposal<B, S>> },
    /// The signer answered.
    Signed { slot: Slot, outcome: SignOutcome },
    /// Block import finished.
    Imported { slot: Slot, succeeded: bool },
}

/// Why a slot was given up.
#[derive(Clone, Debug, PartialEq, Eq)]
pub enum Abandoned {
    /// Something failed.
    Failed(ConsensusError),
    /// The slot is not this node's to author.
    NoClaim,
    /// The backoff strategy said so.
    Backoff,
    /// The proposer returned nothing.
    NoProposal,
}

/// What the caller does next.
#[derive(Debug, PartialEq)]
pub enum WorkerAction<B, S> {
    /// Make this call to the runtime and report how it went.
    Runtime(RuntimeCall),
    /// Ask the signer whether it holds the key of `author`.
    CheckKey { author: Vec<u8> },
    /// Ask the backoff strategy, with the number of the last finalised block added.
    AskBackoff { chain_head_number: u64, chain_head_slot: Slot, slot: Slot },
    /// Ask the proposer for a block on top of `chain_head` that starts its log with
    /// `pre_digests`. `parent_slot` is the slot of `chain_head`, where it declares
    /// one; the time allowed for the proposal grows with the distance to it.
    Propose {
        slot: Slot,
        chain_head: Header,
        chain_head_hash: Vec<u8>,
        parent_slot: Option<Slot>,
        pre_digests: Vec<DigestItem>,
    },
    /// Ask the signer to sign `message` with the key of `public`.
    Sign { public: Vec<u8>, message: Vec<u8> },
    /// Hand the block to block import.
    Import(BlockImportParams<B, S>),
    /// Nothing more in this slot.
    Abandon(Abandoned),
    /// The slot's work is done; block import succeeded or failed.
    Finished { imported: bool },
    /// The event was no answer to what is under way, and was dropped.
    Ignored,
}

/// The authoring worker.
#[derive(Debug, PartialEq)]
pub struct AuraWorker<B, S> {
    pub params: BuildAuraWorkerParams,
    pub state: WorkerState<B, S>,
}

/// Builds a worker, which is idle until the first tick.
pub fn build_aura_worker<B, S>(params: BuildAuraWorkerParams) -> (worker: AuraWorker<B, S>)
    ensures
        worker.params == params,
        worker.state is Idle,
{
    AuraWorker { params, state: WorkerState::Idle }
}

/// The slot of a block, where its header declares one.
pub open spec fn declared_slot(header: Header) -> Option<Slot> {
    match header_slot(header.number, header.logs@) {
        Ok(slot) => Some(slot),
        Err(_) => None,
    }
}

impl<B, S> AuraWorker<B, S> {
    /// The worker gave the slot up.
    pub open spec fn gave_up(self, next: Self, action: WorkerAction<B, S>) -> bool {
        next.params == self.params && next.state is Idle && action is Abandon
    }

    /// The worker dropped an event and stands where it stood.
    pub open spec fn ignored(self, next: Self, action: WorkerAction<B, S>) -> bool {
        next == self && action is Ignored
    }

    /// The worker asks for a proposal for `slot` on top of `chain_head`.
    pub open spec fn proposes(
        self,
        slot: Slot,
        chain_head: Header,
        chain_head_hash: Vec<u8>,
        claim: Vec<u8>,
        next: Self,
        action: WorkerAction<B, S>,
    ) -> bool {
        &&& next.params == self.params
        &&& next.state == WorkerState::<B, S>::Proposing { slot, claim }
        &&& match action {
            WorkerAction::Propose {
                slot: s,
                chain_head: head,
                chain_head_hash: hash,
                parent_slot,
                pre_digests,
            } => {
                &&& s == slot
                &&& head == chain_head
                &&& hash == chain_head_hash
                &&& parent_slot == declared_slot(chain_head)
                &&& pre_digests@.len() == 1
                &&& pre_digests@[0]@ == pre_digest_view(slot)
            },
            _ => false,
        }
    }

    /// The worker holds a claim on `slot` and passes the backoff gate: it asks the
    /// strategy where one is configured and the head of the chain declares a slot,
    /// and asks for a proposal otherwise.
    pub open spec fn passes_gate(
        self,
        slot: Slot,
        chain_head: Header,
        chain_head_hash: Vec<u8>,
        claim: Vec<u8>,
        next: Self,
        action: WorkerAction<B, S>,
    ) -> bool {
        match declared_slot(chain_head) {
            Some(head_slot) if self.params.backoff_authoring_blocks => {
                &&& next.params == self.params
                &&& next.state == WorkerState::<B, S>::BackoffCheck {
                    slot,
                    chain_head,
                    chain_head_hash,
                    claim,
                }
                &&& action == WorkerAction::<B, S>::AskBackoff {
                    chain_head_number: chain_head.number,
                    chain_head_slot: head_slot,
                    slot,
                }
            },
            _ => self.proposes(slot, chain_head, chain_head_hash, claim, next, action),
        }
    }

    /// A tick ends whatever was under way and starts the slot's attempt with the
    /// resolution of the authorities for the block after the head of the chain.
    pub open spec fn ticked(
        self,
        slot: Slot,
        chain_head: Header,
        chain_head_hash: Vec<u8>,
        next: Self,
        action: WorkerAction<B, S>,
    ) -> bool {
        let number = (chain_head.number + 1) as u64;
        &&& next.params == self.params
        &&& action matches WorkerAction::Runtime(call) && first_call(
            chain_head_hash@,
            number,
            self.params.compatibility_mode,
            call,
        )
        &&& next.state == if self.params.compatibility_mode.initializes_block(number) {
            WorkerState::<B, S>::InitializingBlock { slot, chain_head, chain_head_hash }
        } else {
            WorkerState::<B, S>::ResolvingAuthorities { slot, chain_head, chain_head_hash }
        }
    }

    /// After the block initialisation the authorities are fetched; where it failed
    /// the slot is given up.
    pub open spec fn block_initialized(
        self,
        slot: Slot,
        succeeded: bool,
        next: Self,
        action: WorkerAction<B, S>,
    ) -> bool {
        match self.state {
            WorkerState::InitializingBlock { slot: s, chain_head, chain_head_hash } if s == slot => {
                if succeeded {
                    &&& next.params == self.params
                    &&& next.state == WorkerState::<B, S>::ResolvingAuthorities {
                        slot,
                        chain_head,
                        chain_head_hash,
                    }
                    &&& action matches WorkerAction::Runtime(
                        RuntimeCall::Authorities { parent_hash },
                    ) && parent_hash@ == chain_head_hash@
                } else {
                    &&& self.gave_up(next, action)
                    &&& action matches WorkerAction::Abandon(
                        Abandoned::Failed(ConsensusError::InvalidAuthoritiesSet),
                    )
                }
            },
            _ => self.ignored(next, action),
        }
    }

    /// With the authorities at hand the expected author of the slot is looked up,
    /// and the signer is asked for that author's key. Without authorities, or with
    /// none to expect, the slot is given up.
    pub open spec fn authorities_fetched(
        self,
        slot: Slot,
        fetched: Option<Vec<Vec<u8>>>,
        next: Self,
        action: WorkerAction<B, S>,
    ) -> bool {
        match self.state {
            WorkerState::ResolvingAuthorities { slot: s, chain_head, chain_head_hash } if s
                == slot => {
                match fetched {
                    None => {
                        &&& self.gave_up(next, action)
                        &&& action matches WorkerAction::Abandon(
                            Abandoned::Failed(ConsensusError::InvalidAuthoritiesSet),
                        )
                    },
                    Some(list) => match expected_author(slot, list@) {
                        None => {
                            &&& self.gave_up(next, action)
                            &&& action matches WorkerAction::Abandon(Abandoned::NoClaim)
                        },
                        Some(expected) => {
                            &&& next.params == self.params
                            &&& match next.state {
                                WorkerState::Claiming {
                                    slot: s2,
                                    chain_head: head,
                                    chain_head_hash: hash,
                                    author,
                                } => s2 == slot && head == chain_head && hash == chain_head_hash
                                    && author@ == expected@,
                                _ => false,
                            }
                            &&& action matches WorkerAction::CheckKey { author } && author@
                                == expected@
                        },
                    },
                }
            },
            _ => self.ignored(next, action),
        }
    }

    /// The expected author is claimed where the signer holds its key, or where
    /// authoring is forced. Otherwise the slot is given up.
    pub open spec fn key_checked(
        self,
        slot: Slot,
        held: bool,
        next: Self,
        action: WorkerAction<B, S>,
    ) -> bool {
        match self.state {
            WorkerState::Claiming { slot: s, chain_head, chain_head_hash, author } if s == slot => {
                if held || self.params.force_authoring {
                    self.passes_gate(slot, chain_head, chain_head_hash, author, next, action)
                } else {
                    &&& self.gave_up(next, action)
                    &&& action matches WorkerAction::Abandon(Abandoned::NoClaim)
                }
            },
            _ => self.ignored(next, action),
        }
    }

    /// Where the strategy says to back off the slot is given up, although it was
    /// claimed: no proposal is asked for and nothing is imported.
    pub open spec fn backoff_decided(
        self,
        slot: Slot,
        backoff: bool,
        next: Self,
        action: WorkerAction<B, S>,
    ) -> bool {
        match self.state {
            WorkerState::BackoffCheck { slot: s, chain_head, chain_head_hash, claim } if s
                == slot => {
                if backoff {
                    &&& self.gave_up(next, action)
                    &&& action matches WorkerAction::Abandon(Abandoned::Backoff)
                } else {
                    self.proposes(slot, chain_head, chain_head_hash, claim, next, action)
                }
            },
            _ => self.ignored(next, action),
        }
    }

    /// The hash of the proposed header is sent to the signer, for the claimed key.
    pub open spec fn proposed(
        self,
        slot: Slot,
        proposal: Option<Proposal<B, S>>,
        next: Self,
        action: WorkerAction<B, S>,
    ) -> bool {
        match self.state {
            WorkerState::Proposing { slot: s, claim } if s == slot => {
                match proposal {
                    None => {
                        &&& self.gave_up(next, action)
                        &&& action matches WorkerAction::Abandon(Abandoned::NoProposal)
                    },
                    Some(p) => {
                        &&& next.params == self.params
                        &&& next.state == WorkerState::<B, S>::Signing { slot, claim, proposal: p }
                        &&& action matches WorkerAction::Sign { public, message } && public@
                            == claim@ && message@ == p.header_hash@
                    },
                }
            },
            _ => self.ignored(next, action),
        }
    }

    /// The proposed block is sealed with the signature and handed to block import;
    /// an answer that is no signature ends the slot.
    pub open spec fn signed(
        self,
        slot: Slot,
        outcome: SignOutcome,
        next: Self,
        action: WorkerAction<B, S>,
    ) -> bool {
        match self.state {
            WorkerState::Signing { slot: s, claim, proposal } if s == slot => {
                match action {
                    WorkerAction::Import(block) => {
                        &&& next.params == self.params
                        &&& next.state == WorkerState::<B, S>::HandingOff { slot }
                        &&& seals(
                            Ok(block),
                            proposal.header,
                            proposal.body,
                            proposal.storage_changes,
                            claim@,
                            outcome,
                            self.params.key_scheme,
                        )
                    },
                    WorkerAction::Abandon(Abandoned::Failed(error)) => {
                        &&& self.gave_up(next, action)
                        &&& seals(
                            Err(error),
                            proposal.header,
                            proposal.body,
                            proposal.storage_changes,
                            claim@,
                            outcome,
                            self.params.key_scheme,
                        )
                    },
                    _ => false,
                }
            },
            _ => self.ignored(next, action),
        }
    }

    /// The outcome of block import is noted, and nothing is tried again.
    pub open spec fn imported(
        self,
        slot: Slot,
        succeeded: bool,
        next: Self,
        action: WorkerAction<B, S>,
    ) -> bool {
        match self.state {
            WorkerState::HandingOff { slot: s } if s == slot => {
                &&& next.params == self.params
                &&& next.state is Idle
                &&& action == WorkerAction::<B, S>::Finished { imported: succeeded }
            },
            _ => self.ignored(next, action),
        }
    }

    /// What an event leads to: the worker afterwards, and what the caller does next.
    pub open spec fn transition(
        self,
        event: WorkerEvent<B, S>,
        next: Self,
        action: WorkerAction<B, S>,
    ) -> bool {
        match event {
            WorkerEvent::SlotTick { slot, chain_head, chain_head_hash } => self.ticked(
                slot,
                chain_head,
                chain_head_hash,
                next,
                action,
            ),
            WorkerEvent::BlockInitialized { slot, succeeded } => self.block_initialized(
                slot,
                succeeded,
                next,
                action,
            ),
            WorkerEvent::AuthoritiesFetched { slot, fetched } => self.authorities_fetched(
                slot,
                fetched,
                next,
                action,
            ),
            WorkerEvent::KeyChecked { slot, held } => self.key_checked(slot, held, next, action),
            WorkerEvent::BackoffDecided { slot, backoff } => self.backoff_decided(
                slot,
                backoff,
                next,
                action,
            ),
            WorkerEvent::Proposed { slot, proposal } => self.proposed(slot, proposal, next, action),
            WorkerEvent::Signed { slot, outcome } => self.signed(slot, outcome, next, action),
            WorkerEvent::Imported { slot, succeeded } => self.imported(
                slot,
                succeeded,
                next,
                action,
            ),
        }
    }
}

impl<B, S> AuraWorker<B, S> {
    /// Takes one event and says what follows.
    ///
    /// A tick always starts the slot's attempt anew. Every other event counts only
    /// as the answer that the worker waits for, for the slot that it works on;
    /// anything else, such as a late answer to an attempt that a tick ended, is
    /// dropped and changes nothing.
    pub fn step(self, event: WorkerEvent<B, S>) -> (out: (Self, WorkerAction<B, S>))
        requires
            event matches WorkerEvent::SlotTick { chain_head, .. } ==> chain_head.number
                < u64::MAX,
        ensures
            self.transition(event, out.0, out.1),
    {
        match event {
            WorkerEvent::SlotTick { slot, chain_head, chain_head_hash } => self.on_slot_tick(
                slot,
                chain_head,
                chain_head_hash,
            ),
            WorkerEvent::BlockInitialized { slot, succeeded } => self.on_block_initialized(
                slot,
                succeeded,
            ),
            WorkerEvent::AuthoritiesFetched { slot, fetched } => self.on_authorities_fetched(
                slot,
                fetched,
            ),
            WorkerEvent::KeyChecked { slot, held } => self.on_key_checked(slot, held),
            WorkerEvent::BackoffDecided { slot, backoff } => self.on_backoff_decided(
                slot,
                backoff,
            ),
            WorkerEvent::Proposed { slot, proposal } => self.on_proposed(slot, proposal),
            WorkerEvent::Signed { slot, outcome } => self.on_signed(slot, outcome),
            WorkerEvent::Imported { slot, succeeded } => self.on_imported(slot, succeeded),
        }
    }

    /// Starts the attempt for `slot` on top of `chain_head`.
    pub fn on_slot_tick(self, slot: Slot, chain_head: Header, chain_head_hash: Vec<u8>) -> (out: (
        Self,
        WorkerAction<B, S>,
    ))
        requires
            chain_head.number < u64::MAX,
        ensures
            self.ticked(slot, chain_head, chain_head_hash, out.0, out.1),
    {
        let params = self.params;
        let number: u64 = chain_head.number + 1;
        let call = authorities(&chain_head_hash, number, &params.compatibility_mode);
        let state = if params.compatibility_mode.uses_initialize_block(number) {
            WorkerState::InitializingBlock { slot, chain_head, chain_head_hash }
        } else {
            WorkerState::ResolvingAuthorities { slot, chain_head, chain_head_hash }
        };
        (AuraWorker { params, state }, WorkerAction::Runtime(call))
    }

    /// Takes the outcome of the block initialisation.
    pub fn on_block_initialized(self, slot: Slot, succeeded: bool) -> (out: (
        Self,
        WorkerAction<B, S>,
    ))
        ensures
            self.block_initialized(slot, succeeded, out.0, out.1),
    {
        let AuraWorker { params, state } = self;
        match state {
            WorkerState::InitializingBlock { slot: s, chain_head, chain_head_hash } => {
                if s != slot {
                    let state = WorkerState::InitializingBlock {
                        slot: s,
                        chain_head,
                        chain_head_hash,
                    };
                    return (AuraWorker { params, state }, WorkerAction::Ignored);
                }
                match after_initialize_block(&chain_head_hash, succeeded) {
                    Ok(call) => {
                        let state = WorkerState::ResolvingAuthorities {
                            slot,
                            chain_head,
                            chain_head_hash,
                        };
                        (AuraWorker { params, state }, WorkerAction::Runtime(call))
                    },
                    Err(error) => (
                        AuraWorker { params, state: WorkerState::Idle },
                        WorkerAction::Abandon(Abandoned::Failed(error)),
                    ),
                }
            },
            other => (AuraWorker { params, state: other }, WorkerAction::Ignored),
        }
    }

    /// Takes what the fetch of the authorities returned.
    pub fn on_authorities_fetched(self, slot: Slot, fetched: Option<Vec<Vec<u8>>>) -> (out: (
        Self,
        WorkerAction<B, S>,
    ))
        ensures
            self.authorities_fetched(slot, fetched, out.0, out.1),
    {
        let AuraWorker { params, state } = self;
        match state {
            WorkerState::ResolvingAuthorities { slot: s, chain_head, chain_head_hash } => {
                if s != slot {
                    let state = WorkerState::ResolvingAuthorities {
                        slot: s,
                        chain_head,
                        chain_head_hash,
                    };
                    return (AuraWorker { params, state }, WorkerAction::Ignored);
                }
                match after_authorities(fetched) {
                    Err(error) => (
                        AuraWorker { params, state: WorkerState::Idle },
                        WorkerAction::Abandon(Abandoned::Failed(error)),
                    ),
                    Ok(list) => match slot_author(slot, list.as_slice()) {
                        None => (
                            AuraWorker { params, state: WorkerState::Idle },
                            WorkerAction::Abandon(Abandoned::NoClaim),
                        ),
                        Some(expected) => {
                            let state = WorkerState::Claiming {
                                slot,
                                chain_head,
                                chain_head_hash,
                                author: bytes_copy(expected),
                            };
                            (
                                AuraWorker { params, state },
                                WorkerAction::CheckKey { author: bytes_copy(expected) },
                            )
                        },
                    },
                }
            },
            other => (AuraWorker { params, state: other }, WorkerAction::Ignored),
        }
    }

    /// Takes the signer's word on whether it holds the expected author's key.
    pub fn on_key_checked(self, slot: Slot, held: bool) -> (out: (Self, WorkerAction<B, S>))
        ensures
            self.key_checked(slot, held, out.0, out.1),
    {
        let AuraWorker { params, state } = self;
        match state {
            WorkerState::Claiming { slot: s, chain_head, chain_head_hash, author } => {
                if s != slot {
                    let state = WorkerState::Claiming {
                        slot: s,
                        chain_head,
                        chain_head_hash,
                        author,
                    };
                    return (AuraWorker { params, state }, WorkerAction::Ignored);
                }
                if held || params.force_authoring {
                    Self::pass_gate(params, slot, chain_head, chain_head_hash, author)
                } else {
                    (
                        AuraWorker { params, state: WorkerState::Idle },
                        WorkerAction::Abandon(Abandoned::NoClaim),
                    )
                }
            },
            other => (AuraWorker { params, state: other }, WorkerAction::Ignored),
        }
    }

    /// Takes the decision of the backoff strategy.
    pub fn on_backoff_decided(self, slot: Slot, backoff: bool) -> (out: (
        Self,
        WorkerAction<B, S>,
    ))
        ensures
            self.backoff_decided(slot, backoff, out.0, out.1),
    {
        let AuraWorker { params, state } = self;
        match state {
            WorkerState::BackoffCheck { slot: s, chain_head, chain_head_hash, claim } => {
                if s != slot {
                    let state = WorkerState::BackoffCheck {
                        slot: s,
                        chain_head,
                        chain_head_hash,
                        claim,
                    };
                    return (AuraWorker { params, state }, WorkerAction::Ignored);
                }
                if backoff {
                    (
                        AuraWorker { params, state: WorkerState::Idle },
                        WorkerAction::Abandon(Abandoned::Backoff),
                    )
                } else {
                    Self::propose(params, slot, chain_head, chain_head_hash, claim)
                }
            },
            other => (AuraWorker { params, state: other }, WorkerAction::Ignored),
        }
    }

    /// Takes what the proposer returned.
    pub fn on_proposed(self, slot: Slot, proposal: Option<Proposal<B, S>>) -> (out: (
        Self,
        WorkerAction<B, S>,
    ))
        ensures
            self.proposed(slot, proposal, out.0, out.1),
    {
        let AuraWorker { params, state } = self;
        match state {
            WorkerState::Proposing { slot: s, claim } => {
                if s != slot {
                    let state = WorkerState::Proposing { slot: s, claim };
                    return (AuraWorker { params, state }, WorkerAction::Ignored);
                }
                match proposal {
                    None => (
                        AuraWorker { params, state: WorkerState::Idle },
                        WorkerAction::Abandon(Abandoned::NoProposal),
                    ),
                    Some(p) => {
                        let action = WorkerAction::Sign {
                            public: bytes_copy(&claim),
                            message: bytes_copy(&p.header_hash),
                        };
                        let state = WorkerState::Signing { slot, claim, proposal: p };
                        (AuraWorker { params, state }, action)
                    },
                }
            },
            other => (AuraWorker { params, state: other }, WorkerAction::Ignored),
        }
    }

    /// Takes the signer's answer.
    pub fn on_signed(self, slot: Slot, outcome: SignOutcome) -> (out: (Self, WorkerAction<B, S>))
        ensures
            self.signed(slot, outcome, out.0, out.1),
    {
        let AuraWorker { params, state } = self;
        match state {
            WorkerState::Signing { slot: s, claim, proposal } => {
                if s != slot {
                    let state = WorkerState::Signing { slot: s, claim, proposal };
                    return (AuraWorker { params, state }, WorkerAction::Ignored);
                }
                let Proposal { header, header_hash: _, body, storage_changes } = proposal;
                match block_import_params(
                    header,
                    body,
                    storage_changes,
                    &claim,
                    outcome,
                    params.key_scheme,
                ) {
                    Ok(block) => (
                        AuraWorker { params, state: WorkerState::HandingOff { slot } },
                        WorkerAction::Import(block),
                    ),
                    Err(error) => (
                        AuraWorker { params, state: WorkerState::Idle },
                        WorkerAction::Abandon(Abandoned::Failed(error)),
                    ),
                }
            },
            other => (AuraWorker { params, state: other }, WorkerAction::Ignored),
        }
    }

    /// Takes the outcome of block import.
    pub fn on_imported(self, slot: Slot, succeeded: bool) -> (out: (Self, WorkerAction<B, S>))
        ensures
            self.imported(slot, succeeded, out.0, out.1),
    {
        let AuraWorker { params, state } = self;
        match state {
            WorkerState::HandingOff { slot: s } => {
                if s != slot {
                    let state = WorkerState::HandingOff { slot: s };
                    return (AuraWorker { params, state }, WorkerAction::Ignored);
                }
                (
                    AuraWorker { params, state: WorkerState::Idle },
                    WorkerAction::Finished { imported: succeeded },
                )
            },
            other => (AuraWorker { params, state: other }, WorkerAction::Ignored),
        }
    }

    /// Whether authoring is forced.
    pub fn force_authoring(&self) -> (forced: bool)
        ensures
            forced == self.params.force_authoring,
    {
        self.params.force_authoring
    }

    fn pass_gate(
        params: BuildAuraWorkerParams,
        slot: Slot,
        chain_head: Header,
        chain_head_hash: Vec<u8>,
        claim: Vec<u8>,
    ) -> (out: (Self, WorkerAction<B, S>))
        ensures
            (AuraWorker::<B, S> { params, state: WorkerState::Idle }).passes_gate(
                slot,
                chain_head,
                chain_head_hash,
                claim,
                out.0,
                out.1,
            ),
    {
        if params.backoff_authoring_blocks {
            match find_pre_digest(&chain_head) {
                Ok(head_slot) => {
                    let action = WorkerAction::AskBackoff {
                        chain_head_number: chain_head.number,
                        chain_head_slot: head_slot,
                        slot,
                    };
                    let state = WorkerState::BackoffCheck {
                        slot,
                        chain_head,
                        chain_head_hash,
                        claim,
                    };
                    (AuraWorker { params, state }, action)
                },
                Err(_) => Self::propose(params, slot, chain_head, chain_head_hash, claim),
            }
        } else {
            Self::propose(params, slot, chain_head, chain_head_hash, claim)
        }
    }

    fn propose(
        params: BuildAuraWorkerParams,
        slot: Slot,
        chain_head: Header,
        chain_head_hash: Vec<u8>,
        claim: Vec<u8>,
    ) -> (out: (Self, WorkerAction<B, S>))
        ensures
            (AuraWorker::<B, S> { params, state: WorkerState::Idle }).proposes(
                slot,
                chain_head,
                chain_head_hash,
                claim,
                out.0,
                out.1,
            ),
    {
        let parent_slot = match find_pre_digest(&chain_head) {
            Ok(head_slot) => Some(head_slot),
            Err(_) => None,
        };
        let mut pre_digests: Vec<DigestItem> = Vec::new();
        pre_digests.push(aura_pre_digest(slot));
        let action = WorkerAction::Propose {
            slot,
            chain_head,
            chain_head_hash,
            parent_slot,
            pre_digests,
        };
        (AuraWorker { params, state: WorkerState::Proposing { slot, claim } }, action)
    }
}

/// Where the backoff strategy says to back off, the worker gives the slot up
/// although it holds a claim: it asks for no proposal and hands nothing to import.
pub proof fn lemma_backoff_gives_up<B, S>(
    worker: AuraWorker<B, S>,
    slot: Slot,
    next: AuraWorker<B, S>,
    action: WorkerAction<B, S>,
)
    requires
        worker.state matches WorkerState::BackoffCheck { slot: s, .. } && s == slot,
        worker.transition(WorkerEvent::BackoffDecided { slot, backoff: true }, next, action),
    ensures
        next.state is Idle,
        action matches WorkerAction::Abandon(Abandoned::Backoff),
        !(action is Propose),
        !(action is Import),
{
}

/// An idle worker does nothing until the next tick: whatever else it is told, it
/// stays idle and asks for nothing. So a slot that was given up stays given up.
pub proof fn lemma_idle_until_tick<B, S>(
    worker: AuraWorker<B, S>,
    event: WorkerEvent<B, S>,
    next: AuraWorker<B, S>,
    action: WorkerAction<B, S>,
)
    requires
        worker.state is Idle,
        !(event is SlotTick),
        worker.transition(event, next, action),
    ensures
        next == worker,
        action is Ignored,
{
}

/// A proposal is asked for only by a worker that holds a claim on the slot, and
/// never in answer to a strategy that said to back off.
pub proof fn lemma_propose_needs_claim<B, S>(
    worker: AuraWorker<B, S>,
    event: WorkerEvent<B, S>,
    next: AuraWorker<B, S>,
    action: WorkerAction<B, S>,
)
    requires
        worker.transition(event, next, action),
        action is Propose,
    ensures
        match event {
            WorkerEvent::KeyChecked { slot, held } => (held || worker.params.force_authoring)
                && (worker.state matches WorkerState::Claiming { slot: s, .. } && s == slot),
            WorkerEvent::BackoffDecided { slot, backoff } => !backoff && (
            worker.state matches WorkerState::BackoffCheck { slot: s, .. } && s == slot),
            _ => false,
        },
{
}

/// A block is handed to import only in answer to the signer, by a worker that
/// waited for it, and it is the proposed block under a seal of the claimed key.
pub proof fn lemma_import_needs_signature<B, S>(
    worker: AuraWorker<B, S>,
    event: WorkerEvent<B, S>,
    next: AuraWorker<B, S>,
    action: WorkerAction<B, S>,
)
    requires
        worker.transition(event, next, action),
        action is Import,
    ensures
        match (event, worker.state, action) {
            (
                WorkerEvent::Signed { slot, outcome: SignOutcome::Signed(signature) },
                WorkerState::Signing { slot: s, claim, proposal },
                WorkerAction::Import(block),
            ) => {
                &&& s == slot
                &&& worker.params.key_scheme.is_signature(signature@)
                &&& block.header == proposal.header
                &&& block.origin is Own
            },
            _ => false,
        },
{
}

} // verus!
