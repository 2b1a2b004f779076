//! Fetching the authority set of a chain context, with the switch that keeps an
//! old ordering of runtime calls alive up to a configured block.
//!
//! The runtime is asked by the caller. This module decides what is asked, in which
//! order, and what each answer leads to.

use crate::bytes::bytes_copy;
use crate::error::ConsensusError;
use vstd::prelude::*;

verus! {

/// Whether the runtime's block initialisation runs before the authorities are fetched.
#[derive(Clone, Copy, Debug, PartialEq, Eq)]
pub enum CompatibilityMode {
    /// It never does.
    Disabled,
    /// It does in the context of every block whose number is not beyond `until`:
    /// the block `until` itself is the last whose authorities are fetched after it.
    UseInitializeBlock {
        /// The last block number in whose context the mode is on.
        until: u64,
    },
}

impl CompatibilityMode {
    /// Whether block initialisation precedes the fetch in the context of block
    /// `context_block_number`. This depends on the mode and the number alone.
    pub open spec fn initializes_block(self, context_block_number: u64) -> bool {
        match self {
            CompatibilityMode::Disabled => false,
            CompatibilityMode::UseInitializeBlock { until } => until >= context_block_number,
        }
    }

    /// Computes [`Self::initializes_block`].
    pub fn uses_initialize_block(&self, context_block_number: u64) -> (yes: bool)
        ensures
            yes == self.initializes_block(context_block_number),
    {
        match self {
            CompatibilityMode::Disabled => false,
            CompatibilityMode::UseInitializeBlock { until } => *until >= context_block_number,
        }
    }
}

impl Default for CompatibilityMode {
    fn default() -> (mode: Self)
        ensures
            mode == CompatibilityMode::Disabled,
    {
        CompatibilityMode::Disabled
    }
}

/// A call that the caller makes to the runtime on behalf of the resolution.
#[derive(Clone, Debug, PartialEq, Eq)]
pub enum RuntimeCall {
    /// Initialise a block at `parent_hash` from a header that holds nothing but
    /// `number` and `parent_hash`. The result is dropped; only its success counts.
    InitializeBlock { parent_hash: Vec<u8>, number: u64 },
    /// Fetch the authorities at `parent_hash`.
    Authorities { parent_hash: Vec<u8> },
}

/// The first call of a resolution for the context `(parent_hash, context_block_number)`.
pub open spec fn first_call(
    parent_hash: Seq<u8>,
    context_block_number: u64,
    mode: CompatibilityMode,
    call: RuntimeCall,
) -> bool {
    if mode.initializes_block(context_block_number) {
        call matches RuntimeCall::InitializeBlock { parent_hash: p, number }
            && p@ == parent_hash && number == context_block_number
    } else {
        call matches RuntimeCall::Authorities { parent_hash: p } && p@ == parent_hash
    }
}

/// Starts the resolution of the authorities for the block `context_block_number`
/// built on `parent_hash`: says which call comes first.
///
/// Under a compatibility mode whose `until` the block's number is not beyond, that
/// is the block initialisation; otherwise the fetch itself.
pub fn authorities(
    parent_hash: &Vec<u8>,
    context_block_number: u64,
    compatibility_mode: &CompatibilityMode,
) -> (call: RuntimeCall)
    ensures
        first_call(parent_hash@, context_block_number, *compatibility_mode, call),
{
    if compatibility_mode.uses_initialize_block(context_block_number) {
        RuntimeCall::InitializeBlock {
            parent_hash: bytes_copy(parent_hash),
            number: context_block_number,
        }
    } else {
        RuntimeCall::Authorities { parent_hash: bytes_copy(parent_hash) }
    }
}

/// Continues after the block initialisation: on success the fetch at the same
/// parent follows, on failure the resolution ends with `InvalidAuthoritiesSet`.
pub fn after_initialize_block(parent_hash: &Vec<u8>, succeeded: bool) -> (next: Result<
    RuntimeCall,
    ConsensusError,
>)
    ensures
        succeeded ==> (next matches Ok(RuntimeCall::Authorities { parent_hash: p })
            && p@ == parent_hash@),
        !succeeded ==> (next matches Err(ConsensusError::InvalidAuthoritiesSet)),
{
    if succeeded {
        Ok(RuntimeCall::Authorities { parent_hash: bytes_copy(parent_hash) })
    } else {
        Err(ConsensusError::InvalidAuthoritiesSet)
    }
}

/// Ends the resolution with what the fetch returned: the sequence as it came, in
/// its order, or `InvalidAuthoritiesSet` where the fetch failed.
pub fn after_authorities<A>(fetched: Option<Vec<A>>) -> (resolved: Result<Vec<A>, ConsensusError>)
    ensures
        match fetched {
            Some(list) => resolved == Ok::<Vec<A>, ConsensusError>(list),
            None => resolved matches Err(ConsensusError::InvalidAuthoritiesSet),
        },
{
    match fetched {
        Some(list) => Ok(list),
        None => Err(ConsensusError::InvalidAuthoritiesSet),
    }
}

/// The mode is on up to and including the block `until`, and off from the next
/// block on, whatever else is the case.
pub proof fn lemma_mode_ends_after_until(until: u64, context_block_number: u64)
    ensures
        (CompatibilityMode::UseInitializeBlock { until }).initializes_block(context_block_number)
            == (context_block_number <= until),
        !CompatibilityMode::Disabled.initializes_block(context_block_number),
{
}

} // verus!
