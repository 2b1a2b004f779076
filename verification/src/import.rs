//! What is handed to block import: a checked or freshly sealed block and the way it
//! is to be treated.

use crate::bytes::bytes_copy;
use crate::crypto::KeyScheme;
use crate::digest::{aura_seal, seal_view, DigestItem};
use crate::error::ConsensusError;
use crate::header::Header;
use vstd::prelude::*;

verus! {

/// Where a block comes from.
#[derive(Clone, Copy, Debug, PartialEq, Eq)]
pub enum BlockOrigin {
    /// This node built it.
    Own,
    /// A peer sent it.
    Network,
}

/// How a block competes with the other leaves of the chain.
#[derive(Clone, Copy, Debug, PartialEq, Eq)]
pub enum ForkChoiceStrategy {
    /// The longest chain wins.
    LongestChain,
}

/// How the state after a block is obtained.
#[derive(Debug, PartialEq)]
pub enum StateAction<S> {
    /// The changes are known already; the block is not run again.
    ApplyChanges(S),
    /// The block has to be run.
    Execute,
}

/// A block on its way to import.
#[derive(Debug, PartialEq)]
pub struct BlockImportParams<B, S> {
    pub origin: BlockOrigin,
    /// The header without its seal.
    pub header: Header,
    /// The entries that follow the signed part of the header: the seal.
    pub post_digests: Vec<DigestItem>,
    pub body: Option<B>,
    pub state_action: StateAction<S>,
    pub fork_choice: Option<ForkChoiceStrategy>,
    /// The hash of the header with its seal, where it is known.
    pub post_hash: Option<Vec<u8>>,
}

/// What the signer answered when asked to sign a header hash.
#[derive(Clone, Debug, PartialEq, Eq)]
pub enum SignOutcome {
    /// These bytes.
    Signed(Vec<u8>),
    /// It holds no key for the public key.
    KeyNotFound,
    /// It failed; the message is its own.
    Failed(String),
}

/// Whether `sealed` is what becomes of a proposed block and the signer's answer:
/// the block, sealed and ready for import, or the reason why the slot is given up.
///
/// A signature of the scheme's form gives the block with origin `Own`, the seal as
/// its only post-digest, its body, the state changes that the proposer computed,
/// and the longest chain as fork choice. Bytes of another form are
/// `InvalidSignature`, with the bytes and the public key. A signer without the key,
/// or one that failed, is `CannotSign` with the public key.
pub open spec fn seals<B, S>(
    sealed: Result<BlockImportParams<B, S>, ConsensusError>,
    header: Header,
    body: B,
    storage_changes: S,
    public: Seq<u8>,
    signing: SignOutcome,
    scheme: KeyScheme,
) -> bool {
    match signing {
        SignOutcome::Signed(signature) => if scheme.is_signature(signature@) {
            match sealed {
                Ok(block) => {
                    &&& block.origin is Own
                    &&& block.header == header
                    &&& block.post_digests@.len() == 1
                    &&& block.post_digests@[0]@ == seal_view(signature@)
                    &&& block.body == Some(body)
                    &&& block.state_action == StateAction::ApplyChanges(storage_changes)
                    &&& block.fork_choice matches Some(ForkChoiceStrategy::LongestChain)
                    &&& block.post_hash is None
                },
                Err(_) => false,
            }
        } else {
            match sealed {
                Err(ConsensusError::InvalidSignature(s, p)) => s@ == signature@ && p@ == public,
                _ => false,
            }
        },
        SignOutcome::KeyNotFound => match sealed {
            Err(ConsensusError::CannotSign(p, message)) => p@ == public && message@
                == "Could not find key in keystore."@,
            _ => false,
        },
        SignOutcome::Failed(reason) => match sealed {
            Err(ConsensusError::CannotSign(p, message)) => p@ == public && message@ == reason@,
            _ => false,
        },
    }
}

/// Seals a proposed block with the signer's answer and prepares it for import.
///
/// `signing` is what the signer returned for the hash of `header` under `public`.
/// Nothing is retried: an answer that is no signature ends the slot.
pub fn block_import_params<B, S>(
    header: Header,
    body: B,
    storage_changes: S,
    public: &Vec<u8>,
    signing: SignOutcome,
    scheme: KeyScheme,
) -> (sealed: Result<BlockImportParams<B, S>, ConsensusError>)
    ensures
        seals(sealed, header, body, storage_changes, public@, signing, scheme),
{
    match signing {
        SignOutcome::Signed(signature) => {
            if signature.len() != scheme.signature_len() {
                return Err(ConsensusError::InvalidSignature(signature, bytes_copy(public)));
            }
            let mut post_digests: Vec<DigestItem> = Vec::new();
            post_digests.push(aura_seal(signature));
            Ok(
                BlockImportParams {
                    origin: BlockOrigin::Own,
                    header,
                    post_digests,
                    body: Some(body),
                    state_action: StateAction::ApplyChanges(storage_changes),
                    fork_choice: Some(ForkChoiceStrategy::LongestChain),
                    post_hash: None,
                },
            )
        },
        SignOutcome::KeyNotFound => Err(
            ConsensusError::CannotSign(
                bytes_copy(public),
                "Could not find key in keystore.".to_owned(),
            ),
        ),
        SignOutcome::Failed(reason) => Err(ConsensusError::CannotSign(bytes_copy(public), reason)),
    }
}

} // verus!
