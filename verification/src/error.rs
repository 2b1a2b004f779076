//! The reasons for which a header is turned down or a slot is given up.

use crate::bytes::{hex, identifier_text, to_hex, utf8_lossy};
use vstd::prelude::*;
use vstd::string::StringExecFns;

verus! {

/// What can be wrong with a header that is checked.
#[derive(Clone, Debug, PartialEq, Eq)]
pub enum Error {
    /// More than one pre-digest of this engine.
    MultipleHeaders,
    /// No pre-digest of this engine.
    NoDigestFound,
    /// The header with this hash carries no seal.
    HeaderUnsealed(Vec<u8>),
    /// The header with this hash carries a seal that cannot be read.
    HeaderBadSeal(Vec<u8>),
    /// The authority set is empty, so nobody is expected to author the slot.
    SlotAuthorNotFound,
    /// The seal of the header with this hash is not the expected author's signature.
    BadSignature(Vec<u8>),
    /// The header with this hash claims a slot too far ahead of the local clock.
    TooFarInFuture(Vec<u8>),
    /// The author sealed two blocks for one slot: the hash seen first, then the hash
    /// of the block that was turned down for it.
    Equivocation(Vec<u8>, Vec<u8>),
    /// The authority set of the header's parent could not be fetched.
    InvalidAuthoritiesSet,
    /// The backend failed; the message is its own.
    Client(String),
    /// The check of the block's inherents failed with an error that nobody
    /// registered for the identifier.
    UnknownInherentError([u8; 8]),
    /// The check of the block's inherents failed; the message says how.
    Inherent(String),
}

/// What can go wrong between a slot's tick and the hand-off of the block.
#[derive(Clone, Debug, PartialEq, Eq)]
pub enum ConsensusError {
    /// The authority set could not be fetched.
    InvalidAuthoritiesSet,
    /// The key of this public key could not sign; the message says why.
    CannotSign(Vec<u8>, String),
    /// The signer returned these bytes for this public key, and they are not a
    /// signature.
    InvalidSignature(Vec<u8>, Vec<u8>),
    /// No proposer could be had; the message is the backend's.
    ClientImport(String),
}

impl Error {
    /// The sentence that says what is wrong.
    pub open spec fn text(self) -> Seq<char> {
        match self {
            Error::MultipleHeaders => "Multiple Aura pre-runtime headers"@,
            Error::NoDigestFound => "No Aura pre-runtime digest found"@,
            Error::HeaderUnsealed(hash) => "Header "@ + hex(hash@) + " is unsealed"@,
            Error::HeaderBadSeal(hash) => "Header "@ + hex(hash@) + " has a bad seal"@,
            Error::SlotAuthorNotFound => "Slot Author not found"@,
            Error::BadSignature(hash) => "Bad signature on "@ + hex(hash@),
            Error::TooFarInFuture(hash) => "Header "@ + hex(hash@)
                + " rejected: too far in the future"@,
            Error::Equivocation(first, second) => "Slot author is equivocating with headers "@
                + hex(first@) + " and "@ + hex(second@),
            Error::InvalidAuthoritiesSet =>
                "Current state of blockchain has invalid authorities set"@,
            Error::Client(message) => message@,
            Error::UnknownInherentError(identifier) =>
                "Unknown inherent error for identifier: "@ + utf8_lossy(identifier@),
            Error::Inherent(message) => "Inherent error: "@ + message@,
        }
    }

    /// Writes the error as a sentence, with hashes in hexadecimal.
    pub fn message(&self) -> (message: String)
        ensures
            message@ == self.text(),
    {
        match self {
            Error::MultipleHeaders => String::from_str("Multiple Aura pre-runtime headers"),
            Error::NoDigestFound => String::from_str("No Aura pre-runtime digest found"),
            Error::HeaderUnsealed(hash) => {
                let mut message = String::from_str("Header ");
                message.append(to_hex(hash).as_str());
                message.append(" is unsealed");
                message
            },
            Error::HeaderBadSeal(hash) => {
                let mut message = String::from_str("Header ");
                message.append(to_hex(hash).as_str());
                message.append(" has a bad seal");
                message
            },
            Error::SlotAuthorNotFound => String::from_str("Slot Author not found"),
            Error::BadSignature(hash) => {
                let mut message = String::from_str("Bad signature on ");
                message.append(to_hex(hash).as_str());
                message
            },
            Error::TooFarInFuture(hash) => {
                let mut message = String::from_str("Header ");
                message.append(to_hex(hash).as_str());
                message.append(" rejected: too far in the future");
                message
            },
            Error::Equivocation(first, second) => {
                let mut message = String::from_str("Slot author is equivocating with headers ");
                message.append(to_hex(first).as_str());
                message.append(" and ");
                message.append(to_hex(second).as_str());
                message
            },
            Error::InvalidAuthoritiesSet => String::from_str(
                "Current state of blockchain has invalid authorities set",
            ),
            Error::Client(message) => message.clone(),
            Error::UnknownInherentError(identifier) => {
                let mut message = String::from_str("Unknown inherent error for identifier: ");
                message.append(identifier_text(identifier).as_str());
                message
            },
            Error::Inherent(reason) => {
                let mut message = String::from_str("Inherent error: ");
                message.append(reason.as_str());
                message
            },
        }
    }
}

} // verus!
