//! The signature schemes under which authorities seal their blocks.

use sp_core::crypto::Pair;
use sp_core::{ed25519, sr25519};
use vstd::prelude::*;

verus! {

/// The scheme of the authorities' keys. It is fixed when the node is configured.
#[derive(Clone, Copy, Debug, PartialEq, Eq)]
pub enum KeyScheme {
    /// Schnorr signatures over Ristretto.
    Sr25519,
    /// Edwards-curve signatures.
    Ed25519,
}

/// Whether sr25519 verification accepts `signature` on `message` under `public`.
pub uninterp spec fn sr25519_accepts(signature: Seq<u8>, message: Seq<u8>, public: Seq<u8>) -> bool;

/// Whether ed25519 verification accepts `signature` on `message` under `public`.
pub uninterp spec fn ed25519_accepts(signature: Seq<u8>, message: Seq<u8>, public: Seq<u8>) -> bool;

impl KeyScheme {
    /// The length of a signature in bytes.
    pub open spec fn signature_length(self) -> nat {
        64
    }

    /// The length of a public key in bytes.
    pub open spec fn public_length(self) -> nat {
        32
    }

    /// Whether `signature` has the form of a signature of this scheme.
    pub open spec fn is_signature(self, signature: Seq<u8>) -> bool {
        signature.len() == self.signature_length()
    }

    /// Whether a message of `length` bytes can be signed under this scheme. The
    /// sr25519 transcript counts the message's bytes in 32 bits.
    pub open spec fn signs_length(self, length: nat) -> bool {
        match self {
            KeyScheme::Sr25519 => length <= u32::MAX,
            KeyScheme::Ed25519 => true,
        }
    }

    /// Whether `signature` is a signature on `message` that verifies under `public`:
    /// both have the scheme's lengths, the message is one that the scheme can sign,
    /// and the scheme's verification accepts the three.
    pub open spec fn accepts(self, signature: Seq<u8>, message: Seq<u8>, public: Seq<u8>) -> bool {
        &&& signature.len() == self.signature_length()
        &&& public.len() == self.public_length()
        &&& self.signs_length(message.len())
        &&& match self {
            KeyScheme::Sr25519 => sr25519_accepts(signature, message, public),
            KeyScheme::Ed25519 => ed25519_accepts(signature, message, public),
        }
    }

    /// Computes [`Self::signature_length`].
    pub fn signature_len(&self) -> (len: usize)
        ensures
            len == self.signature_length(),
    {
        64
    }

    /// Computes [`Self::public_length`].
    pub fn public_len(&self) -> (len: usize)
        ensures
            len == self.public_length(),
    {
        32
    }

    /// Verifies `signature` on `message` under `public`. A signature or a key of the
    /// wrong length, and a message too long for the scheme, are turned down without
    /// a look at them.
    pub fn verify(&self, signature: &Vec<u8>, message: &Vec<u8>, public: &Vec<u8>) -> (ok: bool)
        ensures
            ok == self.accepts(signature@, message@, public@),
    {
        if signature.len() != self.signature_len() || public.len() != self.public_len() {
            return false;
        }
        match self {
            KeyScheme::Sr25519 => {
                if message.len() > 0xffff_ffff {
                    return false;
                }
                sr25519_verify(signature.as_slice(), message.as_slice(), public.as_slice())
            },
            KeyScheme::Ed25519 => ed25519_verify(
                signature.as_slice(),
                message.as_slice(),
                public.as_slice(),
            ),
        }
    }
}

/// Calls `Pair::verify` of `sp_core::sr25519` on the three byte strings.
///
/// Trusted: the outcome depends on the three byte strings alone, and the call
/// returns for every message whose length fits in 32 bits. A longer one fails an
/// assertion of the transcript that the message is fed to, so it is left out.
#[verifier::external_body]
fn sr25519_verify(signature: &[u8], message: &[u8], public: &[u8]) -> (ok: bool)
    requires
        signature@.len() == 64,
        public@.len() == 32,
        message@.len() <= u32::MAX,
    ensures
        ok == sr25519_accepts(signature@, message@, public@),
{
    match (sr25519::Signature::try_from(signature), sr25519::Public::try_from(public)) {
        (Ok(s), Ok(p)) => sr25519::Pair::verify(&s, message, &p),
        _ => false,
    }
}

/// Calls `Pair::verify` of `sp_core::ed25519` on the three byte strings.
///
/// Trusted: the outcome depends on the three byte strings alone, and the call
/// returns for all of them.
#[verifier::external_body]
fn ed25519_verify(signature: &[u8], message: &[u8], public: &[u8]) -> (ok: bool)
    requires
        signature@.len() == 64,
        public@.len() == 32,
    ensures
        ok == ed25519_accepts(signature@, message@, public@),
{
    match (ed25519::Signature::try_from(signature), ed25519::Public::try_from(public)) {
        (Ok(s), Ok(p)) => ed25519::Pair::verify(&s, message, &p),
        _ => false,
    }
}

} // verus!
