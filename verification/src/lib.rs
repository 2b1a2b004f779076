//! Authority-round consensus.
//!
//! Time is cut into slots, and the authorities take turns: the author of slot `s`
//! among `n` authorities is the one at index `s mod n`. A block carries its slot in
//! a pre-digest and its author's signature in a seal.
//!
//! - [`schedule`]: whose turn a slot is.
//! - [`digest`], [`codec`], [`header`]: the two log entries and the search for them.
//! - [`authorities`]: the order of the runtime calls that fetch the authorities.
//! - [`crypto`]: the signature schemes.
//! - [`equivocation`]: the memory of blocks seen, and authors who seal twice.
//! - [`worker`], [`import`]: authoring, from the tick to the hand-off.
//! - [`verify`]: the judgement on a block that a peer sent.
//!
//! Nothing here reads a clock, a disk or a network. The caller does, and passes on
//! what it read.

pub mod authorities;
pub mod bytes;
pub mod codec;
pub mod crypto;
pub mod digest;
pub mod equivocation;
pub mod error;
pub mod header;
pub mod import;
pub mod schedule;
pub mod verify;
pub mod worker;

pub use authorities::CompatibilityMode;
pub use error::Error;
pub use header::find_pre_digest;
pub use schedule::slot_author;
pub use worker::{build_aura_worker, BuildAuraWorkerParams};
