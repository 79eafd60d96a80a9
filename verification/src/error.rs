//! The failures that the consensus rules report.

use crate::primitives::{Checkpoint, Epoch, Slot};
use blst::BLST_ERROR;
use vstd::prelude::*;

verus! {

/// A failure of one of the consensus rules. The caller is expected to drop
/// the state it was working on: a failed operation may have changed it.
#[derive(Clone, Copy, Debug, PartialEq, Eq)]
#[allow(inconsistent_fields)]
pub enum Error {
    /// The epoch asked for is neither the current nor the previous one.
    InvalidEpoch { requested: Epoch, previous: Epoch, current: Epoch },
    /// The source of an attestation is not the justified checkpoint that its
    /// target epoch calls for.
    InvalidSource { expected: Checkpoint, source_checkpoint: Checkpoint, current: Epoch },
    /// No validator is active in the epoch that a committee is drawn for.
    EmptyActiveSet,
    /// The public keys of a committee could not be aggregated; the code says
    /// what `blst` objected to.
    AggregationError(BLST_ERROR),
    /// The configuration defines no value for the fork that `epoch` falls in.
    ForkConfigError { epoch: Epoch },
    /// An index to shuffle is not below the number of indices.
    InvalidShufflingIndex { index: usize, total: usize },
    /// A block root was asked for a slot that the state no longer, or not
    /// yet, remembers.
    SlotOutOfRange { slot: Slot, state_slot: Slot },
    /// No validator is active in the current epoch, so no one can propose.
    NoProposer,
    /// A sampling ran through every counter value without filling its quota.
    SamplingExhausted,
    /// An amount or an epoch left the range of 64 bits.
    Overflow,
}

} // verus!
