//! The part of the beacon state that the rules read and write.

use crate::config::Context;
use crate::crypto::{BlsPublicKey, Bytes32};
use crate::flags::ParticipationFlags;
use crate::primitives::{Checkpoint, Epoch, Gwei, Root, Slot};
use vstd::prelude::*;

verus! {

/// One entry of the validator registry.
#[derive(Clone, Copy, Debug, PartialEq, Eq)]
pub struct Validator {
    pub public_key: BlsPublicKey,
    pub effective_balance: Gwei,
    pub slashed: bool,
    pub activation_epoch: Epoch,
    pub exit_epoch: Epoch,
    pub withdrawable_epoch: Epoch,
}

/// The beacon state, as far as these rules are concerned. The sequences that
/// hold one entry per validator run parallel to `validators`.
#[derive(Clone, Debug, PartialEq, Eq)]
pub struct BeaconState {
    pub slot: Slot,
    pub validators: Vec<Validator>,
    pub balances: Vec<Gwei>,
    pub previous_epoch_participation: Vec<ParticipationFlags>,
    pub current_epoch_participation: Vec<ParticipationFlags>,
    pub inactivity_scores: Vec<u64>,
    pub slashings: Vec<Gwei>,
    pub block_roots: Vec<Root>,
    pub randao_mixes: Vec<Bytes32>,
    pub previous_justified_checkpoint: Checkpoint,
    pub current_justified_checkpoint: Checkpoint,
    pub finalized_checkpoint: Checkpoint,
}

/// The mathematical value of a `BeaconState`.
pub struct StateModel {
    pub slot: Slot,
    pub validators: Seq<Validator>,
    pub balances: Seq<Gwei>,
    pub previous_epoch_participation: Seq<ParticipationFlags>,
    pub current_epoch_participation: Seq<ParticipationFlags>,
    pub inactivity_scores: Seq<u64>,
    pub slashings: Seq<Gwei>,
    pub block_roots: Seq<Root>,
    pub randao_mixes: Seq<Bytes32>,
    pub previous_justified_checkpoint: Checkpoint,
    pub current_justified_checkpoint: Checkpoint,
    pub finalized_checkpoint: Checkpoint,
}

impl View for BeaconState {
    type V = StateModel;

    open spec fn view(&self) -> StateModel {
        StateModel {
            slot: self.slot,
            validators: self.validators@,
            balances: self.balances@,
            previous_epoch_participation: self.previous_epoch_participation@,
            current_epoch_participation: self.current_epoch_participation@,
            inactivity_scores: self.inactivity_scores@,
            slashings: self.slashings@,
            block_roots: self.block_roots@,
            randao_mixes: self.randao_mixes@,
            previous_justified_checkpoint: self.previous_justified_checkpoint,
            current_justified_checkpoint: self.current_justified_checkpoint,
            finalized_checkpoint: self.finalized_checkpoint,
        }
    }
}

impl StateModel {
    /// No effective balance exceeds the maximum.
    pub open spec fn balances_capped(self, context: Context) -> bool {
        forall|i: int|
            0 <= i < self.validators.len() ==> (#[trigger] self.validators[i]).effective_balance
                <= context.max_effective_balance
    }

    /// The per-validator sequences have one entry for each validator, the
    /// vectors have the lengths that the configuration gives them, and no
    /// effective balance exceeds the maximum.
    pub open spec fn well_formed(self, context: Context) -> bool {
        &&& self.balances_capped(context)
        &&& self.balances.len() == self.validators.len()
        &&& self.previous_epoch_participation.len() == self.validators.len()
        &&& self.current_epoch_participation.len() == self.validators.len()
        &&& self.inactivity_scores.len() == self.validators.len()
        &&& self.slashings.len() == context.epochs_per_slashings_vector
        &&& self.block_roots.len() == context.slots_per_historical_root
        &&& self.randao_mixes.len() == context.epochs_per_historical_vector
    }
}

impl BeaconState {
    /// Tells whether the state has the shape that `context` asks for.
    pub fn is_well_formed(&self, context: &Context) -> (result: bool)
        ensures
            result == self@.well_formed(*context),
    {
        let count = self.validators.len();
        let mut i: usize = 0;
        while i < count
            invariant
                i <= count,
                count == self.validators.len(),
                forall|k: int|
                    0 <= k < i ==> (#[trigger] self.validators[k]).effective_balance
                        <= context.max_effective_balance,
            decreases count - i,
        {
            if self.validators[i].effective_balance > context.max_effective_balance {
                return false;
            }
            i += 1;
        }
        self.balances.len() == count && self.previous_epoch_participation.len() == count
            && self.current_epoch_participation.len() == count && self.inactivity_scores.len()
            == count && self.slashings.len() as u64 == context.epochs_per_slashings_vector
            && self.block_roots.len() as u64 == context.slots_per_historical_root
            && self.randao_mixes.len() as u64 == context.epochs_per_historical_vector
    }
}

/// The validators that sign for light clients during one period, and the sum
/// of their keys. A validator may sit on the committee more than once.
#[derive(Clone, Debug, PartialEq, Eq)]
pub struct SyncCommittee {
    pub public_keys: Vec<BlsPublicKey>,
    pub aggregate_public_key: BlsPublicKey,
}

/// The mathematical value of a `SyncCommittee`.
pub struct SyncCommitteeModel {
    pub public_keys: Seq<BlsPublicKey>,
    pub aggregate_public_key: Seq<u8>,
}

impl SyncCommitteeModel {
    /// The committee has exactly as many members as the configuration asks
    /// for.
    pub open spec fn well_formed(self, context: Context) -> bool {
        self.public_keys.len() == context.sync_committee_size
    }
}

impl View for SyncCommittee {
    type V = SyncCommitteeModel;

    open spec fn view(&self) -> SyncCommitteeModel {
        SyncCommitteeModel {
            public_keys: self.public_keys@,
            aggregate_public_key: self.aggregate_public_key@,
        }
    }
}

} // verus!
