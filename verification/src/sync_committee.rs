//! The next sync committee: its members, their keys, and the sum of the keys.

use crate::config::Context;
use crate::crypto::{aggregate_serialized, blst_aggregate, key_bytes, BlsPublicKey};
use crate::error::Error;
use crate::primitives::ValidatorIndex;
use crate::sampling::{get_next_sync_committee_indices, next_sync_committee_indices};
use crate::state::{BeaconState, StateModel, SyncCommittee, SyncCommitteeModel};
use blst::BLST_ERROR;
use vstd::prelude::*;

verus! {

/// The public keys of the validators at `indices`, in the same order and
/// with the same repetitions.
pub open spec fn committee_keys(s: StateModel, indices: Seq<ValidatorIndex>) -> Seq<BlsPublicKey> {
    Seq::new(indices.len(), |k: int| s.validators[indices[k] as int].public_key)
}

/// The committee of `keys`, given what their aggregation came to.
pub open spec fn committee_of(
    keys: Seq<BlsPublicKey>,
    aggregate: Result<Seq<u8>, BLST_ERROR>,
) -> Result<SyncCommitteeModel, Error> {
    match aggregate {
        Ok(sum) => Ok(SyncCommitteeModel { public_keys: keys, aggregate_public_key: sum }),
        Err(code) => Err(Error::AggregationError(code)),
    }
}

/// The next sync committee: the keys of the validators drawn, and the
/// aggregate of those keys.
pub open spec fn next_sync_committee(s: StateModel, c: Context) -> Result<
    SyncCommitteeModel,
    Error,
> {
    match next_sync_committee_indices(s, c) {
        Err(e) => Err(e),
        Ok(indices) => committee_of(
            committee_keys(s, indices),
            blst_aggregate(key_bytes(committee_keys(s, indices)), true),
        ),
    }
}

/// Returns the public keys of the validators at `indices`, in the same order
/// and with the same repetitions.
pub fn collect_public_keys(state: &BeaconState, indices: &Vec<ValidatorIndex>) -> (keys: Vec<
    BlsPublicKey,
>)
    requires
        forall|k: int| 0 <= k < indices.len() ==> indices[k] < state.validators.len(),
    ensures
        keys@ == committee_keys(state@, indices@),
{
    let mut keys: Vec<BlsPublicKey> = Vec::new();
    let mut k: usize = 0;
    while k < indices.len()
        invariant
            k <= indices.len(),
            forall|j: int| 0 <= j < indices.len() ==> indices[j] < state.validators.len(),
            keys.len() == k,
            forall|j: int|
                0 <= j < k ==> keys[j] == state.validators[indices[j] as int].public_key,
        decreases indices.len() - k,
    {
        keys.push(state.validators[indices[k]].public_key);
        k += 1;
    }
    keys
}

/// Puts a committee together from its keys and the outcome of their
/// aggregation: a failed aggregation fails the committee, with the reason.
pub fn assemble_sync_committee(
    public_keys: Vec<BlsPublicKey>,
    aggregate: Result<BlsPublicKey, BLST_ERROR>,
) -> (result: Result<SyncCommittee, Error>)
    ensures
        match aggregate {
            Ok(sum) => result == Ok::<SyncCommittee, Error>(
                SyncCommittee { public_keys, aggregate_public_key: sum },
            ),
            Err(code) => result == Err::<SyncCommittee, Error>(Error::AggregationError(code)),
        },
{
    match aggregate {
        Ok(sum) => Ok(SyncCommittee { public_keys, aggregate_public_key: sum }),
        Err(code) => Err(Error::AggregationError(code)),
    }
}

/// Returns the next sync committee: the public keys of the validators
/// drawn, in the order of the draw and with its repetitions, and the
/// aggregate of those keys. It is `AggregationError` where the keys cannot be
/// aggregated.
pub fn get_next_sync_committee(state: &BeaconState, context: &Context) -> (result: Result<
    SyncCommittee,
    Error,
>)
    requires
        context.well_formed(),
        state@.well_formed(*context),
    ensures
        match result {
            Ok(committee) => next_sync_committee(state@, *context) == Ok::<
                SyncCommitteeModel,
                Error,
            >(committee@) && committee@.well_formed(*context),
            Err(e) => next_sync_committee(state@, *context) == Err::<SyncCommitteeModel, Error>(e),
        },
{
    let indices = get_next_sync_committee_indices(state, context)?;
    let public_keys = collect_public_keys(state, &indices);
    let aggregate = aggregate_serialized(&public_keys, true);
    assemble_sync_committee(public_keys, aggregate)
}

} // verus!
