//! The exit queue of the validator registry.

use crate::accessors::{
    active_validator_indices, current_epoch, get_active_validator_indices, get_current_epoch,
};
use crate::config::Context;
use crate::error::Error;
use crate::primitives::{Epoch, ValidatorIndex, FAR_FUTURE_EPOCH};
use crate::state::{BeaconState, StateModel, Validator};
use vstd::prelude::*;

verus! {

/// The first epoch in which a validator that asks to leave in `epoch` can
/// be gone.
pub open spec fn activation_exit_epoch(epoch: Epoch, c: Context) -> int {
    epoch + 1 + c.max_seed_lookahead
}

/// The latest epoch in which one of the first `n` validators leaves, but no
/// earlier than `floor`.
pub open spec fn latest_exit_epoch(validators: Seq<Validator>, floor: int, n: nat) -> int
    decreases n,
{
    if n == 0 {
        floor
    } else {
        let before = latest_exit_epoch(validators, floor, (n - 1) as nat);
        let exit = validators[n - 1].exit_epoch;
        if exit != FAR_FUTURE_EPOCH && exit > before {
            exit as int
        } else {
            before
        }
    }
}

/// How many of the first `n` validators leave in `epoch`.
pub open spec fn exits_in(validators: Seq<Validator>, epoch: int, n: nat) -> nat
    decreases n,
{
    if n == 0 {
        0
    } else if validators[n - 1].exit_epoch == epoch {
        exits_in(validators, epoch, (n - 1) as nat) + 1
    } else {
        exits_in(validators, epoch, (n - 1) as nat)
    }
}

/// How many validators may leave in one epoch.
pub open spec fn churn_limit(s: StateModel, c: Context) -> int {
    let by_size = active_validator_indices(s, current_epoch(s, c)).len() as int
        / c.churn_limit_quotient as int;
    if by_size < c.min_per_epoch_churn_limit {
        c.min_per_epoch_churn_limit as int
    } else {
        by_size
    }
}

/// The epoch in which the next validator to leave will be gone: the end of
/// the queue, or the epoch after it where the end of the queue is full.
pub open spec fn exit_queue_epoch(s: StateModel, c: Context) -> int {
    let latest = latest_exit_epoch(
        s.validators,
        activation_exit_epoch(current_epoch(s, c), c),
        s.validators.len(),
    );
    if exits_in(s.validators, latest, s.validators.len()) >= churn_limit(s, c) {
        latest + 1
    } else {
        latest
    }
}

/// The state after the validator at `index` has been put in the exit queue.
/// A validator that is leaving already stays as it is.
pub open spec fn with_exit_initiated(s: StateModel, index: int, c: Context) -> Result<
    StateModel,
    Error,
> {
    let validator = s.validators[index];
    if validator.exit_epoch != FAR_FUTURE_EPOCH {
        Ok(s)
    } else {
        let exit = exit_queue_epoch(s, c);
        let withdrawable = exit + c.min_validator_withdrawability_delay;
        if withdrawable > u64::MAX {
            Err(Error::Overflow)
        } else {
            Ok(
                StateModel {
                    validators: s.validators.update(
                        index,
                        Validator {
                            exit_epoch: exit as u64,
                            withdrawable_epoch: withdrawable as u64,
                            ..validator
                        },
                    ),
                    ..s
                },
            )
        }
    }
}

/// The end of the exit queue is never before the epoch it starts from.
pub proof fn lemma_latest_exit_epoch_bounds(validators: Seq<Validator>, floor: int, n: nat)
    ensures
        latest_exit_epoch(validators, floor, n) >= floor,
        latest_exit_epoch(validators, floor, n) == floor || latest_exit_epoch(validators, floor, n)
            < FAR_FUTURE_EPOCH,
    decreases n,
{
    if n > 0 {
        lemma_latest_exit_epoch_bounds(validators, floor, (n - 1) as nat);
    }
}

/// Puts the validator at `index` in the exit queue and sets the epoch from
/// which its stake can be withdrawn. A validator that is leaving already
/// stays as it is. On `Overflow` the state is unchanged.
pub fn initiate_validator_exit(
    state: &mut BeaconState,
    index: ValidatorIndex,
    context: &Context,
) -> (result: Result<(), Error>)
    requires
        context.well_formed(),
        index < old(state).validators.len(),
    ensures
        match result {
            Ok(()) => with_exit_initiated(old(state)@, index as int, *context) == Ok::<
                StateModel,
                Error,
            >(final(state)@),
            Err(e) => with_exit_initiated(old(state)@, index as int, *context) == Err::<
                StateModel,
                Error,
            >(e) && final(state)@ == old(state)@,
        },
{
    if state.validators[index].exit_epoch != FAR_FUTURE_EPOCH {
        return Ok(());
    }
    let count = state.validators.len();
    let epoch = get_current_epoch(state, context);
    let ghost floor = activation_exit_epoch(epoch, *context);
    proof {
        lemma_latest_exit_epoch_bounds(state@.validators, floor, count as nat);
    }
    let start = match epoch.checked_add(1) {
        Some(next) => match next.checked_add(context.max_seed_lookahead) {
            Some(start) => start,
            None => {
                return Err(Error::Overflow);
            },
        },
        None => {
            return Err(Error::Overflow);
        },
    };
    let mut latest: Epoch = start;
    let mut i: usize = 0;
    while i < count
        invariant
            i <= count,
            count == state.validators.len(),
            floor == start,
            latest == latest_exit_epoch(state@.validators, floor, i as nat),
        decreases count - i,
    {
        let exit = state.validators[i].exit_epoch;
        if exit != FAR_FUTURE_EPOCH && exit > latest {
            latest = exit;
        }
        i += 1;
    }
    let mut churn: usize = 0;
    let mut j: usize = 0;
    while j < count
        invariant
            j <= count,
            count == state.validators.len(),
            churn <= j,
            churn == exits_in(state@.validators, latest as int, j as nat),
        decreases count - j,
    {
        if state.validators[j].exit_epoch == latest {
            churn += 1;
        }
        j += 1;
    }
    let active_count = get_active_validator_indices(state, epoch).len();
    let by_size = active_count as u64 / context.churn_limit_quotient;
    let limit = if by_size < context.min_per_epoch_churn_limit {
        context.min_per_epoch_churn_limit
    } else {
        by_size
    };
    let exit = if churn as u64 >= limit {
        match latest.checked_add(1) {
            Some(next) => next,
            None => {
                return Err(Error::Overflow);
            },
        }
    } else {
        latest
    };
    let withdrawable = match exit.checked_add(context.min_validator_withdrawability_delay) {
        Some(withdrawable) => withdrawable,
        None => {
            return Err(Error::Overflow);
        },
    };
    let mut validator = state.validators[index];
    validator.exit_epoch = exit;
    validator.withdrawable_epoch = withdrawable;
    state.validators[index] = validator;
    Ok(())
}

} // verus!
