//! What the rules read from the state, and the small changes they make to it.

use crate::config::Context;
use crate::error::Error;
use crate::primitives::{Epoch, Gwei, Root, Slot, ValidatorIndex, GENESIS_EPOCH};
use crate::state::{BeaconState, StateModel, Validator};
use std::collections::HashSet;
use vstd::prelude::*;

verus! {

broadcast use vstd::std_specs::hash::group_hash_axioms;

/// The epoch that the slot of the state falls in.
pub open spec fn current_epoch(s: StateModel, c: Context) -> Epoch {
    (s.slot / c.slots_per_epoch) as u64
}

/// The epoch before the current one, or the genesis epoch where there is none.
pub open spec fn previous_epoch(s: StateModel, c: Context) -> Epoch {
    if current_epoch(s, c) == GENESIS_EPOCH {
        GENESIS_EPOCH
    } else {
        (current_epoch(s, c) - 1) as u64
    }
}

/// Whether a validator is active in `epoch`.
pub open spec fn is_active(v: Validator, epoch: Epoch) -> bool {
    v.activation_epoch <= epoch < v.exit_epoch
}

/// Whether a validator takes part in the reward accounting of the epoch that
/// follows `previous`: it was active in `previous`, or it is slashed and not
/// yet withdrawable.
pub open spec fn is_eligible(v: Validator, previous: Epoch) -> bool {
    is_active(v, previous) || (v.slashed && previous + 1 < v.withdrawable_epoch)
}

/// The indices below `n` that `keep` holds of, in ascending order.
pub open spec fn indices_where(keep: spec_fn(int) -> bool, n: nat) -> Seq<ValidatorIndex>
    decreases n,
{
    if n == 0 {
        Seq::empty()
    } else if keep(n - 1) {
        indices_where(keep, (n - 1) as nat).push((n - 1) as usize)
    } else {
        indices_where(keep, (n - 1) as nat)
    }
}

/// `indices_where` lists exactly the indices below `n` that `keep` holds of,
/// each once and in ascending order.
pub proof fn lemma_indices_where(keep: spec_fn(int) -> bool, n: nat)
    requires
        n <= usize::MAX,
    ensures
        indices_where(keep, n).len() <= n,
        forall|k: int|
            0 <= k < indices_where(keep, n).len() ==> (#[trigger] indices_where(keep, n)[k]) < n
                && keep(indices_where(keep, n)[k] as int),
        forall|i: int|
            0 <= i < n && keep(i) ==> #[trigger] indices_where(keep, n).contains(i as usize),
        forall|j: int, k: int|
            0 <= j < k < indices_where(keep, n).len() ==> indices_where(keep, n)[j]
                < indices_where(keep, n)[k],
    decreases n,
{
    if n > 0 {
        let before = indices_where(keep, (n - 1) as nat);
        lemma_indices_where(keep, (n - 1) as nat);
        let all = indices_where(keep, n);
        assert forall|i: int| 0 <= i < n && keep(i) implies #[trigger] all.contains(
            i as usize,
        ) by {
            if i < n - 1 {
                assert(before.contains(i as usize));
                let k = choose|k: int| 0 <= k < before.len() && before[k] == i as usize;
                assert(all[k] == i as usize);
            } else {
                assert(all[all.len() - 1] == i as usize);
            }
        }
    }
}

/// The validators that are active in `epoch`, in ascending order.
pub open spec fn active_validator_indices(s: StateModel, epoch: Epoch) -> Seq<ValidatorIndex> {
    indices_where(|i: int| is_active(s.validators[i], epoch), s.validators.len())
}

/// The validators that take part in the reward accounting, in ascending order.
pub open spec fn eligible_validator_indices(s: StateModel, c: Context) -> Seq<ValidatorIndex> {
    indices_where(|i: int| is_eligible(s.validators[i], previous_epoch(s, c)), s.validators.len())
}

/// Returns the epoch that the slot of the state falls in.
pub fn get_current_epoch(state: &BeaconState, context: &Context) -> (epoch: Epoch)
    requires
        context.well_formed(),
    ensures
        epoch == current_epoch(state@, *context),
{
    state.slot / context.slots_per_epoch
}

/// Returns the epoch before the current one, or the genesis epoch where there
/// is none.
pub fn get_previous_epoch(state: &BeaconState, context: &Context) -> (epoch: Epoch)
    requires
        context.well_formed(),
    ensures
        epoch == previous_epoch(state@, *context),
{
    let current = get_current_epoch(state, context);
    if current == GENESIS_EPOCH {
        GENESIS_EPOCH
    } else {
        current - 1
    }
}

/// Tells whether a validator is active in `epoch`.
pub fn is_active_validator(validator: &Validator, epoch: Epoch) -> (result: bool)
    ensures
        result == is_active(*validator, epoch),
{
    validator.activation_epoch <= epoch && epoch < validator.exit_epoch
}

/// Returns the indices of the validators that are active in `epoch`, in
/// ascending order.
pub fn get_active_validator_indices(state: &BeaconState, epoch: Epoch) -> (indices: Vec<
    ValidatorIndex,
>)
    ensures
        indices@ == active_validator_indices(state@, epoch),
{
    let mut indices: Vec<ValidatorIndex> = Vec::new();
    let ghost keep = |i: int| is_active(state@.validators[i], epoch);
    let mut i: usize = 0;
    while i < state.validators.len()
        invariant
            i <= state.validators.len(),
            keep == |i: int| is_active(state@.validators[i], epoch),
            indices@ == indices_where(keep, i as nat),
        decreases state.validators.len() - i,
    {
        if is_active_validator(&state.validators[i], epoch) {
            indices.push(i);
        }
        i += 1;
    }
    indices
}

/// Returns the indices of the validators that take part in the reward
/// accounting of the current epoch, in ascending order.
pub fn get_eligible_validator_indices(state: &BeaconState, context: &Context) -> (indices: Vec<
    ValidatorIndex,
>)
    requires
        context.well_formed(),
    ensures
        indices@ == eligible_validator_indices(state@, *context),
{
    let previous = get_previous_epoch(state, context);
    let mut indices: Vec<ValidatorIndex> = Vec::new();
    let ghost keep = |i: int| is_eligible(state@.validators[i], previous);
    let mut i: usize = 0;
    while i < state.validators.len()
        invariant
            i <= state.validators.len(),
            previous < u64::MAX,
            keep == |i: int| is_eligible(state@.validators[i], previous),
            indices@ == indices_where(keep, i as nat),
        decreases state.validators.len() - i,
    {
        let validator = &state.validators[i];
        if is_active_validator(validator, previous) || (validator.slashed && previous + 1
            < validator.withdrawable_epoch) {
            indices.push(i);
        }
        i += 1;
    }
    indices
}

/// The sum of the effective balances of the validators below `n` that are in
/// `members`.
pub open spec fn effective_balance_sum(
    validators: Seq<Validator>,
    members: Set<ValidatorIndex>,
    n: nat,
) -> nat
    decreases n,
{
    if n == 0 {
        0
    } else if members.contains((n - 1) as usize) {
        effective_balance_sum(validators, members, (n - 1) as nat) + validators[n
            - 1].effective_balance as nat
    } else {
        effective_balance_sum(validators, members, (n - 1) as nat)
    }
}

/// The sum over more validators is no smaller.
pub proof fn lemma_effective_balance_sum_grows(
    validators: Seq<Validator>,
    members: Set<ValidatorIndex>,
    m: nat,
    n: nat,
)
    requires
        m <= n,
    ensures
        effective_balance_sum(validators, members, m) <= effective_balance_sum(
            validators,
            members,
            n,
        ),
    decreases n,
{
    if m < n {
        lemma_effective_balance_sum_grows(validators, members, m, (n - 1) as nat);
    }
}

/// The combined effective balance of `members`, but no less than one
/// increment; `Overflow` where the sum leaves the range of 64 bits.
pub open spec fn total_balance(s: StateModel, members: Set<ValidatorIndex>, c: Context) -> Result<
    Gwei,
    Error,
> {
    let sum = effective_balance_sum(s.validators, members, s.validators.len());
    if sum > u64::MAX {
        Err(Error::Overflow)
    } else if sum < c.effective_balance_increment {
        Ok(c.effective_balance_increment)
    } else {
        Ok(sum as u64)
    }
}

/// The set of the validators that are active in `epoch`.
pub open spec fn active_set(s: StateModel, epoch: Epoch) -> Set<ValidatorIndex> {
    Set::new(|i: ValidatorIndex| i < s.validators.len() && is_active(s.validators[i as int], epoch))
}

/// The combined effective balance of the validators that are active in the
/// current epoch.
pub open spec fn total_active_balance(s: StateModel, c: Context) -> Result<Gwei, Error> {
    total_balance(s, active_set(s, current_epoch(s, c)), c)
}

/// Returns the combined effective balance of `indices`, but no less than one
/// increment.
pub fn get_total_balance(
    state: &BeaconState,
    indices: &HashSet<ValidatorIndex>,
    context: &Context,
) -> (result: Result<Gwei, Error>)
    requires
        forall|i: ValidatorIndex| indices@.contains(i) ==> i < state.validators.len(),
    ensures
        result == total_balance(state@, indices@, *context),
{
    let mut total: Gwei = 0;
    let mut i: usize = 0;
    while i < state.validators.len()
        invariant
            i <= state.validators.len(),
            total == effective_balance_sum(state@.validators, indices@, i as nat),
        decreases state.validators.len() - i,
    {
        if indices.contains(&i) {
            match total.checked_add(state.validators[i].effective_balance) {
                Some(sum) => {
                    total = sum;
                },
                None => {
                    proof {
                        lemma_effective_balance_sum_grows(
                            state@.validators,
                            indices@,
                            (i + 1) as nat,
                            state@.validators.len(),
                        );
                    }
                    return Err(Error::Overflow);
                },
            }
        }
        i += 1;
    }
    if total < context.effective_balance_increment {
        Ok(context.effective_balance_increment)
    } else {
        Ok(total)
    }
}

/// Returns the combined effective balance of the validators that are active
/// in the current epoch, but no less than one increment.
pub fn get_total_active_balance(state: &BeaconState, context: &Context) -> (result: Result<
    Gwei,
    Error,
>)
    requires
        context.well_formed(),
    ensures
        result == total_active_balance(state@, *context),
{
    let epoch = get_current_epoch(state, context);
    let ghost members = active_set(state@, epoch);
    let mut total: Gwei = 0;
    let mut i: usize = 0;
    while i < state.validators.len()
        invariant
            i <= state.validators.len(),
            epoch == current_epoch(state@, *context),
            members == active_set(state@, epoch),
            total == effective_balance_sum(state@.validators, members, i as nat),
        decreases state.validators.len() - i,
    {
        if is_active_validator(&state.validators[i], epoch) {
            match total.checked_add(state.validators[i].effective_balance) {
                Some(sum) => {
                    total = sum;
                },
                None => {
                    proof {
                        lemma_effective_balance_sum_grows(
                            state@.validators,
                            members,
                            (i + 1) as nat,
                            state@.validators.len(),
                        );
                    }
                    return Err(Error::Overflow);
                },
            }
        }
        i += 1;
    }
    if total < context.effective_balance_increment {
        Ok(context.effective_balance_increment)
    } else {
        Ok(total)
    }
}

/// The root of the block at `slot`, where `slot` is before the slot of the
/// state and the state still remembers it.
pub open spec fn block_root_at_slot(s: StateModel, slot: Slot) -> Result<Root, Error> {
    if slot < s.slot && s.slot <= slot + s.block_roots.len() {
        Ok(s.block_roots[slot as int % s.block_roots.len() as int])
    } else {
        Err(Error::SlotOutOfRange { slot, state_slot: s.slot })
    }
}

/// The root of the block at the first slot of `epoch`.
pub open spec fn block_root(s: StateModel, epoch: Epoch, c: Context) -> Result<Root, Error> {
    if epoch * c.slots_per_epoch > u64::MAX {
        Err(Error::Overflow)
    } else {
        block_root_at_slot(s, (epoch * c.slots_per_epoch) as u64)
    }
}

/// Returns the root of the block at `slot`, a slot of the recent past.
pub fn get_block_root_at_slot(state: &BeaconState, slot: Slot) -> (result: Result<Root, Error>)
    ensures
        result == block_root_at_slot(state@, slot),
{
    let length = state.block_roots.len();
    if slot < state.slot && state.slot - slot <= length as u64 {
        let position = (slot % (length as u64)) as usize;
        Ok(state.block_roots[position])
    } else {
        Err(Error::SlotOutOfRange { slot, state_slot: state.slot })
    }
}

/// Returns the root of the block at the first slot of `epoch`.
pub fn get_block_root(state: &BeaconState, epoch: Epoch, context: &Context) -> (result: Result<
    Root,
    Error,
>)
    ensures
        result == block_root(state@, epoch, *context),
{
    match epoch.checked_mul(context.slots_per_epoch) {
        Some(slot) => get_block_root_at_slot(state, slot),
        None => Err(Error::Overflow),
    }
}

/// Whether the chain has gone without finality for longer than the
/// configuration tolerates.
pub open spec fn in_inactivity_leak(s: StateModel, c: Context) -> bool {
    previous_epoch(s, c) - s.finalized_checkpoint.epoch > c.min_epochs_to_inactivity_penalty
}

/// Tells whether the chain is in an inactivity leak.
pub fn is_in_inactivity_leak(state: &BeaconState, context: &Context) -> (result: bool)
    requires
        context.well_formed(),
    ensures
        result == in_inactivity_leak(state@, *context),
{
    let previous = get_previous_epoch(state, context);
    let finalized = state.finalized_checkpoint.epoch;
    previous > finalized && previous - finalized > context.min_epochs_to_inactivity_penalty
}

/// The state with `delta` added to the balance of `index`.
pub open spec fn with_increased_balance(s: StateModel, index: int, delta: Gwei) -> StateModel {
    StateModel { balances: s.balances.update(index, (s.balances[index] + delta) as u64), ..s }
}

/// The state with `delta` taken from the balance of `index`, which does not
/// fall below zero.
pub open spec fn with_decreased_balance(s: StateModel, index: int, delta: Gwei) -> StateModel {
    let left = if delta > s.balances[index] {
        0
    } else {
        (s.balances[index] - delta) as u64
    };
    StateModel { balances: s.balances.update(index, left), ..s }
}

/// Adds `delta` to the balance of the validator at `index`.
pub fn increase_balance(state: &mut BeaconState, index: ValidatorIndex, delta: Gwei)
    requires
        index < old(state).balances.len(),
        old(state).balances[index as int] + delta <= u64::MAX,
    ensures
        final(state)@ == with_increased_balance(old(state)@, index as int, delta),
{
    let balance = state.balances[index];
    state.balances[index] = balance + delta;
}

/// Takes `delta` from the balance of the validator at `index`; a balance
/// smaller than `delta` becomes zero.
pub fn decrease_balance(state: &mut BeaconState, index: ValidatorIndex, delta: Gwei)
    requires
        index < old(state).balances.len(),
    ensures
        final(state)@ == with_decreased_balance(old(state)@, index as int, delta),
{
    let balance = state.balances[index];
    state.balances[index] = if delta > balance {
        0
    } else {
        balance - delta
    };
}

} // verus!
