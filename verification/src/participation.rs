//! Who took part in an epoch, and which flags an attestation earns.

use crate::accessors::{
    active_set, block_root, block_root_at_slot, current_epoch, get_block_root,
    get_block_root_at_slot, get_current_epoch, get_previous_epoch, is_active, is_active_validator,
    previous_epoch,
};
use crate::config::Context;
use crate::error::Error;
use crate::flags::{flag_is_set, has_flag, ParticipationFlags};
use crate::math::{integer_sqrt, integer_sqrt_of};
use crate::primitives::{
    same_bytes32, AttestationData, Checkpoint, Epoch, Root, ValidatorIndex,
    TIMELY_HEAD_FLAG_INDEX, TIMELY_SOURCE_FLAG_INDEX, TIMELY_TARGET_FLAG_INDEX,
};
use crate::state::{BeaconState, StateModel};
use std::collections::HashSet;
use vstd::prelude::*;

verus! {

broadcast use vstd::std_specs::hash::group_hash_axioms;

/// The participation flags that the state holds for `epoch`.
pub open spec fn participation_of(s: StateModel, epoch: Epoch, c: Context) -> Seq<
    ParticipationFlags,
> {
    if epoch == current_epoch(s, c) {
        s.current_epoch_participation
    } else {
        s.previous_epoch_participation
    }
}

/// Whether the validator at `index` was active in `epoch`, has the flag at
/// `flag_index` for that epoch, and is not slashed now.
pub open spec fn participates_unslashed(
    s: StateModel,
    flag_index: usize,
    epoch: Epoch,
    c: Context,
    index: int,
) -> bool {
    &&& 0 <= index < s.validators.len()
    &&& is_active(s.validators[index], epoch)
    &&& flag_is_set(participation_of(s, epoch, c)[index], flag_index as u8)
    &&& !s.validators[index].slashed
}

/// The validators that were active in `epoch` with the flag at `flag_index`
/// and are not slashed now.
pub open spec fn unslashed_participating_set(
    s: StateModel,
    flag_index: usize,
    epoch: Epoch,
    c: Context,
) -> Set<ValidatorIndex> {
    Set::new(|i: ValidatorIndex| participates_unslashed(s, flag_index, epoch, c, i as int))
}

/// The unslashed participants of `epoch`, which must be the current or the
/// previous epoch.
pub open spec fn unslashed_participating_indices(
    s: StateModel,
    flag_index: usize,
    epoch: Epoch,
    c: Context,
) -> Result<Set<ValidatorIndex>, Error> {
    if epoch != previous_epoch(s, c) && epoch != current_epoch(s, c) {
        Err(
            Error::InvalidEpoch {
                requested: epoch,
                previous: previous_epoch(s, c),
                current: current_epoch(s, c),
            },
        )
    } else {
        Ok(unslashed_participating_set(s, flag_index, epoch, c))
    }
}

/// Returns the validators that were active in `epoch` with the flag at
/// `flag_index` and are not slashed at the time of the call. It is
/// `InvalidEpoch` unless `epoch` is the current or the previous epoch.
pub fn get_unslashed_participating_indices(
    state: &BeaconState,
    flag_index: usize,
    epoch: Epoch,
    context: &Context,
) -> (result: Result<HashSet<ValidatorIndex>, Error>)
    requires
        context.well_formed(),
        state@.well_formed(*context),
        flag_index < 8,
    ensures
        match result {
            Ok(indices) => unslashed_participating_indices(state@, flag_index, epoch, *context)
                == Ok::<Set<ValidatorIndex>, Error>(indices@) && forall|i: ValidatorIndex|
                indices@.contains(i) ==> i < state.validators.len() && is_active(
                    state.validators[i as int],
                    epoch,
                ) && !state.validators[i as int].slashed,
            Err(e) => unslashed_participating_indices(state@, flag_index, epoch, *context) == Err::<
                Set<ValidatorIndex>,
                Error,
            >(e),
        },
{
    let previous = get_previous_epoch(state, context);
    let current = get_current_epoch(state, context);
    if previous != epoch && current != epoch {
        return Err(Error::InvalidEpoch { requested: epoch, previous, current });
    }
    let participation = if epoch == current {
        &state.current_epoch_participation
    } else {
        &state.previous_epoch_participation
    };
    let mut indices: HashSet<ValidatorIndex> = HashSet::new();
    let mut i: usize = 0;
    while i < state.validators.len()
        invariant
            i <= state.validators.len(),
            flag_index < 8,
            participation@ == participation_of(state@, epoch, *context),
            participation.len() == state.validators.len(),
            forall|j: ValidatorIndex|
                indices@.contains(j) <==> j < i && participates_unslashed(
                    state@,
                    flag_index,
                    epoch,
                    *context,
                    j as int,
                ),
        decreases state.validators.len() - i,
    {
        let validator = &state.validators[i];
        if is_active_validator(validator, epoch) && has_flag(participation[i], flag_index as u8)
            && !validator.slashed {
            indices.insert(i);
        }
        i += 1;
    }
    assert(indices@ =~= unslashed_participating_set(state@, flag_index, epoch, *context));
    Ok(indices)
}

/// The justified checkpoint that an attestation for the target epoch of
/// `data` has to name as its source.
pub open spec fn justified_checkpoint_for(
    s: StateModel,
    data: AttestationData,
    c: Context,
) -> Checkpoint {
    if data.target.epoch == current_epoch(s, c) {
        s.current_justified_checkpoint
    } else {
        s.previous_justified_checkpoint
    }
}

/// The flags that an attestation earns, in ascending order: the source flag
/// within the square root of an epoch's slots, the target flag for a matching
/// target within an epoch, the head flag for a matching head at the earliest
/// slot possible.
pub open spec fn timely_flags(
    matching_target: bool,
    matching_head: bool,
    inclusion_delay: u64,
    c: Context,
) -> Seq<usize> {
    let none = Seq::<usize>::empty();
    let source = if inclusion_delay <= integer_sqrt_of(c.slots_per_epoch as nat) {
        none.push(TIMELY_SOURCE_FLAG_INDEX)
    } else {
        none
    };
    let target = if matching_target && inclusion_delay <= c.slots_per_epoch {
        source.push(TIMELY_TARGET_FLAG_INDEX)
    } else {
        source
    };
    if matching_head && inclusion_delay == c.min_attestation_inclusion_delay {
        target.push(TIMELY_HEAD_FLAG_INDEX)
    } else {
        target
    }
}

/// The flags that an attestation with `data`, included `inclusion_delay`
/// slots after its own, earns. The head counts only where the target
/// matches, and its root is looked up only then.
pub open spec fn attestation_participation_flag_indices(
    s: StateModel,
    data: AttestationData,
    inclusion_delay: u64,
    c: Context,
) -> Result<Seq<usize>, Error> {
    let justified = justified_checkpoint_for(s, data, c);
    if data.source != justified {
        Err(
            Error::InvalidSource {
                expected: justified,
                source_checkpoint: data.source,
                current: current_epoch(s, c),
            },
        )
    } else {
        match block_root(s, data.target.epoch, c) {
            Err(e) => Err(e),
            Ok(target_root) => if data.target.root != target_root {
                Ok(timely_flags(false, false, inclusion_delay, c))
            } else {
                match block_root_at_slot(s, data.slot) {
                    Err(e) => Err(e),
                    Ok(head_root) => Ok(
                        timely_flags(
                            true,
                            data.beacon_block_root == head_root,
                            inclusion_delay,
                            c,
                        ),
                    ),
                }
            },
        }
    }
}

/// Returns the flags that an attestation earns, given whether its target and
/// its head match the chain.
pub fn participation_flags_for(
    matching_target: bool,
    matching_head: bool,
    inclusion_delay: u64,
    context: &Context,
) -> (flags: Vec<usize>)
    ensures
        flags@ == timely_flags(matching_target, matching_head, inclusion_delay, *context),
{
    let mut flags: Vec<usize> = Vec::new();
    if inclusion_delay <= integer_sqrt(context.slots_per_epoch) {
        flags.push(TIMELY_SOURCE_FLAG_INDEX);
    }
    if matching_target && inclusion_delay <= context.slots_per_epoch {
        flags.push(TIMELY_TARGET_FLAG_INDEX);
    }
    if matching_head && inclusion_delay == context.min_attestation_inclusion_delay {
        flags.push(TIMELY_HEAD_FLAG_INDEX);
    }
    flags
}

/// Returns the indices of the flags that an attestation with `data`,
/// included `inclusion_delay` slots after its own, earns. It is
/// `InvalidSource` where the source of `data` is not the justified checkpoint
/// that its target epoch calls for, whatever else `data` holds.
pub fn get_attestation_participation_flag_indices(
    state: &BeaconState,
    data: &AttestationData,
    inclusion_delay: u64,
    context: &Context,
) -> (result: Result<Vec<usize>, Error>)
    requires
        context.well_formed(),
    ensures
        match result {
            Ok(flags) => attestation_participation_flag_indices(
                state@,
                *data,
                inclusion_delay,
                *context,
            ) == Ok::<Seq<usize>, Error>(flags@),
            Err(e) => attestation_participation_flag_indices(
                state@,
                *data,
                inclusion_delay,
                *context,
            ) == Err::<Seq<usize>, Error>(e),
        },
        data.source != justified_checkpoint_for(state@, *data, *context) ==> result == Err::<
            Vec<usize>,
            Error,
        >(
            Error::InvalidSource {
                expected: justified_checkpoint_for(state@, *data, *context),
                source_checkpoint: data.source,
                current: current_epoch(state@, *context),
            },
        ),
{
    let current = get_current_epoch(state, context);
    let justified = if data.target.epoch == current {
        state.current_justified_checkpoint
    } else {
        state.previous_justified_checkpoint
    };
    if !data.source.same_as(&justified) {
        return Err(
            Error::InvalidSource { expected: justified, source_checkpoint: data.source, current },
        );
    }
    let target_root = get_block_root(state, data.target.epoch, context)?;
    let matching_target = same_bytes32(&data.target.root, &target_root);
    let matching_head = if matching_target {
        let head_root = get_block_root_at_slot(state, data.slot)?;
        same_bytes32(&data.beacon_block_root, &head_root)
    } else {
        false
    };
    Ok(participation_flags_for(matching_target, matching_head, inclusion_delay, context))
}

/// A value is in a sequence with one more entry where it is that entry or
/// was in the sequence before.
proof fn lemma_push_contains(s: Seq<usize>, last: usize, value: usize)
    ensures
        s.push(last).contains(value) <==> s.contains(value) || last == value,
{
    if s.contains(value) {
        let k = choose|k: int| 0 <= k < s.len() && s[k] == value;
        assert(s.push(last)[k] == value);
    }
    if last == value {
        assert(s.push(last)[s.len() as int] == value);
    }
    if s.push(last).contains(value) {
        let k = choose|k: int| 0 <= k < s.push(last).len() && s.push(last)[k] == value;
        if k < s.len() {
            assert(s[k] == value);
        }
    }
}

/// Which flags an attestation earns: each one exactly under its own
/// condition.
pub proof fn lemma_timely_flags_members(
    matching_target: bool,
    matching_head: bool,
    inclusion_delay: u64,
    c: Context,
)
    ensures
        timely_flags(matching_target, matching_head, inclusion_delay, c).contains(
            TIMELY_SOURCE_FLAG_INDEX,
        ) <==> inclusion_delay <= integer_sqrt_of(c.slots_per_epoch as nat),
        timely_flags(matching_target, matching_head, inclusion_delay, c).contains(
            TIMELY_TARGET_FLAG_INDEX,
        ) <==> matching_target && inclusion_delay <= c.slots_per_epoch,
        timely_flags(matching_target, matching_head, inclusion_delay, c).contains(
            TIMELY_HEAD_FLAG_INDEX,
        ) <==> matching_head && inclusion_delay == c.min_attestation_inclusion_delay,
{
    let none = Seq::<usize>::empty();
    let source = if inclusion_delay <= integer_sqrt_of(c.slots_per_epoch as nat) {
        none.push(TIMELY_SOURCE_FLAG_INDEX)
    } else {
        none
    };
    let target = if matching_target && inclusion_delay <= c.slots_per_epoch {
        source.push(TIMELY_TARGET_FLAG_INDEX)
    } else {
        source
    };
    lemma_push_contains(none, TIMELY_SOURCE_FLAG_INDEX, TIMELY_SOURCE_FLAG_INDEX);
    lemma_push_contains(none, TIMELY_SOURCE_FLAG_INDEX, TIMELY_TARGET_FLAG_INDEX);
    lemma_push_contains(none, TIMELY_SOURCE_FLAG_INDEX, TIMELY_HEAD_FLAG_INDEX);
    lemma_push_contains(source, TIMELY_TARGET_FLAG_INDEX, TIMELY_SOURCE_FLAG_INDEX);
    lemma_push_contains(source, TIMELY_TARGET_FLAG_INDEX, TIMELY_TARGET_FLAG_INDEX);
    lemma_push_contains(source, TIMELY_TARGET_FLAG_INDEX, TIMELY_HEAD_FLAG_INDEX);
    lemma_push_contains(target, TIMELY_HEAD_FLAG_INDEX, TIMELY_SOURCE_FLAG_INDEX);
    lemma_push_contains(target, TIMELY_HEAD_FLAG_INDEX, TIMELY_TARGET_FLAG_INDEX);
    lemma_push_contains(target, TIMELY_HEAD_FLAG_INDEX, TIMELY_HEAD_FLAG_INDEX);
}

/// Whether the target of `data` is the block that the chain has at the start
/// of the target epoch.
pub open spec fn target_matches(s: StateModel, data: AttestationData, c: Context) -> bool {
    block_root(s, data.target.epoch, c) == Ok::<Root, Error>(data.target.root)
}

/// Whether the target of `data` matches and its head is the block that the
/// chain has at the slot of `data`.
pub open spec fn head_matches(s: StateModel, data: AttestationData, c: Context) -> bool {
    target_matches(s, data, c) && block_root_at_slot(s, data.slot) == Ok::<Root, Error>(
        data.beacon_block_root,
    )
}

/// An attestation that earns the head flag earns the target flag too. This
/// holds of every attestation but one whose head matches at the earliest
/// delay possible where that delay is longer than an epoch.
pub proof fn lemma_head_flag_implies_target_flag(
    s: StateModel,
    data: AttestationData,
    inclusion_delay: u64,
    c: Context,
)
    requires
        attestation_participation_flag_indices(s, data, inclusion_delay, c) is Ok,
        !(head_matches(s, data, c) && inclusion_delay == c.min_attestation_inclusion_delay
            && inclusion_delay > c.slots_per_epoch),
    ensures
        attestation_participation_flag_indices(s, data, inclusion_delay, c)->Ok_0.contains(
            TIMELY_HEAD_FLAG_INDEX,
        ) ==> attestation_participation_flag_indices(s, data, inclusion_delay, c)->Ok_0.contains(
            TIMELY_TARGET_FLAG_INDEX,
        ),
{
    lemma_timely_flags_members(false, false, inclusion_delay, c);
    lemma_timely_flags_members(true, false, inclusion_delay, c);
    lemma_timely_flags_members(true, true, inclusion_delay, c);
}

/// An attestation that earns the target flag earns the source flag too. This
/// holds of every attestation but one whose target matches at a delay within
/// an epoch and above the square root of an epoch's slots.
pub proof fn lemma_target_flag_implies_source_flag(
    s: StateModel,
    data: AttestationData,
    inclusion_delay: u64,
    c: Context,
)
    requires
        attestation_participation_flag_indices(s, data, inclusion_delay, c) is Ok,
        !(target_matches(s, data, c) && integer_sqrt_of(c.slots_per_epoch as nat) < inclusion_delay
            <= c.slots_per_epoch),
    ensures
        attestation_participation_flag_indices(s, data, inclusion_delay, c)->Ok_0.contains(
            TIMELY_TARGET_FLAG_INDEX,
        ) ==> attestation_participation_flag_indices(s, data, inclusion_delay, c)->Ok_0.contains(
            TIMELY_SOURCE_FLAG_INDEX,
        ),
{
    lemma_timely_flags_members(false, false, inclusion_delay, c);
    lemma_timely_flags_members(true, false, inclusion_delay, c);
    lemma_timely_flags_members(true, true, inclusion_delay, c);
}

/// An attestation whose source is not the justified checkpoint earns no
/// flags, whatever else it holds.
pub proof fn lemma_source_mismatch_is_invalid(
    s: StateModel,
    data: AttestationData,
    inclusion_delay: u64,
    c: Context,
)
    requires
        data.source != justified_checkpoint_for(s, data, c),
    ensures
        attestation_participation_flag_indices(s, data, inclusion_delay, c) == Err::<
            Seq<usize>,
            Error,
        >(
            Error::InvalidSource {
                expected: justified_checkpoint_for(s, data, c),
                source_checkpoint: data.source,
                current: current_epoch(s, c),
            },
        ),
{
}

/// The unslashed participants of an epoch were all active in it, and none of
/// them is slashed, whatever its flags say.
pub proof fn lemma_unslashed_participants_active(
    s: StateModel,
    flag_index: usize,
    epoch: Epoch,
    c: Context,
    index: ValidatorIndex,
)
    ensures
        unslashed_participating_set(s, flag_index, epoch, c).contains(index) ==> index
            < s.validators.len() && is_active(s.validators[index as int], epoch)
            && active_set(s, epoch).contains(index),
        0 <= index < s.validators.len() && s.validators[index as int].slashed
            ==> !unslashed_participating_set(s, flag_index, epoch, c).contains(index),
{
}

} // verus!
