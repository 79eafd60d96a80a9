//! Seeds, the shuffle, and the draw of validators in proportion to their
//! effective balance.

use crate::accessors::{
    active_validator_indices, current_epoch, get_active_validator_indices, get_current_epoch,
};
use crate::config::Context;
use crate::crypto::{sha256, sha256_digest, Bytes32};
use crate::encoding::{le_bytes, le_value, leading_u64, to_le_bytes};
use crate::error::Error;
use crate::primitives::{DomainType, Epoch, Gwei, ValidatorIndex, MAX_RANDOM_BYTE};
use crate::state::{BeaconState, StateModel, Validator};
use vstd::prelude::*;

verus! {

fn append_bytes(out: &mut Vec<u8>, bytes: &[u8])
    ensures
        final(out)@ == old(out)@ + bytes@,
{
    let mut i: usize = 0;
    while i < bytes.len()
        invariant
            i <= bytes.len(),
            out@ == old(out)@ + bytes@.subrange(0, i as int),
        decreases bytes.len() - i,
    {
        out.push(bytes[i]);
        i += 1;
    }
}

/// The mix of randomness that the state holds for `epoch`.
pub open spec fn randao_mix(s: StateModel, epoch: int) -> Bytes32 {
    s.randao_mixes[epoch % s.randao_mixes.len() as int]
}

/// The bytes that the seed of `epoch` is the digest of: the domain, the
/// epoch, and the mix of an epoch far enough in the past.
pub open spec fn seed_input(
    s: StateModel,
    epoch: Epoch,
    domain: DomainType,
    c: Context,
) -> Seq<u8> {
    domain.bytes() + le_bytes(epoch as nat, 8) + randao_mix(
        s,
        epoch + c.epochs_per_historical_vector - c.min_seed_lookahead - 1,
    )@
}

/// The seed of `epoch` in `domain`.
pub open spec fn seed(s: StateModel, epoch: Epoch, domain: DomainType, c: Context) -> Seq<u8> {
    sha256_digest(seed_input(s, epoch, domain, c))
}

/// Returns the seed of `epoch` in the domain `domain_type`.
pub fn get_seed(
    state: &BeaconState,
    epoch: Epoch,
    domain_type: DomainType,
    context: &Context,
) -> (result: Bytes32)
    requires
        context.well_formed(),
        state@.well_formed(*context),
    ensures
        result@ == seed(state@, epoch, domain_type, *context),
{
    let length = state.randao_mixes.len();
    let offset = context.epochs_per_historical_vector - context.min_seed_lookahead - 1;
    let position = ((epoch as u128 + offset as u128) % (length as u128)) as usize;
    let mut input: Vec<u8> = Vec::new();
    let domain = domain_type.as_bytes();
    append_bytes(&mut input, domain.as_slice());
    let epoch_bytes = to_le_bytes(epoch, 8);
    append_bytes(&mut input, epoch_bytes.as_slice());
    append_bytes(&mut input, state.randao_mixes[position].as_slice());
    sha256(input.as_slice())
}

/// The bytes whose digest gives the pivot of a round of the shuffle.
pub open spec fn pivot_input(seed: Seq<u8>, round: u8) -> Seq<u8> {
    seed.push(round)
}

/// The bytes whose digest decides, bit by bit, which positions a round of
/// the shuffle swaps.
pub open spec fn source_input(seed: Seq<u8>, round: u8, position: nat) -> Seq<u8> {
    seed.push(round) + le_bytes(position / 256, 4)
}

/// The position that a round of the shuffle pairs `index` with: its mirror
/// image about the pivot that the first eight bytes of `pivot_digest` spell.
pub open spec fn flip_of(index: nat, count: nat, pivot_digest: Seq<u8>) -> nat {
    let pivot = le_value(pivot_digest, 0, 8) % count;
    ((pivot + count - index) % (count as int)) as nat
}

/// The higher of two positions.
pub open spec fn higher(index: nat, flip: nat) -> nat {
    if index > flip {
        index
    } else {
        flip
    }
}

/// Where a round of the shuffle sends `index`: to `flip` where the bit that
/// `source_digest` holds for the higher of the two positions is set, and
/// nowhere else.
pub open spec fn swap_or_keep(index: nat, flip: nat, source_digest: Seq<u8>) -> nat {
    let position = higher(index, flip);
    let byte = source_digest[((position % 256) / 8) as int];
    if (byte >> ((position % 8) as u8)) & 1u8 == 1u8 {
        flip
    } else {
        index
    }
}

/// Where one round of the shuffle sends `index`, among `count` indices.
pub open spec fn shuffle_round(index: nat, count: nat, seed: Seq<u8>, round: u8) -> nat {
    let flip = flip_of(index, count, sha256_digest(pivot_input(seed, round)));
    swap_or_keep(
        index,
        flip,
        sha256_digest(source_input(seed, round, higher(index, flip))),
    )
}

/// Where the first `rounds` rounds of the shuffle send `index`.
pub open spec fn shuffled_index(index: nat, count: nat, seed: Seq<u8>, rounds: nat) -> nat
    decreases rounds,
{
    if rounds == 0 {
        index
    } else {
        shuffle_round(
            shuffled_index(index, count, seed, (rounds - 1) as nat),
            count,
            seed,
            (rounds - 1) as u8,
        )
    }
}

/// A round of the shuffle keeps an index below the count.
pub proof fn lemma_shuffle_round_in_range(index: nat, count: nat, seed: Seq<u8>, round: u8)
    requires
        index < count,
    ensures
        shuffle_round(index, count, seed, round) < count,
{
    let pivot = le_value(sha256_digest(pivot_input(seed, round)), 0, 8) % count;
    assert(0 <= (pivot + count - index) % (count as int) < count) by (nonlinear_arith)
        requires
            count > 0,
    ;
}

/// The shuffle keeps an index below the count.
pub proof fn lemma_shuffled_index_in_range(index: nat, count: nat, seed: Seq<u8>, rounds: nat)
    requires
        index < count,
    ensures
        shuffled_index(index, count, seed, rounds) < count,
    decreases rounds,
{
    if rounds > 0 {
        lemma_shuffled_index_in_range(index, count, seed, (rounds - 1) as nat);
        lemma_shuffle_round_in_range(
            shuffled_index(index, count, seed, (rounds - 1) as nat),
            count,
            seed,
            (rounds - 1) as u8,
        );
    }
}

/// Returns the position that a round of the shuffle pairs `index` with,
/// given the digest that holds the pivot of the round.
pub fn compute_flip(index: usize, index_count: usize, pivot_digest: &Bytes32) -> (flip: usize)
    requires
        index < index_count,
    ensures
        flip == flip_of(index as nat, index_count as nat, pivot_digest@),
        flip < index_count,
{
    let pivot = leading_u64(pivot_digest) % (index_count as u64);
    let wide = (pivot as u128 + index_count as u128 - index as u128) % (index_count as u128);
    wide as usize
}

/// Returns where a round of the shuffle sends `index`: to `flip` where the
/// bit that `source_digest` holds for the higher of the two positions is set.
pub fn choose_position(index: usize, flip: usize, source_digest: &Bytes32) -> (result: usize)
    ensures
        result == swap_or_keep(index as nat, flip as nat, source_digest@),
{
    let position = if index > flip {
        index
    } else {
        flip
    };
    let byte = source_digest[(position % 256) / 8];
    if (byte >> ((position % 8) as u8)) & 1u8 == 1u8 {
        flip
    } else {
        index
    }
}

fn shuffle_one_round(index: usize, index_count: usize, seed: &Bytes32, round: u8) -> (result: usize)
    requires
        index < index_count,
    ensures
        result == shuffle_round(index as nat, index_count as nat, seed@, round),
        result < index_count,
{
    let mut input: Vec<u8> = Vec::new();
    append_bytes(&mut input, seed.as_slice());
    input.push(round);
    let pivot_digest = sha256(input.as_slice());
    let flip = compute_flip(index, index_count, &pivot_digest);
    let position = if index > flip {
        index
    } else {
        flip
    };
    let block_bytes = to_le_bytes((position / 256) as u64, 4);
    append_bytes(&mut input, block_bytes.as_slice());
    let source_digest = sha256(input.as_slice());
    choose_position(index, flip, &source_digest)
}

/// Returns the position that the shuffle of `index_count` indices under
/// `seed` sends `index` to; `InvalidShufflingIndex` where `index` is not below
/// `index_count`.
pub fn compute_shuffled_index(
    index: usize,
    index_count: usize,
    seed: &Bytes32,
    context: &Context,
) -> (result: Result<usize, Error>)
    requires
        context.well_formed(),
    ensures
        match result {
            Ok(shuffled) => index < index_count && shuffled < index_count && shuffled
                == shuffled_index(
                index as nat,
                index_count as nat,
                seed@,
                context.shuffle_round_count as nat,
            ),
            Err(e) => index >= index_count && e == (Error::InvalidShufflingIndex {
                index,
                total: index_count,
            }),
        },
{
    if index >= index_count {
        return Err(Error::InvalidShufflingIndex { index, total: index_count });
    }
    let mut current = index;
    let mut round: u64 = 0;
    while round < context.shuffle_round_count
        invariant
            round <= context.shuffle_round_count <= 255,
            current < index_count,
            current == shuffled_index(index as nat, index_count as nat, seed@, round as nat),
        decreases context.shuffle_round_count - round,
    {
        current = shuffle_one_round(current, index_count, seed, round as u8);
        round += 1;
    }
    Ok(current)
}

/// The bytes whose digest holds the random byte of draw `i`.
pub open spec fn random_byte_input(seed: Seq<u8>, i: nat) -> Seq<u8> {
    seed + le_bytes(i / 32, 8)
}

/// The random byte that draw `i` is judged by.
pub open spec fn random_byte(seed: Seq<u8>, i: nat) -> u8 {
    sha256_digest(random_byte_input(seed, i))[(i % 32) as int]
}

/// The validator that draw `i` proposes: the shuffle walks through the
/// active validators again and again.
pub open spec fn candidate(
    active: Seq<ValidatorIndex>,
    seed: Seq<u8>,
    rounds: nat,
    i: nat,
) -> ValidatorIndex {
    active[shuffled_index(i % active.len(), active.len(), seed, rounds) as int]
}

/// Whether a candidate with `effective_balance` passes against `random_byte`:
/// a validator with the largest balance always passes, one with half of it
/// about every other time.
pub open spec fn accepts(
    effective_balance: Gwei,
    max_effective_balance: Gwei,
    random_byte: u8,
) -> bool {
    effective_balance * MAX_RANDOM_BYTE >= max_effective_balance * random_byte
}

/// The candidates that pass among the first `n` draws, in the order of the
/// draws. A validator may pass more than once.
pub open spec fn sampled(
    validators: Seq<Validator>,
    active: Seq<ValidatorIndex>,
    seed: Seq<u8>,
    c: Context,
    n: nat,
) -> Seq<ValidatorIndex>
    decreases n,
{
    if n == 0 {
        Seq::empty()
    } else {
        let before = sampled(validators, active, seed, c, (n - 1) as nat);
        let drawn = candidate(active, seed, c.shuffle_round_count as nat, (n - 1) as nat);
        if accepts(
            validators[drawn as int].effective_balance,
            c.max_effective_balance,
            random_byte(seed, (n - 1) as nat),
        ) {
            before.push(drawn)
        } else {
            before
        }
    }
}

/// More draws only add to the end of what fewer draws gave.
pub proof fn lemma_sampled_extends(
    validators: Seq<Validator>,
    active: Seq<ValidatorIndex>,
    seed: Seq<u8>,
    c: Context,
    m: nat,
    n: nat,
)
    requires
        m <= n,
    ensures
        sampled(validators, active, seed, c, m).len() <= sampled(
            validators,
            active,
            seed,
            c,
            n,
        ).len(),
        sampled(validators, active, seed, c, n).subrange(
            0,
            sampled(validators, active, seed, c, m).len() as int,
        ) == sampled(validators, active, seed, c, m),
    decreases n,
{
    if m < n {
        lemma_sampled_extends(validators, active, seed, c, m, (n - 1) as nat);
    }
}

/// Every validator drawn is one of the active validators.
pub proof fn lemma_sampled_in_range(
    validators: Seq<Validator>,
    active: Seq<ValidatorIndex>,
    seed: Seq<u8>,
    c: Context,
    n: nat,
)
    requires
        active.len() > 0,
    ensures
        forall|k: int|
            0 <= k < sampled(validators, active, seed, c, n).len() ==> active.contains(
                #[trigger] sampled(validators, active, seed, c, n)[k],
            ),
    decreases n,
{
    if n > 0 {
        lemma_sampled_in_range(validators, active, seed, c, (n - 1) as nat);
        let i = (n - 1) as nat;
        assert(0 <= i % active.len() < active.len()) by (nonlinear_arith)
            requires
                active.len() > 0,
        ;
        lemma_shuffled_index_in_range(
            i % active.len(),
            active.len(),
            seed,
            c.shuffle_round_count as nat,
        );
        let before = sampled(validators, active, seed, c, i);
        let all = sampled(validators, active, seed, c, n);
        let position = shuffled_index(
            i % active.len(),
            active.len(),
            seed,
            c.shuffle_round_count as nat,
        );
        assert forall|k: int| 0 <= k < all.len() implies active.contains(#[trigger] all[k]) by {
            if k < before.len() {
                assert(all[k] == before[k]);
            } else {
                assert(all[k] == active[position as int]);
            }
        }
    }
}

/// Whether `n` draws, a number that a 64-bit counter can reach, give at
/// least `count` validators.
pub open spec fn enough_draws(
    validators: Seq<Validator>,
    active: Seq<ValidatorIndex>,
    seed: Seq<u8>,
    c: Context,
    count: nat,
    n: nat,
) -> bool {
    n <= u64::MAX && sampled(validators, active, seed, c, n).len() >= count
}

/// The first `count` validators that pass: `EmptyActiveSet` where there is no
/// one to draw from, `SamplingExhausted` where the draws that a 64-bit
/// counter can number do not give `count` validators.
pub open spec fn sampling_result(
    validators: Seq<Validator>,
    active: Seq<ValidatorIndex>,
    seed: Seq<u8>,
    c: Context,
    count: nat,
) -> Result<Seq<ValidatorIndex>, Error> {
    if active.len() == 0 {
        Err(Error::EmptyActiveSet)
    } else if exists|n: nat| enough_draws(validators, active, seed, c, count, n) {
        let n = choose|n: nat| enough_draws(validators, active, seed, c, count, n);
        Ok(sampled(validators, active, seed, c, n).subrange(0, count as int))
    } else {
        Err(Error::SamplingExhausted)
    }
}

/// A draw that succeeds gives as many validators as were asked for, all of
/// them active.
pub proof fn lemma_sampling_result_members(
    validators: Seq<Validator>,
    active: Seq<ValidatorIndex>,
    seed: Seq<u8>,
    c: Context,
    count: nat,
)
    requires
        sampling_result(validators, active, seed, c, count) is Ok,
    ensures
        sampling_result(validators, active, seed, c, count)->Ok_0.len() == count,
        forall|k: int|
            0 <= k < count ==> active.contains(
                #[trigger] sampling_result(validators, active, seed, c, count)->Ok_0[k],
            ),
{
    let n = choose|n: nat| enough_draws(validators, active, seed, c, count, n);
    lemma_sampled_in_range(validators, active, seed, c, n);
    let all = sampled(validators, active, seed, c, n);
    let drawn = sampling_result(validators, active, seed, c, count)->Ok_0;
    assert forall|k: int| 0 <= k < count implies active.contains(#[trigger] drawn[k]) by {
        assert(drawn[k] == all[k]);
    }
}

/// Tells whether a candidate with `effective_balance` passes against
/// `random_byte`.
pub fn is_candidate_accepted(
    effective_balance: Gwei,
    max_effective_balance: Gwei,
    random_byte: u8,
) -> (result: bool)
    ensures
        result == accepts(effective_balance, max_effective_balance, random_byte),
{
    assert(max_effective_balance * random_byte <= 0xffff_ffff_ffff_ffff * 255) by (nonlinear_arith)
        requires
            max_effective_balance <= 0xffff_ffff_ffff_ffff,
            random_byte <= 255,
    ;
    assert(effective_balance * MAX_RANDOM_BYTE <= 0xffff_ffff_ffff_ffff * 255) by (nonlinear_arith)
        requires
            effective_balance <= 0xffff_ffff_ffff_ffff,
            MAX_RANDOM_BYTE == 255,
    ;
    (effective_balance as u128) * (MAX_RANDOM_BYTE as u128) >= (max_effective_balance as u128) * (
    random_byte as u128)
}

/// Draws `count` validators from `active` in proportion to their effective
/// balance, with the randomness of `seed`.
pub fn sample_by_balance(
    state: &BeaconState,
    active: &Vec<ValidatorIndex>,
    seed: &Bytes32,
    count: usize,
    context: &Context,
) -> (result: Result<Vec<ValidatorIndex>, Error>)
    requires
        context.well_formed(),
        forall|k: int| 0 <= k < active.len() ==> active[k] < state.validators.len(),
    ensures
        match result {
            Ok(drawn) => sampling_result(
                state@.validators,
                active@,
                seed@,
                *context,
                count as nat,
            ) == Ok::<Seq<ValidatorIndex>, Error>(drawn@) && drawn.len() == count && forall|
                k: int,
            |
                0 <= k < drawn.len() ==> active@.contains(#[trigger] drawn[k]),
            Err(e) => sampling_result(state@.validators, active@, seed@, *context, count as nat)
                == Err::<Seq<ValidatorIndex>, Error>(e),
        },
{
    let total = active.len();
    if total == 0 {
        return Err(Error::EmptyActiveSet);
    }
    let mut drawn: Vec<ValidatorIndex> = Vec::new();
    let mut i: u64 = 0;
    while drawn.len() < count
        invariant
            context.well_formed(),
            total == active.len(),
            total > 0,
            forall|k: int| 0 <= k < active.len() ==> active[k] < state.validators.len(),
            drawn.len() <= count,
            drawn@ == sampled(state@.validators, active@, seed@, *context, i as nat),
        decreases u64::MAX - i,
    {
        if i == u64::MAX {
            proof {
                assert forall|n: nat| !enough_draws(
                    state@.validators,
                    active@,
                    seed@,
                    *context,
                    count as nat,
                    n,
                ) by {
                    if n <= u64::MAX {
                        lemma_sampled_extends(
                            state@.validators,
                            active@,
                            seed@,
                            *context,
                            n,
                            u64::MAX as nat,
                        );
                    }
                }
            }
            return Err(Error::SamplingExhausted);
        }
        let position = (i % (total as u64)) as usize;
        let shuffled = match compute_shuffled_index(position, total, seed, context) {
            Ok(shuffled) => shuffled,
            Err(e) => {
                return Err(e);
            },
        };
        let drawn_index = active[shuffled];
        let mut input: Vec<u8> = Vec::new();
        append_bytes(&mut input, seed.as_slice());
        let counter_bytes = to_le_bytes(i / 32, 8);
        append_bytes(&mut input, counter_bytes.as_slice());
        let digest = sha256(input.as_slice());
        let byte = digest[(i % 32) as usize];
        let effective_balance = state.validators[drawn_index].effective_balance;
        if is_candidate_accepted(effective_balance, context.max_effective_balance, byte) {
            drawn.push(drawn_index);
        }
        i += 1;
    }
    proof {
        let n0 = i as nat;
        assert(enough_draws(state@.validators, active@, seed@, *context, count as nat, n0));
        let n = choose|n: nat|
            enough_draws(state@.validators, active@, seed@, *context, count as nat, n);
        if n <= n0 {
            lemma_sampled_extends(state@.validators, active@, seed@, *context, n, n0);
        } else {
            lemma_sampled_extends(state@.validators, active@, seed@, *context, n0, n);
        }
        assert(sampled(state@.validators, active@, seed@, *context, n).subrange(0, count as int)
            == drawn@);
        lemma_sampled_in_range(state@.validators, active@, seed@, *context, n0);
    }
    Ok(drawn)
}

/// The validators of the next sync committee, in the order of the draw.
pub open spec fn next_sync_committee_indices(s: StateModel, c: Context) -> Result<
    Seq<ValidatorIndex>,
    Error,
> {
    if current_epoch(s, c) + 1 > u64::MAX {
        Err(Error::Overflow)
    } else {
        let epoch = (current_epoch(s, c) + 1) as u64;
        sampling_result(
            s.validators,
            active_validator_indices(s, epoch),
            seed(s, epoch, DomainType::SyncCommittee, c),
            c,
            c.sync_committee_size as nat,
        )
    }
}

/// The seed that the proposer of the current slot is drawn with.
pub open spec fn proposer_seed(s: StateModel, c: Context) -> Seq<u8> {
    sha256_digest(
        seed(s, current_epoch(s, c), DomainType::BeaconProposer, c) + le_bytes(s.slot as nat, 8),
    )
}

/// The validator that proposes the block of the current slot: the first one
/// that a draw from the active validators gives.
pub open spec fn beacon_proposer_index(s: StateModel, c: Context) -> Result<ValidatorIndex, Error> {
    match sampling_result(
        s.validators,
        active_validator_indices(s, current_epoch(s, c)),
        proposer_seed(s, c),
        c,
        1,
    ) {
        Ok(drawn) => Ok(drawn[0]),
        Err(Error::EmptyActiveSet) => Err(Error::NoProposer),
        Err(e) => Err(e),
    }
}

/// The proposer is one of the validators.
pub proof fn lemma_beacon_proposer_in_range(s: StateModel, c: Context)
    requires
        s.validators.len() <= usize::MAX,
        beacon_proposer_index(s, c) is Ok,
    ensures
        beacon_proposer_index(s, c)->Ok_0 < s.validators.len(),
{
    let active = active_validator_indices(s, current_epoch(s, c));
    lemma_sampling_result_members(s.validators, active, proposer_seed(s, c), c, 1);
    crate::accessors::lemma_indices_where(
        |i: int| crate::accessors::is_active(s.validators[i], current_epoch(s, c)),
        s.validators.len(),
    );
    let drawn = sampling_result(s.validators, active, proposer_seed(s, c), c, 1)->Ok_0;
    assert(active.contains(drawn[0]));
}

/// Returns the validator that proposes the block of the current slot;
/// `NoProposer` where no validator is active.
pub fn get_beacon_proposer_index(state: &BeaconState, context: &Context) -> (result: Result<
    ValidatorIndex,
    Error,
>)
    requires
        context.well_formed(),
        state@.well_formed(*context),
    ensures
        result == beacon_proposer_index(state@, *context),
        result matches Ok(index) ==> index < state.validators.len(),
{
    let epoch = get_current_epoch(state, context);
    let epoch_seed = get_seed(state, epoch, DomainType::BeaconProposer, context);
    let mut input: Vec<u8> = Vec::new();
    append_bytes(&mut input, epoch_seed.as_slice());
    let slot_bytes = to_le_bytes(state.slot, 8);
    append_bytes(&mut input, slot_bytes.as_slice());
    let seed = sha256(input.as_slice());
    let active = get_active_validator_indices(state, epoch);
    proof {
        assert(state@.validators.len() == state.validators.len());
        crate::accessors::lemma_indices_where(
            |i: int| crate::accessors::is_active(state@.validators[i], epoch),
            state@.validators.len(),
        );
    }
    match sample_by_balance(state, &active, &seed, 1, context) {
        Ok(drawn) => Ok(drawn[0]),
        Err(Error::EmptyActiveSet) => Err(Error::NoProposer),
        Err(e) => Err(e),
    }
}

/// Returns the validators of the next sync committee, in the order of the
/// draw and with the repetitions that the draw gave. It is `EmptyActiveSet`
/// where no validator is active in the next epoch.
pub fn get_next_sync_committee_indices(state: &BeaconState, context: &Context) -> (result: Result<
    Vec<ValidatorIndex>,
    Error,
>)
    requires
        context.well_formed(),
        state@.well_formed(*context),
    ensures
        match result {
            Ok(indices) => next_sync_committee_indices(state@, *context) == Ok::<
                Seq<ValidatorIndex>,
                Error,
            >(indices@) && indices.len() == context.sync_committee_size && forall|k: int|
                0 <= k < indices.len() ==> #[trigger] indices[k] < state.validators.len(),
            Err(e) => next_sync_committee_indices(state@, *context) == Err::<
                Seq<ValidatorIndex>,
                Error,
            >(e),
        },
        current_epoch(state@, *context) < u64::MAX && active_validator_indices(
            state@,
            (current_epoch(state@, *context) + 1) as u64,
        ).len() == 0 ==> result == Err::<
            Vec<ValidatorIndex>,
            Error,
        >(Error::EmptyActiveSet),
{
    let epoch = match get_current_epoch(state, context).checked_add(1) {
        Some(epoch) => epoch,
        None => {
            return Err(Error::Overflow);
        },
    };
    let active = get_active_validator_indices(state, epoch);
    let seed = get_seed(state, epoch, DomainType::SyncCommittee, context);
    proof {
        assert(state@.validators.len() == state.validators.len());
        crate::accessors::lemma_indices_where(
            |i: int| crate::accessors::is_active(state@.validators[i], epoch),
            state@.validators.len(),
        );
    }
    sample_by_balance(state, &active, &seed, context.sync_committee_size, context)
}

} // verus!
