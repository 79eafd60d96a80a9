//! Base rewards, and the rewards and penalties that follow from
//! participation.

use crate::accessors::{
    current_epoch, get_current_epoch, get_eligible_validator_indices, get_previous_epoch,
    get_total_active_balance, get_total_balance, in_inactivity_leak, is_eligible,
    is_in_inactivity_leak, lemma_indices_where, previous_epoch, total_active_balance, total_balance,
};
use crate::config::{fork_value, Context};
use crate::error::Error;
use crate::math::{integer_sqrt, integer_sqrt_of, is_integer_sqrt};
use crate::participation::{get_unslashed_participating_indices, unslashed_participating_set};
use crate::primitives::{
    Gwei, ValidatorIndex, PARTICIPATION_FLAG_COUNT, TIMELY_HEAD_FLAG_INDEX,
    TIMELY_TARGET_FLAG_INDEX,
};
use crate::state::{BeaconState, StateModel};
use vstd::prelude::*;

verus! {

broadcast use vstd::std_specs::hash::group_hash_axioms;

/// What one increment of effective balance earns as a base reward: the
/// increment times the reward factor, divided by the square root of the
/// total active balance.
pub open spec fn base_reward_per_increment(s: StateModel, c: Context) -> Result<Gwei, Error> {
    if c.effective_balance_increment * c.base_reward_factor > u64::MAX {
        Err(Error::Overflow)
    } else {
        match total_active_balance(s, c) {
            Err(e) => Err(e),
            Ok(total) => Ok(
                (c.effective_balance_increment * c.base_reward_factor / integer_sqrt_of(
                    total as nat,
                ) as int) as u64,
            ),
        }
    }
}

/// The base reward of the validator at `index`: what one increment earns,
/// times the increments of its effective balance.
pub open spec fn base_reward(s: StateModel, index: int, c: Context) -> Result<Gwei, Error> {
    match base_reward_per_increment(s, c) {
        Err(e) => Err(e),
        Ok(per_increment) => base_reward_of(
            s.validators[index].effective_balance,
            per_increment,
            c,
        ),
    }
}

/// The base reward of an effective balance, given what one increment earns.
pub open spec fn base_reward_of(effective_balance: Gwei, per_increment: Gwei, c: Context) -> Result<
    Gwei,
    Error,
> {
    let reward = (effective_balance / c.effective_balance_increment) * per_increment;
    if reward > u64::MAX {
        Err(Error::Overflow)
    } else {
        Ok(reward as u64)
    }
}

/// Returns what one increment of effective balance earns as a base reward.
pub fn get_base_reward_per_increment(state: &BeaconState, context: &Context) -> (result: Result<
    Gwei,
    Error,
>)
    requires
        context.well_formed(),
    ensures
        result == base_reward_per_increment(state@, *context),
{
    let scaled = match context.effective_balance_increment.checked_mul(context.base_reward_factor) {
        Some(scaled) => scaled,
        None => {
            return Err(Error::Overflow);
        },
    };
    let total = get_total_active_balance(state, context)?;
    let root = integer_sqrt(total);
    assert(root > 0) by (nonlinear_arith)
        requires
            is_integer_sqrt(root as nat, total as nat),
            total > 0,
    ;
    Ok(scaled / root)
}

fn scale_base_reward(effective_balance: Gwei, per_increment: Gwei, context: &Context) -> (result:
    Result<Gwei, Error>)
    requires
        context.well_formed(),
    ensures
        result == base_reward_of(effective_balance, per_increment, *context),
{
    let increments = effective_balance / context.effective_balance_increment;
    match increments.checked_mul(per_increment) {
        Some(reward) => Ok(reward),
        None => Err(Error::Overflow),
    }
}

/// Returns the base reward of the validator at `index`.
pub fn get_base_reward(state: &BeaconState, index: ValidatorIndex, context: &Context) -> (result:
    Result<Gwei, Error>)
    requires
        context.well_formed(),
        index < state.validators.len(),
    ensures
        result == base_reward(state@, index as int, *context),
{
    let per_increment = get_base_reward_per_increment(state, context)?;
    scale_base_reward(state.validators[index].effective_balance, per_increment, context)
}

/// Whether `index` names a validator that takes part in the reward
/// accounting of the current epoch.
pub open spec fn eligible_at(s: StateModel, c: Context, index: int) -> bool {
    0 <= index < s.validators.len() && is_eligible(s.validators[index], previous_epoch(s, c))
}

/// The weight of the flag at `flag_index`.
pub open spec fn flag_weight(c: Context, flag_index: usize) -> u64 {
    c.participation_flag_weights[flag_index as int]
}

/// The unslashed participants of the previous epoch for one flag.
pub open spec fn previous_participants(s: StateModel, flag_index: usize, c: Context) -> Set<
    ValidatorIndex,
> {
    unslashed_participating_set(s, flag_index, previous_epoch(s, c), c)
}

/// The balance of the unslashed participants of the previous epoch and the
/// total active balance, both in increments.
pub open spec fn flag_increments(s: StateModel, flag_index: usize, c: Context) -> Result<
    (u64, u64),
    Error,
> {
    match total_balance(s, previous_participants(s, flag_index, c), c) {
        Err(e) => Err(e),
        Ok(participating) => match total_active_balance(s, c) {
            Err(e) => Err(e),
            Ok(active) => Ok(
                (
                    (participating / c.effective_balance_increment) as u64,
                    (active / c.effective_balance_increment) as u64,
                ),
            ),
        },
    }
}

/// The reward of a participant outside an inactivity leak: its base reward
/// weighted by the flag and by the share of the active balance that
/// participated.
pub open spec fn flag_reward(
    base_reward: Gwei,
    weight: u64,
    participating_increments: u64,
    active_increments: u64,
    c: Context,
) -> Result<Gwei, Error> {
    let numerator = base_reward * weight * participating_increments;
    let denominator = active_increments * c.weight_denominator;
    if base_reward * weight > u64::MAX || numerator > u64::MAX || denominator > u64::MAX {
        Err(Error::Overflow)
    } else {
        Ok((numerator / denominator) as u64)
    }
}

/// The penalty that replaces the reward during an inactivity leak: the base
/// reward weighted by the flag.
pub open spec fn flag_penalty(base_reward: Gwei, weight: u64, c: Context) -> Result<Gwei, Error> {
    if base_reward * weight > u64::MAX {
        Err(Error::Overflow)
    } else {
        Ok((base_reward * weight / c.weight_denominator as int) as u64)
    }
}

/// The reward and the penalty of one eligible validator for one flag. A
/// validator that did not participate gets neither; during a leak a
/// participant gets the penalty, but none for the head flag.
pub open spec fn flag_delta(s: StateModel, flag_index: usize, index: int, c: Context) -> Result<
    (Gwei, Gwei),
    Error,
> {
    match flag_increments(s, flag_index, c) {
        Err(e) => Err(e),
        Ok((participating_increments, active_increments)) => match base_reward(s, index, c) {
            Err(e) => Err(e),
            Ok(base) => if !previous_participants(s, flag_index, c).contains(index as usize) {
                Ok((0u64, 0u64))
            } else if !in_inactivity_leak(s, c) {
                match flag_reward(
                    base,
                    flag_weight(c, flag_index),
                    participating_increments,
                    active_increments,
                    c,
                ) {
                    Err(e) => Err(e),
                    Ok(reward) => Ok((reward, 0u64)),
                }
            } else if flag_index != TIMELY_HEAD_FLAG_INDEX {
                match flag_penalty(base, flag_weight(c, flag_index), c) {
                    Err(e) => Err(e),
                    Ok(penalty) => Ok((0u64, penalty)),
                }
            } else {
                Ok((0u64, 0u64))
            },
        },
    }
}

/// The reward in a delta, zero where there is none.
pub open spec fn reward_part(delta: Result<(Gwei, Gwei), Error>) -> Gwei {
    match delta {
        Ok(pair) => pair.0,
        Err(_) => 0,
    }
}

/// The penalty in a delta, zero where there is none.
pub open spec fn penalty_part(delta: Result<(Gwei, Gwei), Error>) -> Gwei {
    match delta {
        Ok(pair) => pair.1,
        Err(_) => 0,
    }
}

/// The rewards and the penalties of all validators for one flag, one entry
/// per validator; `Overflow` where a sum or a product on the way leaves the
/// range of 64 bits.
pub open spec fn flag_index_deltas(s: StateModel, flag_index: usize, c: Context) -> Result<
    (Seq<Gwei>, Seq<Gwei>),
    Error,
> {
    match flag_increments(s, flag_index, c) {
        Err(e) => Err(e),
        Ok(_) => if exists|i: int|
            eligible_at(s, c, i) && (#[trigger] flag_delta(s, flag_index, i, c)) is Err {
            Err(Error::Overflow)
        } else {
            Ok(
                (
                    Seq::new(
                        s.validators.len(),
                        |i: int|
                            if eligible_at(s, c, i) {
                                reward_part(flag_delta(s, flag_index, i, c))
                            } else {
                                0u64
                            },
                    ),
                    Seq::new(
                        s.validators.len(),
                        |i: int|
                            if eligible_at(s, c, i) {
                                penalty_part(flag_delta(s, flag_index, i, c))
                            } else {
                                0u64
                            },
                    ),
                ),
            )
        },
    }
}

/// Whether `j` is among the first `k` entries of `list`.
pub open spec fn listed_before(list: Seq<ValidatorIndex>, k: int, j: int) -> bool {
    exists|m: int| 0 <= m < k && #[trigger] list[m] == j
}

fn zeros(n: usize) -> (v: Vec<Gwei>)
    ensures
        v.len() == n,
        forall|i: int| 0 <= i < n ==> v[i] == 0,
{
    let mut v: Vec<Gwei> = Vec::new();
    while v.len() < n
        invariant
            v.len() <= n,
            forall|i: int| 0 <= i < v.len() ==> v[i] == 0,
        decreases n - v.len(),
    {
        v.push(0);
    }
    v
}

fn compute_flag_reward(
    base_reward: Gwei,
    weight: u64,
    participating_increments: u64,
    active_increments: u64,
    context: &Context,
) -> (result: Result<Gwei, Error>)
    requires
        context.well_formed(),
        active_increments > 0,
    ensures
        result == flag_reward(
            base_reward,
            weight,
            participating_increments,
            active_increments,
            *context,
        ),
{
    let weighted = match base_reward.checked_mul(weight) {
        Some(weighted) => weighted,
        None => {
            return Err(Error::Overflow);
        },
    };
    let numerator = match weighted.checked_mul(participating_increments) {
        Some(numerator) => numerator,
        None => {
            return Err(Error::Overflow);
        },
    };
    let denominator = match active_increments.checked_mul(context.weight_denominator) {
        Some(denominator) => denominator,
        None => {
            return Err(Error::Overflow);
        },
    };
    assert(denominator > 0) by (nonlinear_arith)
        requires
            denominator == active_increments * context.weight_denominator,
            active_increments > 0,
            context.weight_denominator > 0,
    ;
    Ok(numerator / denominator)
}

fn compute_flag_penalty(base_reward: Gwei, weight: u64, context: &Context) -> (result: Result<
    Gwei,
    Error,
>)
    requires
        context.well_formed(),
    ensures
        result == flag_penalty(base_reward, weight, *context),
{
    match base_reward.checked_mul(weight) {
        Some(weighted) => Ok(weighted / context.weight_denominator),
        None => Err(Error::Overflow),
    }
}

/// Returns the rewards and the penalties for the flag at `flag_index`, one
/// entry per validator. Only an eligible validator that participated in the
/// previous epoch gets anything: a reward outside an inactivity leak, a
/// penalty in one (none for the head flag).
#[verifier::loop_isolation(false)]
pub fn get_flag_index_deltas(state: &BeaconState, flag_index: usize, context: &Context) -> (result:
    Result<(Vec<Gwei>, Vec<Gwei>), Error>)
    requires
        context.well_formed(),
        state@.well_formed(*context),
        flag_index < PARTICIPATION_FLAG_COUNT,
    ensures
        match result {
            Ok((rewards, penalties)) => {
                &&& flag_index_deltas(state@, flag_index, *context) == Ok::<
                    (Seq<Gwei>, Seq<Gwei>),
                    Error,
                >((rewards@, penalties@))
                &&& rewards.len() == state.validators.len()
                &&& penalties.len() == state.validators.len()
                &&& forall|i: int|
                    0 <= i < state.validators.len() && !eligible_at(state@, *context, i)
                        ==> rewards[i] == 0 && penalties[i] == 0
                &&& in_inactivity_leak(state@, *context) ==> forall|i: int|
                    0 <= i < state.validators.len() ==> rewards[i] == 0
            },
            Err(e) => flag_index_deltas(state@, flag_index, *context) == Err::<
                (Seq<Gwei>, Seq<Gwei>),
                Error,
            >(e),
        },
{
    let count = state.validators.len();
    let mut rewards = zeros(count);
    let mut penalties = zeros(count);
    let previous = get_previous_epoch(state, context);
    let participants = match get_unslashed_participating_indices(
        state,
        flag_index,
        previous,
        context,
    ) {
        Ok(participants) => participants,
        Err(e) => {
            return Err(e);
        },
    };
    let weight = context.participation_flag_weights[flag_index];
    let participating_balance = get_total_balance(state, &participants, context)?;
    let participating_increments = participating_balance / context.effective_balance_increment;
    let active_balance = get_total_active_balance(state, context)?;
    let active_increments = active_balance / context.effective_balance_increment;
    assert(active_increments >= 1) by (nonlinear_arith)
        requires
            active_increments == active_balance / context.effective_balance_increment,
            active_balance >= context.effective_balance_increment > 0,
    ;
    let per_increment = get_base_reward_per_increment(state, context);
    let leaking = is_in_inactivity_leak(state, context);
    let eligible = get_eligible_validator_indices(state, context);
    let ghost s = state@;
    let ghost c = *context;
    proof {
        assert(s.validators.len() == count);
        lemma_indices_where(
            |i: int| is_eligible(s.validators[i], previous_epoch(s, c)),
            s.validators.len(),
        );
    }
    let mut k: usize = 0;
    while k < eligible.len()
        invariant
            k <= eligible.len(),
            rewards.len() == count,
            penalties.len() == count,
            forall|j: int|
                0 <= j < count ==> #[trigger] rewards[j] == if listed_before(
                    eligible@,
                    k as int,
                    j,
                ) {
                    reward_part(flag_delta(s, flag_index, j, c))
                } else {
                    0
                },
            forall|j: int|
                0 <= j < count ==> #[trigger] penalties[j] == if listed_before(
                    eligible@,
                    k as int,
                    j,
                ) {
                    penalty_part(flag_delta(s, flag_index, j, c))
                } else {
                    0
                },
            forall|m: int|
                0 <= m < k ==> flag_delta(s, flag_index, #[trigger] eligible[m] as int, c) is Ok,
        decreases eligible.len() - k,
    {
        let index = eligible[k];
        assert(!listed_before(eligible@, k as int, index as int));
        let ghost delta = flag_delta(s, flag_index, index as int, c);
        let scaled = match per_increment {
            Ok(per_increment) => scale_base_reward(
                state.validators[index].effective_balance,
                per_increment,
                context,
            ),
            Err(e) => Err(e),
        };
        let base = match scaled {
            Ok(base) => base,
            Err(e) => {
                assert(delta is Err);
                return Err(e);
            },
        };
        if participants.contains(&index) {
            if !leaking {
                let reward = match compute_flag_reward(
                    base,
                    weight,
                    participating_increments,
                    active_increments,
                    context,
                ) {
                    Ok(reward) => reward,
                    Err(e) => {
                        assert(delta is Err);
                        return Err(e);
                    },
                };
                rewards[index] = rewards[index] + reward;
            } else if flag_index != TIMELY_HEAD_FLAG_INDEX {
                let penalty = match compute_flag_penalty(base, weight, context) {
                    Ok(penalty) => penalty,
                    Err(e) => {
                        assert(delta is Err);
                        return Err(e);
                    },
                };
                penalties[index] = penalties[index] + penalty;
            }
        }
        assert forall|j: int| 0 <= j < count implies (listed_before(eligible@, k + 1, j)
            <==> listed_before(eligible@, k as int, j) || j == index) by {
            if j == index {
                assert(eligible@[k as int] == j);
            }
        }
        k += 1;
    }
    proof {
        assert forall|i: int| eligible_at(s, c, i) implies listed_before(
            eligible@,
            eligible.len() as int,
            i,
        ) by {
            assert(eligible@.contains(i as usize));
        }
        assert forall|i: int| eligible_at(s, c, i) implies (#[trigger] flag_delta(
            s,
            flag_index,
            i,
            c,
        )) is Ok by {
            let m = choose|m: int| 0 <= m < eligible.len() && eligible@[m] == i;
            assert(flag_delta(s, flag_index, eligible[m] as int, c) is Ok);
        }
        assert forall|i: int| 0 <= i < count && listed_before(
            eligible@,
            eligible.len() as int,
            i,
        ) implies eligible_at(s, c, i) by {
            let m = choose|m: int| 0 <= m < eligible.len() && eligible@[m] == i;
            assert(eligible_at(s, c, eligible@[m] as int));
        }
        let expected = flag_index_deltas(s, flag_index, c);
        assert(rewards@ =~= expected->Ok_0.0);
        assert(penalties@ =~= expected->Ok_0.1);
    }
    Ok((rewards, penalties))
}

/// The penalty of a validator that missed the target during an inactivity
/// leak: its effective balance times its inactivity score, divided by the
/// bias of the score times the quotient of the fork.
pub open spec fn inactivity_penalty(
    effective_balance: Gwei,
    inactivity_score: u64,
    quotient: u64,
    c: Context,
) -> Result<Gwei, Error> {
    let numerator = effective_balance * inactivity_score;
    let denominator = c.inactivity_score_bias * quotient;
    if numerator > u64::MAX || denominator > u64::MAX {
        Err(Error::Overflow)
    } else {
        Ok((numerator / denominator) as u64)
    }
}

/// The inactivity penalty of one eligible validator: none where it matched
/// the target in the previous epoch.
pub open spec fn inactivity_delta(s: StateModel, index: int, quotient: u64, c: Context) -> Result<
    Gwei,
    Error,
> {
    if previous_participants(s, TIMELY_TARGET_FLAG_INDEX, c).contains(index as usize) {
        Ok(0u64)
    } else {
        inactivity_penalty(
            s.validators[index].effective_balance,
            s.inactivity_scores[index],
            quotient,
            c,
        )
    }
}

/// The amount in an outcome, zero where there is none.
pub open spec fn amount_part(outcome: Result<Gwei, Error>) -> Gwei {
    match outcome {
        Ok(amount) => amount,
        Err(_) => 0,
    }
}

/// The inactivity penalties of all validators, with rewards that are all
/// zero: `ForkConfigError` where the fork of the current epoch defines no
/// quotient, `Overflow` where a product on the way leaves the range of 64
/// bits.
pub open spec fn inactivity_penalty_deltas(s: StateModel, c: Context) -> Result<
    (Seq<Gwei>, Seq<Gwei>),
    Error,
> {
    let epoch = current_epoch(s, c);
    match fork_value(c.inactivity_penalty_quotient.of(c.fork_at(epoch)), epoch) {
        Err(e) => Err(e),
        Ok(quotient) => if exists|i: int|
            eligible_at(s, c, i) && (#[trigger] inactivity_delta(s, i, quotient, c)) is Err {
            Err(Error::Overflow)
        } else {
            Ok(
                (
                    Seq::new(s.validators.len(), |i: int| 0u64),
                    Seq::new(
                        s.validators.len(),
                        |i: int|
                            if eligible_at(s, c, i) {
                                amount_part(inactivity_delta(s, i, quotient, c))
                            } else {
                                0u64
                            },
                    ),
                ),
            )
        },
    }
}

fn compute_inactivity_penalty(
    effective_balance: Gwei,
    inactivity_score: u64,
    quotient: u64,
    context: &Context,
) -> (result: Result<Gwei, Error>)
    requires
        context.well_formed(),
        quotient > 0,
    ensures
        result == inactivity_penalty(effective_balance, inactivity_score, quotient, *context),
{
    let numerator = match effective_balance.checked_mul(inactivity_score) {
        Some(numerator) => numerator,
        None => {
            return Err(Error::Overflow);
        },
    };
    let denominator = match context.inactivity_score_bias.checked_mul(quotient) {
        Some(denominator) => denominator,
        None => {
            return Err(Error::Overflow);
        },
    };
    assert(denominator > 0) by (nonlinear_arith)
        requires
            denominator == context.inactivity_score_bias * quotient,
            context.inactivity_score_bias > 0,
            quotient > 0,
    ;
    Ok(numerator / denominator)
}

/// Returns the rewards, all zero, and the inactivity penalties, one entry
/// per validator. An eligible validator that did not match the target in the
/// previous epoch pays in proportion to its effective balance and to its
/// inactivity score.
#[verifier::loop_isolation(false)]
pub fn get_inactivity_penalty_deltas(state: &BeaconState, context: &Context) -> (result: Result<
    (Vec<Gwei>, Vec<Gwei>),
    Error,
>)
    requires
        context.well_formed(),
        state@.well_formed(*context),
    ensures
        match result {
            Ok((rewards, penalties)) => {
                &&& inactivity_penalty_deltas(state@, *context) == Ok::<
                    (Seq<Gwei>, Seq<Gwei>),
                    Error,
                >((rewards@, penalties@))
                &&& rewards.len() == state.validators.len()
                &&& penalties.len() == state.validators.len()
                &&& forall|i: int| 0 <= i < state.validators.len() ==> rewards[i] == 0
            },
            Err(e) => inactivity_penalty_deltas(state@, *context) == Err::<
                (Seq<Gwei>, Seq<Gwei>),
                Error,
            >(e),
        },
{
    let count = state.validators.len();
    let rewards = zeros(count);
    let mut penalties = zeros(count);
    let previous = get_previous_epoch(state, context);
    let matching = match get_unslashed_participating_indices(
        state,
        TIMELY_TARGET_FLAG_INDEX,
        previous,
        context,
    ) {
        Ok(matching) => matching,
        Err(e) => {
            return Err(e);
        },
    };
    let current = get_current_epoch(state, context);
    let quotient = context.inactivity_penalty_quotient(current)?;
    let eligible = get_eligible_validator_indices(state, context);
    let ghost s = state@;
    let ghost c = *context;
    proof {
        assert(s.validators.len() == count);
        lemma_indices_where(
            |i: int| is_eligible(s.validators[i], previous_epoch(s, c)),
            s.validators.len(),
        );
    }
    let mut k: usize = 0;
    while k < eligible.len()
        invariant
            k <= eligible.len(),
            penalties.len() == count,
            forall|j: int|
                0 <= j < count ==> #[trigger] penalties[j] == if listed_before(
                    eligible@,
                    k as int,
                    j,
                ) {
                    amount_part(inactivity_delta(s, j, quotient, c))
                } else {
                    0
                },
            forall|m: int|
                0 <= m < k ==> inactivity_delta(
                    s,
                    #[trigger] eligible[m] as int,
                    quotient,
                    c,
                ) is Ok,
        decreases eligible.len() - k,
    {
        let index = eligible[k];
        assert(!listed_before(eligible@, k as int, index as int));
        let ghost delta = inactivity_delta(s, index as int, quotient, c);
        if !matching.contains(&index) {
            let penalty = match compute_inactivity_penalty(
                state.validators[index].effective_balance,
                state.inactivity_scores[index],
                quotient,
                context,
            ) {
                Ok(penalty) => penalty,
                Err(e) => {
                    assert(delta is Err);
                    return Err(e);
                },
            };
            penalties[index] = penalties[index] + penalty;
        }
        assert forall|j: int| 0 <= j < count implies (listed_before(eligible@, k + 1, j)
            <==> listed_before(eligible@, k as int, j) || j == index) by {
            if j == index {
                assert(eligible@[k as int] == j);
            }
        }
        k += 1;
    }
    proof {
        assert forall|i: int| eligible_at(s, c, i) implies listed_before(
            eligible@,
            eligible.len() as int,
            i,
        ) by {
            assert(eligible@.contains(i as usize));
        }
        assert forall|i: int| eligible_at(s, c, i) implies (#[trigger] inactivity_delta(
            s,
            i,
            quotient,
            c,
        )) is Ok by {
            let m = choose|m: int| 0 <= m < eligible.len() && eligible@[m] == i;
            assert(inactivity_delta(s, eligible[m] as int, quotient, c) is Ok);
        }
        assert forall|i: int| 0 <= i < count && listed_before(
            eligible@,
            eligible.len() as int,
            i,
        ) implies eligible_at(s, c, i) by {
            let m = choose|m: int| 0 <= m < eligible.len() && eligible@[m] == i;
            assert(eligible_at(s, c, eligible@[m] as int));
        }
        let expected = inactivity_penalty_deltas(s, c);
        assert(rewards@ =~= expected->Ok_0.0);
        assert(penalties@ =~= expected->Ok_0.1);
    }
    Ok((rewards, penalties))
}

/// No validator outside the eligible set gets a reward or a penalty for a
/// flag, and during an inactivity leak no validator gets a reward.
pub proof fn lemma_flag_index_deltas_zero(s: StateModel, flag_index: usize, c: Context, index: int)
    requires
        flag_index_deltas(s, flag_index, c) is Ok,
        0 <= index < s.validators.len(),
    ensures
        !eligible_at(s, c, index) ==> flag_index_deltas(s, flag_index, c)->Ok_0.0[index] == 0
            && flag_index_deltas(s, flag_index, c)->Ok_0.1[index] == 0,
        in_inactivity_leak(s, c) ==> flag_index_deltas(s, flag_index, c)->Ok_0.0[index] == 0,
{
}

} // verus!
