//! The slashing of a validator.

use crate::accessors::{
    current_epoch, decrease_balance, get_current_epoch, increase_balance, with_decreased_balance,
    with_increased_balance,
};
use crate::config::{fork_value, Context};
use crate::error::Error;
use crate::primitives::{Gwei, ValidatorIndex};
use crate::registry::{initiate_validator_exit, with_exit_initiated};
use crate::sampling::{
    beacon_proposer_index, get_beacon_proposer_index, lemma_beacon_proposer_in_range,
};
use crate::state::{BeaconState, StateModel, Validator};
use vstd::prelude::*;

verus! {

/// Where the slashings of the current epoch are added up.
pub open spec fn slashings_position(s: StateModel, c: Context) -> int {
    current_epoch(s, c) as int % c.epochs_per_slashings_vector as int
}

/// The state after the validator at `index` has been marked as slashed, its
/// stake locked for a full round of the slashings vector, and its effective
/// balance added to the slashings of the current epoch.
pub open spec fn with_stake_locked(s: StateModel, index: int, c: Context) -> Result<
    StateModel,
    Error,
> {
    let lock_until = current_epoch(s, c) + c.epochs_per_slashings_vector;
    let position = slashings_position(s, c);
    let validator = s.validators[index];
    let accumulated = s.slashings[position] + validator.effective_balance;
    if lock_until > u64::MAX || accumulated > u64::MAX {
        Err(Error::Overflow)
    } else {
        Ok(
            StateModel {
                validators: s.validators.update(
                    index,
                    Validator {
                        slashed: true,
                        withdrawable_epoch: if validator.withdrawable_epoch < lock_until {
                            lock_until as u64
                        } else {
                            validator.withdrawable_epoch
                        },
                        ..validator
                    },
                ),
                slashings: s.slashings.update(position, accumulated as u64),
                ..s
            },
        )
    }
}

/// The part of its effective balance that a slashed validator loses at once.
pub open spec fn slashing_penalty(s: StateModel, index: int, quotient: u64) -> Gwei {
    (s.validators[index].effective_balance / quotient) as u64
}

/// The state after the validator at `index` has paid the immediate penalty.
pub open spec fn with_slashing_penalty(s: StateModel, index: int, c: Context) -> Result<
    StateModel,
    Error,
> {
    let epoch = current_epoch(s, c);
    match fork_value(c.min_slashing_penalty_quotient.of(c.fork_at(epoch)), epoch) {
        Err(e) => Err(e),
        Ok(quotient) => Ok(with_decreased_balance(s, index, slashing_penalty(s, index, quotient))),
    }
}

/// What the slashing of the validator at `index` pays out in all.
pub open spec fn whistleblower_reward(s: StateModel, index: int, c: Context) -> Gwei {
    (s.validators[index].effective_balance / c.whistleblower_reward_quotient) as u64
}

/// The part of the payout that goes to the proposer. The weight of the
/// proposer is divided by the denominator first, and the whole quotient
/// multiplies the payout.
pub open spec fn proposer_reward(s: StateModel, index: int, c: Context) -> int {
    whistleblower_reward(s, index, c) * (c.proposer_weight / c.weight_denominator)
}

/// The state after the proposer and the whistleblower have been paid: the
/// proposer its part, the whistleblower the rest.
pub open spec fn with_slashing_rewards(
    s: StateModel,
    index: int,
    proposer: int,
    whistleblower: int,
    c: Context,
) -> Result<StateModel, Error> {
    let total = whistleblower_reward(s, index, c);
    let to_proposer = proposer_reward(s, index, c);
    if to_proposer > total || s.balances[proposer] + to_proposer > u64::MAX {
        Err(Error::Overflow)
    } else {
        let credited = with_increased_balance(s, proposer, to_proposer as u64);
        if credited.balances[whistleblower] + (total - to_proposer) > u64::MAX {
            Err(Error::Overflow)
        } else {
            Ok(with_increased_balance(credited, whistleblower, (total - to_proposer) as u64))
        }
    }
}

/// Who gets the rest of the payout: the whistleblower named, or the proposer
/// where none is named.
pub open spec fn whistleblower_or(
    whistleblower: Option<ValidatorIndex>,
    proposer: ValidatorIndex,
) -> ValidatorIndex {
    match whistleblower {
        Some(index) => index,
        None => proposer,
    }
}

/// The state in which the proposer of a slashing is looked up: the slashed
/// validator is leaving, locked, and has paid the immediate penalty.
pub open spec fn penalized_state(s: StateModel, index: int, c: Context) -> Result<
    StateModel,
    Error,
> {
    match with_exit_initiated(s, index, c) {
        Err(e) => Err(e),
        Ok(exiting) => match with_stake_locked(exiting, index, c) {
            Err(e) => Err(e),
            Ok(locked) => with_slashing_penalty(locked, index, c),
        },
    }
}

/// The state that a slashing leaves and how it ends. The steps follow each
/// other in a fixed order; a step that fails leaves the state as the steps
/// before it made it.
pub open spec fn slash_outcome(
    s: StateModel,
    index: int,
    whistleblower: Option<ValidatorIndex>,
    c: Context,
) -> (StateModel, Result<(), Error>) {
    match with_exit_initiated(s, index, c) {
        Err(e) => (s, Err(e)),
        Ok(exiting) => match with_stake_locked(exiting, index, c) {
            Err(e) => (exiting, Err(e)),
            Ok(locked) => match with_slashing_penalty(locked, index, c) {
                Err(e) => (locked, Err(e)),
                Ok(penalized) => match beacon_proposer_index(penalized, c) {
                    Err(e) => (penalized, Err(e)),
                    Ok(proposer) => match with_slashing_rewards(
                        penalized,
                        index,
                        proposer as int,
                        whistleblower_or(whistleblower, proposer) as int,
                        c,
                    ) {
                        Err(e) => (penalized, Err(e)),
                        Ok(rewarded) => (rewarded, Ok(())),
                    },
                },
            },
        },
    }
}

/// Slashes the validator at `slashed_index`: puts it in the exit queue,
/// marks it, locks its stake, adds its effective balance to the slashings of
/// the current epoch, takes the immediate penalty from its balance, and pays
/// the proposer and the whistleblower. Without a whistleblower the proposer
/// gets both parts.
pub fn slash_validator(
    state: &mut BeaconState,
    slashed_index: ValidatorIndex,
    whistleblower_index: Option<ValidatorIndex>,
    context: &Context,
) -> (result: Result<(), Error>)
    requires
        context.well_formed(),
        old(state)@.well_formed(*context),
        slashed_index < old(state).validators.len(),
        whistleblower_index matches Some(index) ==> index < old(state).validators.len(),
    ensures
        (final(state)@, result) == slash_outcome(
            old(state)@,
            slashed_index as int,
            whistleblower_index,
            *context,
        ),
        final(state)@.well_formed(*context),
        result is Ok ==> final(state).validators[slashed_index as int].slashed,
        result is Ok ==> final(state).validators[slashed_index as int].withdrawable_epoch
            >= current_epoch(old(state)@, *context) + context.epochs_per_slashings_vector,
{
    let epoch = get_current_epoch(state, context);
    initiate_validator_exit(state, slashed_index, context)?;
    let ghost exiting = state@;
    proof {
        assert(exiting.well_formed(*context));
        assert(state.slashings.len() == context.epochs_per_slashings_vector);
        assert(epoch % context.epochs_per_slashings_vector < context.epochs_per_slashings_vector)
            by (nonlinear_arith)
            requires
                context.epochs_per_slashings_vector > 0,
        ;
    }
    let lock_until = match epoch.checked_add(context.epochs_per_slashings_vector) {
        Some(lock_until) => lock_until,
        None => {
            return Err(Error::Overflow);
        },
    };
    let position = (epoch % context.epochs_per_slashings_vector) as usize;
    let effective_balance = state.validators[slashed_index].effective_balance;
    let accumulated = match state.slashings[position].checked_add(effective_balance) {
        Some(accumulated) => accumulated,
        None => {
            return Err(Error::Overflow);
        },
    };
    let mut validator = state.validators[slashed_index];
    validator.slashed = true;
    if validator.withdrawable_epoch < lock_until {
        validator.withdrawable_epoch = lock_until;
    }
    state.validators[slashed_index] = validator;
    state.slashings[position] = accumulated;
    let ghost locked = state@;
    let quotient = context.min_slashing_penalty_quotient(epoch)?;
    decrease_balance(state, slashed_index, effective_balance / quotient);
    let ghost penalized = state@;
    let proposer_index = get_beacon_proposer_index(state, context)?;
    let whistleblower = match whistleblower_index {
        Some(index) => index,
        None => proposer_index,
    };
    let total = effective_balance / context.whistleblower_reward_quotient;
    let scale = context.proposer_weight / context.weight_denominator;
    let to_proposer = match total.checked_mul(scale) {
        Some(to_proposer) => to_proposer,
        None => {
            return Err(Error::Overflow);
        },
    };
    let rest = match total.checked_sub(to_proposer) {
        Some(rest) => rest,
        None => {
            return Err(Error::Overflow);
        },
    };
    let proposer_balance = match state.balances[proposer_index].checked_add(to_proposer) {
        Some(balance) => balance,
        None => {
            return Err(Error::Overflow);
        },
    };
    let whistleblower_balance = if whistleblower == proposer_index {
        proposer_balance
    } else {
        state.balances[whistleblower]
    };
    if whistleblower_balance.checked_add(rest).is_none() {
        return Err(Error::Overflow);
    }
    increase_balance(state, proposer_index, to_proposer);
    increase_balance(state, whistleblower, rest);
    Ok(())
}

/// A validator that has been slashed is marked as slashed, and its stake
/// stays locked for at least a full round of the slashings vector.
pub proof fn lemma_slashed_validator_is_locked(
    s: StateModel,
    index: int,
    whistleblower: Option<ValidatorIndex>,
    c: Context,
)
    requires
        0 <= index < s.validators.len(),
        slash_outcome(s, index, whistleblower, c).1 is Ok,
    ensures
        slash_outcome(s, index, whistleblower, c).0.validators[index].slashed,
        slash_outcome(s, index, whistleblower, c).0.validators[index].withdrawable_epoch
            >= current_epoch(s, c) + c.epochs_per_slashings_vector,
{
}

/// The immediate penalty takes the effective balance divided by the quotient
/// of the fork from the balance of the slashed validator, and exactly that
/// where the balance covers it.
pub proof fn lemma_slashing_penalty_is_exact(s: StateModel, index: int, c: Context)
    requires
        c.well_formed(),
        0 <= index < s.validators.len() == s.balances.len(),
        with_slashing_penalty(s, index, c) is Ok,
        s.balances[index] >= s.validators[index].effective_balance
            / c.min_slashing_penalty_quotient.of(c.fork_at(current_epoch(s, c)))->Some_0,
    ensures
        with_slashing_penalty(s, index, c)->Ok_0.balances[index] == s.balances[index]
            - s.validators[index].effective_balance / c.min_slashing_penalty_quotient.of(
            c.fork_at(current_epoch(s, c)),
        )->Some_0,
{
    let quotient = c.min_slashing_penalty_quotient.of(c.fork_at(current_epoch(s, c)))->Some_0;
    let balance = s.validators[index].effective_balance;
    assert(0 <= balance / quotient <= balance) by (nonlinear_arith)
        requires
            quotient > 0,
            balance >= 0,
    ;
}

/// The two payments of a slashing add up to the whole payout: the proposer
/// gets its part and the whistleblower the rest, and a proposer that is its
/// own whistleblower gets the whole payout once. No other balance changes.
pub proof fn lemma_slashing_rewards_add_up(
    s: StateModel,
    index: int,
    proposer: int,
    whistleblower: int,
    c: Context,
)
    requires
        c.well_formed(),
        0 <= proposer < s.balances.len(),
        0 <= whistleblower < s.balances.len(),
        with_slashing_rewards(s, index, proposer, whistleblower, c) is Ok,
    ensures
        proposer_reward(s, index, c) + (whistleblower_reward(s, index, c) - proposer_reward(
            s,
            index,
            c,
        )) == whistleblower_reward(s, index, c),
        proposer == whistleblower ==> with_slashing_rewards(
            s,
            index,
            proposer,
            whistleblower,
            c,
        )->Ok_0.balances[proposer] == s.balances[proposer] + whistleblower_reward(s, index, c),
        proposer != whistleblower ==> with_slashing_rewards(
            s,
            index,
            proposer,
            whistleblower,
            c,
        )->Ok_0.balances[proposer] == s.balances[proposer] + proposer_reward(s, index, c)
            && with_slashing_rewards(
            s,
            index,
            proposer,
            whistleblower,
            c,
        )->Ok_0.balances[whistleblower]
            == s.balances[whistleblower] + whistleblower_reward(s, index, c) - proposer_reward(
            s,
            index,
            c,
        ),
        forall|other: int|
            0 <= other < s.balances.len() && other != proposer && other != whistleblower
                ==> with_slashing_rewards(
                s,
                index,
                proposer,
                whistleblower,
                c,
            )->Ok_0.balances[other]
                == s.balances[other],
{
    let balance = s.validators[index].effective_balance;
    let total = balance / c.whistleblower_reward_quotient;
    let scale = c.proposer_weight / c.weight_denominator;
    assert(0 <= total <= balance) by (nonlinear_arith)
        requires
            total == balance / c.whistleblower_reward_quotient,
            c.whistleblower_reward_quotient > 0,
            balance >= 0,
    ;
    assert(0 <= scale) by (nonlinear_arith)
        requires
            scale == c.proposer_weight / c.weight_denominator,
            c.weight_denominator > 0,
            c.proposer_weight >= 0,
    ;
    assert(0 <= total * scale) by (nonlinear_arith)
        requires
            0 <= total,
            0 <= scale,
    ;
}

/// What a slashing that went through has done to the balances. The slashed
/// validator has lost the immediate penalty, and exactly that where its
/// balance covered it and it is neither the proposer nor the whistleblower.
/// The proposer and the whistleblower have gained the whole payout between
/// them, once, also where they are the same validator. No other balance has
/// changed.
pub proof fn lemma_slash_validator_moves_balances(
    s: StateModel,
    index: int,
    whistleblower: Option<ValidatorIndex>,
    c: Context,
)
    requires
        c.well_formed(),
        s.well_formed(c),
        s.validators.len() <= usize::MAX,
        0 <= index < s.validators.len(),
        whistleblower matches Some(named) ==> named < s.validators.len(),
        slash_outcome(s, index, whistleblower, c).1 is Ok,
    ensures
        ({
            let after = slash_outcome(s, index, whistleblower, c).0;
            let penalized = penalized_state(s, index, c)->Ok_0;
            let proposer = beacon_proposer_index(penalized, c)->Ok_0 as int;
            let paid = whistleblower_or(whistleblower, proposer as usize) as int;
            let quotient = c.min_slashing_penalty_quotient.of(
                c.fork_at(current_epoch(s, c)),
            )->Some_0;
            let penalty = s.validators[index].effective_balance / quotient;
            let payout = s.validators[index].effective_balance / c.whistleblower_reward_quotient;
            &&& 0 <= proposer < s.validators.len()
            &&& 0 <= paid < s.validators.len()
            &&& after.balances.len() == s.balances.len()
            &&& penalized.balances[index] == if s.balances[index] >= penalty {
                s.balances[index] - penalty
            } else {
                0
            }
            &&& index != proposer && index != paid ==> after.balances[index]
                == penalized.balances[index]
            &&& proposer == paid && proposer != index ==> after.balances[proposer]
                == s.balances[proposer] + payout
            &&& proposer != paid && proposer != index && paid != index ==> after.balances[proposer]
                + after.balances[paid] == s.balances[proposer] + s.balances[paid] + payout
            &&& forall|other: int|
                0 <= other < s.balances.len() && other != index && other != proposer && other
                    != paid ==> after.balances[other] == s.balances[other]
        }),
{
    let exiting = with_exit_initiated(s, index, c)->Ok_0;
    let locked = with_stake_locked(exiting, index, c)->Ok_0;
    let penalized = with_slashing_penalty(locked, index, c)->Ok_0;
    lemma_beacon_proposer_in_range(penalized, c);
    let proposer = beacon_proposer_index(penalized, c)->Ok_0 as int;
    let paid = whistleblower_or(whistleblower, proposer as usize) as int;
    let quotient = c.min_slashing_penalty_quotient.of(c.fork_at(current_epoch(s, c)))->Some_0;
    let balance = s.validators[index].effective_balance;
    assert(0 <= balance / quotient <= balance) by (nonlinear_arith)
        requires
            quotient > 0,
            balance >= 0,
    ;
    lemma_slashing_rewards_add_up(penalized, index, proposer, paid, c);
}

} // verus!
