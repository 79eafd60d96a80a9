use altair_consensus::config::Context;
use altair_consensus::error::Error;
use altair_consensus::primitives::{Checkpoint, FAR_FUTURE_EPOCH};
use altair_consensus::slashing::slash_validator;
use altair_consensus::state::{BeaconState, SyncCommittee, Validator};
use altair_consensus::sync_committee::{
    assemble_sync_committee, collect_public_keys, get_next_sync_committee,
};
use blst::min_pk::{AggregatePublicKey, PublicKey, SecretKey};
use blst::BLST_ERROR;

const GWEI: u64 = 1_000_000_000;

fn small_context() -> Context {
    let mut context = Context::for_minimal();
    context.sync_committee_size = 4;
    context
}

fn validator(effective_balance: u64) -> Validator {
    Validator {
        public_key: [0u8; 48],
        effective_balance,
        slashed: false,
        activation_epoch: 0,
        exit_epoch: FAR_FUTURE_EPOCH,
        withdrawable_epoch: FAR_FUTURE_EPOCH,
    }
}

fn state_of(effective_balances: &[u64]) -> BeaconState {
    let count = effective_balances.len();
    BeaconState {
        slot: 83,
        validators: effective_balances.iter().map(|balance| validator(*balance)).collect(),
        balances: effective_balances.to_vec(),
        previous_epoch_participation: vec![0; count],
        current_epoch_participation: vec![0; count],
        inactivity_scores: vec![0; count],
        slashings: vec![0; 64],
        block_roots: (0..64).map(|i| [i as u8; 32]).collect(),
        randao_mixes: (0..64).map(|i| [(i + 1) as u8; 32]).collect(),
        previous_justified_checkpoint: Checkpoint { epoch: 8, root: [0xaa; 32] },
        current_justified_checkpoint: Checkpoint { epoch: 9, root: [0xbb; 32] },
        finalized_checkpoint: Checkpoint { epoch: 8, root: [0xaa; 32] },
    }
}

fn public_key(number: u8) -> [u8; 48] {
    SecretKey::key_gen(&[number; 32], &[]).unwrap().sk_to_pk().to_bytes()
}

fn state_with_keys() -> BeaconState {
    let mut state = state_of(&[32 * GWEI; 8]);
    for (index, validator) in state.validators.iter_mut().enumerate() {
        validator.public_key = public_key(index as u8 + 1);
    }
    state
}

fn sum_of(keys: &[[u8; 48]]) -> [u8; 48] {
    let decoded: Vec<PublicKey> =
        keys.iter().map(|key| PublicKey::from_bytes(key).unwrap()).collect();
    let borrowed: Vec<&PublicKey> = decoded.iter().collect();
    AggregatePublicKey::aggregate(&borrowed, true).unwrap().to_public_key().to_bytes()
}

#[test]
fn slashing_runs_through_all_its_steps() {
    let context = small_context();
    let mut state = state_of(&[32 * GWEI; 8]);
    assert_eq!(slash_validator(&mut state, 3, None, &context), Ok(()));
    let slashed = state.validators[3];
    assert!(slashed.slashed);
    assert_eq!(slashed.exit_epoch, 15);
    assert_eq!(slashed.withdrawable_epoch, 271);
    assert_eq!(slashed.effective_balance, 32 * GWEI);
    let mut slashings = vec![0u64; 64];
    slashings[10] = 32 * GWEI;
    assert_eq!(state.slashings, slashings);
    // the proposer is validator 6 and has no whistleblower beside it
    let mut balances = vec![32 * GWEI; 8];
    balances[3] = 32 * GWEI - 500_000_000;
    balances[6] = 32 * GWEI + 62_500_000;
    assert_eq!(state.balances, balances);
    for index in [0usize, 1, 2, 4, 5, 6, 7] {
        assert_eq!(state.validators[index], validator(32 * GWEI));
    }
}

#[test]
fn slashing_pays_the_whistleblower_the_rest() {
    let context = small_context();
    let mut state = state_of(&[32 * GWEI; 8]);
    assert_eq!(slash_validator(&mut state, 3, Some(2), &context), Ok(()));
    // the weight of the proposer, 8, is divided by 64 before it multiplies
    let mut balances = vec![32 * GWEI; 8];
    balances[3] = 32 * GWEI - 500_000_000;
    balances[2] = 32 * GWEI + 62_500_000;
    assert_eq!(state.balances, balances);
}

#[test]
fn slashing_splits_the_payout_by_the_whole_quotient_of_the_weights() {
    let mut context = small_context();
    context.proposer_weight = 64;
    let mut state = state_of(&[32 * GWEI; 8]);
    assert_eq!(slash_validator(&mut state, 3, Some(2), &context), Ok(()));
    let mut balances = vec![32 * GWEI; 8];
    balances[3] = 32 * GWEI - 500_000_000;
    balances[6] = 32 * GWEI + 62_500_000;
    assert_eq!(state.balances, balances);
    context.proposer_weight = 127;
    let mut state = state_of(&[32 * GWEI; 8]);
    assert_eq!(slash_validator(&mut state, 3, Some(2), &context), Ok(()));
    assert_eq!(state.balances, balances);
}

#[test]
fn slashing_credits_a_proposer_that_is_its_own_whistleblower_once() {
    let context = small_context();
    let mut named = state_of(&[32 * GWEI; 8]);
    assert_eq!(slash_validator(&mut named, 3, Some(6), &context), Ok(()));
    let mut unnamed = state_of(&[32 * GWEI; 8]);
    assert_eq!(slash_validator(&mut unnamed, 3, None, &context), Ok(()));
    assert_eq!(named, unnamed);
    assert_eq!(named.balances[6], 32 * GWEI + 62_500_000);
    let total: u64 = named.balances.iter().sum();
    assert_eq!(total, 8 * 32 * GWEI - 500_000_000 + 62_500_000);
}

#[test]
fn slashing_the_proposer_itself() {
    let context = small_context();
    let mut state = state_of(&[32 * GWEI; 8]);
    assert_eq!(slash_validator(&mut state, 6, None, &context), Ok(()));
    assert!(state.validators[6].slashed);
    assert_eq!(state.balances[6], 32 * GWEI - 500_000_000 + 62_500_000);
}

#[test]
fn slashing_locks_the_stake_for_a_round_of_the_slashings_vector() {
    let mut context = small_context();
    context.min_validator_withdrawability_delay = 2;
    let mut state = state_of(&[32 * GWEI; 8]);
    assert_eq!(slash_validator(&mut state, 0, None, &context), Ok(()));
    assert_eq!(state.validators[0].exit_epoch, 15);
    assert_eq!(state.validators[0].withdrawable_epoch, 10 + 64);
}

#[test]
fn slashing_a_validator_that_is_leaving_keeps_its_exit() {
    let context = small_context();
    let mut state = state_of(&[32 * GWEI; 8]);
    state.validators[1].exit_epoch = 12;
    state.validators[1].withdrawable_epoch = 500;
    assert_eq!(slash_validator(&mut state, 1, None, &context), Ok(()));
    assert!(state.validators[1].slashed);
    assert_eq!(state.validators[1].exit_epoch, 12);
    assert_eq!(state.validators[1].withdrawable_epoch, 500);
    state.validators[2].exit_epoch = 12;
    state.validators[2].withdrawable_epoch = 20;
    assert_eq!(slash_validator(&mut state, 2, None, &context), Ok(()));
    assert_eq!(state.validators[2].withdrawable_epoch, 74);
    assert_eq!(state.slashings[10], 64 * GWEI);
}

#[test]
fn slashing_takes_no_more_than_the_balance() {
    let context = small_context();
    let mut state = state_of(&[32 * GWEI; 8]);
    state.balances[4] = 1000;
    assert_eq!(slash_validator(&mut state, 4, Some(0), &context), Ok(()));
    assert_eq!(state.balances[4], 0);
    assert_eq!(state.balances[0], 32 * GWEI + 62_500_000);
}

#[test]
fn slashing_uses_the_penalty_quotient_of_the_fork() {
    let mut context = small_context();
    context.altair_fork_epoch = 11;
    context.min_slashing_penalty_quotient.phase0 = Some(128);
    let mut state = state_of(&[32 * GWEI; 8]);
    assert_eq!(slash_validator(&mut state, 3, None, &context), Ok(()));
    assert_eq!(state.balances[3], 32 * GWEI - 250_000_000);
}

#[test]
fn slashing_without_a_penalty_quotient_is_a_fork_config_error() {
    let mut context = small_context();
    context.min_slashing_penalty_quotient.altair = None;
    let mut state = state_of(&[32 * GWEI; 8]);
    assert_eq!(
        slash_validator(&mut state, 3, None, &context),
        Err(Error::ForkConfigError { epoch: 10 })
    );
    // the steps before the penalty have been taken
    assert!(state.validators[3].slashed);
    assert_eq!(state.validators[3].exit_epoch, 15);
    assert_eq!(state.slashings[10], 32 * GWEI);
    assert_eq!(state.balances, vec![32 * GWEI; 8]);
}

#[test]
fn slashing_without_a_proposer_fails() {
    let context = small_context();
    let mut state = state_of(&[32 * GWEI; 8]);
    for validator in state.validators.iter_mut() {
        validator.exit_epoch = 10;
    }
    assert_eq!(slash_validator(&mut state, 3, Some(1), &context), Err(Error::NoProposer));
    assert_eq!(state.balances[3], 32 * GWEI - 500_000_000);
    assert_eq!(state.balances[1], 32 * GWEI);
}

#[test]
fn slashing_reports_an_overflow() {
    let context = small_context();
    let mut state = state_of(&[32 * GWEI; 8]);
    state.slashings[10] = u64::MAX - 32 * GWEI + 1;
    let before = state.clone();
    assert_eq!(slash_validator(&mut state, 3, None, &context), Err(Error::Overflow));
    let mut exiting = before.clone();
    exiting.validators[3].exit_epoch = 15;
    exiting.validators[3].withdrawable_epoch = 271;
    assert_eq!(state, exiting);
    let mut state = state_of(&[32 * GWEI; 8]);
    state.balances[6] = u64::MAX - 62_499_999;
    assert_eq!(slash_validator(&mut state, 3, None, &context), Err(Error::Overflow));
    assert_eq!(state.balances[6], u64::MAX - 62_499_999);
    let mut double = small_context();
    double.proposer_weight = 128;
    let mut state = state_of(&[32 * GWEI; 8]);
    assert_eq!(slash_validator(&mut state, 3, None, &double), Err(Error::Overflow));
}

#[test]
fn public_keys_follow_the_indices() {
    let state = state_with_keys();
    assert_eq!(
        collect_public_keys(&state, &vec![2, 0, 2, 7]),
        vec![public_key(3), public_key(1), public_key(3), public_key(8)]
    );
    assert_eq!(collect_public_keys(&state, &vec![]), Vec::<[u8; 48]>::new());
}

#[test]
fn next_sync_committee_holds_the_keys_drawn_and_their_sum() {
    let context = small_context();
    let state = state_with_keys();
    let keys = vec![public_key(1), public_key(3), public_key(2), public_key(5)];
    let committee = get_next_sync_committee(&state, &context).unwrap();
    assert_eq!(committee.public_keys, keys);
    assert_eq!(committee.aggregate_public_key, sum_of(&keys));
    assert_ne!(committee.aggregate_public_key, keys[0]);
}

#[test]
fn next_sync_committee_keeps_the_keys_of_repeated_members() {
    let mut context = small_context();
    context.sync_committee_size = 10;
    let state = state_with_keys();
    let committee = get_next_sync_committee(&state, &context).unwrap();
    let members = [0usize, 2, 1, 4, 6, 5, 7, 3, 0, 2];
    let keys: Vec<[u8; 48]> = members.iter().map(|index| public_key(*index as u8 + 1)).collect();
    assert_eq!(committee.public_keys.len(), 10);
    assert_eq!(committee.public_keys, keys);
    assert_eq!(committee.aggregate_public_key, sum_of(&keys));
}

#[test]
fn next_sync_committee_of_one_member_has_its_key_as_the_sum() {
    let mut context = small_context();
    context.sync_committee_size = 1;
    let state = state_with_keys();
    assert_eq!(
        get_next_sync_committee(&state, &context),
        Ok(SyncCommittee { public_keys: vec![public_key(1)], aggregate_public_key: public_key(1) })
    );
}

#[test]
fn next_sync_committee_rejects_keys_that_cannot_be_aggregated() {
    let context = small_context();
    let state = state_of(&[32 * GWEI; 8]);
    assert_eq!(
        get_next_sync_committee(&state, &context),
        Err(Error::AggregationError(BLST_ERROR::BLST_BAD_ENCODING))
    );
    let mut infinity = state_with_keys();
    infinity.validators[1].public_key = [0u8; 48];
    infinity.validators[1].public_key[0] = 0xc0;
    assert_eq!(
        get_next_sync_committee(&infinity, &context),
        Err(Error::AggregationError(BLST_ERROR::BLST_PK_IS_INFINITY))
    );
    let mut empty = small_context();
    empty.sync_committee_size = 0;
    assert_eq!(
        get_next_sync_committee(&state_with_keys(), &empty),
        Err(Error::AggregationError(BLST_ERROR::BLST_AGGR_TYPE_MISMATCH))
    );
}

#[test]
fn next_sync_committee_passes_on_an_empty_active_set() {
    let context = small_context();
    let mut state = state_with_keys();
    for validator in state.validators.iter_mut() {
        validator.exit_epoch = 11;
    }
    assert_eq!(get_next_sync_committee(&state, &context), Err(Error::EmptyActiveSet));
}

#[test]
fn a_committee_is_assembled_from_keys_and_sum() {
    let keys = vec![public_key(1), public_key(2)];
    assert_eq!(
        assemble_sync_committee(keys.clone(), Ok(public_key(9))),
        Ok(SyncCommittee { public_keys: keys.clone(), aggregate_public_key: public_key(9) })
    );
    assert_eq!(
        assemble_sync_committee(keys.clone(), Err(BLST_ERROR::BLST_POINT_NOT_IN_GROUP)),
        Err(Error::AggregationError(BLST_ERROR::BLST_POINT_NOT_IN_GROUP))
    );
    assert_eq!(
        assemble_sync_committee(keys.clone(), Err(BLST_ERROR::BLST_POINT_NOT_ON_CURVE)),
        Err(Error::AggregationError(BLST_ERROR::BLST_POINT_NOT_ON_CURVE))
    );
    assert_eq!(
        assemble_sync_committee(keys, Err(BLST_ERROR::BLST_VERIFY_FAIL)),
        Err(Error::AggregationError(BLST_ERROR::BLST_VERIFY_FAIL))
    );
}
