use altair_consensus::accessors::{
    decrease_balance, get_active_validator_indices, get_block_root, get_block_root_at_slot,
    get_current_epoch, get_eligible_validator_indices, get_previous_epoch,
    get_total_active_balance, get_total_balance, increase_balance, is_active_validator,
    is_in_inactivity_leak,
};
use altair_consensus::config::{Context, Fork, ForkQuotient};
use altair_consensus::error::Error;
use altair_consensus::math::integer_sqrt;
use altair_consensus::primitives::{Checkpoint, DomainType, FAR_FUTURE_EPOCH};
use altair_consensus::registry::initiate_validator_exit;
use altair_consensus::state::{BeaconState, Validator};
use std::collections::HashSet;

const GWEI: u64 = 1_000_000_000;

fn validator(effective_balance: u64) -> Validator {
    Validator {
        public_key: [0u8; 48],
        effective_balance,
        slashed: false,
        activation_epoch: 0,
        exit_epoch: FAR_FUTURE_EPOCH,
        withdrawable_epoch: FAR_FUTURE_EPOCH,
    }
}

fn state_of(effective_balances: &[u64]) -> BeaconState {
    let count = effective_balances.len();
    BeaconState {
        slot: 83,
        validators: effective_balances.iter().map(|balance| validator(*balance)).collect(),
        balances: effective_balances.to_vec(),
        previous_epoch_participation: vec![0; count],
        current_epoch_participation: vec![0; count],
        inactivity_scores: vec![0; count],
        slashings: vec![0; 64],
        block_roots: (0..64).map(|i| [i as u8; 32]).collect(),
        randao_mixes: (0..64).map(|i| [(i + 1) as u8; 32]).collect(),
        previous_justified_checkpoint: Checkpoint { epoch: 8, root: [0xaa; 32] },
        current_justified_checkpoint: Checkpoint { epoch: 9, root: [0xbb; 32] },
        finalized_checkpoint: Checkpoint { epoch: 8, root: [0xaa; 32] },
    }
}

#[test]
fn presets_are_well_formed() {
    assert!(Context::for_mainnet().is_well_formed());
    assert!(Context::for_minimal().is_well_formed());
    assert_eq!(Context::for_mainnet().slots_per_epoch, 32);
    assert_eq!(Context::for_mainnet().sync_committee_size, 512);
    assert_eq!(Context::for_minimal().slots_per_epoch, 8);
    assert_eq!(Context::for_mainnet().participation_flag_weights, [14, 26, 14]);
}

#[test]
fn a_configuration_with_a_zero_divisor_is_not_well_formed() {
    let mut context = Context::for_minimal();
    context.slots_per_epoch = 0;
    assert!(!context.is_well_formed());
    let mut context = Context::for_minimal();
    context.weight_denominator = 0;
    assert!(!context.is_well_formed());
    let mut context = Context::for_minimal();
    context.min_slashing_penalty_quotient.altair = Some(0);
    assert!(!context.is_well_formed());
    let mut context = Context::for_minimal();
    context.shuffle_round_count = 256;
    assert!(!context.is_well_formed());
    let mut context = Context::for_minimal();
    context.min_seed_lookahead = 64;
    assert!(!context.is_well_formed());
}

#[test]
fn the_fork_of_an_epoch_follows_the_schedule() {
    let context = Context::for_mainnet();
    assert_eq!(context.fork_for(0), Fork::Phase0);
    assert_eq!(context.fork_for(74239), Fork::Phase0);
    assert_eq!(context.fork_for(74240), Fork::Altair);
    assert_eq!(context.fork_for(144895), Fork::Altair);
    assert_eq!(context.fork_for(144896), Fork::Bellatrix);
}

#[test]
fn quotients_depend_on_the_fork() {
    let context = Context::for_mainnet();
    assert_eq!(context.inactivity_penalty_quotient(0), Ok(67_108_864));
    assert_eq!(context.inactivity_penalty_quotient(74240), Ok(50_331_648));
    assert_eq!(context.inactivity_penalty_quotient(144896), Ok(16_777_216));
    assert_eq!(context.min_slashing_penalty_quotient(0), Ok(128));
    assert_eq!(context.min_slashing_penalty_quotient(74240), Ok(64));
    assert_eq!(context.min_slashing_penalty_quotient(144896), Ok(32));
}

#[test]
fn a_quotient_that_the_fork_leaves_undefined_is_a_fork_config_error() {
    let mut context = Context::for_mainnet();
    context.inactivity_penalty_quotient =
        ForkQuotient { phase0: Some(5), altair: None, bellatrix: Some(7) };
    context.min_slashing_penalty_quotient =
        ForkQuotient { phase0: None, altair: Some(3), bellatrix: None };
    assert_eq!(context.inactivity_penalty_quotient(10), Ok(5));
    assert_eq!(
        context.inactivity_penalty_quotient(80000),
        Err(Error::ForkConfigError { epoch: 80000 })
    );
    assert_eq!(
        context.min_slashing_penalty_quotient(10),
        Err(Error::ForkConfigError { epoch: 10 })
    );
    assert_eq!(context.min_slashing_penalty_quotient(80000), Ok(3));
    assert_eq!(
        context.min_slashing_penalty_quotient(200000),
        Err(Error::ForkConfigError { epoch: 200000 })
    );
}

#[test]
fn integer_sqrt_rounds_down() {
    assert_eq!(integer_sqrt(0), 0);
    assert_eq!(integer_sqrt(1), 1);
    assert_eq!(integer_sqrt(3), 1);
    assert_eq!(integer_sqrt(4), 2);
    assert_eq!(integer_sqrt(80), 8);
    assert_eq!(integer_sqrt(81), 9);
    assert_eq!(integer_sqrt(32), 5);
    assert_eq!(integer_sqrt(256 * GWEI), 505_964);
    assert_eq!(integer_sqrt(u64::MAX), 4_294_967_295);
}

#[test]
fn domain_bytes() {
    assert_eq!(DomainType::BeaconProposer.as_bytes(), [0, 0, 0, 0]);
    assert_eq!(DomainType::SyncCommittee.as_bytes(), [7, 0, 0, 0]);
}

#[test]
fn state_shape_is_checked_against_the_configuration() {
    let context = Context::for_minimal();
    let state = state_of(&[32 * GWEI; 8]);
    assert!(state.is_well_formed(&context));
    let mut short = state.clone();
    short.balances.pop();
    assert!(!short.is_well_formed(&context));
    let mut short = state.clone();
    short.slashings.pop();
    assert!(!short.is_well_formed(&context));
    assert!(!state.is_well_formed(&Context::for_mainnet()));
    let mut rich = state.clone();
    rich.validators[7].effective_balance = 32 * GWEI + 1;
    assert!(!rich.is_well_formed(&context));
    rich.validators[7].effective_balance = 0;
    assert!(rich.is_well_formed(&context));
}

#[test]
fn epochs_of_a_state() {
    let context = Context::for_minimal();
    let mut state = state_of(&[32 * GWEI; 8]);
    assert_eq!(get_current_epoch(&state, &context), 10);
    assert_eq!(get_previous_epoch(&state, &context), 9);
    state.slot = 7;
    assert_eq!(get_current_epoch(&state, &context), 0);
    assert_eq!(get_previous_epoch(&state, &context), 0);
    state.slot = 8;
    assert_eq!(get_current_epoch(&state, &context), 1);
    assert_eq!(get_previous_epoch(&state, &context), 0);
}

#[test]
fn a_validator_is_active_from_activation_until_exit() {
    let mut v = validator(32 * GWEI);
    v.activation_epoch = 5;
    v.exit_epoch = 9;
    assert!(!is_active_validator(&v, 4));
    assert!(is_active_validator(&v, 5));
    assert!(is_active_validator(&v, 8));
    assert!(!is_active_validator(&v, 9));
}

#[test]
fn active_indices_are_listed_in_ascending_order() {
    let mut state = state_of(&[32 * GWEI; 6]);
    state.validators[1].activation_epoch = 11;
    state.validators[4].exit_epoch = 10;
    assert_eq!(get_active_validator_indices(&state, 10), vec![0, 2, 3, 5]);
    assert_eq!(get_active_validator_indices(&state, 9), vec![0, 2, 3, 4, 5]);
    assert_eq!(get_active_validator_indices(&state, 11), vec![0, 1, 2, 3, 5]);
    assert_eq!(get_active_validator_indices(&state_of(&[]), 3), Vec::<usize>::new());
}

#[test]
fn eligible_indices_include_slashed_validators_that_cannot_withdraw_yet() {
    let context = Context::for_minimal();
    let mut state = state_of(&[32 * GWEI; 6]);
    // previous epoch is 9
    state.validators[0].exit_epoch = 9;
    state.validators[1].exit_epoch = 9;
    state.validators[1].slashed = true;
    state.validators[1].withdrawable_epoch = 11;
    state.validators[2].exit_epoch = 9;
    state.validators[2].slashed = true;
    state.validators[2].withdrawable_epoch = 10;
    state.validators[3].activation_epoch = 10;
    assert_eq!(get_eligible_validator_indices(&state, &context), vec![1, 4, 5]);
}

#[test]
fn total_balance_adds_up_the_effective_balances() {
    let context = Context::for_minimal();
    let state = state_of(&[32 * GWEI, 16 * GWEI, 8 * GWEI, 1 * GWEI]);
    let picked: HashSet<usize> = [0usize, 2, 3].into_iter().collect();
    assert_eq!(get_total_balance(&state, &picked, &context), Ok(41 * GWEI));
    let all: HashSet<usize> = (0..4usize).collect();
    assert_eq!(get_total_balance(&state, &all, &context), Ok(57 * GWEI));
}

#[test]
fn total_balance_is_at_least_one_increment() {
    let context = Context::for_minimal();
    let state = state_of(&[32 * GWEI, 5]);
    assert_eq!(get_total_balance(&state, &HashSet::new(), &context), Ok(GWEI));
    let small: HashSet<usize> = [1usize].into_iter().collect();
    assert_eq!(get_total_balance(&state, &small, &context), Ok(GWEI));
}

#[test]
fn total_balance_overflow_is_reported() {
    let context = Context::for_minimal();
    let state = state_of(&[u64::MAX, 1, 7]);
    let both: HashSet<usize> = [0usize, 1].into_iter().collect();
    assert_eq!(get_total_balance(&state, &both, &context), Err(Error::Overflow));
    let one: HashSet<usize> = [0usize].into_iter().collect();
    assert_eq!(get_total_balance(&state, &one, &context), Ok(u64::MAX));
    assert_eq!(get_total_active_balance(&state, &context), Err(Error::Overflow));
}

#[test]
fn total_active_balance_counts_the_active_validators_only() {
    let context = Context::for_minimal();
    let mut state = state_of(&[32 * GWEI, 16 * GWEI, 8 * GWEI]);
    assert_eq!(get_total_active_balance(&state, &context), Ok(56 * GWEI));
    state.validators[1].exit_epoch = 10;
    assert_eq!(get_total_active_balance(&state, &context), Ok(40 * GWEI));
    state.validators[0].activation_epoch = 11;
    state.validators[2].activation_epoch = 11;
    assert_eq!(get_total_active_balance(&state, &context), Ok(GWEI));
}

#[test]
fn block_roots_of_recent_slots() {
    let state = state_of(&[32 * GWEI; 2]);
    assert_eq!(get_block_root_at_slot(&state, 82), Ok([18u8; 32]));
    assert_eq!(get_block_root_at_slot(&state, 19), Ok([19u8; 32]));
    assert_eq!(get_block_root_at_slot(&state, 64), Ok([0u8; 32]));
    assert_eq!(
        get_block_root_at_slot(&state, 83),
        Err(Error::SlotOutOfRange { slot: 83, state_slot: 83 })
    );
    assert_eq!(
        get_block_root_at_slot(&state, 18),
        Err(Error::SlotOutOfRange { slot: 18, state_slot: 83 })
    );
    assert_eq!(
        get_block_root_at_slot(&state, u64::MAX),
        Err(Error::SlotOutOfRange { slot: u64::MAX, state_slot: 83 })
    );
}

#[test]
fn block_root_of_an_epoch_is_that_of_its_first_slot() {
    let context = Context::for_minimal();
    let state = state_of(&[32 * GWEI; 2]);
    assert_eq!(get_block_root(&state, 9, &context), Ok([8u8; 32]));
    assert_eq!(get_block_root(&state, 10, &context), Ok([16u8; 32]));
    assert_eq!(
        get_block_root(&state, 11, &context),
        Err(Error::SlotOutOfRange { slot: 88, state_slot: 83 })
    );
    assert_eq!(get_block_root(&state, u64::MAX, &context), Err(Error::Overflow));
}

#[test]
fn inactivity_leak_starts_after_too_many_epochs_without_finality() {
    let context = Context::for_minimal();
    let mut state = state_of(&[32 * GWEI; 2]);
    // previous epoch 9, at most 4 epochs of delay are tolerated
    state.finalized_checkpoint.epoch = 5;
    assert!(!is_in_inactivity_leak(&state, &context));
    state.finalized_checkpoint.epoch = 4;
    assert!(is_in_inactivity_leak(&state, &context));
    state.finalized_checkpoint.epoch = 12;
    assert!(!is_in_inactivity_leak(&state, &context));
}

#[test]
fn balances_go_up_and_down() {
    let mut state = state_of(&[32 * GWEI; 3]);
    increase_balance(&mut state, 1, 5);
    assert_eq!(state.balances, vec![32 * GWEI, 32 * GWEI + 5, 32 * GWEI]);
    decrease_balance(&mut state, 2, GWEI);
    assert_eq!(state.balances, vec![32 * GWEI, 32 * GWEI + 5, 31 * GWEI]);
    decrease_balance(&mut state, 0, 33 * GWEI);
    assert_eq!(state.balances, vec![0, 32 * GWEI + 5, 31 * GWEI]);
}

#[test]
fn an_exit_joins_the_end_of_the_queue() {
    let context = Context::for_minimal();
    let mut state = state_of(&[32 * GWEI; 8]);
    assert_eq!(initiate_validator_exit(&mut state, 3, &context), Ok(()));
    // current epoch 10, one epoch of delay and four of lookahead
    assert_eq!(state.validators[3].exit_epoch, 15);
    assert_eq!(state.validators[3].withdrawable_epoch, 15 + 256);
    for index in [0usize, 1, 2, 4, 5, 6, 7] {
        assert_eq!(state.validators[index], validator(32 * GWEI));
    }
}

#[test]
fn an_exit_follows_the_latest_exit_already_queued() {
    let context = Context::for_minimal();
    let mut state = state_of(&[32 * GWEI; 8]);
    state.validators[0].exit_epoch = 20;
    state.validators[1].exit_epoch = 12;
    assert_eq!(initiate_validator_exit(&mut state, 5, &context), Ok(()));
    assert_eq!(state.validators[5].exit_epoch, 20);
    assert_eq!(state.validators[5].withdrawable_epoch, 276);
}

#[test]
fn a_full_epoch_of_the_queue_pushes_the_exit_one_epoch_on() {
    let context = Context::for_minimal();
    let mut state = state_of(&[32 * GWEI; 8]);
    for index in 0..4 {
        state.validators[index].exit_epoch = 15;
    }
    assert_eq!(initiate_validator_exit(&mut state, 6, &context), Ok(()));
    assert_eq!(state.validators[6].exit_epoch, 16);
    assert_eq!(state.validators[6].withdrawable_epoch, 272);
    let mut state = state_of(&[32 * GWEI; 8]);
    for index in 0..3 {
        state.validators[index].exit_epoch = 15;
    }
    assert_eq!(initiate_validator_exit(&mut state, 6, &context), Ok(()));
    assert_eq!(state.validators[6].exit_epoch, 15);
}

#[test]
fn a_validator_that_is_leaving_already_stays_as_it_is() {
    let context = Context::for_minimal();
    let mut state = state_of(&[32 * GWEI; 8]);
    state.validators[2].exit_epoch = 12;
    state.validators[2].withdrawable_epoch = 40;
    let before = state.clone();
    assert_eq!(initiate_validator_exit(&mut state, 2, &context), Ok(()));
    assert_eq!(state, before);
}

#[test]
fn an_exit_epoch_beyond_64_bits_is_an_overflow() {
    let mut context = Context::for_minimal();
    context.min_validator_withdrawability_delay = u64::MAX - 14;
    let mut state = state_of(&[32 * GWEI; 8]);
    let before = state.clone();
    assert_eq!(initiate_validator_exit(&mut state, 2, &context), Err(Error::Overflow));
    assert_eq!(state, before);
    context.min_validator_withdrawability_delay = u64::MAX - 15;
    assert_eq!(initiate_validator_exit(&mut state, 2, &context), Ok(()));
    assert_eq!(state.validators[2].withdrawable_epoch, u64::MAX);
}

#[test]
fn checkpoints_are_compared_by_epoch_and_root() {
    let a = Checkpoint { epoch: 3, root: [7u8; 32] };
    let mut b = a;
    assert!(a.same_as(&b));
    b.epoch = 4;
    assert!(!a.same_as(&b));
    b.epoch = 3;
    b.root[31] = 8;
    assert!(!a.same_as(&b));
    b.root[31] = 7;
    b.root[0] = 0;
    assert!(!a.same_as(&b));
}

#[test]
fn a_fork_quotient_is_looked_up_by_fork() {
    let quotient = ForkQuotient { phase0: Some(1), altair: None, bellatrix: Some(3) };
    assert_eq!(quotient.get(Fork::Phase0), Some(1));
    assert_eq!(quotient.get(Fork::Altair), None);
    assert_eq!(quotient.get(Fork::Bellatrix), Some(3));
}
