//! The configuration of a fork schedule.

use crate::error::Error;
use crate::primitives::{Epoch, Gwei};
use vstd::prelude::*;

verus! {

/// The forks whose rules the configuration may know.
#[derive(Clone, Copy, Debug, PartialEq, Eq)]
pub enum Fork {
    Phase0,
    Altair,
    Bellatrix,
}

/// A value that each fork may set anew, or leave undefined.
#[derive(Clone, Copy, Debug, PartialEq, Eq)]
pub struct ForkQuotient {
    pub phase0: Option<u64>,
    pub altair: Option<u64>,
    pub bellatrix: Option<u64>,
}

impl ForkQuotient {
    /// The value that `fork` defines, if it defines one.
    pub open spec fn of(self, fork: Fork) -> Option<u64> {
        match fork {
            Fork::Phase0 => self.phase0,
            Fork::Altair => self.altair,
            Fork::Bellatrix => self.bellatrix,
        }
    }

    /// No fork defines the value zero.
    pub open spec fn nonzero(self) -> bool {
        &&& self.phase0 != Some(0u64)
        &&& self.altair != Some(0u64)
        &&& self.bellatrix != Some(0u64)
    }

    /// Returns the value that `fork` defines, if it defines one.
    pub fn get(&self, fork: Fork) -> (value: Option<u64>)
        ensures
            value == self.of(fork),
    {
        match fork {
            Fork::Phase0 => self.phase0,
            Fork::Altair => self.altair,
            Fork::Bellatrix => self.bellatrix,
        }
    }

    fn is_nonzero(&self) -> (result: bool)
        ensures
            result == self.nonzero(),
    {
        let phase0 = match self.phase0 {
            Some(q) => q != 0,
            None => true,
        };
        let altair = match self.altair {
            Some(q) => q != 0,
            None => true,
        };
        let bellatrix = match self.bellatrix {
            Some(q) => q != 0,
            None => true,
        };
        phase0 && altair && bellatrix
    }
}

/// The constants of one fork schedule. A transition never changes them.
#[derive(Clone, Copy, Debug, PartialEq, Eq)]
pub struct Context {
    pub slots_per_epoch: u64,
    pub min_seed_lookahead: u64,
    pub max_seed_lookahead: u64,
    pub min_attestation_inclusion_delay: u64,
    pub min_epochs_to_inactivity_penalty: u64,
    pub min_validator_withdrawability_delay: u64,
    pub shuffle_round_count: u64,
    pub slots_per_historical_root: u64,
    pub epochs_per_historical_vector: u64,
    pub epochs_per_slashings_vector: u64,
    pub sync_committee_size: usize,
    pub min_per_epoch_churn_limit: u64,
    pub churn_limit_quotient: u64,
    pub effective_balance_increment: Gwei,
    pub max_effective_balance: Gwei,
    pub base_reward_factor: u64,
    pub whistleblower_reward_quotient: u64,
    pub inactivity_score_bias: u64,
    pub participation_flag_weights: [u64; 3],
    pub weight_denominator: u64,
    pub proposer_weight: u64,
    pub altair_fork_epoch: Epoch,
    pub bellatrix_fork_epoch: Epoch,
    pub inactivity_penalty_quotient: ForkQuotient,
    pub min_slashing_penalty_quotient: ForkQuotient,
}

impl Context {
    /// Every divisor is positive, the vectors of the state have a length,
    /// and a round number of the shuffle fits in a byte.
    pub open spec fn well_formed(self) -> bool {
        &&& self.slots_per_epoch > 0
        &&& self.slots_per_historical_root > 0
        &&& self.epochs_per_historical_vector > self.min_seed_lookahead
        &&& self.epochs_per_slashings_vector > 0
        &&& self.shuffle_round_count <= 255
        &&& self.churn_limit_quotient > 0
        &&& self.effective_balance_increment > 0
        &&& self.whistleblower_reward_quotient > 0
        &&& self.inactivity_score_bias > 0
        &&& self.weight_denominator > 0
        &&& self.inactivity_penalty_quotient.nonzero()
        &&& self.min_slashing_penalty_quotient.nonzero()
    }

    /// The fork whose rules hold in `epoch`.
    pub open spec fn fork_at(self, epoch: Epoch) -> Fork {
        if epoch >= self.bellatrix_fork_epoch {
            Fork::Bellatrix
        } else if epoch >= self.altair_fork_epoch {
            Fork::Altair
        } else {
            Fork::Phase0
        }
    }

    /// Tells whether the configuration is well formed.
    pub fn is_well_formed(&self) -> (result: bool)
        ensures
            result == self.well_formed(),
    {
        self.slots_per_epoch > 0 && self.slots_per_historical_root > 0
            && self.epochs_per_historical_vector > self.min_seed_lookahead
            && self.epochs_per_slashings_vector > 0 && self.shuffle_round_count <= 255
            && self.churn_limit_quotient > 0 && self.effective_balance_increment > 0
            && self.whistleblower_reward_quotient > 0 && self.inactivity_score_bias > 0
            && self.weight_denominator > 0 && self.inactivity_penalty_quotient.is_nonzero()
            && self.min_slashing_penalty_quotient.is_nonzero()
    }

    /// Returns the fork whose rules hold in `epoch`.
    pub fn fork_for(&self, epoch: Epoch) -> (fork: Fork)
        ensures
            fork == self.fork_at(epoch),
    {
        if epoch >= self.bellatrix_fork_epoch {
            Fork::Bellatrix
        } else if epoch >= self.altair_fork_epoch {
            Fork::Altair
        } else {
            Fork::Phase0
        }
    }

    /// Returns the quotient of the inactivity penalty in `epoch`, or
    /// `ForkConfigError` where the fork of that epoch defines none.
    pub fn inactivity_penalty_quotient(&self, epoch: Epoch) -> (result: Result<u64, Error>)
        ensures
            result == fork_value(self.inactivity_penalty_quotient.of(self.fork_at(epoch)), epoch),
    {
        match self.inactivity_penalty_quotient.get(self.fork_for(epoch)) {
            Some(quotient) => Ok(quotient),
            None => Err(Error::ForkConfigError { epoch }),
        }
    }

    /// Returns the quotient of the immediate slashing penalty in `epoch`, or
    /// `ForkConfigError` where the fork of that epoch defines none.
    pub fn min_slashing_penalty_quotient(&self, epoch: Epoch) -> (result: Result<u64, Error>)
        ensures
            result == fork_value(
                self.min_slashing_penalty_quotient.of(self.fork_at(epoch)),
                epoch,
            ),
    {
        match self.min_slashing_penalty_quotient.get(self.fork_for(epoch)) {
            Some(quotient) => Ok(quotient),
            None => Err(Error::ForkConfigError { epoch }),
        }
    }
}

/// A value that the fork of `epoch` defines, or the failure to report where
/// it defines none.
pub open spec fn fork_value(value: Option<u64>, epoch: Epoch) -> Result<u64, Error> {
    match value {
        Some(quotient) => Ok(quotient),
        None => Err(Error::ForkConfigError { epoch }),
    }
}

/// The configuration of the main network.
pub open spec fn mainnet() -> Context {
    Context {
        slots_per_epoch: 32,
        min_seed_lookahead: 1,
        max_seed_lookahead: 4,
        min_attestation_inclusion_delay: 1,
        min_epochs_to_inactivity_penalty: 4,
        min_validator_withdrawability_delay: 256,
        shuffle_round_count: 90,
        slots_per_historical_root: 8192,
        epochs_per_historical_vector: 65536,
        epochs_per_slashings_vector: 8192,
        sync_committee_size: 512,
        min_per_epoch_churn_limit: 4,
        churn_limit_quotient: 65536,
        effective_balance_increment: 1_000_000_000,
        max_effective_balance: 32_000_000_000,
        base_reward_factor: 64,
        whistleblower_reward_quotient: 512,
        inactivity_score_bias: 4,
        participation_flag_weights: [14u64, 26u64, 14u64],
        weight_denominator: 64,
        proposer_weight: 8,
        altair_fork_epoch: 74240,
        bellatrix_fork_epoch: 144896,
        inactivity_penalty_quotient: ForkQuotient {
            phase0: Some(67_108_864u64),
            altair: Some(50_331_648u64),
            bellatrix: Some(16_777_216u64),
        },
        min_slashing_penalty_quotient: ForkQuotient {
            phase0: Some(128u64),
            altair: Some(64u64),
            bellatrix: Some(32u64),
        },
    }
}

/// The small configuration that test networks run.
pub open spec fn minimal() -> Context {
    Context {
        slots_per_epoch: 8,
        min_seed_lookahead: 1,
        max_seed_lookahead: 4,
        min_attestation_inclusion_delay: 1,
        min_epochs_to_inactivity_penalty: 4,
        min_validator_withdrawability_delay: 256,
        shuffle_round_count: 10,
        slots_per_historical_root: 64,
        epochs_per_historical_vector: 64,
        epochs_per_slashings_vector: 64,
        sync_committee_size: 32,
        min_per_epoch_churn_limit: 4,
        churn_limit_quotient: 32,
        effective_balance_increment: 1_000_000_000,
        max_effective_balance: 32_000_000_000,
        base_reward_factor: 64,
        whistleblower_reward_quotient: 512,
        inactivity_score_bias: 4,
        participation_flag_weights: [14u64, 26u64, 14u64],
        weight_denominator: 64,
        proposer_weight: 8,
        altair_fork_epoch: 0,
        bellatrix_fork_epoch: 0xffff_ffff_ffff_ffff,
        inactivity_penalty_quotient: ForkQuotient {
            phase0: Some(33_554_432u64),
            altair: Some(50_331_648u64),
            bellatrix: Some(16_777_216u64),
        },
        min_slashing_penalty_quotient: ForkQuotient {
            phase0: Some(64u64),
            altair: Some(64u64),
            bellatrix: Some(32u64),
        },
    }
}

impl Context {
    /// Returns the configuration of the main network.
    pub fn for_mainnet() -> (context: Context)
        ensures
            context == mainnet(),
            context.well_formed(),
    {
        Context {
            slots_per_epoch: 32,
            min_seed_lookahead: 1,
            max_seed_lookahead: 4,
            min_attestation_inclusion_delay: 1,
            min_epochs_to_inactivity_penalty: 4,
            min_validator_withdrawability_delay: 256,
            shuffle_round_count: 90,
            slots_per_historical_root: 8192,
            epochs_per_historical_vector: 65536,
            epochs_per_slashings_vector: 8192,
            sync_committee_size: 512,
            min_per_epoch_churn_limit: 4,
            churn_limit_quotient: 65536,
            effective_balance_increment: 1_000_000_000,
            max_effective_balance: 32_000_000_000,
            base_reward_factor: 64,
            whistleblower_reward_quotient: 512,
            inactivity_score_bias: 4,
            participation_flag_weights: [14u64, 26u64, 14u64],
            weight_denominator: 64,
            proposer_weight: 8,
            altair_fork_epoch: 74240,
            bellatrix_fork_epoch: 144896,
            inactivity_penalty_quotient: ForkQuotient {
                phase0: Some(67_108_864u64),
                altair: Some(50_331_648u64),
                bellatrix: Some(16_777_216u64),
            },
            min_slashing_penalty_quotient: ForkQuotient {
                phase0: Some(128u64),
                altair: Some(64u64),
                bellatrix: Some(32u64),
            },
        }
    }

    /// Returns the small configuration that test networks run.
    pub fn for_minimal() -> (context: Context)
        ensures
            context == minimal(),
            context.well_formed(),
    {
        Context {
            slots_per_epoch: 8,
            min_seed_lookahead: 1,
            max_seed_lookahead: 4,
            min_attestation_inclusion_delay: 1,
            min_epochs_to_inactivity_penalty: 4,
            min_validator_withdrawability_delay: 256,
            shuffle_round_count: 10,
            slots_per_historical_root: 64,
            epochs_per_historical_vector: 64,
            epochs_per_slashings_vector: 64,
            sync_committee_size: 32,
            min_per_epoch_churn_limit: 4,
            churn_limit_quotient: 32,
            effective_balance_increment: 1_000_000_000,
            max_effective_balance: 32_000_000_000,
            base_reward_factor: 64,
            whistleblower_reward_quotient: 512,
            inactivity_score_bias: 4,
            participation_flag_weights: [14u64, 26u64, 14u64],
            weight_denominator: 64,
            proposer_weight: 8,
            altair_fork_epoch: 0,
            bellatrix_fork_epoch: 0xffff_ffff_ffff_ffff,
            inactivity_penalty_quotient: ForkQuotient {
                phase0: Some(33_554_432u64),
                altair: Some(50_331_648u64),
                bellatrix: Some(16_777_216u64),
            },
            min_slashing_penalty_quotient: ForkQuotient {
                phase0: Some(64u64),
                altair: Some(64u64),
                bellatrix: Some(32u64),
            },
        }
    }
}

} // verus!
