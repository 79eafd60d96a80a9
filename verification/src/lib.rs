//! Altair consensus rules of a proof-of-stake beacon chain: participation
//! flags, sync committee selection, reward and penalty deltas, and slashing.
//!
//! Every function is deterministic and works on integers alone. A function
//! that fails leaves it to the caller to drop the state it was working on.

pub mod accessors;
pub mod config;
pub mod crypto;
pub mod encoding;
pub mod error;
pub mod flags;
pub mod math;
pub mod participation;
pub mod primitives;
pub mod registry;
pub mod rewards;
pub mod sampling;
pub mod slashing;
pub mod state;
pub mod sync_committee;

pub use crate::config::Context;
pub use crate::error::Error;
pub use crate::flags::{add_flag, has_flag};
pub use crate::participation::{
    get_attestation_participation_flag_indices, get_unslashed_participating_indices,
};
pub use crate::rewards::{
    get_base_reward, get_base_reward_per_increment, get_flag_index_deltas,
    get_inactivity_penalty_deltas,
};
pub use crate::sampling::get_next_sync_committee_indices;
pub use crate::slashing::slash_validator;
pub use crate::state::{BeaconState, SyncCommittee, Validator};
pub use crate::sync_committee::get_next_sync_committee;
