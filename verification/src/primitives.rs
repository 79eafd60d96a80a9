//! Basic types and constants of the consensus rules.

use vstd::prelude::*;

verus! {

/// A span of `slots_per_epoch` slots; the unit of participation accounting.
pub type Epoch = u64;

/// A slot number.
pub type Slot = u64;

/// An amount of stake, in Gwei.
pub type Gwei = u64;

/// A position in the validator registry.
pub type ValidatorIndex = usize;

/// The root of a block.
pub type Root = [u8; 32];

/// The epoch of the genesis slot.
pub const GENESIS_EPOCH: Epoch = 0;

/// The epoch that stands for "never".
pub const FAR_FUTURE_EPOCH: Epoch = 0xffff_ffff_ffff_ffff;

/// The flag of a timely vote for the justified source checkpoint.
pub const TIMELY_SOURCE_FLAG_INDEX: usize = 0;

/// The flag of a timely vote for the target checkpoint.
pub const TIMELY_TARGET_FLAG_INDEX: usize = 1;

/// The flag of a timely vote for the head block.
pub const TIMELY_HEAD_FLAG_INDEX: usize = 2;

/// The number of participation flags.
pub const PARTICIPATION_FLAG_COUNT: usize = 3;

/// The largest value of a random byte.
pub const MAX_RANDOM_BYTE: u64 = 255;

/// What a seed is derived for.
#[derive(Clone, Copy, Debug, PartialEq, Eq)]
pub enum DomainType {
    BeaconProposer,
    SyncCommittee,
}

impl DomainType {
    /// The four bytes that separate this domain from the others.
    pub open spec fn bytes(self) -> Seq<u8> {
        match self {
            DomainType::BeaconProposer => seq![0u8, 0u8, 0u8, 0u8],
            DomainType::SyncCommittee => seq![7u8, 0u8, 0u8, 0u8],
        }
    }

    /// Returns the four bytes that separate this domain from the others.
    pub fn as_bytes(&self) -> (result: [u8; 4])
        ensures
            result@ == self.bytes(),
    {
        let result = match self {
            DomainType::BeaconProposer => [0u8, 0u8, 0u8, 0u8],
            DomainType::SyncCommittee => [7u8, 0u8, 0u8, 0u8],
        };
        assert(result@ =~= self.bytes());
        result
    }
}

/// A pair of epoch and block root that attestations vote for.
#[derive(Clone, Copy, Debug, PartialEq, Eq)]
pub struct Checkpoint {
    pub epoch: Epoch,
    pub root: Root,
}

/// Tells whether two 32-byte values are the same.
pub fn same_bytes32(a: &[u8; 32], b: &[u8; 32]) -> (result: bool)
    ensures
        result == (*a == *b),
{
    let mut i: usize = 0;
    while i < 32
        invariant
            i <= 32,
            forall|k: int| 0 <= k < i ==> a[k] == b[k],
        decreases 32 - i,
    {
        if a[i] != b[i] {
            return false;
        }
        i += 1;
    }
    assert(*a =~= *b);
    true
}

impl Checkpoint {
    /// Tells whether two checkpoints name the same epoch and root.
    pub fn same_as(&self, other: &Checkpoint) -> (result: bool)
        ensures
            result == (*self == *other),
    {
        self.epoch == other.epoch && same_bytes32(&self.root, &other.root)
    }
}

/// What an attestation votes for.
#[derive(Clone, Copy, Debug, PartialEq, Eq)]
pub struct AttestationData {
    pub slot: Slot,
    pub beacon_block_root: Root,
    pub source: Checkpoint,
    pub target: Checkpoint,
}

} // verus!
