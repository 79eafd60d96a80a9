//! Participation flags: a small bit set with one bit per timely vote kind.

use vstd::prelude::*;

verus! {

/// The bit set that records which timely votes a validator cast in an epoch.
pub type ParticipationFlags = u8;

/// The value of the single bit at position `flag_index`.
pub open spec fn flag_bit(flag_index: u8) -> u8 {
    1u8 << flag_index
}

/// `flags` with the bit at `flag_index` set.
pub open spec fn with_flag(flags: ParticipationFlags, flag_index: u8) -> ParticipationFlags {
    flags | flag_bit(flag_index)
}

/// Whether the bit at `flag_index` is set in `flags`.
pub open spec fn flag_is_set(flags: ParticipationFlags, flag_index: u8) -> bool {
    flags & flag_bit(flag_index) == flag_bit(flag_index)
}

fn bit_of(flag_index: u8) -> (bit: u8)
    requires
        flag_index < 8,
    ensures
        bit == flag_bit(flag_index),
{
    1u8 << flag_index
}

/// Returns `flags` with the flag at `flag_index` added.
pub fn add_flag(flags: ParticipationFlags, flag_index: u8) -> (result: ParticipationFlags)
    requires
        flag_index < 8,
    ensures
        result == with_flag(flags, flag_index),
{
    flags | bit_of(flag_index)
}

/// Tells whether `flags` has the flag at `flag_index`.
pub fn has_flag(flags: ParticipationFlags, flag_index: u8) -> (result: bool)
    requires
        flag_index < 8,
    ensures
        result == flag_is_set(flags, flag_index),
{
    let bit = bit_of(flag_index);
    flags & bit == bit
}

/// Adding a flag makes it present, and adding it again changes nothing.
pub proof fn lemma_add_flag_sets_flag(flags: ParticipationFlags, flag_index: u8)
    requires
        flag_index < 8,
    ensures
        flag_is_set(with_flag(flags, flag_index), flag_index),
        with_flag(with_flag(flags, flag_index), flag_index) == with_flag(flags, flag_index),
{
    assert((flags | (1u8 << flag_index)) & (1u8 << flag_index) == (1u8 << flag_index))
        by (bit_vector);
    assert(((flags | (1u8 << flag_index)) | (1u8 << flag_index)) == (flags | (1u8 << flag_index)))
        by (bit_vector);
}

/// Adding the flag at one position leaves the flag at every other position as it was.
pub proof fn lemma_add_flag_keeps_other_flags(flags: ParticipationFlags, flag_index: u8, other: u8)
    requires
        flag_index < 8,
        other < 8,
        other != flag_index,
    ensures
        flag_is_set(with_flag(flags, flag_index), other) == flag_is_set(flags, other),
{
    assert(((flags | (1u8 << flag_index)) & (1u8 << other) == (1u8 << other)) == (flags & (1u8
        << other) == (1u8 << other))) by (bit_vector)
        requires
            flag_index < 8,
            other < 8,
            other != flag_index,
    ;
}

} // verus!
