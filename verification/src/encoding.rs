//! Integers as bytes, least significant byte first.

use vstd::prelude::*;

verus! {

/// The `width` bytes that spell `value`, least significant byte first. Where
/// `value` needs more bytes, its higher bytes are left out.
pub open spec fn le_bytes(value: nat, width: nat) -> Seq<u8>
    decreases width,
{
    if width == 0 {
        Seq::empty()
    } else {
        seq![(value % 256) as u8] + le_bytes(value / 256, (width - 1) as nat)
    }
}

/// The number that the bytes of `bytes` from position `from` up to, but not
/// including, position `to` spell, least significant byte first.
pub open spec fn le_value(bytes: Seq<u8>, from: int, to: int) -> nat
    decreases to - from,
{
    if from >= to {
        0
    } else {
        bytes[from] as nat + 256 * le_value(bytes, from + 1, to)
    }
}

/// Returns the `width` lowest bytes of `value`, least significant byte first.
pub fn to_le_bytes(value: u64, width: usize) -> (bytes: Vec<u8>)
    ensures
        bytes@ == le_bytes(value as nat, width as nat),
        bytes.len() == width,
{
    let mut bytes: Vec<u8> = Vec::new();
    let mut rest = value;
    while bytes.len() < width
        invariant
            bytes.len() <= width,
            le_bytes(value as nat, width as nat) == bytes@ + le_bytes(
                rest as nat,
                (width - bytes.len()) as nat,
            ),
        decreases width - bytes.len(),
    {
        let ghost before = bytes@;
        let byte = (rest % 256) as u8;
        bytes.push(byte);
        rest = rest / 256;
        assert(before + (seq![byte] + le_bytes(rest as nat, (width - bytes.len()) as nat))
            =~= bytes@ + le_bytes(rest as nat, (width - bytes.len()) as nat));
    }
    assert(bytes@ + Seq::<u8>::empty() =~= bytes@);
    bytes
}

/// Returns the number that the first eight bytes of `bytes` spell, least
/// significant byte first.
pub fn leading_u64(bytes: &[u8; 32]) -> (value: u64)
    ensures
        value == le_value(bytes@, 0, 8),
{
    proof {
        reveal_with_fuel(le_value, 9);
    }
    let b7 = bytes[7] as u64;
    let b6 = bytes[6] as u64 + 256 * b7;
    let b5 = bytes[5] as u64 + 256 * b6;
    let b4 = bytes[4] as u64 + 256 * b5;
    let b3 = bytes[3] as u64 + 256 * b4;
    let b2 = bytes[2] as u64 + 256 * b3;
    let b1 = bytes[1] as u64 + 256 * b2;
    bytes[0] as u64 + 256 * b1
}

} // verus!
