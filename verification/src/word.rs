//! Bytes, 16-bit words and the arithmetic that joins them.

use vstd::prelude::*;

verus! {

/// The word with the given low and high byte.
pub open spec fn word(low: u8, high: u8) -> u16 {
    (high * 256 + low) as u16
}

/// The low byte of a word.
pub open spec fn low_byte(w: u16) -> u8 {
    (w % 256) as u8
}

/// The high byte of a word.
pub open spec fn high_byte(w: u16) -> u8 {
    (w / 256) as u8
}

/// A byte read as a two's complement number.
pub open spec fn signed(byte: u8) -> int {
    if byte < 128 {
        byte as int
    } else {
        byte - 256
    }
}

/// An integer reduced to a byte.
pub open spec fn wrap8(i: int) -> u8 {
    (i % 0x100) as u8
}

/// An integer reduced to a word.
pub open spec fn wrap16(i: int) -> u16 {
    (i % 0x1_0000) as u16
}

/// Where a taken branch goes: `pc` is the address of the offset byte, and
/// the signed offset counts from the byte after it.
pub open spec fn branch_target(pc: u16, offset: u8) -> u16 {
    wrap16(pc + 1 + signed(offset))
}

/// Joins two bytes into a word.
pub fn word_from(low: u8, high: u8) -> (w: u16)
    ensures
        w == word(low, high),
{
    let w = (high as u16) << 8 | (low as u16);
    assert(((high as u16) << 8 | (low as u16)) == high * 256 + low) by (bit_vector);
    w
}

/// The low byte of a word.
pub fn low_of(w: u16) -> (byte: u8)
    ensures
        byte == low_byte(w),
{
    let byte = (w & 0xff) as u8;
    assert((w & 0xff) == w % 256) by (bit_vector);
    byte
}

/// The high byte of a word.
pub fn high_of(w: u16) -> (byte: u8)
    ensures
        byte == high_byte(w),
{
    let byte = (w >> 8) as u8;
    assert((w >> 8) == w / 256) by (bit_vector);
    byte
}

/// The target of a taken branch whose offset byte stands at `pc`.
pub fn branch_to(pc: u16, offset: u8) -> (target: u16)
    ensures
        target == branch_target(pc, offset),
{
    // Adding the offset with its sign bits filled in subtracts, since the
    // sum wraps.
    let extended: u16 = if offset < 0x80 {
        offset as u16
    } else {
        0xff00 + (offset as u16)
    };
    pc.wrapping_add(1).wrapping_add(extended)
}

} // verus!
