//! The status register: eight one-bit flags packed into a byte.
//!
//! The flags are defined by arithmetic on the byte, so that what a contract
//! says of them can be worked out. That this is the usual test, set and
//! clear of a bit is proved here once.

use vstd::prelude::*;

verus! {

/// The Break and Reserved bits, which a pull of the status register leaves
/// as they are.
pub const B_R_MASK: u8 = 0b0011_0000;

/// Bit 7, the sign bit of a byte.
pub const NEG_MASK: u8 = 0b1000_0000;

/// The flags of the status register, lowest bit first.
#[derive(Clone, Copy, Debug, PartialEq, Eq, Structural)]
pub enum SRMask {
    /// Carry out of bit 7, or "no borrow".
    Carry,
    /// The last result was zero.
    Zero,
    /// Interrupts are disabled.
    Interrupt,
    /// Decimal mode.
    Decimal,
    /// Set in a status byte that the program pushed.
    Break,
    /// Always set in a pushed status byte.
    Reserved,
    /// Signed overflow.
    Overflow,
    /// Bit 7 of the last result.
    Negative,
}

impl SRMask {
    /// The bit that this flag occupies.
    pub open spec fn bits(self) -> u8 {
        match self {
            SRMask::Carry => 0b0000_0001,
            SRMask::Zero => 0b0000_0010,
            SRMask::Interrupt => 0b0000_0100,
            SRMask::Decimal => 0b0000_1000,
            SRMask::Break => 0b0001_0000,
            SRMask::Reserved => 0b0010_0000,
            SRMask::Overflow => 0b0100_0000,
            SRMask::Negative => 0b1000_0000,
        }
    }

    /// The bit that this flag occupies.
    pub fn mask(self) -> (m: u8)
        ensures
            m == self.bits(),
    {
        match self {
            SRMask::Carry => 0b0000_0001,
            SRMask::Zero => 0b0000_0010,
            SRMask::Interrupt => 0b0000_0100,
            SRMask::Decimal => 0b0000_1000,
            SRMask::Break => 0b0001_0000,
            SRMask::Reserved => 0b0010_0000,
            SRMask::Overflow => 0b0100_0000,
            SRMask::Negative => 0b1000_0000,
        }
    }
}

/// Whether the bit of `bit` is set in the byte `sr`: whether the byte,
/// divided by the value of the bit, is odd.
pub open spec fn flag_set(sr: u8, bit: SRMask) -> bool {
    match bit {
        SRMask::Carry => sr % 2 == 1,
        SRMask::Zero => (sr / 2) % 2 == 1,
        SRMask::Interrupt => (sr / 4) % 2 == 1,
        SRMask::Decimal => (sr / 8) % 2 == 1,
        SRMask::Break => (sr / 16) % 2 == 1,
        SRMask::Reserved => (sr / 32) % 2 == 1,
        SRMask::Overflow => (sr / 64) % 2 == 1,
        SRMask::Negative => (sr / 128) % 2 == 1,
    }
}

/// The byte `sr` with the bit of `bit` set to `val` and every other bit
/// kept.
pub open spec fn with_flag(sr: u8, bit: SRMask, val: bool) -> u8 {
    if flag_set(sr, bit) == val {
        sr
    } else if val {
        (sr + bit.bits()) as u8
    } else {
        (sr - bit.bits()) as u8
    }
}

/// Whether bit 7 of `byte` is set.
pub open spec fn negative(byte: u8) -> bool {
    byte >= 128
}

/// The status byte after a result `byte`: Zero and Negative follow the
/// result, the other six bits are kept.
pub open spec fn with_nz(sr: u8, byte: u8) -> u8 {
    with_flag(with_flag(sr, SRMask::Zero, byte == 0), SRMask::Negative, negative(byte))
}

/// The byte that a push of the status register writes: Break and Reserved
/// are set in it whatever the register holds.
pub open spec fn pushed_status(sr: u8) -> u8 {
    with_flag(with_flag(sr, SRMask::Break, true), SRMask::Reserved, true)
}

/// The status register after a pull of `popped`: six flags come from the
/// popped byte, Break and Reserved stay as the live register has them.
pub open spec fn pulled_status(live: u8, popped: u8) -> u8 {
    with_flag(
        with_flag(popped, SRMask::Break, flag_set(live, SRMask::Break)),
        SRMask::Reserved,
        flag_set(live, SRMask::Reserved),
    )
}

/// Whether `m` has exactly one bit set.
spec fn single_bit(m: u8) -> bool {
    m == 1 || m == 2 || m == 4 || m == 8 || m == 16 || m == 32 || m == 64 || m == 128
}

proof fn lemma_bit_arithmetic(sr: u8, m: u8)
    by (bit_vector)
    requires
        m == 1 || m == 2 || m == 4 || m == 8 || m == 16 || m == 32 || m == 64 || m == 128,
    ensures
        ((sr / m) % 2 == 1) == (sr & m != 0),
        sr & m != 0 ==> sr | m == sr && sr - m == sr & !m,
        sr & m == 0 ==> sr & !m == sr && sr + m == sr | m,
{
}

proof fn lemma_bit_independence(sr: u8, m: u8, n: u8, v: bool)
    by (bit_vector)
    requires
        m == 1 || m == 2 || m == 4 || m == 8 || m == 16 || m == 32 || m == 64 || m == 128,
        n == 1 || n == 2 || n == 4 || n == 8 || n == 16 || n == 32 || n == 64 || n == 128,
    ensures
        ((if v { sr | m } else { sr & !m }) & n != 0) == (if m == n { v } else { sr & n != 0 }),
{
}

/// A flag is tested, set and cleared as a bit is: with the and, the or and
/// the and-not of its mask.
pub proof fn lemma_flag_is_bit(sr: u8, bit: SRMask)
    ensures
        flag_set(sr, bit) == (sr & bit.bits() != 0),
        with_flag(sr, bit, true) == sr | bit.bits(),
        with_flag(sr, bit, false) == sr & !bit.bits(),
{
    lemma_bit_arithmetic(sr, bit.bits());
}

/// Setting a flag changes that flag and no other.
pub proof fn lemma_with_flag(sr: u8, set: SRMask, asked: SRMask, val: bool)
    ensures
        flag_set(with_flag(sr, set, val), asked) == (if set == asked {
            val
        } else {
            flag_set(sr, asked)
        }),
{
    lemma_flag_is_bit(sr, set);
    lemma_flag_is_bit(sr, asked);
    lemma_flag_is_bit(with_flag(sr, set, val), asked);
    lemma_bit_independence(sr, set.bits(), asked.bits(), val);
}

/// Bit 7 is set exactly in the bytes from 128 up.
pub proof fn lemma_negative(byte: u8)
    ensures
        negative(byte) == (byte & NEG_MASK != 0),
        negative(byte) == flag_set(byte, SRMask::Negative),
{
    lemma_flag_is_bit(byte, SRMask::Negative);
    assert((byte & 0b1000_0000 != 0) == (byte >= 128)) by (bit_vector);
}

/// `with_nz` sets Zero and Negative from the result and keeps the rest.
pub proof fn lemma_with_nz(sr: u8, byte: u8, asked: SRMask)
    ensures
        flag_set(with_nz(sr, byte), asked) == (match asked {
            SRMask::Zero => byte == 0,
            SRMask::Negative => negative(byte),
            _ => flag_set(sr, asked),
        }),
{
    let z = with_flag(sr, SRMask::Zero, byte == 0);
    lemma_with_flag(sr, SRMask::Zero, asked, byte == 0);
    lemma_with_flag(z, SRMask::Negative, asked, negative(byte));
}

/// A push sets the two bits of `B_R_MASK` in the byte that it writes.
pub proof fn lemma_pushed_status(sr: u8)
    ensures
        pushed_status(sr) == sr | B_R_MASK,
{
    let b = with_flag(sr, SRMask::Break, true);
    lemma_flag_is_bit(sr, SRMask::Break);
    lemma_flag_is_bit(b, SRMask::Reserved);
    assert((sr | 0x10u8) | 0x20u8 == sr | 0x30u8) by (bit_vector);
}

/// A pull takes the bits outside `B_R_MASK` from the popped byte and those
/// inside from the live register.
pub proof fn lemma_pulled_status(live: u8, popped: u8)
    ensures
        pulled_status(live, popped) == popped & !B_R_MASK | live & B_R_MASK,
{
    let b = with_flag(popped, SRMask::Break, flag_set(live, SRMask::Break));
    lemma_flag_is_bit(live, SRMask::Break);
    lemma_flag_is_bit(live, SRMask::Reserved);
    lemma_flag_is_bit(popped, SRMask::Break);
    lemma_flag_is_bit(b, SRMask::Reserved);
    assert(({
        let b = if live & 0x10u8 != 0 {
            popped | 0x10u8
        } else {
            popped & !0x10u8
        };
        if live & 0x20u8 != 0 {
            b | 0x20u8
        } else {
            b & !0x20u8
        }
    }) == popped & !0x30u8 | live & 0x30u8) by (bit_vector);
}

/// After a pull, Break and Reserved are as the live register had them, and
/// the other six flags as the popped byte has them.
pub proof fn lemma_pulled_flags(live: u8, popped: u8, asked: SRMask)
    ensures
        flag_set(pulled_status(live, popped), asked) == (if asked == SRMask::Break || asked
            == SRMask::Reserved {
            flag_set(live, asked)
        } else {
            flag_set(popped, asked)
        }),
{
    let b = with_flag(popped, SRMask::Break, flag_set(live, SRMask::Break));
    lemma_with_flag(popped, SRMask::Break, asked, flag_set(live, SRMask::Break));
    lemma_with_flag(b, SRMask::Reserved, asked, flag_set(live, SRMask::Reserved));
}

/// Pulling what was just pushed gives the status register back.
pub proof fn lemma_push_pull(sr: u8)
    ensures
        pulled_status(sr, pushed_status(sr)) == sr,
{
    lemma_pushed_status(sr);
    lemma_pulled_status(sr, pushed_status(sr));
    assert(((sr | 0x30u8) & !0x30u8 | sr & 0x30u8) == sr) by (bit_vector);
}

} // verus!
