//! What holds of the machine whatever state it is in: general statements
//! about the instruction table, the bus, the flags, the arithmetic, the
//! addressing modes, calls and the stack, each proved from the model.

use vstd::prelude::*;
use crate::bus::{Effect, Memory};
use crate::instruction::{Instruction, Mode};
use crate::layout::{GPU_TRIGGER, ROM_START, STACK_BASE};
use crate::machine::{
    adc_overflows, asl_value, lsr_value, rol_value, ror_value, sbc_overflows, Machine,
};
use crate::status::{
    flag_set, lemma_negative, lemma_pulled_flags, lemma_push_pull, lemma_with_flag,
    lemma_with_nz, negative, with_flag, with_nz, SRMask, NEG_MASK,
};
use crate::word::{high_byte, low_byte, signed, word, wrap16, wrap8};

verus! {

/// Whether `addr` lies in the stack page.
pub open spec fn in_stack_page(addr: u16) -> bool {
    STACK_BASE <= addr <= STACK_BASE + 0xff
}

impl Machine {
    /// The machine after the bytes of `bytes` were pushed, first to last.
    pub open spec fn push_all(self, bytes: Seq<u8>) -> Machine
        decreases bytes.len(),
    {
        if bytes.len() == 0 {
            self
        } else {
            self.push_all(bytes.drop_last()).push(bytes.last())
        }
    }

    /// The machine after `n` pops.
    pub open spec fn pop_times(self, n: nat) -> Machine
        decreases n,
    {
        if n == 0 {
            self
        } else {
            self.pop_times((n - 1) as nat).pop()
        }
    }

    /// Whether `other` differs from this machine in the stack pointer and
    /// in the stack page at most.
    pub open spec fn same_but_stack(self, other: Machine) -> bool {
        &&& other.a == self.a
        &&& other.x == self.x
        &&& other.y == self.y
        &&& other.pc == self.pc
        &&& other.sr == self.sr
        &&& other.mem.gpu_enable == self.mem.gpu_enable
        &&& forall|addr: u16| !in_stack_page(addr) ==> other.read(addr) == self.read(addr)
    }
}

/// A word is its two bytes joined, and the bytes of two joined bytes are
/// those two.
pub proof fn law_word_and_bytes(w: u16, low: u8, high: u8)
    ensures
        word(low_byte(w), high_byte(w)) == w,
        low_byte(word(low, high)) == low,
        high_byte(word(low, high)) == high,
{
}

/// No two opcodes stand for the same instruction.
pub proof fn law_decode_injective(first: u8, second: u8)
    requires
        Instruction::lookup(first) is Some,
        Instruction::lookup(first) == Instruction::lookup(second),
    ensures
        first == second,
{
}

/// ROM is read-only: a write to it changes nothing and asks for nothing,
/// and no write to any address changes what ROM reads.
pub proof fn law_rom_is_read_only(mem: Memory, addr: u16, byte: u8, rom_addr: u16)
    requires
        rom_addr >= ROM_START,
    ensures
        addr >= ROM_START ==> mem.write(addr, byte) == mem && mem.effect(addr, byte)
            == Effect::Nothing,
        mem.write(addr, byte).read(rom_addr) == mem.read(rom_addr),
{
}

/// A write changes the byte that it addresses, when that byte is writable,
/// and the argument bytes, when it runs a command. Every other byte reads
/// as before.
pub proof fn law_write_is_local(mem: Memory, addr: u16, byte: u8, other: u16)
    ensures
        Memory::writable(addr) ==> mem.write(addr, byte).read(addr) == byte,
        other != addr && !Memory::argument(other) ==> mem.write(addr, byte).read(other)
            == mem.read(other),
        other != addr && addr != GPU_TRIGGER ==> mem.write(addr, byte).read(other) == mem.read(
            other,
        ),
        mem.write(addr, byte).gpu_enable == mem.gpu_enable,
{
}

/// After a result, Zero says whether the result is zero and Negative
/// whether its bit 7 is set. The other flags stay.
pub proof fn law_set_nz(s: Machine, byte: u8, other: SRMask)
    ensures
        s.with_nz(byte).flag(SRMask::Zero) == (byte == 0),
        s.with_nz(byte).flag(SRMask::Negative) == (byte & NEG_MASK != 0),
        s.with_nz(byte).flag(SRMask::Negative) == (byte >= 128),
        other != SRMask::Zero && other != SRMask::Negative ==> s.with_nz(byte).flag(other)
            == s.flag(other),
{
    lemma_with_nz(s.sr, byte, SRMask::Zero);
    lemma_with_nz(s.sr, byte, SRMask::Negative);
    lemma_with_nz(s.sr, byte, other);
    lemma_negative(byte);
}

/// ADC leaves the low eight bits of accumulator plus operand plus Carry in
/// the accumulator and sets Carry when the sum needs a ninth. It sets
/// Overflow when accumulator and operand have one sign and the result the
/// other, and that is when the sum of the signed numbers does not fit in a
/// signed byte.
pub proof fn law_adc(s: Machine, m: u8)
    ensures
        s.adc(m).a == (s.a + m + s.carry()) % 0x100,
        s.adc(m).flag(SRMask::Carry) == (s.a + m + s.carry() > 0xff),
        s.adc(m).flag(SRMask::Overflow) == adc_overflows(s.a, m, s.adc(m).a),
        s.adc(m).flag(SRMask::Overflow) == !(-128 <= signed(s.a) + signed(m) + s.carry() <= 127),
        s.adc(m).flag(SRMask::Zero) == (s.adc(m).a == 0),
        s.adc(m).flag(SRMask::Negative) == negative(s.adc(m).a),
{
    let sum = s.a + m + s.carry();
    let result = wrap8(sum);
    let c = with_flag(s.sr, SRMask::Carry, sum > 0xff);
    let v = with_flag(c, SRMask::Overflow, adc_overflows(s.a, m, result));
    lemma_with_flag(s.sr, SRMask::Carry, SRMask::Carry, sum > 0xff);
    lemma_with_flag(c, SRMask::Overflow, SRMask::Carry, adc_overflows(s.a, m, result));
    lemma_with_flag(c, SRMask::Overflow, SRMask::Overflow, adc_overflows(s.a, m, result));
    lemma_with_nz(v, result, SRMask::Carry);
    lemma_with_nz(v, result, SRMask::Overflow);
    lemma_with_nz(v, result, SRMask::Zero);
    lemma_with_nz(v, result, SRMask::Negative);
    lemma_negative(s.a);
    lemma_negative(m);
    lemma_negative(result);
}

/// SBC leaves the low eight bits of accumulator minus operand minus the
/// borrow in the accumulator, the borrow being the inverse of Carry, and
/// sets Carry when it had not to borrow. It sets Overflow when accumulator
/// and operand differ in sign and the result has not the accumulator's
/// sign, and that is when the difference of the signed numbers does not fit
/// in a signed byte.
pub proof fn law_sbc(s: Machine, m: u8)
    ensures
        s.sbc(m).a == (s.a - m - (1 - s.carry())) % 0x100,
        s.sbc(m).flag(SRMask::Carry) == (s.a - m - (1 - s.carry()) >= 0),
        s.sbc(m).flag(SRMask::Overflow) == sbc_overflows(s.a, m, s.sbc(m).a),
        s.sbc(m).flag(SRMask::Overflow) == !(-128 <= signed(s.a) - signed(m) - (1 - s.carry())
            <= 127),
        s.sbc(m).flag(SRMask::Zero) == (s.sbc(m).a == 0),
        s.sbc(m).flag(SRMask::Negative) == negative(s.sbc(m).a),
{
    let sum = s.a + (0xff - m) + s.carry();
    let result = wrap8(sum);
    let c = with_flag(s.sr, SRMask::Carry, sum > 0xff);
    let v = with_flag(c, SRMask::Overflow, sbc_overflows(s.a, m, result));
    lemma_with_flag(s.sr, SRMask::Carry, SRMask::Carry, sum > 0xff);
    lemma_with_flag(c, SRMask::Overflow, SRMask::Carry, sbc_overflows(s.a, m, result));
    lemma_with_flag(c, SRMask::Overflow, SRMask::Overflow, sbc_overflows(s.a, m, result));
    lemma_with_nz(v, result, SRMask::Carry);
    lemma_with_nz(v, result, SRMask::Overflow);
    lemma_with_nz(v, result, SRMask::Zero);
    lemma_with_nz(v, result, SRMask::Negative);
    lemma_negative(s.a);
    lemma_negative(m);
    lemma_negative(result);
}

/// A compare sets Carry when the register is at least the operand, Zero
/// when the two are equal, and Negative as bit 7 of their difference.
pub proof fn law_compare(s: Machine, register: u8, m: u8)
    ensures
        s.compare(register, m).flag(SRMask::Carry) == (register >= m),
        s.compare(register, m).flag(SRMask::Zero) == (register == m),
        s.compare(register, m).flag(SRMask::Negative) == negative(wrap8(register - m)),
{
    let diff = register.wrapping_sub(m);
    lemma_with_nz(s.sr, diff, SRMask::Carry);
    lemma_with_nz(s.sr, diff, SRMask::Zero);
    lemma_with_nz(s.sr, diff, SRMask::Negative);
    let nz = with_nz(s.sr, diff);
    lemma_with_flag(nz, SRMask::Carry, SRMask::Carry, register >= m);
    lemma_with_flag(nz, SRMask::Carry, SRMask::Zero, register >= m);
    lemma_with_flag(nz, SRMask::Carry, SRMask::Negative, register >= m);
}

/// A shift or rotate puts the bit that falls out into Carry, and a rotate
/// puts the old Carry into the bit that opens up. Zero and Negative follow
/// the result.
pub proof fn law_shifts(s: Machine, byte: u8)
    ensures
        s.asl(byte).flag(SRMask::Carry) == (byte >= 128),
        s.rol(byte).flag(SRMask::Carry) == (byte >= 128),
        s.lsr(byte).flag(SRMask::Carry) == (byte % 2 == 1),
        s.ror(byte).flag(SRMask::Carry) == (byte % 2 == 1),
        asl_value(byte) % 2 == 0,
        rol_value(byte, s.carry()) % 2 == s.carry(),
        lsr_value(byte) < 128,
        (ror_value(byte, s.carry()) >= 128) == s.flag(SRMask::Carry),
        s.asl(byte).flag(SRMask::Zero) == (asl_value(byte) == 0),
        s.asl(byte).flag(SRMask::Negative) == (asl_value(byte) >= 128),
        s.rol(byte).flag(SRMask::Zero) == (rol_value(byte, s.carry()) == 0),
        s.rol(byte).flag(SRMask::Negative) == (rol_value(byte, s.carry()) >= 128),
        s.lsr(byte).flag(SRMask::Zero) == (lsr_value(byte) == 0),
        !s.lsr(byte).flag(SRMask::Negative),
        s.ror(byte).flag(SRMask::Zero) == (ror_value(byte, s.carry()) == 0),
        s.ror(byte).flag(SRMask::Negative) == s.flag(SRMask::Carry),
{
    let left = with_flag(s.sr, SRMask::Carry, byte >= 128);
    let right = with_flag(s.sr, SRMask::Carry, byte % 2 == 1);
    lemma_with_flag(s.sr, SRMask::Carry, SRMask::Carry, byte >= 128);
    lemma_with_flag(s.sr, SRMask::Carry, SRMask::Carry, byte % 2 == 1);
    lemma_with_nz(left, asl_value(byte), SRMask::Carry);
    lemma_with_nz(left, asl_value(byte), SRMask::Zero);
    lemma_with_nz(left, asl_value(byte), SRMask::Negative);
    lemma_with_nz(left, rol_value(byte, s.carry()), SRMask::Carry);
    lemma_with_nz(left, rol_value(byte, s.carry()), SRMask::Zero);
    lemma_with_nz(left, rol_value(byte, s.carry()), SRMask::Negative);
    lemma_with_nz(right, lsr_value(byte), SRMask::Carry);
    lemma_with_nz(right, lsr_value(byte), SRMask::Zero);
    lemma_with_nz(right, lsr_value(byte), SRMask::Negative);
    lemma_with_nz(right, ror_value(byte, s.carry()), SRMask::Carry);
    lemma_with_nz(right, ror_value(byte, s.carry()), SRMask::Zero);
    lemma_with_nz(right, ror_value(byte, s.carry()), SRMask::Negative);
}

/// BIT leaves the accumulator alone. Zero says whether it shares no bit with
/// the operand; Negative and Overflow become bits 7 and 6 of the operand;
/// the other flags stay.
pub proof fn law_bit(s: Machine, m: u8, other: SRMask)
    ensures
        s.bit(m).a == s.a,
        s.bit(m).flag(SRMask::Zero) == (s.a & m == 0),
        s.bit(m).flag(SRMask::Negative) == (m >= 128),
        s.bit(m).flag(SRMask::Overflow) == ((m / 64) % 2 == 1),
        other != SRMask::Zero && other != SRMask::Negative && other != SRMask::Overflow
            ==> s.bit(m).flag(other) == s.flag(other),
{
    let z = with_flag(s.sr, SRMask::Zero, s.a & m == 0);
    let n = with_flag(z, SRMask::Negative, flag_set(m, SRMask::Negative));
    lemma_negative(m);
    lemma_with_flag(s.sr, SRMask::Zero, SRMask::Zero, s.a & m == 0);
    lemma_with_flag(s.sr, SRMask::Zero, other, s.a & m == 0);
    lemma_with_flag(z, SRMask::Negative, SRMask::Zero, flag_set(m, SRMask::Negative));
    lemma_with_flag(z, SRMask::Negative, SRMask::Negative, flag_set(m, SRMask::Negative));
    lemma_with_flag(z, SRMask::Negative, other, flag_set(m, SRMask::Negative));
    lemma_with_flag(n, SRMask::Overflow, SRMask::Zero, flag_set(m, SRMask::Overflow));
    lemma_with_flag(n, SRMask::Overflow, SRMask::Negative, flag_set(m, SRMask::Overflow));
    lemma_with_flag(n, SRMask::Overflow, SRMask::Overflow, flag_set(m, SRMask::Overflow));
    lemma_with_flag(n, SRMask::Overflow, other, flag_set(m, SRMask::Overflow));
}

/// An address in page zero stays there when an index is added to it.
pub proof fn law_zero_page_wraps(s: Machine, mode: Mode)
    requires
        mode == Mode::ZeroPage || mode == Mode::ZeroPageX || mode == Mode::ZeroPageY,
    ensures
        s.effective_address(mode) <= 0xff,
        mode == Mode::ZeroPageX ==> s.effective_address(mode) == (s.read(s.pc) + s.x) % 0x100,
        mode == Mode::ZeroPageY ==> s.effective_address(mode) == (s.read(s.pc) + s.y) % 0x100,
{
}

/// A branch consumes its offset byte whether it is taken or not, and a
/// taken branch lands the signed offset away from where the other goes on.
pub proof fn law_branch(s: Machine)
    ensures
        s.branch(false).pc == s.pc.wrapping_add(1),
        s.branch(true).pc == wrap16(s.branch(false).pc + signed(s.read(s.pc))),
        s.branch(true) == s.branch(false).jump(s.branch(true).pc),
{
}

/// Pulling the status register right after pushing it changes neither the
/// flags nor the stack pointer, and the byte on the stack has Break and
/// Reserved set.
pub proof fn law_push_pull_status(s: Machine)
    ensures
        s.push_status().pull_status().sr == s.sr,
        s.push_status().pull_status().sp == s.sp,
        flag_set(s.push_status().pull_status().top(), SRMask::Break),
        flag_set(s.push_status().pull_status().top(), SRMask::Reserved),
{
    lemma_push_pull(s.sr);
    let b = with_flag(s.sr, SRMask::Break, true);
    lemma_with_flag(s.sr, SRMask::Break, SRMask::Break, true);
    lemma_with_flag(b, SRMask::Reserved, SRMask::Break, true);
    lemma_with_flag(b, SRMask::Reserved, SRMask::Reserved, true);
}

/// A pull of the status register takes Break and Reserved from the live
/// register and the other six flags from the stack.
pub proof fn law_pull_status(s: Machine, asked: SRMask)
    ensures
        s.pull_status().flag(asked) == (if asked == SRMask::Break || asked == SRMask::Reserved {
            s.flag(asked)
        } else {
            flag_set(s.pop().top(), asked)
        }),
{
    lemma_pulled_flags(s.sr, s.pop().top(), asked);
}

/// JSR and then RTS: when the instruction at the program counter is a JSR
/// and the one that it calls is an RTS, the two take the program to the
/// address behind the three bytes of the JSR, wherever that JSR stands,
/// with the stack pointer where it was and nothing changed but the stack
/// page.
pub proof fn law_jsr_rts(s: Machine)
    requires
        s.read(s.pc) == 0x20,
        s.step().read(s.step().pc) == 0x60,
    ensures
        s.outcome() is Ok,
        s.step().outcome() is Ok,
        s.step().pc == s.read_word(s.pc.wrapping_add(1)),
        s.step().step().pc == s.pc.wrapping_add(3),
        s.step().step().sp == s.sp,
        s.same_but_stack(s.step().step().jump(s.pc)),
{
}

proof fn lemma_push_all(s: Machine, bytes: Seq<u8>)
    ensures
        s.push_all(bytes).sp == wrap8(s.sp - bytes.len()),
        s.same_but_stack(s.push_all(bytes)),
    decreases bytes.len(),
{
    if bytes.len() > 0 {
        lemma_push_all(s, bytes.drop_last());
    }
}

proof fn lemma_pop_times(s: Machine, n: nat)
    ensures
        s.pop_times(n) == (Machine { sp: wrap8(s.sp + n), ..s }),
    decreases n,
{
    if n > 0 {
        lemma_pop_times(s, (n - 1) as nat);
    }
}

/// The `n`-th pop after some pushes, no more than fill the page, yields the
/// `n`-th byte from the end of what was pushed.
proof fn lemma_last_in_first_out(s: Machine, bytes: Seq<u8>, n: nat)
    requires
        bytes.len() <= 256,
        1 <= n <= bytes.len(),
    ensures
        s.push_all(bytes).pop_times(n).top() == bytes[bytes.len() - n],
    decreases bytes.len(),
{
    let earlier = bytes.drop_last();
    let before = s.push_all(earlier);
    let after = before.push(bytes.last());
    lemma_pop_times(after, n);
    if n > 1 {
        lemma_last_in_first_out(s, earlier, (n - 1) as nat);
        lemma_pop_times(before, (n - 1) as nat);
    }
}

/// The stack wraps within its page: 256 pushes and then 256 pops bring the
/// stack pointer back to where it was, each time, and change nothing but
/// the stack page. The pops yield what was pushed, the last byte first.
pub proof fn law_stack_wraps(s: Machine, bytes: Seq<u8>)
    requires
        bytes.len() == 256,
    ensures
        s.push_all(bytes).sp == s.sp,
        s.push_all(bytes).pop_times(256).sp == s.sp,
        s.same_but_stack(s.push_all(bytes).pop_times(256)),
        forall|n: nat|
            1 <= n <= 256 ==> (#[trigger] s.push_all(bytes).pop_times(n)).top() == bytes[256 - n],
{
    lemma_push_all(s, bytes);
    lemma_pop_times(s.push_all(bytes), 256);
    assert forall|n: nat| 1 <= n <= 256 implies (#[trigger] s.push_all(bytes).pop_times(n)).top()
        == bytes[256 - n] by {
        lemma_last_in_first_out(s, bytes, n);
    }
}

} // verus!
