//! The processor: registers, a bus, and the engine that fetches, decodes
//! and executes one instruction at a time.

use vstd::prelude::*;
use crate::bus::{Bus, Effect};
use crate::instruction::{Instruction, Mnemonic, Mode};
use crate::layout::{
    GPU_LOC, K32, K64, RV_LOC_HIGH, RV_LOC_LOW, STACK_BASE, W_H_LOC, W_T_LOC, W_W_LOC,
};
use crate::machine::{
    adc_overflows, asl_value, lsr_value, rol_value, ror_value, sbc_overflows, Machine,
};
use crate::outcome::{EErr, Operand, Step, Stop};
use crate::laws::{law_adc, law_sbc};
use crate::status::{
    flag_set, lemma_flag_is_bit, lemma_negative, lemma_pulled_status, lemma_pushed_status,
    lemma_with_flag, negative, SRMask, B_R_MASK, NEG_MASK,
};
use crate::word::{branch_to, high_of, low_of, signed, word_from};

verus! {

/// The processor with its bus.
pub struct Emulator {
    /// Accumulator.
    pub a: u8,
    /// X register.
    pub x: u8,
    /// Y register.
    pub y: u8,
    /// Program counter.
    pub pc: u16,
    /// Stack pointer.
    pub sp: u8,
    /// RAM, ROM and the peripheral registers.
    pub bus: Bus,
    /// Status register.
    pub sr: u8,
}

/// The window that a program asks for in its ROM.
pub struct Window {
    /// Width in pixels.
    pub width: u16,
    /// Height in pixels.
    pub height: u16,
    /// The title, without the zero byte that ends it.
    pub title: Vec<u8>,
}

impl View for Emulator {
    type V = Machine;

    open spec fn view(&self) -> Machine {
        Machine {
            a: self.a,
            x: self.x,
            y: self.y,
            pc: self.pc,
            sp: self.sp,
            sr: self.sr,
            mem: self.bus@,
        }
    }
}

impl Emulator {
    /// The processor after reset, with `code` as its ROM.
    pub fn init(code: [u8; K32]) -> (emu: Emulator)
        ensures
            emu@ == Machine::reset(code@),
    {
        let mut bus = Bus::init(code);
        let rv_low = bus.read(RV_LOC_LOW);
        let rv_high = bus.read(RV_LOC_HIGH);
        let rv = word_from(rv_low, rv_high);
        let use_graphical = bus.read(GPU_LOC) != 0;
        bus.set_gpu_enable(use_graphical);
        Emulator {
            a: 0,
            x: 0,
            y: 0,
            pc: rv,
            sp: 0xff,
            bus,
            sr: SRMask::Reserved.mask(),
        }
    }

    /// Whether the program asked for the graphics window.
    pub fn graphical(&self) -> (on: bool)
        ensures
            on == self@.mem.gpu_enable,
    {
        self.bus.gpu_enabled()
    }

    /// Reads the byte at the program counter.
    pub fn read_byte(&self) -> (byte: u8)
        ensures
            byte == self@.read(self.pc),
    {
        self.bus.read(self.pc)
    }

    /// Reads the byte at `addr`.
    pub fn read_byte_at(&self, addr: u16) -> (byte: u8)
        ensures
            byte == self@.read(addr),
    {
        self.bus.read(addr)
    }

    /// Writes `byte` to `addr`.
    pub fn write_byte_at(&mut self, addr: u16, byte: u8) -> (effect: Effect)
        ensures
            final(self)@ == old(self)@.write(addr, byte),
            effect == old(self)@.mem.effect(addr, byte),
    {
        self.bus.write(addr, byte)
    }

    /// Reads the word at the program counter, low byte first.
    pub fn read_word(&self) -> (w: u16)
        ensures
            w == self@.read_word(self.pc),
    {
        self.read_word_at(self.pc)
    }

    /// Reads the word at `pos`, low byte first.
    pub fn read_word_at(&self, pos: u16) -> (w: u16)
        ensures
            w == self@.read_word(pos),
    {
        let low = self.read_byte_at(pos);
        let high = self.read_byte_at(pos.wrapping_add(1));
        word_from(low, high)
    }

    /// Pops a word off the stack, low byte first.
    pub fn read_word_from_stack(&mut self) -> (w: u16)
        ensures
            final(self)@ == old(self)@.pop().pop(),
            w == old(self)@.popped_word(),
    {
        let addr_low = self.pop_from_stack();
        let addr_high = self.pop_from_stack();
        word_from(addr_low, addr_high)
    }

    /// Decodes the byte at the program counter, or hands it back when it is
    /// no instruction.
    pub fn read_instruction(&self) -> (fetched: Result<Instruction, u8>)
        ensures
            fetched == (match Instruction::lookup(self@.read(self.pc)) {
                Some(inst) => Ok::<Instruction, u8>(inst),
                None => Err(self@.read(self.pc)),
            }),
    {
        let byte = self.read_byte();
        match Instruction::decode(byte) {
            Some(inst) => Ok(inst),
            None => Err(byte),
        }
    }

    /// Sets or clears one flag.
    pub fn set_sr_bit(&mut self, bit: SRMask, val: bool)
        ensures
            final(self)@ == old(self)@.with_flag(bit, val),
            forall|other: SRMask|
                #[trigger] flag_set(final(self).sr, other) == (if other == bit {
                    val
                } else {
                    flag_set(old(self).sr, other)
                }),
    {
        if val {
            self.sr = self.sr | bit.mask();
        } else {
            self.sr = self.sr & !bit.mask();
        }
        proof {
            lemma_flag_is_bit(old(self).sr, bit);
            assert forall|other: SRMask|
                #[trigger] flag_set(self.sr, other) == (if other == bit {
                    val
                } else {
                    flag_set(old(self).sr, other)
                }) by {
                lemma_with_flag(old(self).sr, bit, other, val);
            }
        }
    }

    /// Whether a flag is set.
    pub fn get_psr_bit(&self, bit: SRMask) -> (set: bool)
        ensures
            set == self@.flag(bit),
    {
        proof {
            lemma_flag_is_bit(self.sr, bit);
        }
        self.sr & bit.mask() != 0
    }

    /// The address in the stack page where the stack pointer stands.
    fn stack_address(&self) -> (addr: u16)
        ensures
            addr == self@.stack_address(),
    {
        let sp = self.sp;
        assert((0x100u16 | (sp as u16)) == 0x100 + sp) by (bit_vector);
        STACK_BASE | (sp as u16)
    }

    /// Pushes a byte. The stack grows down and wraps within its page.
    pub fn push_to_stack(&mut self, byte: u8)
        ensures
            final(self)@ == old(self)@.push(byte),
    {
        let addr = self.stack_address();
        let _ = self.bus.write(addr, byte);
        self.sp = self.sp.wrapping_sub(1);
    }

    /// Pops a byte.
    pub fn pop_from_stack(&mut self) -> (byte: u8)
        ensures
            final(self)@ == old(self)@.pop(),
            byte == old(self)@.pop().top(),
    {
        self.sp = self.sp.wrapping_add(1);
        let addr = self.stack_address();
        self.bus.read(addr)
    }

    /// The effective address in indirect,X mode.
    pub fn x_ind(&self) -> (addr: u16)
        ensures
            addr == self@.effective_address(Mode::IndirectX),
    {
        let ind = self.bus.read(self.pc).wrapping_add(self.x);
        self.read_word_at(ind as u16)
    }

    /// The effective address in indirect,Y mode.
    pub fn ind_y(&self) -> (addr: u16)
        ensures
            addr == self@.effective_address(Mode::IndirectY),
    {
        let ind = self.bus.read(self.pc);
        self.read_word_at(ind as u16).wrapping_add(self.y as u16)
    }

    /// Where the operand of an instruction in the given mode stands, for a
    /// program counter that points behind the opcode.
    pub fn effective_address(&self, mode: Mode) -> (addr: u16)
        ensures
            addr == self@.effective_address(mode),
    {
        match mode {
            Mode::Implied | Mode::Accumulator | Mode::Immediate => self.pc,
            Mode::ZeroPage => self.read_byte() as u16,
            Mode::ZeroPageX => self.read_byte().wrapping_add(self.x) as u16,
            Mode::ZeroPageY => self.read_byte().wrapping_add(self.y) as u16,
            Mode::Absolute => self.read_word(),
            Mode::AbsoluteX => self.read_word().wrapping_add(self.x as u16),
            Mode::AbsoluteY => self.read_word().wrapping_add(self.y as u16),
            Mode::Indirect => {
                let pointer = self.read_word();
                self.read_word_at(pointer)
            },
            Mode::IndirectX => self.x_ind(),
            Mode::IndirectY => self.ind_y(),
            Mode::Relative => branch_to(self.pc, self.read_byte()),
        }
    }

    /// The operand in the form that a trace shows.
    pub fn operand(&self, mode: Mode) -> (operand: Operand)
        ensures
            operand == self@.operand(mode),
    {
        match mode {
            Mode::Implied => Operand::Implied,
            Mode::Accumulator => Operand::Accumulator,
            Mode::Immediate => Operand::Immediate(self.read_byte()),
            _ => Operand::Address(self.effective_address(mode)),
        }
    }

    /// Sets Zero and Negative as `byte` has them.
    pub fn set_nz(&mut self, byte: u8)
        ensures
            final(self)@ == old(self)@.with_nz(byte),
            final(self)@.flag(SRMask::Zero) == (byte == 0),
            final(self)@.flag(SRMask::Negative) == (byte & NEG_MASK != 0),
            final(self)@.flag(SRMask::Negative) == (byte >= 128),
            forall|other: SRMask|
                other != SRMask::Zero && other != SRMask::Negative ==> #[trigger] flag_set(
                    final(self).sr,
                    other,
                ) == flag_set(old(self).sr, other),
    {
        proof {
            lemma_negative(byte);
        }
        self.set_sr_bit(SRMask::Zero, byte == 0);
        self.set_sr_bit(SRMask::Negative, (byte & NEG_MASK) != 0);
    }

    /// Adds `byte` and Carry to the accumulator.
    pub fn adc(&mut self, byte: u8)
        ensures
            final(self)@ == old(self)@.adc(byte),
            final(self).a == (old(self).a + byte + old(self)@.carry()) % 0x100,
            final(self)@.flag(SRMask::Carry) == (old(self).a + byte + old(self)@.carry() > 0xff),
            final(self)@.flag(SRMask::Overflow) == adc_overflows(
                old(self).a,
                byte,
                final(self).a,
            ),
            final(self)@.flag(SRMask::Overflow) == !(-128 <= signed(old(self).a) + signed(byte)
                + old(self)@.carry() <= 127),
            final(self)@.flag(SRMask::Zero) == (final(self).a == 0),
            final(self)@.flag(SRMask::Negative) == (final(self).a >= 128),
    {
        proof {
            law_adc(self@, byte);
            lemma_negative(self@.adc(byte).a);
        }
        let c: u16 = if self.get_psr_bit(SRMask::Carry) {
            1
        } else {
            0
        };
        let true_sum = self.a as u16 + byte as u16 + c;
        let res = low_of(true_sum);
        let overflow = Self::sign(self.a) == Self::sign(byte) && Self::sign(res) != Self::sign(
            self.a,
        );
        self.set_sr_bit(SRMask::Carry, true_sum > 0xff);
        self.set_sr_bit(SRMask::Overflow, overflow);
        self.a = res;
        self.set_nz(res);
    }

    /// Whether bit 7 of `byte` is set.
    fn sign(byte: u8) -> (set: bool)
        ensures
            set == negative(byte),
    {
        proof {
            lemma_negative(byte);
        }
        (byte & NEG_MASK) != 0
    }

    /// Subtracts `byte` and the borrow from the accumulator.
    pub fn sbc(&mut self, byte: u8)
        ensures
            final(self)@ == old(self)@.sbc(byte),
            final(self).a == (old(self).a + (0xff - byte) + old(self)@.carry()) % 0x100,
            final(self)@.flag(SRMask::Carry) == (old(self).a + (0xff - byte) + old(
                self,
            )@.carry() > 0xff),
            final(self)@.flag(SRMask::Overflow) == sbc_overflows(
                old(self).a,
                byte,
                final(self).a,
            ),
            final(self)@.flag(SRMask::Overflow) == !(-128 <= signed(old(self).a) - signed(byte)
                - (1 - old(self)@.carry()) <= 127),
            final(self)@.flag(SRMask::Zero) == (final(self).a == 0),
            final(self)@.flag(SRMask::Negative) == (final(self).a >= 128),
    {
        proof {
            law_sbc(self@, byte);
            lemma_negative(self@.sbc(byte).a);
        }
        let c: u16 = if self.get_psr_bit(SRMask::Carry) {
            1
        } else {
            0
        };
        assert(!byte == 0xff - byte) by (bit_vector);
        let true_sum = self.a as u16 + (!byte) as u16 + c;
        let res = low_of(true_sum);
        let overflow = Self::sign(self.a) != Self::sign(byte) && Self::sign(res) != Self::sign(
            self.a,
        );
        self.set_sr_bit(SRMask::Carry, true_sum > 0xff);
        self.set_sr_bit(SRMask::Overflow, overflow);
        self.a = res;
        self.set_nz(res);
    }

    /// Holds the accumulator against `byte`.
    pub fn cmp(&mut self, byte: u8)
        ensures
            final(self)@ == old(self)@.compare(old(self).a, byte),
            final(self)@.flag(SRMask::Carry) == (old(self).a >= byte),
            final(self)@.flag(SRMask::Zero) == (old(self).a == byte),
            final(self)@.flag(SRMask::Negative) == (old(self).a.wrapping_sub(byte) >= 128),
    {
        let res = self.a.wrapping_sub(byte);
        self.set_nz(res);
        self.set_sr_bit(SRMask::Carry, self.a >= byte);
    }

    /// Holds Y against `byte`.
    pub fn cpy(&mut self, byte: u8)
        ensures
            final(self)@ == old(self)@.compare(old(self).y, byte),
            final(self)@.flag(SRMask::Carry) == (old(self).y >= byte),
            final(self)@.flag(SRMask::Zero) == (old(self).y == byte),
            final(self)@.flag(SRMask::Negative) == (old(self).y.wrapping_sub(byte) >= 128),
    {
        let res = self.y.wrapping_sub(byte);
        self.set_nz(res);
        self.set_sr_bit(SRMask::Carry, self.y >= byte);
    }

    /// Holds X against `byte`.
    pub fn cpx(&mut self, byte: u8)
        ensures
            final(self)@ == old(self)@.compare(old(self).x, byte),
            final(self)@.flag(SRMask::Carry) == (old(self).x >= byte),
            final(self)@.flag(SRMask::Zero) == (old(self).x == byte),
            final(self)@.flag(SRMask::Negative) == (old(self).x.wrapping_sub(byte) >= 128),
    {
        let res = self.x.wrapping_sub(byte);
        self.set_nz(res);
        self.set_sr_bit(SRMask::Carry, self.x >= byte);
    }

    /// Ors `byte` into the accumulator.
    pub fn ora(&mut self, byte: u8)
        ensures
            final(self)@ == old(self)@.ora(byte),
    {
        self.a = self.a | byte;
        self.set_nz(self.a);
    }

    /// Ands `byte` into the accumulator.
    pub fn and(&mut self, byte: u8)
        ensures
            final(self)@ == old(self)@.and(byte),
    {
        self.a = self.a & byte;
        self.set_nz(self.a);
    }

    /// Exclusive-ors `byte` into the accumulator.
    pub fn eor(&mut self, byte: u8)
        ensures
            final(self)@ == old(self)@.eor(byte),
    {
        self.a = self.a ^ byte;
        self.set_nz(self.a);
    }

    /// Loads the accumulator.
    pub fn lda(&mut self, byte: u8)
        ensures
            final(self)@ == old(self)@.load_a(byte),
    {
        self.a = byte;
        self.set_nz(self.a);
    }

    /// Loads X.
    pub fn ldx(&mut self, byte: u8)
        ensures
            final(self)@ == old(self)@.load_x(byte),
    {
        self.x = byte;
        self.set_nz(self.x);
    }

    /// Loads Y.
    pub fn ldy(&mut self, byte: u8)
        ensures
            final(self)@ == old(self)@.load_y(byte),
    {
        self.y = byte;
        self.set_nz(self.y);
    }

    /// Tests the bits of `byte` against the accumulator, which stays as it
    /// is.
    pub fn bit(&mut self, byte: u8)
        ensures
            final(self)@ == old(self)@.bit(byte),
    {
        proof {
            lemma_flag_is_bit(byte, SRMask::Negative);
            lemma_flag_is_bit(byte, SRMask::Overflow);
        }
        self.set_sr_bit(SRMask::Zero, (self.a & byte) == 0);
        self.set_sr_bit(SRMask::Negative, (byte & SRMask::Negative.mask()) != 0);
        self.set_sr_bit(SRMask::Overflow, (byte & SRMask::Overflow.mask()) != 0);
    }

    /// Stores Y at `addr`.
    pub fn sty(&mut self, addr: u16) -> (effect: Effect)
        ensures
            final(self)@ == old(self)@.write(addr, old(self).y),
            effect == old(self)@.mem.effect(addr, old(self).y),
    {
        self.write_byte_at(addr, self.y)
    }

    /// Stores the accumulator at `addr`.
    pub fn sta(&mut self, addr: u16) -> (effect: Effect)
        ensures
            final(self)@ == old(self)@.write(addr, old(self).a),
            effect == old(self)@.mem.effect(addr, old(self).a),
    {
        self.write_byte_at(addr, self.a)
    }

    /// Stores X at `addr`.
    pub fn stx(&mut self, addr: u16) -> (effect: Effect)
        ensures
            final(self)@ == old(self)@.write(addr, old(self).x),
            effect == old(self)@.mem.effect(addr, old(self).x),
    {
        self.write_byte_at(addr, self.x)
    }

    /// Rotates `byte` left through Carry.
    pub fn rol(&mut self, byte: u8) -> (rotated: u8)
        ensures
            final(self)@ == old(self)@.rol(byte),
            rotated == rol_value(byte, old(self)@.carry()),
    {
        let c: u8 = if self.get_psr_bit(SRMask::Carry) {
            1
        } else {
            0
        };
        let byte_shifted = (byte as u16) << 1;
        let byte_rotated = (byte_shifted & 0xff) as u8 | c;
        assert(((byte as u16) << 1) == 2 * byte) by (bit_vector);
        assert(((((byte as u16) << 1) & 0xff) as u8 | c) == (2 * byte + c) % 0x100)
            by (bit_vector)
            requires
                c <= 1,
        ;
        self.set_sr_bit(SRMask::Carry, byte_shifted > 0xff);
        self.set_nz(byte_rotated);
        byte_rotated
    }

    /// Rotates the byte at `addr` left through Carry.
    pub fn rol_addr(&mut self, addr: u16) -> (effect: Effect)
        ensures
            final(self)@ == old(self)@.rol(old(self)@.read(addr)).write(
                addr,
                rol_value(old(self)@.read(addr), old(self)@.carry()),
            ),
            effect == old(self)@.mem.effect(
                addr,
                rol_value(old(self)@.read(addr), old(self)@.carry()),
            ),
    {
        let byte = self.read_byte_at(addr);
        let byte_rotated = self.rol(byte);
        self.write_byte_at(addr, byte_rotated)
    }

    /// Rotates `byte` right through Carry.
    pub fn ror(&mut self, byte: u8) -> (rotated: u8)
        ensures
            final(self)@ == old(self)@.ror(byte),
            rotated == ror_value(byte, old(self)@.carry()),
    {
        let c: u8 = if self.get_psr_bit(SRMask::Carry) {
            1
        } else {
            0
        };
        let byte_shifted = byte >> 1;
        let byte_rotated = byte_shifted | c << 7;
        assert(((byte >> 1) | c << 7) == (byte / 2 + 128 * c) % 0x100) by (bit_vector)
            requires
                c <= 1,
        ;
        assert(((byte & 0x01) != 0) == (byte % 2 == 1)) by (bit_vector);
        self.set_sr_bit(SRMask::Carry, (byte & 0x01) != 0);
        self.set_nz(byte_rotated);
        byte_rotated
    }

    /// Rotates the byte at `addr` right through Carry.
    pub fn ror_addr(&mut self, addr: u16) -> (effect: Effect)
        ensures
            final(self)@ == old(self)@.ror(old(self)@.read(addr)).write(
                addr,
                ror_value(old(self)@.read(addr), old(self)@.carry()),
            ),
            effect == old(self)@.mem.effect(
                addr,
                ror_value(old(self)@.read(addr), old(self)@.carry()),
            ),
    {
        let byte = self.read_byte_at(addr);
        let byte_rotated = self.ror(byte);
        self.write_byte_at(addr, byte_rotated)
    }

    /// Shifts `byte` right.
    pub fn lsr(&mut self, byte: u8) -> (shifted: u8)
        ensures
            final(self)@ == old(self)@.lsr(byte),
            shifted == lsr_value(byte),
    {
        assert(((byte & 0x01) != 0) == (byte % 2 == 1)) by (bit_vector);
        assert((byte >> 1) == byte / 2) by (bit_vector);
        self.set_sr_bit(SRMask::Carry, (byte & 0x01) != 0);
        let new_byte = byte >> 1;
        self.set_nz(new_byte);
        new_byte
    }

    /// Shifts the byte at `addr` right.
    pub fn lsr_addr(&mut self, addr: u16) -> (effect: Effect)
        ensures
            final(self)@ == old(self)@.lsr(old(self)@.read(addr)).write(
                addr,
                lsr_value(old(self)@.read(addr)),
            ),
            effect == old(self)@.mem.effect(addr, lsr_value(old(self)@.read(addr))),
    {
        let byte = self.read_byte_at(addr);
        let new_byte = self.lsr(byte);
        self.write_byte_at(addr, new_byte)
    }

    /// Shifts `byte` left.
    pub fn asl(&mut self, byte: u8) -> (shifted: u8)
        ensures
            final(self)@ == old(self)@.asl(byte),
            shifted == asl_value(byte),
    {
        let v_shifted = (byte as u16) << 1;
        assert(((byte as u16) << 1) == 2 * byte) by (bit_vector);
        self.set_sr_bit(SRMask::Carry, v_shifted > 0xff);
        let new_byte = low_of(v_shifted);
        self.set_nz(new_byte);
        new_byte
    }

    /// Shifts the byte at `addr` left.
    pub fn asl_addr(&mut self, addr: u16) -> (effect: Effect)
        ensures
            final(self)@ == old(self)@.asl(old(self)@.read(addr)).write(
                addr,
                asl_value(old(self)@.read(addr)),
            ),
            effect == old(self)@.mem.effect(addr, asl_value(old(self)@.read(addr))),
    {
        let byte = self.read_byte_at(addr);
        let new_byte = self.asl(byte);
        self.write_byte_at(addr, new_byte)
    }

    /// Decrements the byte at `addr`.
    pub fn dec(&mut self, addr: u16) -> (effect: Effect)
        ensures
            final(self)@ == old(self)@.write(
                addr,
                old(self)@.read(addr).wrapping_sub(1),
            ).with_nz(old(self)@.read(addr).wrapping_sub(1)),
            effect == old(self)@.mem.effect(addr, old(self)@.read(addr).wrapping_sub(1)),
    {
        let byte = self.read_byte_at(addr);
        let new_byte = byte.wrapping_sub(1);
        let effect = self.write_byte_at(addr, new_byte);
        self.set_nz(new_byte);
        effect
    }

    /// Increments the byte at `addr`.
    pub fn inc(&mut self, addr: u16) -> (effect: Effect)
        ensures
            final(self)@ == old(self)@.write(
                addr,
                old(self)@.read(addr).wrapping_add(1),
            ).with_nz(old(self)@.read(addr).wrapping_add(1)),
            effect == old(self)@.mem.effect(addr, old(self)@.read(addr).wrapping_add(1)),
    {
        let byte = self.read_byte_at(addr);
        let new_byte = byte.wrapping_add(1);
        let effect = self.write_byte_at(addr, new_byte);
        self.set_nz(new_byte);
        effect
    }

    /// Consumes the offset byte of a branch, and goes by it when `cond`
    /// holds.
    pub fn branch(&mut self, cond: bool)
        ensures
            final(self)@ == old(self)@.branch(cond),
    {
        if !cond {
            self.pc = self.pc.wrapping_add(1);
            return ;
        }
        let offset = self.read_byte();
        self.pc = branch_to(self.pc, offset);
    }

    /// Does what an instruction does to registers, flags and memory, and
    /// leaves the program counter where it is.
    fn perform(&mut self, inst: Instruction, addr: u16) -> (effect: Effect)
        requires
            addr == old(self)@.effective_address(inst.mode),
        ensures
            final(self)@ == old(self)@.perform(inst),
            effect == old(self)@.effect(inst),
    {
        match inst.mnemonic {
            Mnemonic::LDA => {
                let byte = self.read_byte_at(addr);
                self.lda(byte);
                Effect::Nothing
            },
            Mnemonic::LDX => {
                let byte = self.read_byte_at(addr);
                self.ldx(byte);
                Effect::Nothing
            },
            Mnemonic::LDY => {
                let byte = self.read_byte_at(addr);
                self.ldy(byte);
                Effect::Nothing
            },
            Mnemonic::STA => self.sta(addr),
            Mnemonic::STX => self.stx(addr),
            Mnemonic::STY => self.sty(addr),
            Mnemonic::ADC => {
                let byte = self.read_byte_at(addr);
                self.adc(byte);
                Effect::Nothing
            },
            Mnemonic::SBC => {
                let byte = self.read_byte_at(addr);
                self.sbc(byte);
                Effect::Nothing
            },
            Mnemonic::CMP => {
                let byte = self.read_byte_at(addr);
                self.cmp(byte);
                Effect::Nothing
            },
            Mnemonic::CPX => {
                let byte = self.read_byte_at(addr);
                self.cpx(byte);
                Effect::Nothing
            },
            Mnemonic::CPY => {
                let byte = self.read_byte_at(addr);
                self.cpy(byte);
                Effect::Nothing
            },
            Mnemonic::ORA => {
                let byte = self.read_byte_at(addr);
                self.ora(byte);
                Effect::Nothing
            },
            Mnemonic::AND => {
                let byte = self.read_byte_at(addr);
                self.and(byte);
                Effect::Nothing
            },
            Mnemonic::EOR => {
                let byte = self.read_byte_at(addr);
                self.eor(byte);
                Effect::Nothing
            },
            Mnemonic::BIT => {
                let byte = self.read_byte_at(addr);
                self.bit(byte);
                Effect::Nothing
            },
            Mnemonic::ASL => match inst.mode {
                Mode::Accumulator => {
                    self.a = self.asl(self.a);
                    Effect::Nothing
                },
                _ => self.asl_addr(addr),
            },
            Mnemonic::LSR => match inst.mode {
                Mode::Accumulator => {
                    self.a = self.lsr(self.a);
                    Effect::Nothing
                },
                _ => self.lsr_addr(addr),
            },
            Mnemonic::ROL => match inst.mode {
                Mode::Accumulator => {
                    self.a = self.rol(self.a);
                    Effect::Nothing
                },
                _ => self.rol_addr(addr),
            },
            Mnemonic::ROR => match inst.mode {
                Mode::Accumulator => {
                    self.a = self.ror(self.a);
                    Effect::Nothing
                },
                _ => self.ror_addr(addr),
            },
            Mnemonic::INC => self.inc(addr),
            Mnemonic::DEC => self.dec(addr),
            Mnemonic::INX => {
                self.ldx(self.x.wrapping_add(1));
                Effect::Nothing
            },
            Mnemonic::INY => {
                self.ldy(self.y.wrapping_add(1));
                Effect::Nothing
            },
            Mnemonic::DEX => {
                self.ldx(self.x.wrapping_sub(1));
                Effect::Nothing
            },
            Mnemonic::DEY => {
                self.ldy(self.y.wrapping_sub(1));
                Effect::Nothing
            },
            Mnemonic::TAX => {
                self.ldx(self.a);
                Effect::Nothing
            },
            Mnemonic::TAY => {
                self.ldy(self.a);
                Effect::Nothing
            },
            Mnemonic::TXA => {
                self.lda(self.x);
                Effect::Nothing
            },
            Mnemonic::TYA => {
                self.lda(self.y);
                Effect::Nothing
            },
            Mnemonic::TSX => {
                self.ldx(self.sp);
                Effect::Nothing
            },
            Mnemonic::TXS => {
                self.sp = self.x;
                Effect::Nothing
            },
            Mnemonic::CLC => {
                self.set_sr_bit(SRMask::Carry, false);
                Effect::Nothing
            },
            Mnemonic::SEC => {
                self.set_sr_bit(SRMask::Carry, true);
                Effect::Nothing
            },
            Mnemonic::CLI => {
                self.set_sr_bit(SRMask::Interrupt, false);
                Effect::Nothing
            },
            Mnemonic::SEI => {
                self.set_sr_bit(SRMask::Interrupt, true);
                Effect::Nothing
            },
            Mnemonic::CLV => {
                self.set_sr_bit(SRMask::Overflow, false);
                Effect::Nothing
            },
            Mnemonic::CLD => {
                self.set_sr_bit(SRMask::Decimal, false);
                Effect::Nothing
            },
            Mnemonic::SED => {
                self.set_sr_bit(SRMask::Decimal, true);
                Effect::Nothing
            },
            Mnemonic::PHA => {
                self.push_to_stack(self.a);
                Effect::Nothing
            },
            Mnemonic::PHP => {
                proof {
                    lemma_pushed_status(self.sr);
                }
                self.push_to_stack(self.sr | B_R_MASK);
                Effect::Nothing
            },
            Mnemonic::PLA => {
                let byte = self.pop_from_stack();
                self.lda(byte);
                Effect::Nothing
            },
            Mnemonic::PLP => {
                self.pull_status();
                Effect::Nothing
            },
            _ => Effect::Nothing,
        }
    }

    /// Pulls the status register: six flags come off the stack, Break and
    /// Reserved stay as they are.
    fn pull_status(&mut self)
        ensures
            final(self)@ == old(self)@.pull_status(),
    {
        let stack_sr = self.pop_from_stack();
        proof {
            lemma_pulled_status(self.sr, stack_sr);
        }
        self.sr = stack_sr & !B_R_MASK | self.sr & B_R_MASK;
    }

    /// Executes the instruction at the program counter. A byte that is no
    /// instruction ends the run and changes nothing; BRK ends the run with
    /// the program counter behind its opcode.
    pub fn exec_instruction(&mut self) -> (result: Result<Step, EErr>)
        ensures
            final(self)@ == old(self)@.step(),
            result == old(self)@.outcome(),
            Instruction::lookup(old(self)@.read(old(self).pc)) is None ==> final(self)@ == old(
                self,
            )@ && result == Err::<Step, EErr>(
                EErr::IllegalInstruction(old(self)@.read(old(self).pc)),
            ),
            old(self)@.read(old(self).pc) == 0x00 ==> final(self)@ == old(self)@.skip(1)
                && result == Err::<Step, EErr>(EErr::Break),
    {
        let at = self.pc;
        let inst = match self.read_instruction() {
            Ok(inst) => inst,
            Err(byte) => {
                return Err(EErr::from(byte));
            },
        };
        self.pc = self.pc.wrapping_add(1);
        let operand = self.operand(inst.mode);
        let addr = self.effective_address(inst.mode);
        let mut effect = Effect::Nothing;
        match inst.mnemonic {
            Mnemonic::BRK => {
                return Err(EErr::Break);
            },
            Mnemonic::JMP => {
                self.pc = addr;
            },
            Mnemonic::JSR => {
                // The return address is that of the last operand byte: RTS
                // adds the missing one.
                self.pc = self.pc.wrapping_add(1);
                let ret_high = high_of(self.pc);
                let ret_low = low_of(self.pc);
                self.push_to_stack(ret_high);
                self.push_to_stack(ret_low);
                self.pc = addr;
            },
            Mnemonic::RTS => {
                let new_pc = self.read_word_from_stack();
                self.pc = new_pc.wrapping_add(1);
            },
            Mnemonic::RTI => {
                self.pull_status();
                self.pc = self.read_word_from_stack();
            },
            Mnemonic::BPL => {
                let cond = !self.get_psr_bit(SRMask::Negative);
                self.branch(cond);
            },
            Mnemonic::BMI => {
                let cond = self.get_psr_bit(SRMask::Negative);
                self.branch(cond);
            },
            Mnemonic::BVC => {
                let cond = !self.get_psr_bit(SRMask::Overflow);
                self.branch(cond);
            },
            Mnemonic::BVS => {
                let cond = self.get_psr_bit(SRMask::Overflow);
                self.branch(cond);
            },
            Mnemonic::BCC => {
                let cond = !self.get_psr_bit(SRMask::Carry);
                self.branch(cond);
            },
            Mnemonic::BCS => {
                let cond = self.get_psr_bit(SRMask::Carry);
                self.branch(cond);
            },
            Mnemonic::BNE => {
                let cond = !self.get_psr_bit(SRMask::Zero);
                self.branch(cond);
            },
            Mnemonic::BEQ => {
                let cond = self.get_psr_bit(SRMask::Zero);
                self.branch(cond);
            },
            _ => {
                effect = self.perform(inst, addr);
                self.pc = self.pc.wrapping_add(inst.mode.length());
            },
        }
        Ok(Step { at, instruction: inst, operand, effect })
    }

    /// The window that the program asks for: width and height as the ROM
    /// gives them, and the title that the ROM points at, up to its first
    /// zero byte.
    pub fn window(&self) -> (window: Window)
        ensures
            window.width == self@.read_word(W_W_LOC),
            window.height == self@.read_word(W_H_LOC),
            window.title@ == self@.mem.text(self@.read_word(W_T_LOC), K64 as nat),
    {
        let width = self.read_word_at(W_W_LOC);
        let height = self.read_word_at(W_H_LOC);
        let title_ptr = self.read_word_at(W_T_LOC);
        let mut title: Vec<u8> = Vec::new();
        let mut i = title_ptr;
        let mut left: u32 = 0x1_0000;
        while left > 0 && self.bus.read(i) != 0x00
            invariant
                title@ + self@.mem.text(i, left as nat) == self@.mem.text(title_ptr, K64 as nat),
            decreases left,
        {
            title.push(self.bus.read(i));
            i = i.wrapping_add(1);
            left = left - 1;
        }
        Window { width, height, title }
    }

    /// One turn of the run loop. A stop that the outside world asked for is
    /// obeyed before anything is fetched; otherwise one instruction is
    /// executed, and the run goes on unless the program halted with it.
    pub fn run_step(&mut self, stop_requested: bool) -> (result: Result<Step, Stop>)
        ensures
            stop_requested ==> final(self)@ == old(self)@ && result == Err::<Step, Stop>(
                Stop::Closed,
            ),
            !stop_requested ==> final(self)@ == old(self)@.step() && result == (match old(
                self,
            )@.outcome() {
                Ok(step) => Ok::<Step, Stop>(step),
                Err(e) => Err(Stop::Halted(e)),
            }),
    {
        if stop_requested {
            return Err(Stop::Closed);
        }
        match self.exec_instruction() {
            Ok(step) => Ok(step),
            Err(e) => Err(Stop::Halted(e)),
        }
    }
}

} // verus!
