//! The machine as mathematics: the registers and the bus as plain values,
//! and what one instruction makes of them. The contracts of the emulator
//! are stated over this model.

use vstd::prelude::*;
use crate::bus::{Effect, Memory};
use crate::instruction::{Instruction, Mnemonic, Mode};
use crate::layout::{GPU_LOC, RV_LOC_LOW, STACK_BASE};
use crate::outcome::{EErr, Operand, Step};
use crate::status::{flag_set, negative, pulled_status, pushed_status, with_flag, with_nz, SRMask};
use crate::word::{branch_target, high_byte, low_byte, word, wrap8};

verus! {

/// ADC overflows when accumulator and operand have one sign and the result
/// has the other.
pub open spec fn adc_overflows(a: u8, m: u8, result: u8) -> bool {
    negative(a) == negative(m) && negative(result) != negative(a)
}

/// SBC overflows when accumulator and operand differ in sign and the result
/// has not the accumulator's sign.
pub open spec fn sbc_overflows(a: u8, m: u8, result: u8) -> bool {
    negative(a) != negative(m) && negative(result) != negative(a)
}

/// `byte` shifted left by one bit; bit 7 falls out.
pub open spec fn asl_value(byte: u8) -> u8 {
    wrap8(2 * byte)
}

/// `byte` shifted right by one bit; bit 0 falls out.
pub open spec fn lsr_value(byte: u8) -> u8 {
    byte / 2
}

/// `byte` rotated left by one bit, with `carry` (0 or 1) entering at bit 0.
pub open spec fn rol_value(byte: u8, carry: int) -> u8 {
    wrap8(2 * byte + carry)
}

/// `byte` rotated right by one bit, with `carry` (0 or 1) entering at
/// bit 7.
pub open spec fn ror_value(byte: u8, carry: int) -> u8 {
    wrap8(byte / 2 + 128 * carry)
}

/// A byte as an address in page zero.
pub open spec fn page_zero(byte: u8) -> u16 {
    byte as u16
}

/// The state of the processor and of the bus.
#[verifier::ext_equal]
pub struct Machine {
    /// Accumulator.
    pub a: u8,
    /// X register.
    pub x: u8,
    /// Y register.
    pub y: u8,
    /// Program counter.
    pub pc: u16,
    /// Stack pointer: an offset into the stack page.
    pub sp: u8,
    /// Status register.
    pub sr: u8,
    /// The bus.
    pub mem: Memory,
}

impl Machine {
    /// The machine after reset with `rom` in the upper half of the address
    /// space. The program counter comes from the reset vector, the stack is
    /// empty, only Reserved is set, and the graphics window is live when
    /// the ROM asks for it.
    pub open spec fn reset(rom: Seq<u8>) -> Machine {
        let mem = Memory::initial(rom);
        Machine {
            a: 0,
            x: 0,
            y: 0,
            pc: mem.read_word(RV_LOC_LOW),
            sp: 0xff,
            sr: SRMask::Reserved.bits(),
            mem: mem.with_gpu_enable(mem.read(GPU_LOC) != 0),
        }
    }

    /// Whether a flag is set.
    pub open spec fn flag(self, bit: SRMask) -> bool {
        flag_set(self.sr, bit)
    }

    /// The Carry flag as a number.
    pub open spec fn carry(self) -> int {
        if self.flag(SRMask::Carry) {
            1
        } else {
            0
        }
    }

    /// The machine with one flag set or cleared.
    pub open spec fn with_flag(self, bit: SRMask, val: bool) -> Machine {
        Machine { sr: with_flag(self.sr, bit, val), ..self }
    }

    /// The machine with Zero and Negative as the result `byte` has them.
    pub open spec fn with_nz(self, byte: u8) -> Machine {
        Machine { sr: with_nz(self.sr, byte), ..self }
    }

    /// The byte that `addr` reads.
    pub open spec fn read(self, addr: u16) -> u8 {
        self.mem.read(addr)
    }

    /// The word that stands at `addr`, low byte first.
    pub open spec fn read_word(self, addr: u16) -> u16 {
        self.mem.read_word(addr)
    }

    /// The machine after a write of `byte` to `addr`.
    pub open spec fn write(self, addr: u16, byte: u8) -> Machine {
        Machine { mem: self.mem.write(addr, byte), ..self }
    }

    /// The program counter moved on by `n` bytes.
    pub open spec fn skip(self, n: u16) -> Machine {
        Machine { pc: self.pc.wrapping_add(n), ..self }
    }

    /// The program counter set to `target`.
    pub open spec fn jump(self, target: u16) -> Machine {
        Machine { pc: target, ..self }
    }

    /// The address in the stack page that the stack pointer stands for.
    pub open spec fn stack_address(self) -> u16 {
        (STACK_BASE + self.sp) as u16
    }

    /// A push writes where the stack pointer stands and then moves it down
    /// by one, from the bottom of the page to its top.
    pub open spec fn push(self, byte: u8) -> Machine {
        Machine {
            sp: self.sp.wrapping_sub(1),
            mem: self.mem.write(self.stack_address(), byte),
            ..self
        }
    }

    /// A pop moves the stack pointer up by one, from the top of the page to
    /// its bottom. The byte that it yields is then `top`.
    pub open spec fn pop(self) -> Machine {
        Machine { sp: self.sp.wrapping_add(1), ..self }
    }

    /// The byte where the stack pointer stands.
    pub open spec fn top(self) -> u8 {
        self.read(self.stack_address())
    }

    /// The word that two pops yield, low byte first.
    pub open spec fn popped_word(self) -> u16 {
        word(self.pop().top(), self.pop().pop().top())
    }

    /// Where the operand of an instruction in the given mode stands, for a
    /// program counter that points behind the opcode. An immediate operand
    /// stands at the program counter itself; for a branch this is where it
    /// goes when taken.
    pub open spec fn effective_address(self, mode: Mode) -> u16 {
        let operand = self.read(self.pc);
        match mode {
            Mode::Implied | Mode::Accumulator | Mode::Immediate => self.pc,
            Mode::ZeroPage => page_zero(operand),
            Mode::ZeroPageX => page_zero(operand.wrapping_add(self.x)),
            Mode::ZeroPageY => page_zero(operand.wrapping_add(self.y)),
            Mode::Absolute => self.read_word(self.pc),
            Mode::AbsoluteX => self.read_word(self.pc).wrapping_add(page_zero(self.x)),
            Mode::AbsoluteY => self.read_word(self.pc).wrapping_add(page_zero(self.y)),
            Mode::Indirect => self.read_word(self.read_word(self.pc)),
            Mode::IndirectX => self.read_word(page_zero(operand.wrapping_add(self.x))),
            Mode::IndirectY => self.read_word(page_zero(operand)).wrapping_add(
                page_zero(self.y),
            ),
            Mode::Relative => branch_target(self.pc, operand),
        }
    }

    /// The operand in the form that a trace shows.
    pub open spec fn operand(self, mode: Mode) -> Operand {
        match mode {
            Mode::Implied => Operand::Implied,
            Mode::Accumulator => Operand::Accumulator,
            Mode::Immediate => Operand::Immediate(self.read(self.pc)),
            _ => Operand::Address(self.effective_address(mode)),
        }
    }

    /// `byte` in the accumulator, and Zero and Negative as it has them.
    pub open spec fn load_a(self, byte: u8) -> Machine {
        Machine { a: byte, ..self }.with_nz(byte)
    }

    /// `byte` in X, and Zero and Negative as it has them.
    pub open spec fn load_x(self, byte: u8) -> Machine {
        Machine { x: byte, ..self }.with_nz(byte)
    }

    /// `byte` in Y, and Zero and Negative as it has them.
    pub open spec fn load_y(self, byte: u8) -> Machine {
        Machine { y: byte, ..self }.with_nz(byte)
    }

    /// Accumulator plus operand plus Carry. Carry is set when the sum does
    /// not fit in a byte.
    pub open spec fn adc(self, m: u8) -> Machine {
        let sum = self.a + m + self.carry();
        let result = wrap8(sum);
        Machine { a: result, ..self }.with_flag(SRMask::Carry, sum > 0xff).with_flag(
            SRMask::Overflow,
            adc_overflows(self.a, m, result),
        ).with_nz(result)
    }

    /// Accumulator minus operand minus the borrow, which is the inverse of
    /// Carry: the sum of the accumulator, the operand's complement and
    /// Carry. Carry is set when there was no borrow.
    pub open spec fn sbc(self, m: u8) -> Machine {
        let sum = self.a + (0xff - m) + self.carry();
        let result = wrap8(sum);
        Machine { a: result, ..self }.with_flag(SRMask::Carry, sum > 0xff).with_flag(
            SRMask::Overflow,
            sbc_overflows(self.a, m, result),
        ).with_nz(result)
    }

    /// The flags after `register` is held against `m`: Zero and Negative
    /// from the difference, Carry when the register is at least `m`.
    pub open spec fn compare(self, register: u8, m: u8) -> Machine {
        self.with_nz(register.wrapping_sub(m)).with_flag(SRMask::Carry, register >= m)
    }

    /// The operand or-ed into the accumulator.
    pub open spec fn ora(self, m: u8) -> Machine {
        self.load_a(self.a | m)
    }

    /// The operand and-ed into the accumulator.
    pub open spec fn and(self, m: u8) -> Machine {
        self.load_a(self.a & m)
    }

    /// The operand exclusive-or-ed into the accumulator.
    pub open spec fn eor(self, m: u8) -> Machine {
        self.load_a(self.a ^ m)
    }

    /// Zero says whether accumulator and operand share no bit; Negative and
    /// Overflow are the operand's own bits 7 and 6, which stand where the
    /// two flags stand in the status register.
    pub open spec fn bit(self, m: u8) -> Machine {
        self.with_flag(SRMask::Zero, self.a & m == 0).with_flag(
            SRMask::Negative,
            flag_set(m, SRMask::Negative),
        ).with_flag(SRMask::Overflow, flag_set(m, SRMask::Overflow))
    }

    /// The flags after `byte` is shifted left.
    pub open spec fn asl(self, byte: u8) -> Machine {
        self.with_flag(SRMask::Carry, byte >= 128).with_nz(asl_value(byte))
    }

    /// The flags after `byte` is shifted right.
    pub open spec fn lsr(self, byte: u8) -> Machine {
        self.with_flag(SRMask::Carry, byte % 2 == 1).with_nz(lsr_value(byte))
    }

    /// The flags after `byte` is rotated left.
    pub open spec fn rol(self, byte: u8) -> Machine {
        self.with_flag(SRMask::Carry, byte >= 128).with_nz(rol_value(byte, self.carry()))
    }

    /// The flags after `byte` is rotated right.
    pub open spec fn ror(self, byte: u8) -> Machine {
        self.with_flag(SRMask::Carry, byte % 2 == 1).with_nz(ror_value(byte, self.carry()))
    }

    /// The result of a shift or rotate put where the operand came from.
    pub open spec fn put(self, mode: Mode, addr: u16, byte: u8) -> Machine {
        if mode == Mode::Accumulator {
            Machine { a: byte, ..self }
        } else {
            self.write(addr, byte)
        }
    }

    /// A branch consumes its offset byte, and goes by that offset when
    /// taken.
    pub open spec fn branch(self, taken: bool) -> Machine {
        if taken {
            self.jump(branch_target(self.pc, self.read(self.pc)))
        } else {
            self.skip(1)
        }
    }

    /// JSR, for a program counter that points behind the opcode: the
    /// address of the last operand byte goes on the stack, high byte first.
    pub open spec fn call(self, target: u16) -> Machine {
        let last = self.pc.wrapping_add(1);
        self.push(high_byte(last)).push(low_byte(last)).jump(target)
    }

    /// RTS: pops an address, low byte first, and goes one past it.
    pub open spec fn return_from_subroutine(self) -> Machine {
        self.pop().pop().jump(self.popped_word().wrapping_add(1))
    }

    /// PHP: the status register goes on the stack with Break and Reserved
    /// set.
    pub open spec fn push_status(self) -> Machine {
        self.push(pushed_status(self.sr))
    }

    /// PLP: six flags come off the stack; Break and Reserved stay as the
    /// register has them.
    pub open spec fn pull_status(self) -> Machine {
        Machine { sr: pulled_status(self.sr, self.pop().top()), ..self.pop() }
    }

    /// PLA: the accumulator comes off the stack.
    pub open spec fn pull_a(self) -> Machine {
        self.pop().load_a(self.pop().top())
    }

    /// RTI: pulls the status register, then pops an address, low byte
    /// first, and goes there.
    pub open spec fn return_from_interrupt(self) -> Machine {
        let pulled = self.pull_status();
        pulled.pop().pop().jump(pulled.popped_word())
    }

    /// What an instruction makes of the machine, for a program counter that
    /// points behind the opcode. Jumps, calls, returns and branches set the
    /// program counter themselves; every other instruction does its work
    /// and moves on past its operand.
    pub open spec fn execute(self, inst: Instruction) -> Machine {
        let addr = self.effective_address(inst.mode);
        match inst.mnemonic {
            Mnemonic::BRK => self,
            Mnemonic::JMP => self.jump(addr),
            Mnemonic::JSR => self.call(addr),
            Mnemonic::RTS => self.return_from_subroutine(),
            Mnemonic::RTI => self.return_from_interrupt(),
            Mnemonic::BPL => self.branch(!self.flag(SRMask::Negative)),
            Mnemonic::BMI => self.branch(self.flag(SRMask::Negative)),
            Mnemonic::BVC => self.branch(!self.flag(SRMask::Overflow)),
            Mnemonic::BVS => self.branch(self.flag(SRMask::Overflow)),
            Mnemonic::BCC => self.branch(!self.flag(SRMask::Carry)),
            Mnemonic::BCS => self.branch(self.flag(SRMask::Carry)),
            Mnemonic::BNE => self.branch(!self.flag(SRMask::Zero)),
            Mnemonic::BEQ => self.branch(self.flag(SRMask::Zero)),
            _ => self.perform(inst).skip(inst.mode.operand_length()),
        }
    }

    /// What an instruction does to registers, flags and memory, the program
    /// counter left aside.
    pub open spec fn perform(self, inst: Instruction) -> Machine {
        let mode = inst.mode;
        let addr = self.effective_address(mode);
        let m = self.read(addr);
        match inst.mnemonic {
            Mnemonic::LDA => self.load_a(m),
            Mnemonic::LDX => self.load_x(m),
            Mnemonic::LDY => self.load_y(m),
            Mnemonic::STA => self.write(addr, self.a),
            Mnemonic::STX => self.write(addr, self.x),
            Mnemonic::STY => self.write(addr, self.y),
            Mnemonic::ADC => self.adc(m),
            Mnemonic::SBC => self.sbc(m),
            Mnemonic::CMP => self.compare(self.a, m),
            Mnemonic::CPX => self.compare(self.x, m),
            Mnemonic::CPY => self.compare(self.y, m),
            Mnemonic::ORA => self.ora(m),
            Mnemonic::AND => self.and(m),
            Mnemonic::EOR => self.eor(m),
            Mnemonic::BIT => self.bit(m),
            Mnemonic::ASL => {
                let byte = self.shifted(mode);
                self.asl(byte).put(mode, addr, asl_value(byte))
            },
            Mnemonic::LSR => {
                let byte = self.shifted(mode);
                self.lsr(byte).put(mode, addr, lsr_value(byte))
            },
            Mnemonic::ROL => {
                let byte = self.shifted(mode);
                self.rol(byte).put(mode, addr, rol_value(byte, self.carry()))
            },
            Mnemonic::ROR => {
                let byte = self.shifted(mode);
                self.ror(byte).put(mode, addr, ror_value(byte, self.carry()))
            },
            Mnemonic::INC => self.write(addr, m.wrapping_add(1)).with_nz(m.wrapping_add(1)),
            Mnemonic::DEC => self.write(addr, m.wrapping_sub(1)).with_nz(m.wrapping_sub(1)),
            Mnemonic::INX => self.load_x(self.x.wrapping_add(1)),
            Mnemonic::INY => self.load_y(self.y.wrapping_add(1)),
            Mnemonic::DEX => self.load_x(self.x.wrapping_sub(1)),
            Mnemonic::DEY => self.load_y(self.y.wrapping_sub(1)),
            Mnemonic::TAX => self.load_x(self.a),
            Mnemonic::TAY => self.load_y(self.a),
            Mnemonic::TXA => self.load_a(self.x),
            Mnemonic::TYA => self.load_a(self.y),
            Mnemonic::TSX => self.load_x(self.sp),
            Mnemonic::TXS => Machine { sp: self.x, ..self },
            Mnemonic::CLC => self.with_flag(SRMask::Carry, false),
            Mnemonic::SEC => self.with_flag(SRMask::Carry, true),
            Mnemonic::CLI => self.with_flag(SRMask::Interrupt, false),
            Mnemonic::SEI => self.with_flag(SRMask::Interrupt, true),
            Mnemonic::CLV => self.with_flag(SRMask::Overflow, false),
            Mnemonic::CLD => self.with_flag(SRMask::Decimal, false),
            Mnemonic::SED => self.with_flag(SRMask::Decimal, true),
            Mnemonic::PHA => self.push(self.a),
            Mnemonic::PHP => self.push_status(),
            Mnemonic::PLA => self.pull_a(),
            Mnemonic::PLP => self.pull_status(),
            _ => self,
        }
    }

    /// The byte that a shift or rotate works on.
    pub open spec fn shifted(self, mode: Mode) -> u8 {
        if mode == Mode::Accumulator {
            self.a
        } else {
            self.read(self.effective_address(mode))
        }
    }

    /// What the write of an instruction asks of the outside world. Only
    /// stores and the instructions that modify memory write outside the
    /// stack.
    pub open spec fn effect(self, inst: Instruction) -> Effect {
        let mode = inst.mode;
        let addr = self.effective_address(mode);
        let m = self.read(addr);
        match inst.mnemonic {
            Mnemonic::STA => self.mem.effect(addr, self.a),
            Mnemonic::STX => self.mem.effect(addr, self.x),
            Mnemonic::STY => self.mem.effect(addr, self.y),
            Mnemonic::INC => self.mem.effect(addr, m.wrapping_add(1)),
            Mnemonic::DEC => self.mem.effect(addr, m.wrapping_sub(1)),
            Mnemonic::ASL => self.put_effect(mode, addr, asl_value(m)),
            Mnemonic::LSR => self.put_effect(mode, addr, lsr_value(m)),
            Mnemonic::ROL => self.put_effect(mode, addr, rol_value(m, self.carry())),
            Mnemonic::ROR => self.put_effect(mode, addr, ror_value(m, self.carry())),
            _ => Effect::Nothing,
        }
    }

    /// What putting the result of a shift or rotate asks of the outside
    /// world: nothing when it goes to the accumulator.
    pub open spec fn put_effect(self, mode: Mode, addr: u16, byte: u8) -> Effect {
        if mode == Mode::Accumulator {
            Effect::Nothing
        } else {
            self.mem.effect(addr, byte)
        }
    }

    /// The machine after the instruction at the program counter. A byte
    /// that is no instruction leaves the machine as it is; BRK only moves
    /// the program counter behind its opcode.
    pub open spec fn step(self) -> Machine {
        match Instruction::lookup(self.read(self.pc)) {
            None => self,
            Some(inst) => self.skip(1).execute(inst),
        }
    }

    /// What the instruction at the program counter hands back: its record,
    /// or the reason why the run ends with it.
    pub open spec fn outcome(self) -> Result<Step, EErr> {
        let opcode = self.read(self.pc);
        match Instruction::lookup(opcode) {
            None => Err(EErr::IllegalInstruction(opcode)),
            Some(inst) => if inst.mnemonic == Mnemonic::BRK {
                Err(EErr::Break)
            } else {
                Ok(
                    Step {
                        at: self.pc,
                        instruction: inst,
                        operand: self.skip(1).operand(inst.mode),
                        effect: self.skip(1).effect(inst),
                    },
                )
            },
        }
    }
}

} // verus!
