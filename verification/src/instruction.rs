//! The instruction table: which operation and which addressing mode each
//! opcode byte stands for.

use vstd::prelude::*;

verus! {

/// The operations of the processor.
#[derive(Clone, Copy, Debug, PartialEq, Eq, Structural)]
pub enum Mnemonic {
    /// Add memory and carry to the accumulator.
    ADC,
    /// And memory into the accumulator.
    AND,
    /// Shift left by one bit.
    ASL,
    /// Branch if Carry is clear.
    BCC,
    /// Branch if Carry is set.
    BCS,
    /// Branch if Zero is set.
    BEQ,
    /// Test memory bits against the accumulator.
    BIT,
    /// Branch if Negative is set.
    BMI,
    /// Branch if Zero is clear.
    BNE,
    /// Branch if Negative is clear.
    BPL,
    /// Halt.
    BRK,
    /// Branch if Overflow is clear.
    BVC,
    /// Branch if Overflow is set.
    BVS,
    /// Clear Carry.
    CLC,
    /// Clear Decimal.
    CLD,
    /// Clear Interrupt.
    CLI,
    /// Clear Overflow.
    CLV,
    /// Compare memory with the accumulator.
    CMP,
    /// Compare memory with X.
    CPX,
    /// Compare memory with Y.
    CPY,
    /// Decrement memory.
    DEC,
    /// Decrement X.
    DEX,
    /// Decrement Y.
    DEY,
    /// Exclusive-or memory into the accumulator.
    EOR,
    /// Increment memory.
    INC,
    /// Increment X.
    INX,
    /// Increment Y.
    INY,
    /// Jump.
    JMP,
    /// Jump to a subroutine.
    JSR,
    /// Load the accumulator.
    LDA,
    /// Load X.
    LDX,
    /// Load Y.
    LDY,
    /// Shift right by one bit.
    LSR,
    /// Do nothing.
    NOP,
    /// Or memory into the accumulator.
    ORA,
    /// Push the accumulator.
    PHA,
    /// Push the status register.
    PHP,
    /// Pull the accumulator.
    PLA,
    /// Pull the status register.
    PLP,
    /// Rotate left through Carry.
    ROL,
    /// Rotate right through Carry.
    ROR,
    /// Return from an interrupt.
    RTI,
    /// Return from a subroutine.
    RTS,
    /// Subtract memory and borrow from the accumulator.
    SBC,
    /// Set Carry.
    SEC,
    /// Set Decimal.
    SED,
    /// Set Interrupt.
    SEI,
    /// Store the accumulator.
    STA,
    /// Store X.
    STX,
    /// Store Y.
    STY,
    /// Copy the accumulator to X.
    TAX,
    /// Copy the accumulator to Y.
    TAY,
    /// Copy the stack pointer to X.
    TSX,
    /// Copy X to the accumulator.
    TXA,
    /// Copy X to the stack pointer.
    TXS,
    /// Copy Y to the accumulator.
    TYA,
}

/// How an instruction finds its operand.
#[derive(Clone, Copy, Debug, PartialEq, Eq, Structural)]
pub enum Mode {
    /// No operand.
    Implied,
    /// The accumulator is the operand.
    Accumulator,
    /// The byte after the opcode is the operand.
    Immediate,
    /// The byte after the opcode is an address in page zero.
    ZeroPage,
    /// Page zero, indexed by X without leaving the page.
    ZeroPageX,
    /// Page zero, indexed by Y without leaving the page.
    ZeroPageY,
    /// The two bytes after the opcode are the address, low byte first.
    Absolute,
    /// Absolute, indexed by X.
    AbsoluteX,
    /// Absolute, indexed by Y.
    AbsoluteY,
    /// The two bytes after the opcode point at the address.
    Indirect,
    /// The byte after the opcode plus X, within page zero, points at the
    /// address.
    IndirectX,
    /// The byte after the opcode points, in page zero, at an address to
    /// which Y is added.
    IndirectY,
    /// The byte after the opcode is a signed distance from the next
    /// instruction.
    Relative,
}

impl Mode {
    /// How many operand bytes follow the opcode.
    pub open spec fn operand_length(self) -> u16 {
        match self {
            Mode::Implied | Mode::Accumulator => 0,
            Mode::Absolute | Mode::AbsoluteX | Mode::AbsoluteY | Mode::Indirect => 2,
            _ => 1,
        }
    }

    /// How many operand bytes follow the opcode.
    pub fn length(self) -> (n: u16)
        ensures
            n == self.operand_length(),
    {
        match self {
            Mode::Implied | Mode::Accumulator => 0,
            Mode::Absolute | Mode::AbsoluteX | Mode::AbsoluteY | Mode::Indirect => 2,
            _ => 1,
        }
    }
}

/// A decoded opcode.
#[derive(Clone, Copy, Debug, PartialEq, Eq, Structural)]
pub struct Instruction {
    pub mnemonic: Mnemonic,
    pub mode: Mode,
}

impl Instruction {
    /// The instruction table. The bytes that it does not list are no
    /// instructions.
    pub open spec fn lookup(opcode: u8) -> Option<Instruction> {
        match opcode {
            0x00 => Some(Instruction { mnemonic: Mnemonic::BRK, mode: Mode::Implied }),
            0x01 => Some(Instruction { mnemonic: Mnemonic::ORA, mode: Mode::IndirectX }),
            0x05 => Some(Instruction { mnemonic: Mnemonic::ORA, mode: Mode::ZeroPage }),
            0x06 => Some(Instruction { mnemonic: Mnemonic::ASL, mode: Mode::ZeroPage }),
            0x08 => Some(Instruction { mnemonic: Mnemonic::PHP, mode: Mode::Implied }),
            0x09 => Some(Instruction { mnemonic: Mnemonic::ORA, mode: Mode::Immediate }),
            0x0a => Some(Instruction { mnemonic: Mnemonic::ASL, mode: Mode::Accumulator }),
            0x0d => Some(Instruction { mnemonic: Mnemonic::ORA, mode: Mode::Absolute }),
            0x0e => Some(Instruction { mnemonic: Mnemonic::ASL, mode: Mode::Absolute }),
            0x10 => Some(Instruction { mnemonic: Mnemonic::BPL, mode: Mode::Relative }),
            0x11 => Some(Instruction { mnemonic: Mnemonic::ORA, mode: Mode::IndirectY }),
            0x15 => Some(Instruction { mnemonic: Mnemonic::ORA, mode: Mode::ZeroPageX }),
            0x16 => Some(Instruction { mnemonic: Mnemonic::ASL, mode: Mode::ZeroPageX }),
            0x18 => Some(Instruction { mnemonic: Mnemonic::CLC, mode: Mode::Implied }),
            0x19 => Some(Instruction { mnemonic: Mnemonic::ORA, mode: Mode::AbsoluteY }),
            0x1d => Some(Instruction { mnemonic: Mnemonic::ORA, mode: Mode::AbsoluteX }),
            0x1e => Some(Instruction { mnemonic: Mnemonic::ASL, mode: Mode::AbsoluteX }),
            0x20 => Some(Instruction { mnemonic: Mnemonic::JSR, mode: Mode::Absolute }),
            0x21 => Some(Instruction { mnemonic: Mnemonic::AND, mode: Mode::IndirectX }),
            0x24 => Some(Instruction { mnemonic: Mnemonic::BIT, mode: Mode::ZeroPage }),
            0x25 => Some(Instruction { mnemonic: Mnemonic::AND, mode: Mode::ZeroPage }),
            0x26 => Some(Instruction { mnemonic: Mnemonic::ROL, mode: Mode::ZeroPage }),
            0x28 => Some(Instruction { mnemonic: Mnemonic::PLP, mode: Mode::Implied }),
            0x29 => Some(Instruction { mnemonic: Mnemonic::AND, mode: Mode::Immediate }),
            0x2a => Some(Instruction { mnemonic: Mnemonic::ROL, mode: Mode::Accumulator }),
            0x2c => Some(Instruction { mnemonic: Mnemonic::BIT, mode: Mode::Absolute }),
            0x2d => Some(Instruction { mnemonic: Mnemonic::AND, mode: Mode::Absolute }),
            0x2e => Some(Instruction { mnemonic: Mnemonic::ROL, mode: Mode::Absolute }),
            0x30 => Some(Instruction { mnemonic: Mnemonic::BMI, mode: Mode::Relative }),
            0x31 => Some(Instruction { mnemonic: Mnemonic::AND, mode: Mode::IndirectY }),
            0x35 => Some(Instruction { mnemonic: Mnemonic::AND, mode: Mode::ZeroPageX }),
            0x36 => Some(Instruction { mnemonic: Mnemonic::ROL, mode: Mode::ZeroPageX }),
            0x38 => Some(Instruction { mnemonic: Mnemonic::SEC, mode: Mode::Implied }),
            0x39 => Some(Instruction { mnemonic: Mnemonic::AND, mode: Mode::AbsoluteY }),
            0x3d => Some(Instruction { mnemonic: Mnemonic::AND, mode: Mode::AbsoluteX }),
            0x3e => Some(Instruction { mnemonic: Mnemonic::ROL, mode: Mode::AbsoluteX }),
            0x40 => Some(Instruction { mnemonic: Mnemonic::RTI, mode: Mode::Implied }),
            0x41 => Some(Instruction { mnemonic: Mnemonic::EOR, mode: Mode::IndirectX }),
            0x45 => Some(Instruction { mnemonic: Mnemonic::EOR, mode: Mode::ZeroPage }),
            0x46 => Some(Instruction { mnemonic: Mnemonic::LSR, mode: Mode::ZeroPage }),
            0x48 => Some(Instruction { mnemonic: Mnemonic::PHA, mode: Mode::Implied }),
            0x49 => Some(Instruction { mnemonic: Mnemonic::EOR, mode: Mode::Immediate }),
            0x4a => Some(Instruction { mnemonic: Mnemonic::LSR, mode: Mode::Accumulator }),
            0x4c => Some(Instruction { mnemonic: Mnemonic::JMP, mode: Mode::Absolute }),
            0x4d => Some(Instruction { mnemonic: Mnemonic::EOR, mode: Mode::Absolute }),
            0x4e => Some(Instruction { mnemonic: Mnemonic::LSR, mode: Mode::Absolute }),
            0x50 => Some(Instruction { mnemonic: Mnemonic::BVC, mode: Mode::Relative }),
            0x51 => Some(Instruction { mnemonic: Mnemonic::EOR, mode: Mode::IndirectY }),
            0x55 => Some(Instruction { mnemonic: Mnemonic::EOR, mode: Mode::ZeroPageX }),
            0x56 => Some(Instruction { mnemonic: Mnemonic::LSR, mode: Mode::ZeroPageX }),
            0x58 => Some(Instruction { mnemonic: Mnemonic::CLI, mode: Mode::Implied }),
            0x59 => Some(Instruction { mnemonic: Mnemonic::EOR, mode: Mode::AbsoluteY }),
            0x5d => Some(Instruction { mnemonic: Mnemonic::EOR, mode: Mode::AbsoluteX }),
            0x5e => Some(Instruction { mnemonic: Mnemonic::LSR, mode: Mode::AbsoluteX }),
            0x60 => Some(Instruction { mnemonic: Mnemonic::RTS, mode: Mode::Implied }),
            0x61 => Some(Instruction { mnemonic: Mnemonic::ADC, mode: Mode::IndirectX }),
            0x65 => Some(Instruction { mnemonic: Mnemonic::ADC, mode: Mode::ZeroPage }),
            0x66 => Some(Instruction { mnemonic: Mnemonic::ROR, mode: Mode::ZeroPage }),
            0x68 => Some(Instruction { mnemonic: Mnemonic::PLA, mode: Mode::Implied }),
            0x69 => Some(Instruction { mnemonic: Mnemonic::ADC, mode: Mode::Immediate }),
            0x6a => Some(Instruction { mnemonic: Mnemonic::ROR, mode: Mode::Accumulator }),
            0x6c => Some(Instruction { mnemonic: Mnemonic::JMP, mode: Mode::Indirect }),
            0x6d => Some(Instruction { mnemonic: Mnemonic::ADC, mode: Mode::Absolute }),
            0x6e => Some(Instruction { mnemonic: Mnemonic::ROR, mode: Mode::Absolute }),
            0x70 => Some(Instruction { mnemonic: Mnemonic::BVS, mode: Mode::Relative }),
            0x71 => Some(Instruction { mnemonic: Mnemonic::ADC, mode: Mode::IndirectY }),
            0x75 => Some(Instruction { mnemonic: Mnemonic::ADC, mode: Mode::ZeroPageX }),
            0x76 => Some(Instruction { mnemonic: Mnemonic::ROR, mode: Mode::ZeroPageX }),
            0x78 => Some(Instruction { mnemonic: Mnemonic::SEI, mode: Mode::Implied }),
            0x79 => Some(Instruction { mnemonic: Mnemonic::ADC, mode: Mode::AbsoluteY }),
            0x7d => Some(Instruction { mnemonic: Mnemonic::ADC, mode: Mode::AbsoluteX }),
            0x7e => Some(Instruction { mnemonic: Mnemonic::ROR, mode: Mode::AbsoluteX }),
            0x81 => Some(Instruction { mnemonic: Mnemonic::STA, mode: Mode::IndirectX }),
            0x84 => Some(Instruction { mnemonic: Mnemonic::STY, mode: Mode::ZeroPage }),
            0x85 => Some(Instruction { mnemonic: Mnemonic::STA, mode: Mode::ZeroPage }),
            0x86 => Some(Instruction { mnemonic: Mnemonic::STX, mode: Mode::ZeroPage }),
            0x88 => Some(Instruction { mnemonic: Mnemonic::DEY, mode: Mode::Implied }),
            0x8a => Some(Instruction { mnemonic: Mnemonic::TXA, mode: Mode::Implied }),
            0x8c => Some(Instruction { mnemonic: Mnemonic::STY, mode: Mode::Absolute }),
            0x8d => Some(Instruction { mnemonic: Mnemonic::STA, mode: Mode::Absolute }),
            0x8e => Some(Instruction { mnemonic: Mnemonic::STX, mode: Mode::Absolute }),
            0x90 => Some(Instruction { mnemonic: Mnemonic::BCC, mode: Mode::Relative }),
            0x91 => Some(Instruction { mnemonic: Mnemonic::STA, mode: Mode::IndirectY }),
            0x94 => Some(Instruction { mnemonic: Mnemonic::STY, mode: Mode::ZeroPageX }),
            0x95 => Some(Instruction { mnemonic: Mnemonic::STA, mode: Mode::ZeroPageX }),
            0x96 => Some(Instruction { mnemonic: Mnemonic::STX, mode: Mode::ZeroPageY }),
            0x98 => Some(Instruction { mnemonic: Mnemonic::TYA, mode: Mode::Implied }),
            0x99 => Some(Instruction { mnemonic: Mnemonic::STA, mode: Mode::AbsoluteY }),
            0x9a => Some(Instruction { mnemonic: Mnemonic::TXS, mode: Mode::Implied }),
            0x9d => Some(Instruction { mnemonic: Mnemonic::STA, mode: Mode::AbsoluteX }),
            0xa0 => Some(Instruction { mnemonic: Mnemonic::LDY, mode: Mode::Immediate }),
            0xa1 => Some(Instruction { mnemonic: Mnemonic::LDA, mode: Mode::IndirectX }),
            0xa2 => Some(Instruction { mnemonic: Mnemonic::LDX, mode: Mode::Immediate }),
            0xa4 => Some(Instruction { mnemonic: Mnemonic::LDY, mode: Mode::ZeroPage }),
            0xa5 => Some(Instruction { mnemonic: Mnemonic::LDA, mode: Mode::ZeroPage }),
            0xa6 => Some(Instruction { mnemonic: Mnemonic::LDX, mode: Mode::ZeroPage }),
            0xa8 => Some(Instruction { mnemonic: Mnemonic::TAY, mode: Mode::Implied }),
            0xa9 => Some(Instruction { mnemonic: Mnemonic::LDA, mode: Mode::Immediate }),
            0xaa => Some(Instruction { mnemonic: Mnemonic::TAX, mode: Mode::Implied }),
            0xac => Some(Instruction { mnemonic: Mnemonic::LDY, mode: Mode::Absolute }),
            0xad => Some(Instruction { mnemonic: Mnemonic::LDA, mode: Mode::Absolute }),
            0xae => Some(Instruction { mnemonic: Mnemonic::LDX, mode: Mode::Absolute }),
            0xb0 => Some(Instruction { mnemonic: Mnemonic::BCS, mode: Mode::Relative }),
            0xb1 => Some(Instruction { mnemonic: Mnemonic::LDA, mode: Mode::IndirectY }),
            0xb4 => Some(Instruction { mnemonic: Mnemonic::LDY, mode: Mode::ZeroPageX }),
            0xb5 => Some(Instruction { mnemonic: Mnemonic::LDA, mode: Mode::ZeroPageX }),
            0xb6 => Some(Instruction { mnemonic: Mnemonic::LDX, mode: Mode::ZeroPageY }),
            0xb8 => Some(Instruction { mnemonic: Mnemonic::CLV, mode: Mode::Implied }),
            0xb9 => Some(Instruction { mnemonic: Mnemonic::LDA, mode: Mode::AbsoluteY }),
            0xba => Some(Instruction { mnemonic: Mnemonic::TSX, mode: Mode::Implied }),
            0xbc => Some(Instruction { mnemonic: Mnemonic::LDY, mode: Mode::AbsoluteX }),
            0xbd => Some(Instruction { mnemonic: Mnemonic::LDA, mode: Mode::AbsoluteX }),
            0xbe => Some(Instruction { mnemonic: Mnemonic::LDX, mode: Mode::AbsoluteY }),
            0xc0 => Some(Instruction { mnemonic: Mnemonic::CPY, mode: Mode::Immediate }),
            0xc1 => Some(Instruction { mnemonic: Mnemonic::CMP, mode: Mode::IndirectX }),
            0xc4 => Some(Instruction { mnemonic: Mnemonic::CPY, mode: Mode::ZeroPage }),
            0xc5 => Some(Instruction { mnemonic: Mnemonic::CMP, mode: Mode::ZeroPage }),
            0xc6 => Some(Instruction { mnemonic: Mnemonic::DEC, mode: Mode::ZeroPage }),
            0xc8 => Some(Instruction { mnemonic: Mnemonic::INY, mode: Mode::Implied }),
            0xc9 => Some(Instruction { mnemonic: Mnemonic::CMP, mode: Mode::Immediate }),
            0xca => Some(Instruction { mnemonic: Mnemonic::DEX, mode: Mode::Implied }),
            0xcc => Some(Instruction { mnemonic: Mnemonic::CPY, mode: Mode::Absolute }),
            0xcd => Some(Instruction { mnemonic: Mnemonic::CMP, mode: Mode::Absolute }),
            0xce => Some(Instruction { mnemonic: Mnemonic::DEC, mode: Mode::Absolute }),
            0xd0 => Some(Instruction { mnemonic: Mnemonic::BNE, mode: Mode::Relative }),
            0xd1 => Some(Instruction { mnemonic: Mnemonic::CMP, mode: Mode::IndirectY }),
            0xd5 => Some(Instruction { mnemonic: Mnemonic::CMP, mode: Mode::ZeroPageX }),
            0xd6 => Some(Instruction { mnemonic: Mnemonic::DEC, mode: Mode::ZeroPageX }),
            0xd8 => Some(Instruction { mnemonic: Mnemonic::CLD, mode: Mode::Implied }),
            0xd9 => Some(Instruction { mnemonic: Mnemonic::CMP, mode: Mode::AbsoluteY }),
            0xdd => Some(Instruction { mnemonic: Mnemonic::CMP, mode: Mode::AbsoluteX }),
            0xde => Some(Instruction { mnemonic: Mnemonic::DEC, mode: Mode::AbsoluteX }),
            0xe0 => Some(Instruction { mnemonic: Mnemonic::CPX, mode: Mode::Immediate }),
            0xe1 => Some(Instruction { mnemonic: Mnemonic::SBC, mode: Mode::IndirectX }),
            0xe4 => Some(Instruction { mnemonic: Mnemonic::CPX, mode: Mode::ZeroPage }),
            0xe5 => Some(Instruction { mnemonic: Mnemonic::SBC, mode: Mode::ZeroPage }),
            0xe6 => Some(Instruction { mnemonic: Mnemonic::INC, mode: Mode::ZeroPage }),
            0xe8 => Some(Instruction { mnemonic: Mnemonic::INX, mode: Mode::Implied }),
            0xe9 => Some(Instruction { mnemonic: Mnemonic::SBC, mode: Mode::Immediate }),
            0xea => Some(Instruction { mnemonic: Mnemonic::NOP, mode: Mode::Implied }),
            0xec => Some(Instruction { mnemonic: Mnemonic::CPX, mode: Mode::Absolute }),
            0xed => Some(Instruction { mnemonic: Mnemonic::SBC, mode: Mode::Absolute }),
            0xee => Some(Instruction { mnemonic: Mnemonic::INC, mode: Mode::Absolute }),
            0xf0 => Some(Instruction { mnemonic: Mnemonic::BEQ, mode: Mode::Relative }),
            0xf1 => Some(Instruction { mnemonic: Mnemonic::SBC, mode: Mode::IndirectY }),
            0xf5 => Some(Instruction { mnemonic: Mnemonic::SBC, mode: Mode::ZeroPageX }),
            0xf6 => Some(Instruction { mnemonic: Mnemonic::INC, mode: Mode::ZeroPageX }),
            0xf8 => Some(Instruction { mnemonic: Mnemonic::SED, mode: Mode::Implied }),
            0xf9 => Some(Instruction { mnemonic: Mnemonic::SBC, mode: Mode::AbsoluteY }),
            0xfd => Some(Instruction { mnemonic: Mnemonic::SBC, mode: Mode::AbsoluteX }),
            0xfe => Some(Instruction { mnemonic: Mnemonic::INC, mode: Mode::AbsoluteX }),
            _ => None,
        }
    }

    /// Decodes an opcode byte, or says that it is none.
    pub fn decode(opcode: u8) -> (found: Option<Instruction>)
        ensures
            found == Self::lookup(opcode),
    {
        match opcode {
            0x00 => Some(Instruction { mnemonic: Mnemonic::BRK, mode: Mode::Implied }),
            0x01 => Some(Instruction { mnemonic: Mnemonic::ORA, mode: Mode::IndirectX }),
            0x05 => Some(Instruction { mnemonic: Mnemonic::ORA, mode: Mode::ZeroPage }),
            0x06 => Some(Instruction { mnemonic: Mnemonic::ASL, mode: Mode::ZeroPage }),
            0x08 => Some(Instruction { mnemonic: Mnemonic::PHP, mode: Mode::Implied }),
            0x09 => Some(Instruction { mnemonic: Mnemonic::ORA, mode: Mode::Immediate }),
            0x0a => Some(Instruction { mnemonic: Mnemonic::ASL, mode: Mode::Accumulator }),
            0x0d => Some(Instruction { mnemonic: Mnemonic::ORA, mode: Mode::Absolute }),
            0x0e => Some(Instruction { mnemonic: Mnemonic::ASL, mode: Mode::Absolute }),
            0x10 => Some(Instruction { mnemonic: Mnemonic::BPL, mode: Mode::Relative }),
            0x11 => Some(Instruction { mnemonic: Mnemonic::ORA, mode: Mode::IndirectY }),
            0x15 => Some(Instruction { mnemonic: Mnemonic::ORA, mode: Mode::ZeroPageX }),
            0x16 => Some(Instruction { mnemonic: Mnemonic::ASL, mode: Mode::ZeroPageX }),
            0x18 => Some(Instruction { mnemonic: Mnemonic::CLC, mode: Mode::Implied }),
            0x19 => Some(Instruction { mnemonic: Mnemonic::ORA, mode: Mode::AbsoluteY }),
            0x1d => Some(Instruction { mnemonic: Mnemonic::ORA, mode: Mode::AbsoluteX }),
            0x1e => Some(Instruction { mnemonic: Mnemonic::ASL, mode: Mode::AbsoluteX }),
            0x20 => Some(Instruction { mnemonic: Mnemonic::JSR, mode: Mode::Absolute }),
            0x21 => Some(Instruction { mnemonic: Mnemonic::AND, mode: Mode::IndirectX }),
            0x24 => Some(Instruction { mnemonic: Mnemonic::BIT, mode: Mode::ZeroPage }),
            0x25 => Some(Instruction { mnemonic: Mnemonic::AND, mode: Mode::ZeroPage }),
            0x26 => Some(Instruction { mnemonic: Mnemonic::ROL, mode: Mode::ZeroPage }),
            0x28 => Some(Instruction { mnemonic: Mnemonic::PLP, mode: Mode::Implied }),
            0x29 => Some(Instruction { mnemonic: Mnemonic::AND, mode: Mode::Immediate }),
            0x2a => Some(Instruction { mnemonic: Mnemonic::ROL, mode: Mode::Accumulator }),
            0x2c => Some(Instruction { mnemonic: Mnemonic::BIT, mode: Mode::Absolute }),
            0x2d => Some(Instruction { mnemonic: Mnemonic::AND, mode: Mode::Absolute }),
            0x2e => Some(Instruction { mnemonic: Mnemonic::ROL, mode: Mode::Absolute }),
            0x30 => Some(Instruction { mnemonic: Mnemonic::BMI, mode: Mode::Relative }),
            0x31 => Some(Instruction { mnemonic: Mnemonic::AND, mode: Mode::IndirectY }),
            0x35 => Some(Instruction { mnemonic: Mnemonic::AND, mode: Mode::ZeroPageX }),
            0x36 => Some(Instruction { mnemonic: Mnemonic::ROL, mode: Mode::ZeroPageX }),
            0x38 => Some(Instruction { mnemonic: Mnemonic::SEC, mode: Mode::Implied }),
            0x39 => Some(Instruction { mnemonic: Mnemonic::AND, mode: Mode::AbsoluteY }),
            0x3d => Some(Instruction { mnemonic: Mnemonic::AND, mode: Mode::AbsoluteX }),
            0x3e => Some(Instruction { mnemonic: Mnemonic::ROL, mode: Mode::AbsoluteX }),
            0x40 => Some(Instruction { mnemonic: Mnemonic::RTI, mode: Mode::Implied }),
            0x41 => Some(Instruction { mnemonic: Mnemonic::EOR, mode: Mode::IndirectX }),
            0x45 => Some(Instruction { mnemonic: Mnemonic::EOR, mode: Mode::ZeroPage }),
            0x46 => Some(Instruction { mnemonic: Mnemonic::LSR, mode: Mode::ZeroPage }),
            0x48 => Some(Instruction { mnemonic: Mnemonic::PHA, mode: Mode::Implied }),
            0x49 => Some(Instruction { mnemonic: Mnemonic::EOR, mode: Mode::Immediate }),
            0x4a => Some(Instruction { mnemonic: Mnemonic::LSR, mode: Mode::Accumulator }),
            0x4c => Some(Instruction { mnemonic: Mnemonic::JMP, mode: Mode::Absolute }),
            0x4d => Some(Instruction { mnemonic: Mnemonic::EOR, mode: Mode::Absolute }),
            0x4e => Some(Instruction { mnemonic: Mnemonic::LSR, mode: Mode::Absolute }),
            0x50 => Some(Instruction { mnemonic: Mnemonic::BVC, mode: Mode::Relative }),
            0x51 => Some(Instruction { mnemonic: Mnemonic::EOR, mode: Mode::IndirectY }),
            0x55 => Some(Instruction { mnemonic: Mnemonic::EOR, mode: Mode::ZeroPageX }),
            0x56 => Some(Instruction { mnemonic: Mnemonic::LSR, mode: Mode::ZeroPageX }),
            0x58 => Some(Instruction { mnemonic: Mnemonic::CLI, mode: Mode::Implied }),
            0x59 => Some(Instruction { mnemonic: Mnemonic::EOR, mode: Mode::AbsoluteY }),
            0x5d => Some(Instruction { mnemonic: Mnemonic::EOR, mode: Mode::AbsoluteX }),
            0x5e => Some(Instruction { mnemonic: Mnemonic::LSR, mode: Mode::AbsoluteX }),
            0x60 => Some(Instruction { mnemonic: Mnemonic::RTS, mode: Mode::Implied }),
            0x61 => Some(Instruction { mnemonic: Mnemonic::ADC, mode: Mode::IndirectX }),
            0x65 => Some(Instruction { mnemonic: Mnemonic::ADC, mode: Mode::ZeroPage }),
            0x66 => Some(Instruction { mnemonic: Mnemonic::ROR, mode: Mode::ZeroPage }),
            0x68 => Some(Instruction { mnemonic: Mnemonic::PLA, mode: Mode::Implied }),
            0x69 => Some(Instruction { mnemonic: Mnemonic::ADC, mode: Mode::Immediate }),
            0x6a => Some(Instruction { mnemonic: Mnemonic::ROR, mode: Mode::Accumulator }),
            0x6c => Some(Instruction { mnemonic: Mnemonic::JMP, mode: Mode::Indirect }),
            0x6d => Some(Instruction { mnemonic: Mnemonic::ADC, mode: Mode::Absolute }),
            0x6e => Some(Instruction { mnemonic: Mnemonic::ROR, mode: Mode::Absolute }),
            0x70 => Some(Instruction { mnemonic: Mnemonic::BVS, mode: Mode::Relative }),
            0x71 => Some(Instruction { mnemonic: Mnemonic::ADC, mode: Mode::IndirectY }),
            0x75 => Some(Instruction { mnemonic: Mnemonic::ADC, mode: Mode::ZeroPageX }),
            0x76 => Some(Instruction { mnemonic: Mnemonic::ROR, mode: Mode::ZeroPageX }),
            0x78 => Some(Instruction { mnemonic: Mnemonic::SEI, mode: Mode::Implied }),
            0x79 => Some(Instruction { mnemonic: Mnemonic::ADC, mode: Mode::AbsoluteY }),
            0x7d => Some(Instruction { mnemonic: Mnemonic::ADC, mode: Mode::AbsoluteX }),
            0x7e => Some(Instruction { mnemonic: Mnemonic::ROR, mode: Mode::AbsoluteX }),
            0x81 => Some(Instruction { mnemonic: Mnemonic::STA, mode: Mode::IndirectX }),
            0x84 => Some(Instruction { mnemonic: Mnemonic::STY, mode: Mode::ZeroPage }),
            0x85 => Some(Instruction { mnemonic: Mnemonic::STA, mode: Mode::ZeroPage }),
            0x86 => Some(Instruction { mnemonic: Mnemonic::STX, mode: Mode::ZeroPage }),
            0x88 => Some(Instruction { mnemonic: Mnemonic::DEY, mode: Mode::Implied }),
            0x8a => Some(Instruction { mnemonic: Mnemonic::TXA, mode: Mode::Implied }),
            0x8c => Some(Instruction { mnemonic: Mnemonic::STY, mode: Mode::Absolute }),
            0x8d => Some(Instruction { mnemonic: Mnemonic::STA, mode: Mode::Absolute }),
            0x8e => Some(Instruction { mnemonic: Mnemonic::STX, mode: Mode::Absolute }),
            0x90 => Some(Instruction { mnemonic: Mnemonic::BCC, mode: Mode::Relative }),
            0x91 => Some(Instruction { mnemonic: Mnemonic::STA, mode: Mode::IndirectY }),
            0x94 => Some(Instruction { mnemonic: Mnemonic::STY, mode: Mode::ZeroPageX }),
            0x95 => Some(Instruction { mnemonic: Mnemonic::STA, mode: Mode::ZeroPageX }),
            0x96 => Some(Instruction { mnemonic: Mnemonic::STX, mode: Mode::ZeroPageY }),
            0x98 => Some(Instruction { mnemonic: Mnemonic::TYA, mode: Mode::Implied }),
            0x99 => Some(Instruction { mnemonic: Mnemonic::STA, mode: Mode::AbsoluteY }),
            0x9a => Some(Instruction { mnemonic: Mnemonic::TXS, mode: Mode::Implied }),
            0x9d => Some(Instruction { mnemonic: Mnemonic::STA, mode: Mode::AbsoluteX }),
            0xa0 => Some(Instruction { mnemonic: Mnemonic::LDY, mode: Mode::Immediate }),
            0xa1 => Some(Instruction { mnemonic: Mnemonic::LDA, mode: Mode::IndirectX }),
            0xa2 => Some(Instruction { mnemonic: Mnemonic::LDX, mode: Mode::Immediate }),
            0xa4 => Some(Instruction { mnemonic: Mnemonic::LDY, mode: Mode::ZeroPage }),
            0xa5 => Some(Instruction { mnemonic: Mnemonic::LDA, mode: Mode::ZeroPage }),
            0xa6 => Some(Instruction { mnemonic: Mnemonic::LDX, mode: Mode::ZeroPage }),
            0xa8 => Some(Instruction { mnemonic: Mnemonic::TAY, mode: Mode::Implied }),
            0xa9 => Some(Instruction { mnemonic: Mnemonic::LDA, mode: Mode::Immediate }),
            0xaa => Some(Instruction { mnemonic: Mnemonic::TAX, mode: Mode::Implied }),
            0xac => Some(Instruction { mnemonic: Mnemonic::LDY, mode: Mode::Absolute }),
            0xad => Some(Instruction { mnemonic: Mnemonic::LDA, mode: Mode::Absolute }),
            0xae => Some(Instruction { mnemonic: Mnemonic::LDX, mode: Mode::Absolute }),
            0xb0 => Some(Instruction { mnemonic: Mnemonic::BCS, mode: Mode::Relative }),
            0xb1 => Some(Instruction { mnemonic: Mnemonic::LDA, mode: Mode::IndirectY }),
            0xb4 => Some(Instruction { mnemonic: Mnemonic::LDY, mode: Mode::ZeroPageX }),
            0xb5 => Some(Instruction { mnemonic: Mnemonic::LDA, mode: Mode::ZeroPageX }),
            0xb6 => Some(Instruction { mnemonic: Mnemonic::LDX, mode: Mode::ZeroPageY }),
            0xb8 => Some(Instruction { mnemonic: Mnemonic::CLV, mode: Mode::Implied }),
            0xb9 => Some(Instruction { mnemonic: Mnemonic::LDA, mode: Mode::AbsoluteY }),
            0xba => Some(Instruction { mnemonic: Mnemonic::TSX, mode: Mode::Implied }),
            0xbc => Some(Instruction { mnemonic: Mnemonic::LDY, mode: Mode::AbsoluteX }),
            0xbd => Some(Instruction { mnemonic: Mnemonic::LDA, mode: Mode::AbsoluteX }),
            0xbe => Some(Instruction { mnemonic: Mnemonic::LDX, mode: Mode::AbsoluteY }),
            0xc0 => Some(Instruction { mnemonic: Mnemonic::CPY, mode: Mode::Immediate }),
            0xc1 => Some(Instruction { mnemonic: Mnemonic::CMP, mode: Mode::IndirectX }),
            0xc4 => Some(Instruction { mnemonic: Mnemonic::CPY, mode: Mode::ZeroPage }),
            0xc5 => Some(Instruction { mnemonic: Mnemonic::CMP, mode: Mode::ZeroPage }),
            0xc6 => Some(Instruction { mnemonic: Mnemonic::DEC, mode: Mode::ZeroPage }),
            0xc8 => Some(Instruction { mnemonic: Mnemonic::INY, mode: Mode::Implied }),
            0xc9 => Some(Instruction { mnemonic: Mnemonic::CMP, mode: Mode::Immediate }),
            0xca => Some(Instruction { mnemonic: Mnemonic::DEX, mode: Mode::Implied }),
            0xcc => Some(Instruction { mnemonic: Mnemonic::CPY, mode: Mode::Absolute }),
            0xcd => Some(Instruction { mnemonic: Mnemonic::CMP, mode: Mode::Absolute }),
            0xce => Some(Instruction { mnemonic: Mnemonic::DEC, mode: Mode::Absolute }),
            0xd0 => Some(Instruction { mnemonic: Mnemonic::BNE, mode: Mode::Relative }),
            0xd1 => Some(Instruction { mnemonic: Mnemonic::CMP, mode: Mode::IndirectY }),
            0xd5 => Some(Instruction { mnemonic: Mnemonic::CMP, mode: Mode::ZeroPageX }),
            0xd6 => Some(Instruction { mnemonic: Mnemonic::DEC, mode: Mode::ZeroPageX }),
            0xd8 => Some(Instruction { mnemonic: Mnemonic::CLD, mode: Mode::Implied }),
            0xd9 => Some(Instruction { mnemonic: Mnemonic::CMP, mode: Mode::AbsoluteY }),
            0xdd => Some(Instruction { mnemonic: Mnemonic::CMP, mode: Mode::AbsoluteX }),
            0xde => Some(Instruction { mnemonic: Mnemonic::DEC, mode: Mode::AbsoluteX }),
            0xe0 => Some(Instruction { mnemonic: Mnemonic::CPX, mode: Mode::Immediate }),
            0xe1 => Some(Instruction { mnemonic: Mnemonic::SBC, mode: Mode::IndirectX }),
            0xe4 => Some(Instruction { mnemonic: Mnemonic::CPX, mode: Mode::ZeroPage }),
            0xe5 => Some(Instruction { mnemonic: Mnemonic::SBC, mode: Mode::ZeroPage }),
            0xe6 => Some(Instruction { mnemonic: Mnemonic::INC, mode: Mode::ZeroPage }),
            0xe8 => Some(Instruction { mnemonic: Mnemonic::INX, mode: Mode::Implied }),
            0xe9 => Some(Instruction { mnemonic: Mnemonic::SBC, mode: Mode::Immediate }),
            0xea => Some(Instruction { mnemonic: Mnemonic::NOP, mode: Mode::Implied }),
            0xec => Some(Instruction { mnemonic: Mnemonic::CPX, mode: Mode::Absolute }),
            0xed => Some(Instruction { mnemonic: Mnemonic::SBC, mode: Mode::Absolute }),
            0xee => Some(Instruction { mnemonic: Mnemonic::INC, mode: Mode::Absolute }),
            0xf0 => Some(Instruction { mnemonic: Mnemonic::BEQ, mode: Mode::Relative }),
            0xf1 => Some(Instruction { mnemonic: Mnemonic::SBC, mode: Mode::IndirectY }),
            0xf5 => Some(Instruction { mnemonic: Mnemonic::SBC, mode: Mode::ZeroPageX }),
            0xf6 => Some(Instruction { mnemonic: Mnemonic::INC, mode: Mode::ZeroPageX }),
            0xf8 => Some(Instruction { mnemonic: Mnemonic::SED, mode: Mode::Implied }),
            0xf9 => Some(Instruction { mnemonic: Mnemonic::SBC, mode: Mode::AbsoluteY }),
            0xfd => Some(Instruction { mnemonic: Mnemonic::SBC, mode: Mode::AbsoluteX }),
            0xfe => Some(Instruction { mnemonic: Mnemonic::INC, mode: Mode::AbsoluteX }),
            _ => None,
        }
    }
}

} // verus!
