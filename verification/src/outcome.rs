//! What one instruction, or one turn of the run loop, hands back.

use vstd::prelude::*;
use vstd::std_specs::convert::FromSpecImpl;
use crate::bus::Effect;
use crate::instruction::Instruction;

verus! {

/// The two conditions that end a run. Neither can be recovered from inside
/// the engine.
#[derive(Clone, Copy, Debug, PartialEq, Eq, Structural)]
pub enum EErr {
    /// The byte at the program counter is no instruction.
    IllegalInstruction(u8),
    /// The program executed BRK.
    Break,
}

impl From<u8> for EErr {
    /// The error for a byte that is no instruction.
    fn from(b: u8) -> (e: EErr) {
        EErr::IllegalInstruction(b)
    }
}

impl FromSpecImpl<u8> for EErr {
    open spec fn obeys_from_spec() -> bool {
        true
    }

    open spec fn from_spec(b: u8) -> EErr {
        EErr::IllegalInstruction(b)
    }
}

/// The operand of an executed instruction, resolved.
#[derive(Clone, Copy, Debug, PartialEq, Eq, Structural)]
pub enum Operand {
    /// The instruction has none.
    Implied,
    /// The accumulator.
    Accumulator,
    /// The byte after the opcode.
    Immediate(u8),
    /// The effective address; for a branch, where it goes when taken.
    Address(u16),
}

/// The record of one executed instruction.
#[derive(Clone, Copy, Debug, PartialEq, Eq, Structural)]
pub struct Step {
    /// The address of the opcode.
    pub at: u16,
    /// What the opcode decoded to.
    pub instruction: Instruction,
    /// Its operand.
    pub operand: Operand,
    /// What the instruction's write to the bus asks of the outside world.
    pub effect: Effect,
}

/// Why the run loop stops.
#[derive(Clone, Copy, Debug, PartialEq, Eq, Structural)]
pub enum Stop {
    /// The outside world asked for it.
    Closed,
    /// The program halted.
    Halted(EErr),
}

} // verus!
