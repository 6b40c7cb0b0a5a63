//! An emulator core for a 6502-class processor: the bus with its memory
//! map, the status register, the instruction table and the fetch, decode
//! and execute engine, each with a contract over a mathematical model of
//! the machine.

pub mod layout;
pub mod word;
pub mod status;
pub mod bus;
pub mod instruction;
pub mod outcome;
pub mod machine;
pub mod emulator;
pub mod rom;
pub mod laws;
