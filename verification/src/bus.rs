//! The address bus: 16 KiB of RAM at the bottom, the text register, the
//! window of graphics registers, and 32 KiB of ROM at the top.
//!
//! The bus does no input or output itself. A write that asks for some is
//! answered with an [`Effect`], which the caller carries out; the answer to
//! a key query comes back through [`Bus::set_key_state`].

use vstd::prelude::*;
use crate::layout::{
    CMD_BEGIN_DRAWING, CMD_CLEAR_BACKGROUND, CMD_DRAW_RECTANGLE, CMD_END_DRAWING,
    CMD_IS_KEY_DOWN, GPU_ARG_FIRST, GPU_ARG_LAST, GPU_KEY_STATE, GPU_TRIGGER, K16, K32, K64, K8,
    RAM_END, ROM_START, TEXT_OUT,
};
use crate::word::word;

verus! {

/// What the outside world has to do after a write to the bus.
#[derive(Clone, Copy, Debug, PartialEq, Eq, Structural)]
pub enum Effect {
    /// Nothing: the write touched memory only, or was discarded.
    Nothing,
    /// Emit this byte as one character.
    PutChar(u8),
    /// Begin a frame.
    BeginDrawing,
    /// End the frame.
    EndDrawing,
    /// Fill the window with an opaque colour.
    ClearBackground { r: u8, g: u8, b: u8 },
    /// Draw a filled rectangle in an opaque colour.
    DrawRectangle { x: u8, y: u8, w: u8, h: u8, r: u8, g: u8, b: u8 },
    /// Ask whether this key is down, and hand the answer to
    /// [`Bus::set_key_state`].
    IsKeyDown { key: u8 },
}

/// The bus as the processor sees it: what each of the 65536 addresses
/// reads, and whether the graphics window is live.
#[verifier::ext_equal]
pub struct Memory {
    /// The byte that each address reads.
    pub cells: Seq<u8>,
    /// Whether the graphics window is live.
    pub gpu_enable: bool,
}

impl Memory {
    /// Whether `addr` is an argument byte of the graphics window.
    pub open spec fn argument(addr: u16) -> bool {
        GPU_ARG_FIRST <= addr <= GPU_ARG_LAST
    }

    /// Whether storage stands behind `addr`: RAM, the argument bytes and
    /// the key state of the graphics window, and ROM. Every other address
    /// reads zero.
    pub open spec fn backed(addr: u16) -> bool {
        addr <= RAM_END || Self::argument(addr) || addr == GPU_KEY_STATE || addr >= ROM_START
    }

    /// Whether a write to `addr` is stored: RAM and the argument bytes.
    pub open spec fn writable(addr: u16) -> bool {
        addr <= RAM_END || Self::argument(addr)
    }

    /// The image is complete, and the addresses without storage read zero.
    pub open spec fn well_formed(self) -> bool {
        &&& self.cells.len() == K64
        &&& forall|addr: u16| !Self::backed(addr) ==> #[trigger] self.read(addr) == 0
    }

    /// The byte that `addr` reads.
    pub open spec fn read(self, addr: u16) -> u8 {
        if addr < self.cells.len() {
            self.cells[addr as int]
        } else {
            0
        }
    }

    /// The word whose low byte stands at `addr` and whose high byte stands
    /// at the next address, which after the last address is the first.
    pub open spec fn read_word(self, addr: u16) -> u16 {
        word(self.read(addr), self.read(addr.wrapping_add(1)))
    }

    /// The bytes from `addr` up to the first zero byte, which is left out,
    /// and at most `limit` of them. After the last address comes the first.
    pub open spec fn text(self, addr: u16, limit: nat) -> Seq<u8>
        decreases limit,
    {
        if limit == 0 || self.read(addr) == 0 {
            Seq::empty()
        } else {
            seq![self.read(addr)] + self.text(addr.wrapping_add(1), (limit - 1) as nat)
        }
    }

    /// The image with the byte at `addr` replaced.
    pub open spec fn store(self, addr: u16, byte: u8) -> Memory {
        Memory {
            cells: Seq::new(
                K64 as nat,
                |i: int|
                    if i == addr {
                        byte
                    } else {
                        self.read(i as u16)
                    },
            ),
            ..self
        }
    }

    /// The image with every argument byte of the graphics window zeroed.
    pub open spec fn clear_arguments(self) -> Memory {
        Memory {
            cells: Seq::new(
                K64 as nat,
                |i: int|
                    if Self::argument(i as u16) {
                        0u8
                    } else {
                        self.read(i as u16)
                    },
            ),
            ..self
        }
    }

    /// The bus after power-up with `rom` in the upper half: everything else
    /// reads zero and the graphics window is off.
    pub open spec fn initial(rom: Seq<u8>) -> Memory {
        Memory {
            cells: Seq::new(
                K64 as nat,
                |i: int|
                    if i >= ROM_START {
                        rom[i - ROM_START]
                    } else {
                        0u8
                    },
            ),
            gpu_enable: false,
        }
    }

    /// The bus after a write of `byte` to `addr`. RAM and the argument
    /// bytes take the byte. With the graphics window live, a write to its
    /// trigger zeroes the argument bytes, whatever the command code. Every
    /// other write, those to ROM among them, changes nothing.
    pub open spec fn write(self, addr: u16, byte: u8) -> Memory {
        if Self::writable(addr) {
            self.store(addr, byte)
        } else if addr == GPU_TRIGGER && self.gpu_enable {
            self.clear_arguments()
        } else {
            self
        }
    }

    /// The `n`-th argument byte of the graphics window, counted from one.
    pub open spec fn arg(self, n: u16) -> u8 {
        self.read((GPU_TRIGGER + n) as u16)
    }

    /// The graphics command that `code` stands for, with its arguments as
    /// the argument bytes hold them now. A code that stands for none asks
    /// for nothing.
    pub open spec fn command(self, code: u8) -> Effect {
        if code == CMD_BEGIN_DRAWING {
            Effect::BeginDrawing
        } else if code == CMD_END_DRAWING {
            Effect::EndDrawing
        } else if code == CMD_CLEAR_BACKGROUND {
            Effect::ClearBackground { r: self.arg(1), g: self.arg(2), b: self.arg(3) }
        } else if code == CMD_DRAW_RECTANGLE {
            Effect::DrawRectangle {
                x: self.arg(1),
                y: self.arg(2),
                w: self.arg(3),
                h: self.arg(4),
                r: self.arg(5),
                g: self.arg(6),
                b: self.arg(7),
            }
        } else if code == CMD_IS_KEY_DOWN {
            Effect::IsKeyDown { key: self.arg(1) }
        } else {
            Effect::Nothing
        }
    }

    /// What a write of `byte` to `addr` asks of the outside world: a
    /// character for the text register, a command for the trigger of a live
    /// graphics window, nothing otherwise.
    pub open spec fn effect(self, addr: u16, byte: u8) -> Effect {
        if addr == TEXT_OUT {
            Effect::PutChar(byte)
        } else if addr == GPU_TRIGGER && self.gpu_enable {
            self.command(byte)
        } else {
            Effect::Nothing
        }
    }

    /// The bus with the answer to a key query in place: 1 for a key that is
    /// down, 0 for one that is not.
    pub open spec fn with_key_state(self, down: bool) -> Memory {
        self.store(
            GPU_KEY_STATE,
            if down {
                1
            } else {
                0
            },
        )
    }

    /// The bus with the graphics window switched on or off.
    pub open spec fn with_gpu_enable(self, on: bool) -> Memory {
        Memory { gpu_enable: on, ..self }
    }
}

/// The address bus, which handles every read and write of the processor.
#[derive(Clone, Copy)]
pub struct Bus {
    ram: [u8; K16],
    gpu: [u8; K8],
    rom: [u8; K32],
    gpu_enable: bool,
}

impl View for Bus {
    type V = Memory;

    closed spec fn view(&self) -> Memory {
        Memory { cells: Seq::new(K64 as nat, |i: int| self.cell(i)), gpu_enable: self.gpu_enable }
    }
}

impl Bus {
    /// The byte that address `i` reads.
    spec fn cell(self, i: int) -> u8 {
        if i <= RAM_END {
            self.ram[i]
        } else if GPU_ARG_FIRST <= i <= GPU_KEY_STATE {
            self.gpu[i - GPU_TRIGGER]
        } else if i >= ROM_START {
            self.rom[i - ROM_START]
        } else {
            0
        }
    }

    /// The view of a bus is always complete, and reads zero where no
    /// storage stands.
    pub proof fn lemma_well_formed(self)
        ensures
            self@.well_formed(),
    {
        assert forall|addr: u16| !Memory::backed(addr) implies #[trigger] self@.read(addr)
            == 0 by {
        }
    }

    /// A bus with `rom` in the upper half of the address space, zeroed RAM
    /// and graphics registers, and the graphics window off.
    pub fn init(rom: [u8; K32]) -> (bus: Bus)
        ensures
            bus@ == Memory::initial(rom@),
    {
        Bus { ram: [0; K16], gpu: [0; K8], rom, gpu_enable: false }
    }

    /// Whether the graphics window is live.
    pub fn gpu_enabled(&self) -> (on: bool)
        ensures
            on == self@.gpu_enable,
    {
        self.gpu_enable
    }

    /// Switches the graphics window on or off.
    pub fn set_gpu_enable(&mut self, on: bool)
        ensures
            final(self)@ == old(self)@.with_gpu_enable(on),
    {
        self.gpu_enable = on;
    }

    /// Reads the byte at `addr`. No address is out of range, and no read
    /// changes anything.
    pub fn read(&self, addr: u16) -> (byte: u8)
        ensures
            byte == self@.read(addr),
            !Memory::backed(addr) ==> byte == 0,
    {
        if addr <= RAM_END {
            self.ram[addr as usize]
        } else if addr < GPU_TRIGGER {
            0x00
        } else if addr < ROM_START {
            if GPU_ARG_FIRST <= addr && addr <= GPU_KEY_STATE {
                self.gpu[(addr - GPU_TRIGGER) as usize]
            } else {
                0x00
            }
        } else {
            self.rom[(addr - ROM_START) as usize]
        }
    }

    /// The graphics command that `code` stands for, with the arguments that
    /// the argument bytes hold.
    fn command(&self, code: u8) -> (effect: Effect)
        ensures
            effect == self@.command(code),
    {
        if code == CMD_BEGIN_DRAWING {
            Effect::BeginDrawing
        } else if code == CMD_END_DRAWING {
            Effect::EndDrawing
        } else if code == CMD_CLEAR_BACKGROUND {
            let r = self.read(GPU_TRIGGER + 1);
            let g = self.read(GPU_TRIGGER + 2);
            let b = self.read(GPU_TRIGGER + 3);
            Effect::ClearBackground { r, g, b }
        } else if code == CMD_DRAW_RECTANGLE {
            let x = self.read(GPU_TRIGGER + 1);
            let y = self.read(GPU_TRIGGER + 2);
            let w = self.read(GPU_TRIGGER + 3);
            let h = self.read(GPU_TRIGGER + 4);
            let r = self.read(GPU_TRIGGER + 5);
            let g = self.read(GPU_TRIGGER + 6);
            let b = self.read(GPU_TRIGGER + 7);
            Effect::DrawRectangle { x, y, w, h, r, g, b }
        } else if code == CMD_IS_KEY_DOWN {
            let key = self.read(GPU_TRIGGER + 1);
            Effect::IsKeyDown { key }
        } else {
            Effect::Nothing
        }
    }

    /// Zeroes the argument bytes of the graphics window.
    fn clear_arguments(&mut self)
        ensures
            final(self)@ == old(self)@.clear_arguments(),
    {
        let first = (GPU_ARG_FIRST - GPU_TRIGGER) as usize;
        let last = (GPU_ARG_LAST - GPU_TRIGGER) as usize;
        let mut i = first;
        while i <= last
            invariant
                first == GPU_ARG_FIRST - GPU_TRIGGER,
                last == GPU_ARG_LAST - GPU_TRIGGER,
                first <= i <= last + 1,
                self.ram == old(self).ram,
                self.rom == old(self).rom,
                self.gpu_enable == old(self).gpu_enable,
                forall|j: int| first <= j < i ==> self.gpu[j] == 0,
                forall|j: int| i <= j < K8 ==> self.gpu[j] == old(self).gpu[j],
            decreases last + 1 - i,
        {
            self.gpu[i] = 0x00;
            i += 1;
        }
    }

    /// Writes `byte` to `addr` and says what the write asks of the outside
    /// world. The bus itself performs none of it. No write fails: what
    /// cannot be stored is dropped.
    pub fn write(&mut self, addr: u16, byte: u8) -> (effect: Effect)
        ensures
            final(self)@ == old(self)@.write(addr, byte),
            effect == old(self)@.effect(addr, byte),
    {
        if addr <= RAM_END {
            self.ram[addr as usize] = byte;
            Effect::Nothing
        } else if addr < GPU_TRIGGER {
            if addr == TEXT_OUT {
                Effect::PutChar(byte)
            } else {
                Effect::Nothing
            }
        } else if addr < ROM_START {
            if addr == GPU_TRIGGER {
                if self.gpu_enable {
                    let effect = self.command(byte);
                    self.clear_arguments();
                    effect
                } else {
                    Effect::Nothing
                }
            } else {
                if addr <= GPU_ARG_LAST {
                    self.gpu[(addr - GPU_TRIGGER) as usize] = byte;
                }
                Effect::Nothing
            }
        } else {
            Effect::Nothing
        }
    }

    /// Stores the answer to a key query where the program reads it.
    pub fn set_key_state(&mut self, down: bool)
        ensures
            final(self)@ == old(self)@.with_key_state(down),
    {
        self.gpu[(GPU_KEY_STATE - GPU_TRIGGER) as usize] = if down {
            0x01
        } else {
            0x00
        };
    }
}

} // verus!
