//! The fixed memory map: the sizes of the regions, the peripheral
//! registers, and the configuration bytes that a ROM image carries in its
//! last page.

use vstd::prelude::*;

verus! {

/// 8 KiB: the size of the graphics window.
pub const K8: usize = 0x2000;

/// 16 KiB: the size of RAM.
pub const K16: usize = 0x4000;

/// 32 KiB: the size of ROM.
pub const K32: usize = 0x8000;

/// 64 KiB: the size of the address space.
pub const K64: usize = 0x10000;

/// Last address of RAM, which starts at address zero.
pub const RAM_END: u16 = 0x3fff;

/// First address of the stack page.
pub const STACK_BASE: u16 = 0x100;

/// The text register: writing it emits one character.
pub const TEXT_OUT: u16 = 0x4000;

/// First address of the graphics window, and its trigger: writing it runs
/// a graphics command.
pub const GPU_TRIGGER: u16 = 0x6000;

/// First argument byte of a graphics command.
pub const GPU_ARG_FIRST: u16 = 0x6001;

/// Last argument byte of a graphics command.
pub const GPU_ARG_LAST: u16 = 0x60ff;

/// Holds the answer to the last key query.
pub const GPU_KEY_STATE: u16 = 0x6100;

/// First address of ROM, which runs to the end of the address space.
pub const ROM_START: u16 = 0x8000;

/// In ROM: non-zero when the program wants the graphics window.
pub const GPU_LOC: u16 = 0xfff0;

/// In ROM: the window's width, low byte first.
pub const W_W_LOC: u16 = 0xfff1;

/// In ROM: the window's height, low byte first.
pub const W_H_LOC: u16 = 0xfff3;

/// In ROM: the address of the zero-terminated window title, low byte
/// first.
pub const W_T_LOC: u16 = 0xfff5;

/// In ROM: the reset vector, low byte.
pub const RV_LOC_LOW: u16 = 0xfffc;

/// In ROM: the reset vector, high byte.
pub const RV_LOC_HIGH: u16 = 0xfffd;

/// Command code: begin a frame.
pub const CMD_BEGIN_DRAWING: u8 = 0xbd;

/// Command code: end the frame.
pub const CMD_END_DRAWING: u8 = 0xed;

/// Command code: clear the background.
pub const CMD_CLEAR_BACKGROUND: u8 = 0xcb;

/// Command code: draw a rectangle.
pub const CMD_DRAW_RECTANGLE: u8 = 0xd5;

/// Command code: ask whether a key is down.
pub const CMD_IS_KEY_DOWN: u8 = 0xde;

} // verus!
