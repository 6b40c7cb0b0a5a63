//! Fitting a program image into the ROM.

use vstd::prelude::*;
use crate::layout::K32;

verus! {

/// Why an image cannot be loaded.
#[derive(Clone, Copy, Debug, PartialEq, Eq, Structural)]
pub enum RomError {
    /// The image has more bytes than the ROM.
    TooLarge,
}

impl RomError {
    /// The error in words.
    pub fn message(&self) -> (text: &'static str)
        ensures
            text@ == "ROM is larger than 32KiB"@,
    {
        "ROM is larger than 32KiB"
    }
}

/// Copies an image to the start of `rom`. An image shorter than the ROM
/// leaves the rest of it as it was. One that is longer is refused, after
/// the ROM was filled with its first 32 KiB.
pub fn load_rom(bytes: &[u8], rom: &mut [u8; K32]) -> (loaded: Result<(), RomError>)
    ensures
        bytes@.len() <= K32 ==> loaded == Ok::<(), RomError>(()),
        bytes@.len() > K32 ==> loaded == Err::<(), RomError>(RomError::TooLarge),
        forall|i: int|
            0 <= i < K32 ==> final(rom)@[i] == (if i < bytes@.len() {
                bytes@[i]
            } else {
                old(rom)@[i]
            }),
{
    let mut i: usize = 0;
    while i < bytes.len()
        invariant
            i <= bytes@.len(),
            i <= K32,
            forall|j: int|
                0 <= j < K32 ==> rom@[j] == (if j < i {
                    bytes@[j]
                } else {
                    old(rom)@[j]
                }),
        decreases bytes@.len() - i,
    {
        if i < K32 {
            rom[i] = bytes[i];
        } else {
            return Err(RomError::TooLarge);
        }
        i += 1;
    }
    Ok(())
}

} // verus!
