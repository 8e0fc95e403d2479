//! The joypad register. No key is ever held down here: the register keeps
//! the two select bits and reads every key line as released.

use vstd::prelude::*;

verus! {

#[derive(Clone, Copy, Debug, PartialEq, Eq, Structural)]
pub struct Joypad {
    /// The two select bits, in place (bits 4 and 5).
    pub select: u8,
}

impl Joypad {
    pub open spec fn reg(&self) -> u8 {
        self.select | 0xCF
    }

    pub fn new() -> (r: Self)
        ensures
            r == (Joypad { select: 0x30 }),
    {
        Self { select: 0x30 }
    }

    pub fn read_reg(&self) -> (r: u8)
        ensures
            r == self.reg(),
    {
        self.select | 0xCF
    }

    pub fn write_reg(&mut self, value: u8)
        ensures
            *final(self) == (Joypad { select: value & 0x30 }),
    {
        self.select = value & 0x30;
    }
}

} // verus!
