//! The audio unit's register file. No sound is synthesised: the registers
//! are plain storage.

use vstd::prelude::*;

verus! {

pub struct Apu {
    pub regs: [u8; 0x30],
}

impl Apu {
    /// Whether `addr` names an audio register.
    pub open spec fn maps(addr: u16) -> bool {
        0xFF10 <= addr <= 0xFF3F
    }

    pub open spec fn reg(regs: Seq<u8>, addr: u16) -> u8 {
        if Self::maps(addr) {
            regs[addr - 0xFF10]
        } else {
            0xFF
        }
    }

    pub open spec fn with_reg(regs: Seq<u8>, addr: u16, value: u8) -> Seq<u8> {
        if Self::maps(addr) {
            regs.update(addr - 0xFF10, value)
        } else {
            regs
        }
    }

    pub fn new() -> (r: Self)
        ensures
            r.regs@ == Seq::new(0x30, |i: int| 0u8),
    {
        let r = Self { regs: [0u8; 0x30] };
        assert(r.regs@ =~= Seq::new(0x30, |i: int| 0u8));
        r
    }

    pub fn read_reg(&self, addr: u16) -> (r: u8)
        ensures
            r == Self::reg(self.regs@, addr),
    {
        if 0xFF10 <= addr && addr <= 0xFF3F {
            self.regs[(addr - 0xFF10) as usize]
        } else {
            0xFF
        }
    }

    pub fn write_reg(&mut self, addr: u16, value: u8)
        ensures
            final(self).regs@ == Self::with_reg(old(self).regs@, addr, value),
    {
        if 0xFF10 <= addr && addr <= 0xFF3F {
            self.regs[(addr - 0xFF10) as usize] = value;
        }
    }
}

} // verus!
