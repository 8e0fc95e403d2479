//! The console's own memory: video RAM, work RAM, high RAM and the sprite
//! attribute table.

use vstd::prelude::*;

verus! {

pub struct Memory {
    pub vram: [u8; 0x2000],
    pub wram: [u8; 0x2000],
    pub hram: [u8; 0x7F],
    pub oam: [u8; 0xA0],
}

impl Memory {
    /// All four blocks zeroed.
    pub fn new() -> (r: Self)
        ensures
            r.vram@ == Seq::new(0x2000, |i: int| 0u8),
            r.wram@ == Seq::new(0x2000, |i: int| 0u8),
            r.hram@ == Seq::new(0x7F, |i: int| 0u8),
            r.oam@ == Seq::new(0xA0, |i: int| 0u8),
    {
        let r = Self { vram: [0u8; 0x2000], wram: [0u8; 0x2000], hram: [0u8; 0x7F], oam: [0u8; 0xA0] };
        assert(r.vram@ =~= Seq::new(0x2000, |i: int| 0u8));
        assert(r.wram@ =~= Seq::new(0x2000, |i: int| 0u8));
        assert(r.hram@ =~= Seq::new(0x7F, |i: int| 0u8));
        assert(r.oam@ =~= Seq::new(0xA0, |i: int| 0u8));
        r
    }
}

} // verus!
