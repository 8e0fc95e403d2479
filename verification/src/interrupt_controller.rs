//! The interrupt controller: the request (IF) and enable (IE) registers and
//! the fixed priority order among the five interrupt sources.

use vstd::prelude::*;

verus! {

#[derive(Clone, Copy, Debug, PartialEq, Eq, Structural)]
pub enum Interrupt {
    VBlank,
    Stat,
    Timer,
    Serial,
    Joypad,
}

impl Interrupt {
    /// The position of the source in IF and IE; lower numbers win.
    pub open spec fn index(self) -> nat {
        match self {
            Interrupt::VBlank => 0,
            Interrupt::Stat => 1,
            Interrupt::Timer => 2,
            Interrupt::Serial => 3,
            Interrupt::Joypad => 4,
        }
    }

    pub open spec fn spec_bit(self) -> u8 {
        match self {
            Interrupt::VBlank => 0x01,
            Interrupt::Stat => 0x02,
            Interrupt::Timer => 0x04,
            Interrupt::Serial => 0x08,
            Interrupt::Joypad => 0x10,
        }
    }

    pub open spec fn spec_vector(self) -> u16 {
        (0x0040 + 8 * self.index()) as u16
    }

    /// The source's bit in IF and IE.
    pub fn bit(self) -> (r: u8)
        ensures
            r == self.spec_bit(),
    {
        match self {
            Interrupt::VBlank => 0x01,
            Interrupt::Stat => 0x02,
            Interrupt::Timer => 0x04,
            Interrupt::Serial => 0x08,
            Interrupt::Joypad => 0x10,
        }
    }

    /// The address the CPU jumps to when it services the source.
    pub fn vector(self) -> (r: u16)
        ensures
            r == self.spec_vector(),
    {
        match self {
            Interrupt::VBlank => 0x0040,
            Interrupt::Stat => 0x0048,
            Interrupt::Timer => 0x0050,
            Interrupt::Serial => 0x0058,
            Interrupt::Joypad => 0x0060,
        }
    }
}

#[derive(Clone, Copy, Debug, PartialEq, Eq, Structural)]
pub struct InterruptController {
    pub iflag: u8,
    pub ie: u8,
}

impl InterruptController {
    /// The sources that are both requested and enabled.
    pub open spec fn pending(&self) -> u8 {
        self.iflag & self.ie & 0x1F
    }

    /// Whether `irq` is both requested and enabled.
    pub open spec fn is_pending(&self, irq: Interrupt) -> bool {
        self.pending() & irq.spec_bit() != 0
    }

    /// The pending source that wins: none with a lower index is pending.
    pub open spec fn spec_highest(&self) -> Option<Interrupt> {
        if self.is_pending(Interrupt::VBlank) {
            Some(Interrupt::VBlank)
        } else if self.is_pending(Interrupt::Stat) {
            Some(Interrupt::Stat)
        } else if self.is_pending(Interrupt::Timer) {
            Some(Interrupt::Timer)
        } else if self.is_pending(Interrupt::Serial) {
            Some(Interrupt::Serial)
        } else if self.is_pending(Interrupt::Joypad) {
            Some(Interrupt::Joypad)
        } else {
            None
        }
    }

    pub open spec fn after_ack(self, irq: Interrupt) -> InterruptController {
        InterruptController { iflag: (self.iflag & !irq.spec_bit()) | 0xE0, ..self }
    }

    pub open spec fn after_request(self, irq: Interrupt) -> InterruptController {
        InterruptController { iflag: self.iflag | irq.spec_bit() | 0xE0, ..self }
    }

    pub fn new() -> (r: Self)
        ensures
            r == (InterruptController { iflag: 0xE1, ie: 0 }),
    {
        Self { iflag: 0xE1, ie: 0 }
    }

    /// The pending source of highest priority, if any source is pending.
    pub fn highest(&self) -> (r: Option<Interrupt>)
        ensures
            r == self.spec_highest(),
            r is None <==> self.pending() == 0,
            r matches Some(irq) ==> self.is_pending(irq) && forall|other: Interrupt|
                self.is_pending(other) ==> irq.index() <= other.index(),
    {
        let pending = self.iflag & self.ie & 0x1F;
        proof {
            lemma_pending_bits(self.iflag & self.ie);
        }
        if pending == 0 {
            return None;
        }
        if pending & 0x01 != 0 {
            Some(Interrupt::VBlank)
        } else if pending & 0x02 != 0 {
            Some(Interrupt::Stat)
        } else if pending & 0x04 != 0 {
            Some(Interrupt::Timer)
        } else if pending & 0x08 != 0 {
            Some(Interrupt::Serial)
        } else {
            Some(Interrupt::Joypad)
        }
    }

    /// Clears the source's request bit; the unused bits of IF read as 1.
    pub fn ack(&mut self, irq: Interrupt)
        ensures
            *final(self) == old(self).after_ack(irq),
    {
        self.iflag = (self.iflag & !irq.bit()) | 0xE0;
    }

    /// Sets the source's request bit; the unused bits of IF read as 1.
    pub fn request(&mut self, irq: Interrupt)
        ensures
            *final(self) == old(self).after_request(irq),
    {
        self.iflag |= irq.bit();
        self.iflag |= 0xE0;
    }

    /// The mask of sources that are both requested and enabled.
    pub fn pending_mask(&self) -> (r: u8)
        ensures
            r == self.pending(),
    {
        self.iflag & self.ie & 0x1F
    }
}

pub proof fn lemma_pending_bits(x: u8)
    by (bit_vector)
    ensures
        (x & 0x1F) == 0 <==> ((x & 0x1F) & 0x01 == 0 && (x & 0x1F) & 0x02 == 0 && (x & 0x1F) & 0x04
            == 0 && (x & 0x1F) & 0x08 == 0 && (x & 0x1F) & 0x10 == 0),
{
}

/// Acknowledging a source leaves it not requested; requesting it leaves it
/// requested; either way the three unused bits of IF are set.
pub proof fn lemma_request_ack(f: u8, bit: u8)
    by (bit_vector)
    requires
        bit == 0x01 || bit == 0x02 || bit == 0x04 || bit == 0x08 || bit == 0x10,
    ensures
        ((f & !bit) | 0xE0) & bit == 0,
        (f | bit | 0xE0) & bit == bit,
        ((f & !bit) | 0xE0) & 0xE0 == 0xE0,
        (f | bit | 0xE0) & 0xE0 == 0xE0,
{
}

} // verus!
