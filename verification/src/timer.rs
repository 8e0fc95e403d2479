//! The programmable timer: the free-running DIV counter and the TIMA counter
//! that overflows into a Timer interrupt request.

use vstd::prelude::*;
use crate::bits::{wrap16, lemma_mask_bits};
use crate::interrupt_controller::{Interrupt, InterruptController};

verus! {

/// The number of cycles between two TIMA increments that TAC selects, or
/// `None` while TAC's enable bit is clear.
pub open spec fn period(tac: u8) -> Option<int> {
    if tac % 8 < 4 {
        None
    } else if tac % 4 == 0 {
        Some(1024)
    } else if tac % 4 == 1 {
        Some(16)
    } else if tac % 4 == 2 {
        Some(64)
    } else {
        Some(256)
    }
}

/// TIMA after `n` increments: an increment of `0xFF` reloads it from TMA.
pub open spec fn tima_after(tima: u8, tma: u8, n: nat) -> u8
    decreases n,
{
    if n == 0 {
        tima
    } else {
        let t = tima_after(tima, tma, (n - 1) as nat);
        if t == 0xFF {
            tma
        } else {
            (t + 1) as u8
        }
    }
}

/// Whether any of `n` increments of TIMA overflowed.
pub open spec fn overflowed(tima: u8, tma: u8, n: nat) -> bool
    decreases n,
{
    if n == 0 {
        false
    } else {
        overflowed(tima, tma, (n - 1) as nat) || tima_after(tima, tma, (n - 1) as nat) == 0xFF
    }
}

pub fn tima_period(tac: u8) -> (r: Option<u32>)
    ensures
        r is None <==> period(tac) is None,
        r matches Some(p) ==> period(tac) == Some(p as int),
{
    proof {
        lemma_mask_bits(tac);
    }
    if tac & 0x04 == 0 {
        return None;
    }
    let sel = tac & 0x03;
    Some(
        if sel == 0 {
            1024
        } else if sel == 1 {
            16
        } else if sel == 2 {
            64
        } else {
            256
        },
    )
}

#[derive(Clone, Copy, Debug, PartialEq, Eq, Structural)]
pub struct Timer {
    /// The 16-bit divider; only its high byte is visible as DIV.
    pub div: u16,
    pub tima: u8,
    pub tma: u8,
    pub tac: u8,
    /// Cycles gathered towards the next TIMA increment.
    pub tima_counter: u32,
}

impl Timer {
    /// How many TIMA increments fall into the next `cycles` cycles.
    pub open spec fn increments(&self, cycles: u32) -> nat {
        match period(self.tac) {
            None => 0,
            Some(p) => ((self.tima_counter + cycles) / p) as nat,
        }
    }

    /// The timer after `cycles` cycles.
    pub open spec fn after_tick(self, cycles: u32) -> Timer {
        let div = wrap16(self.div + cycles);
        match period(self.tac) {
            None => Timer { div, ..self },
            Some(p) => Timer {
                div,
                tima: tima_after(self.tima, self.tma, self.increments(cycles)),
                tima_counter: ((self.tima_counter + cycles) % p) as u32,
                ..self
            },
        }
    }

    /// Whether TIMA overflows within the next `cycles` cycles.
    pub open spec fn overflows(&self, cycles: u32) -> bool {
        overflowed(self.tima, self.tma, self.increments(cycles))
    }

    pub open spec fn reg(&self, addr: u16) -> u8 {
        if addr == 0xFF04 {
            (self.div / 256) as u8
        } else if addr == 0xFF05 {
            self.tima
        } else if addr == 0xFF06 {
            self.tma
        } else if addr == 0xFF07 {
            self.tac | 0xF8
        } else {
            0xFF
        }
    }

    pub open spec fn with_reg(self, addr: u16, value: u8) -> Timer {
        if addr == 0xFF04 {
            Timer { div: 0, ..self }
        } else if addr == 0xFF05 {
            Timer { tima: value, ..self }
        } else if addr == 0xFF06 {
            Timer { tma: value, ..self }
        } else if addr == 0xFF07 {
            Timer { tac: value % 8, ..self }
        } else {
            self
        }
    }

    pub fn new() -> (r: Self)
        ensures
            r == (Timer { div: 0, tima: 0, tma: 0, tac: 0, tima_counter: 0 }),
    {
        Self { div: 0, tima: 0, tma: 0, tac: 0, tima_counter: 0 }
    }

    /// Advances the timer by `cycles` cycles and requests the Timer
    /// interrupt if TIMA overflowed on the way.
    pub fn tick(&mut self, cycles: u32, interrupts: &mut InterruptController)
        ensures
            *final(self) == old(self).after_tick(cycles),
            *final(interrupts) == (if old(self).overflows(cycles) {
                old(interrupts).after_request(Interrupt::Timer)
            } else {
                *old(interrupts)
            }),
    {
        self.div = self.div.wrapping_add((cycles % 0x10000) as u16);
        let period: u64 = match tima_period(self.tac) {
            None => {
                return ;
            },
            Some(p) => p as u64,
        };
        let total: u64 = self.tima_counter as u64 + cycles as u64;
        let mut rest: u64 = total;
        let mut fired = false;
        let ghost tima0 = self.tima;
        let ghost mut n: nat = 0;
        while rest >= period
            invariant
                period == 1024 || period == 16 || period == 64 || period == 256,
                total == n * period + rest,
                self.tima == tima_after(tima0, self.tma, n),
                fired == overflowed(tima0, self.tma, n),
                self.tma == old(self).tma,
                self.tac == old(self).tac,
                self.div == wrap16(old(self).div + cycles),
            decreases rest,
        {
            rest = rest - period;
            if self.tima == 0xFF {
                self.tima = self.tma;
                fired = true;
            } else {
                self.tima = self.tima + 1;
            }
            proof {
                n = n + 1;
            }
        }
        proof {
            vstd::arithmetic::div_mod::lemma_fundamental_div_mod_converse(
                total as int,
                period as int,
                n as int,
                rest as int,
            );
        }
        self.tima_counter = rest as u32;
        if fired {
            interrupts.request(Interrupt::Timer);
        }
    }

    pub fn read_reg(&self, addr: u16) -> (r: u8)
        ensures
            r == self.reg(addr),
    {
        match addr {
            0xFF04 => crate::bits::high_byte(self.div),
            0xFF05 => self.tima,
            0xFF06 => self.tma,
            0xFF07 => self.tac | 0xF8,
            _ => 0xFF,
        }
    }

    /// Writes a timer register; any write to DIV clears the whole divider.
    pub fn write_reg(&mut self, addr: u16, value: u8)
        ensures
            *final(self) == old(self).with_reg(addr, value),
    {
        proof {
            lemma_mask_bits(value);
        }
        match addr {
            0xFF04 => {
                self.div = 0;
            },
            0xFF05 => self.tima = value,
            0xFF06 => self.tma = value,
            0xFF07 => {
                self.tac = value & 0x07;
            },
            _ => {},
        }
    }

    pub fn reset_div(&mut self)
        ensures
            *final(self) == (Timer { div: 0, ..*old(self) }),
    {
        self.div = 0;
    }
}

/// With the timer enabled at its 16-cycle period, TIMA at `0xFF` and fewer
/// than 16 cycles gathered, the next 16 cycles overflow TIMA exactly once:
/// it is reloaded from TMA and the Timer interrupt is requested, which sets
/// bit 2 of IF.
pub proof fn lemma_timer_overflow(t: Timer, ic: InterruptController)
    requires
        t.tac % 8 == 5,
        t.tima == 0xFF,
        t.tima_counter < 16,
    ensures
        t.after_tick(16).tima == t.tma,
        t.after_tick(16).tima_counter == t.tima_counter,
        t.overflows(16),
        ic.after_request(Interrupt::Timer).iflag & 0x04 == 0x04,
{
    assert(period(t.tac) == Some(16int));
    assert(t.increments(16) == 1);
    reveal_with_fuel(tima_after, 2);
    reveal_with_fuel(overflowed, 2);
    crate::interrupt_controller::lemma_request_ack(ic.iflag, 0x04);
}

} // verus!
