//! A window onto memory for a debugger: where it starts and how it scrolls.

use vstd::prelude::*;

verus! {

pub struct MemoryWidget {
    /// The first address shown.
    pub start_addr: u16,
    pub bytes_per_row: u16,
    pub rows: u16,
}

/// `v` held within `0..=0xFFFF`.
pub open spec fn clamp16(v: int) -> u16 {
    if v < 0 {
        0
    } else if v > 0xFFFF {
        0xFFFF
    } else {
        v as u16
    }
}

impl MemoryWidget {
    pub fn new() -> (r: Self)
        ensures
            r.start_addr == 0,
            r.bytes_per_row == 16,
            r.rows == 32,
    {
        Self { start_addr: 0x0000, bytes_per_row: 16, rows: 32 }
    }

    /// Moves the window by `delta` rows, stopping at either end of the
    /// address space. Always returns true: the key was used.
    pub fn scroll(&mut self, delta: i16) -> (r: bool)
        ensures
            r,
            final(self).start_addr == clamp16(
                old(self).start_addr + delta * old(self).bytes_per_row,
            ),
            final(self).bytes_per_row == old(self).bytes_per_row,
            final(self).rows == old(self).rows,
    {
        assert(-32768 * 65535 <= delta * self.bytes_per_row <= 32767 * 65535) by (nonlinear_arith)
            requires
                -32768 <= delta <= 32767,
                0 <= self.bytes_per_row <= 65535,
        ;
        let moved: i64 = self.start_addr as i64 + delta as i64 * self.bytes_per_row as i64;
        self.start_addr = if moved < 0 {
            0
        } else if moved > 0xFFFF {
            0xFFFF
        } else {
            moved as u16
        };
        true
    }
}

} // verus!
