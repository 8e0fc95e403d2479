//! The CPU-side interrupt latches: master enable, its delayed activation, and
//! the halted state.

use vstd::prelude::*;

verus! {

#[derive(Clone, Copy, Debug, PartialEq, Eq, Structural)]
pub struct Interrupts {
    /// Interrupt master enable.
    pub ime: bool,
    /// Set by `EI`; the enable takes effect after the next fetch.
    pub ime_scheduled: bool,
    /// Set by `HALT`; cleared when an enabled interrupt becomes pending.
    pub halted: bool,
}

impl Interrupts {
    pub fn new() -> (r: Self)
        ensures
            r == (Interrupts { ime: false, ime_scheduled: false, halted: false }),
    {
        Self { ime: false, ime_scheduled: false, halted: false }
    }

    /// The latches after the master enable is asserted.
    pub open spec fn with_ime(self) -> Interrupts {
        Interrupts { ime: true, ime_scheduled: false, ..self }
    }

    /// Asserts the master enable and consumes any scheduled enable.
    pub fn set_ime(&mut self)
        ensures
            *final(self) == old(self).with_ime(),
    {
        self.ime = true;
        self.ime_scheduled = false;
    }

    /// Clears the master enable at once.
    pub fn reset_ime(&mut self)
        ensures
            *final(self) == (Interrupts { ime: false, ..*old(self) }),
    {
        self.ime = false;
    }
}

} // verus!
