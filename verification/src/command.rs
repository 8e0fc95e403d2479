//! Commands that a front end runs against the emulator, each answered with
//! one line of text.

use vstd::prelude::*;
use vstd::string::StringExecFns;
use crate::emulator::Emulator;

verus! {

/// A command: it acts on the emulator and returns what to tell the user.
pub trait Command {
    fn execute(&self, emulator: &mut Emulator) -> String;
}

/// Puts the registers back to their state after the boot ROM.
pub struct ResetCommand {}

/// Switches the instruction log on or off.
pub struct ToggleLogCommand {}

/// Toggles the breakpoint at an address.
pub struct AddBreakpointCommand {
    pub address: u16,
}

impl ResetCommand {
    pub fn run(&self, emulator: &mut Emulator) -> (r: String)
        ensures
            r@ == "Emulator reset."@,
            final(emulator).cpu.registers == old(emulator).cpu.registers.dmg_state(),
            final(emulator).cpu.interrupts == old(emulator).cpu.interrupts,
            final(emulator).cpu.log_kept(old(emulator).cpu),
            final(emulator).mmu == old(emulator).mmu,
            final(emulator).debug == old(emulator).debug,
    {
        emulator.reset();
        String::from_str("Emulator reset.")
    }
}

impl ToggleLogCommand {
    pub fn run(&self, emulator: &mut Emulator) -> (r: String)
        ensures
            r@ == "Logging toggled."@,
            final(emulator).debug.log_cpu == !old(emulator).debug.log_cpu,
            final(emulator).debug.breakpoints == old(emulator).debug.breakpoints,
            final(emulator).cpu == old(emulator).cpu,
            final(emulator).mmu == old(emulator).mmu,
    {
        emulator.toggle_log();
        String::from_str("Logging toggled.")
    }
}

impl AddBreakpointCommand {
    pub fn run(&self, emulator: &mut Emulator) -> (r: String)
        ensures
            final(emulator).debug.log_cpu == old(emulator).debug.log_cpu,
            final(emulator).debug.breakpoints@ == crate::debug::Debug::toggled(
                old(emulator).debug.breakpoints@,
                self.address,
            ),
            old(emulator).debug.has_breakpoint(self.address) ==> r@ == "Removed breakpoint"@,
            !old(emulator).debug.has_breakpoint(self.address) ==> r@ == "Added breakpoint"@,
            final(emulator).cpu == old(emulator).cpu,
            final(emulator).mmu == old(emulator).mmu,
    {
        emulator.add_breakpoint(self.address)
    }
}

impl Command for ResetCommand {
    fn execute(&self, emulator: &mut Emulator) -> String {
        self.run(emulator)
    }
}

impl Command for ToggleLogCommand {
    fn execute(&self, emulator: &mut Emulator) -> String {
        self.run(emulator)
    }
}

impl Command for AddBreakpointCommand {
    fn execute(&self, emulator: &mut Emulator) -> String {
        self.run(emulator)
    }
}

} // verus!
