//! The emulator: a CPU, the memory map it drives, and the debugging
//! switches, stepped together.

use vstd::prelude::*;
use crate::apu::Apu;
use crate::cpu::machine::Machine;
use crate::cpu::{Cpu, dump_text, machine};
use crate::debug::disasm::mnemonic;
use crate::ppu::registers::PpuRegisters;
use crate::serial::SerialModel;
use crate::interrupt_controller::InterruptController;
use crate::joypad::Joypad;
use crate::mmu::cartridge::{CartridgeModel, LoadError, load};
use crate::mmu::memory::Memory;
use crate::mmu::Mmu;
use crate::ppu::Ppu;
use crate::serial::SerialPort;
use crate::timer::Timer;

verus! {

pub struct Emulator {
    pub cpu: Cpu,
    pub mmu: Mmu,
    pub debug: crate::debug::Debug,
}

impl Emulator {
    /// The machine the emulator holds.
    pub open spec fn machine(&self) -> Machine {
        machine(self.cpu, self.mmu)
    }

    /// An emulator at power-on, with no cartridge loaded, no breakpoints,
    /// and logging off.
    pub fn new() -> (r: Self)
        ensures
            r.cpu.registers == (crate::cpu::registers::Registers {
                a: 0,
                f: 0,
                b: 0,
                c: 0,
                d: 0,
                e: 0,
                h: 0,
                l: 0,
                sp: 0xFFFE,
                pc: 0x0100,
            }),
            !r.cpu.interrupts.ime && !r.cpu.interrupts.ime_scheduled && !r.cpu.interrupts.halted,
            r.cpu.history@.len() == 0,
            r.cpu.instruction_number == 0,
            r.mmu@.wf(),
            r.mmu@.cartridge is None,
            r.mmu@.interrupts == (InterruptController { iflag: 0xE1, ie: 0 }),
            r.mmu@.timer == (Timer { div: 0, tima: 0, tma: 0, tac: 0, tima_counter: 0 }),
            r.mmu@.ppu.ly == 0 && r.mmu@.ppu.line_dots == 0 && !r.mmu@.ppu.frame_complete,
            r.mmu@.ppu.pixels == Seq::new(23040, |i: int| 0u8),
            r.mmu@.ppu.registers == (PpuRegisters {
                lcdc: 0x00,
                stat: 0x02,
                scy: 0,
                scx: 0,
                lyc: 0,
                bgp: 0xFC,
                obp0: 0xFF,
                obp1: 0xFF,
                wy: 0,
                wx: 0,
            }),
            r.mmu@.vram == Seq::new(0x2000, |i: int| 0u8),
            r.mmu@.wram == Seq::new(0x2000, |i: int| 0u8),
            r.mmu@.hram == Seq::new(0x7F, |i: int| 0u8),
            r.mmu@.oam == Seq::new(0xA0, |i: int| 0u8),
            r.mmu@.apu == Seq::new(0x30, |i: int| 0u8),
            r.mmu@.joypad == (Joypad { select: 0x30 }),
            r.mmu@.serial == (SerialModel { sb: 0, sc: 0, output: Seq::empty() }),
            !r.debug.log_cpu,
            r.debug.breakpoints@.len() == 0,
    {
        let memory = Memory::new();
        let cpu = Cpu::new();
        let ppu = Ppu::new();
        let timer = Timer::new();
        let interrupt_controller = InterruptController::new();
        let joypad = Joypad::new();
        let serial = SerialPort::new();
        let apu = Apu::new();
        let mmu = Mmu::new(memory, None, timer, ppu, joypad, interrupt_controller, serial, apu);
        Self { cpu, mmu, debug: crate::debug::Debug::new() }
    }

    /// Runs one CPU step, then the peripherals for as many cycles as the
    /// step took, and returns that number. Interrupts that the peripherals
    /// request are seen by the next step.
    pub fn tick(&mut self) -> (cycles: u32)
        ensures
            cycles == old(self).machine().step_cycles(),
            final(self).machine() == (Machine {
                bus: old(self).machine().step().bus.after_tick(cycles),
                ..old(self).machine().step()
            }),
            final(self).debug == old(self).debug,
            old(self).cpu.registers.wf() ==> final(self).cpu.registers.wf(),
            old(self).machine().fetches() && old(self).debug.log_cpu ==> {
                &&& final(self).cpu.history@.len() == old(self).cpu.history@.len() + 1
                &&& final(self).cpu.history@.drop_last() == old(self).cpu.history@
                &&& final(self).cpu.history@.last()@ == mnemonic(
                    old(self).machine().current().opcode,
                )
            },
            !(old(self).machine().fetches() && old(self).debug.log_cpu) ==> final(self).cpu.history
                == old(self).cpu.history,
            final(self).cpu.instruction_number == (if !old(self).machine().fetches() {
                old(self).cpu.instruction_number
            } else if old(self).cpu.instruction_number == u128::MAX {
                0
            } else {
                (old(self).cpu.instruction_number + 1) as u128
            }),
    {
        let cycles = self.cpu.step(&mut self.mmu, &self.debug);
        self.mmu.tick(cycles);
        cycles
    }

    /// Loads a ROM image as the cartridge; see `Cartridge::new` for when an
    /// image is rejected. A rejected image changes nothing.
    pub fn load_rom(&mut self, rom: Vec<u8>) -> (r: Result<(), LoadError>)
        ensures
            final(self).mmu@ == old(self).mmu@.after_load(rom@),
            final(self).cpu == old(self).cpu,
            final(self).debug == old(self).debug,
            r is Ok <==> load(rom@) is Ok,
            r matches Err(e) ==> load(rom@) == Err::<CartridgeModel, LoadError>(e),
    {
        self.mmu.load_rom(rom)
    }

    /// Puts the registers back to their state after the boot ROM.
    pub fn reset(&mut self)
        ensures
            final(self).cpu.registers == old(self).cpu.registers.dmg_state(),
            final(self).cpu.interrupts == old(self).cpu.interrupts,
            final(self).cpu.log_kept(old(self).cpu),
            final(self).mmu == old(self).mmu,
            final(self).debug == old(self).debug,
    {
        self.cpu.registers.reset();
    }

    /// The instruction history as text, one mnemonic per line.
    pub fn dump_history(&self) -> (r: String)
        ensures
            r@ == dump_text(self.cpu.history@, self.cpu.history@.len() as int),
    {
        self.cpu.dump_history()
    }

    /// Switches the instruction log on or off.
    pub fn toggle_log(&mut self)
        ensures
            final(self).debug.log_cpu == !old(self).debug.log_cpu,
            final(self).debug.breakpoints == old(self).debug.breakpoints,
            final(self).cpu == old(self).cpu,
            final(self).mmu == old(self).mmu,
    {
        self.debug.log_cpu = !self.debug.log_cpu;
    }

    /// Toggles the breakpoint at `address`; see `Debug::add_breakpoint`.
    pub fn add_breakpoint(&mut self, address: u16) -> (r: String)
        ensures
            final(self).debug.log_cpu == old(self).debug.log_cpu,
            final(self).debug.breakpoints@ == crate::debug::Debug::toggled(
                old(self).debug.breakpoints@,
                address,
            ),
            old(self).debug.has_breakpoint(address) ==> r@ == "Removed breakpoint"@,
            !old(self).debug.has_breakpoint(address) ==> r@ == "Added breakpoint"@,
            final(self).cpu == old(self).cpu,
            final(self).mmu == old(self).mmu,
    {
        self.debug.add_breakpoint(address)
    }

    /// Whether PC stands at a breakpoint.
    pub fn check_breakpoint(&self) -> (r: bool)
        ensures
            r == self.debug.has_breakpoint(self.cpu.registers.pc),
    {
        self.debug.position(self.cpu.registers.pc).is_some()
    }
}

} // verus!
