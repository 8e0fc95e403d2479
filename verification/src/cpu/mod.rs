//! The CPU: register file, interrupt latches, decoder and execution engine,
//! and the step that drives them.

pub mod registers;
pub mod interrupts;
pub mod decoder;
pub mod alu;
pub mod machine;
pub mod instructions;
pub mod loads;
pub mod arith;
pub mod wide;
pub mod shifts;
pub mod control;
pub mod flow;

use vstd::prelude::*;
use vstd::string::StringExecFns;
use crate::cpu::decoder::{OpcodeEntry, decode};
use crate::cpu::interrupts::Interrupts;
use crate::cpu::machine::{Machine, writes_flags};
use crate::cpu::registers::Registers;
use crate::debug::disasm::{disassemble, mnemonic};
use crate::interrupt_controller::Interrupt;
use crate::mmu::Mmu;

verus! {

pub struct Cpu {
    pub registers: Registers,
    pub interrupts: Interrupts,
    /// The mnemonics of the instructions executed while logging was on.
    pub history: Vec<String>,
    /// How many instructions were executed; wraps at the end of its range.
    pub instruction_number: u128,
}

/// The lines of a history, each followed by a line feed.
pub open spec fn dump_text(lines: Seq<String>, n: int) -> Seq<char>
    decreases n,
{
    if n <= 0 {
        Seq::empty()
    } else {
        dump_text(lines, n - 1) + lines[n - 1]@ + "\n"@
    }
}

/// The machine that a CPU and the memory map it drives make up.
pub open spec fn machine(cpu: Cpu, mmu: Mmu) -> Machine {
    Machine { regs: cpu.registers, ints: cpu.interrupts, bus: mmu@ }
}

impl Cpu {
    /// Neither the history nor the instruction count differ from `before`.
    pub open spec fn log_kept(&self, before: Cpu) -> bool {
        self.history == before.history && self.instruction_number == before.instruction_number
    }

    pub fn new() -> (r: Self)
        ensures
            r.registers == (Registers {
                a: 0,
                f: 0,
                b: 0,
                c: 0,
                d: 0,
                e: 0,
                h: 0,
                l: 0,
                sp: 0xFFFE,
                pc: 0x0100,
            }),
            r.interrupts == (Interrupts { ime: false, ime_scheduled: false, halted: false }),
            r.history@.len() == 0,
            r.instruction_number == 0,
    {
        Self {
            registers: Registers::new(),
            interrupts: Interrupts::new(),
            history: Vec::new(),
            instruction_number: 0,
        }
    }

    /// Runs one step and returns the cycles it took. A halted CPU idles for
    /// 4 cycles, and wakes if an enabled interrupt is pending. With the
    /// master enable set, a pending interrupt is serviced in 20 cycles. Else
    /// the instruction at PC is executed, and logged first as its mnemonic
    /// if `debug` asks for the log.
    pub fn step(&mut self, mmu: &mut Mmu, debug: &crate::debug::Debug) -> (cycles: u32)
        ensures
            machine(*final(self), *final(mmu)) == machine(*old(self), *old(mmu)).step(),
            cycles == machine(*old(self), *old(mmu)).step_cycles(),
            old(self).registers.f & 0x0F == 0 ==> final(self).registers.f & 0x0F == 0,
            machine(*old(self), *old(mmu)).fetches() && writes_flags(
                machine(*old(self), *old(mmu)).operation(machine(*old(self), *old(mmu)).current()),
            ) ==> final(self).registers.wf(),
            machine(*old(self), *old(mmu)).fetches() && debug.log_cpu ==> {
                &&& final(self).history@.len() == old(self).history@.len() + 1
                &&& final(self).history@.drop_last() == old(self).history@
                &&& final(self).history@.last()@ == mnemonic(
                    machine(*old(self), *old(mmu)).current().opcode,
                )
            },
            !(machine(*old(self), *old(mmu)).fetches() && debug.log_cpu) ==> final(self).history
                == old(self).history,
            final(self).instruction_number == (if !machine(*old(self), *old(mmu)).fetches() {
                old(self).instruction_number
            } else if old(self).instruction_number == u128::MAX {
                0
            } else {
                (old(self).instruction_number + 1) as u128
            }),
    {
        if self.interrupts.halted {
            if mmu.pending_interrupts() != 0 {
                self.interrupts.halted = false;
            }
            return 4;
        }
        if self.interrupts.ime {
            match mmu.highest_interrupt() {
                Some(irq) => {
                    mmu.ack_interrupt(irq);
                    self.service_interrupt(irq, mmu);
                    return 20;
                },
                None => {},
            }
        }
        let entry = decode(mmu.read_8(self.registers.pc));
        if debug.log_cpu {
            self.history.push(disassemble(&entry.opcode));
            assert(self.history@.drop_last() =~= old(self).history@);
        }
        self.execute_instruction(&entry, mmu, true)
    }

    /// The entry of the instruction at PC.
    pub fn get_current_opcode(&self, mmu: &Mmu) -> (r: OpcodeEntry)
        ensures
            r == machine(*self, *mmu).current(),
    {
        decode(mmu.read_8(self.registers.pc))
    }

    /// The instruction history as text, one mnemonic per line, for a caller
    /// to write out.
    pub fn dump_history(&self) -> (r: String)
        ensures
            r@ == dump_text(self.history@, self.history@.len() as int),
    {
        let mut text = String::new();
        let mut i: usize = 0;
        while i < self.history.len()
            invariant
                i <= self.history@.len(),
                text@ == dump_text(self.history@, i as int),
            decreases self.history@.len() - i,
        {
            text.append(self.history[i].as_str());
            text.append("\n");
            i = i + 1;
        }
        text
    }

    /// Turns to an acknowledged interrupt: drops the master enable and the
    /// halt, pushes PC, and jumps to the source's vector.
    pub fn service_interrupt(&mut self, irq: Interrupt, mmu: &mut Mmu)
        ensures
            machine(*final(self), *final(mmu)) == machine(*old(self), *old(mmu)).with_ints(
                Interrupts { ime: false, ime_scheduled: false, halted: false },
            ).pushed16(old(self).registers.pc).with_pc(irq.spec_vector()),
            final(self).log_kept(*old(self)),
            final(self).registers.f == old(self).registers.f,
    {
        self.interrupts.ime = false;
        self.interrupts.ime_scheduled = false;
        self.interrupts.halted = false;
        let pc = self.registers.pc;
        self.push_u16(mmu, pc);
        self.registers.pc = irq.vector();
    }
}

} // verus!
