//! The stack moves and the interrupt switches.

use vstd::prelude::*;
use crate::cpu::decoder::{Opcode, R16};
use crate::cpu::instructions::nibble_kept;
use crate::cpu::machine::{Group, group, writes_flags};
use crate::cpu::{Cpu, machine};
use crate::mmu::Mmu;

verus! {

impl Cpu {
    fn op_popaf(&mut self, mmu: &mut Mmu)
        ensures
            machine(*final(self), *final(mmu)) == machine(*old(self), *old(mmu)).run_misc(
                Opcode::PopAF,
            ),
            final(self).log_kept(*old(self)),
            nibble_kept(*old(self), *final(self)),
            final(self).registers.wf(),
    {
        let value = self.pop_u16(mmu);
        self.write_r16(&R16::AF, value);
    }

    fn op_popr16(&mut self, reg: &R16, mmu: &mut Mmu)
        ensures
            machine(*final(self), *final(mmu)) == machine(*old(self), *old(mmu)).run_misc(
                Opcode::PopR16(*reg),
            ),
            final(self).log_kept(*old(self)),
            nibble_kept(*old(self), *final(self)),
    {
        let value = self.pop_u16(mmu);
        self.write_r16(reg, value);
    }

    fn op_pushaf(&mut self, mmu: &mut Mmu)
        ensures
            machine(*final(self), *final(mmu)) == machine(*old(self), *old(mmu)).run_misc(
                Opcode::PushAF,
            ),
            final(self).log_kept(*old(self)),
            nibble_kept(*old(self), *final(self)),
    {
        let value = self.registers.af();
        self.push_u16(mmu, value);
    }

    fn op_pushr16(&mut self, reg: &R16, mmu: &mut Mmu)
        ensures
            machine(*final(self), *final(mmu)) == machine(*old(self), *old(mmu)).run_misc(
                Opcode::PushR16(*reg),
            ),
            final(self).log_kept(*old(self)),
            nibble_kept(*old(self), *final(self)),
    {
        let value = self.read_r16(reg);
        self.push_u16(mmu, value);
    }

    fn op_di(&mut self, mmu: &mut Mmu)
        ensures
            machine(*final(self), *final(mmu)) == machine(*old(self), *old(mmu)).run_misc(
                Opcode::Di,
            ),
            final(self).log_kept(*old(self)),
            nibble_kept(*old(self), *final(self)),
    {
        self.interrupts.reset_ime();
    }

    fn op_ei(&mut self, mmu: &mut Mmu)
        ensures
            machine(*final(self), *final(mmu)) == machine(*old(self), *old(mmu)).run_misc(
                Opcode::Ei,
            ),
            final(self).log_kept(*old(self)),
            nibble_kept(*old(self), *final(self)),
    {
        self.interrupts.ime_scheduled = true;
    }

    fn op_halt(&mut self, mmu: &mut Mmu)
        ensures
            machine(*final(self), *final(mmu)) == machine(*old(self), *old(mmu)).run_misc(
                Opcode::Halt,
            ),
            final(self).log_kept(*old(self)),
            nibble_kept(*old(self), *final(self)),
    {
        self.interrupts.halted = true;
    }

    /// Runs one stack or interrupt instruction; any other operation is left alone.
    pub(crate) fn exec_misc(&mut self, op: &Opcode, mmu: &mut Mmu)
        ensures
            machine(*final(self), *final(mmu)) == machine(*old(self), *old(mmu)).run_misc(*op),
            final(self).log_kept(*old(self)),
            nibble_kept(*old(self), *final(self)),
            group(*op) == Group::Misc && writes_flags(*op) ==> final(self).registers.wf(),
    {
        match op {
            Opcode::PopAF => self.op_popaf(mmu),
            Opcode::PopR16(reg) => self.op_popr16(reg, mmu),
            Opcode::PushAF => self.op_pushaf(mmu),
            Opcode::PushR16(reg) => self.op_pushr16(reg, mmu),
            Opcode::Di => self.op_di(mmu),
            Opcode::Ei => self.op_ei(mmu),
            Opcode::Halt => self.op_halt(mmu),
            _ => {},
        }
    }
}

} // verus!
