//! The jumps, calls, returns and restarts.

use vstd::prelude::*;
use crate::bits::{add_signed, up16};
use crate::cpu::decoder::Opcode;
use crate::cpu::{Cpu, machine};
use crate::mmu::Mmu;

verus! {

impl Cpu {
    pub(crate) fn relative_target(&self, mmu: &Mmu) -> (r: u16)
        ensures
            r == machine(*self, *mmu).relative(),
    {
        add_signed(up16(self.registers.pc, 2), self.imm8(mmu))
    }

    pub(crate) fn call(&mut self, mmu: &mut Mmu)
        ensures
            machine(*final(self), *final(mmu)) == machine(*old(self), *old(mmu)).call(0).m,
            final(self).log_kept(*old(self)),
            final(self).registers.f == old(self).registers.f,
    {
        let target = self.imm16(mmu);
        let ret = up16(self.registers.pc, 3);
        self.push_u16(mmu, ret);
        self.registers.pc = target;
    }

    pub(crate) fn ret(&mut self, mmu: &Mmu)
        ensures
            machine(*final(self), *mmu) == machine(*old(self), *mmu).ret(0).m,
            final(self).log_kept(*old(self)),
            final(self).registers.f == old(self).registers.f,
    {
        self.registers.pc = self.pop_u16(mmu);
    }

    /// Runs a jump, call, return or restart. The result tells whether PC
    /// was set, and the cycles a taken branch adds.
    pub(crate) fn exec_flow(&mut self, op: &Opcode, length: u8, mmu: &mut Mmu) -> (r: (bool, u8))
        ensures
            machine(*final(self), *final(mmu)) == machine(*old(self), *old(mmu)).run_flow(
                *op,
                length,
            ).m,
            r.0 == machine(*old(self), *old(mmu)).run_flow(*op, length).jumped,
            r.1 == machine(*old(self), *old(mmu)).run_flow(*op, length).extra,
            final(self).log_kept(*old(self)),
            final(self).registers.f == old(self).registers.f,
    {
        let ghost m = machine(*self, *mmu);
        match op {
            Opcode::CallN16 => {
                self.call(mmu);
                (true, 0)
            },
            Opcode::CallCCN16(cc) => {
                if self.condition_met(cc) {
                    self.call(mmu);
                    (true, 12)
                } else {
                    (false, 0)
                }
            },
            Opcode::JpHL => {
                self.registers.pc = self.registers.hl();
                (true, 0)
            },
            Opcode::JpN16 => {
                self.registers.pc = self.imm16(mmu);
                (true, 0)
            },
            Opcode::JpCCN16(cc) => {
                if self.condition_met(cc) {
                    self.registers.pc = self.imm16(mmu);
                    (true, 4)
                } else {
                    (false, 0)
                }
            },
            Opcode::JrE8 => {
                self.registers.pc = self.relative_target(mmu);
                (true, 0)
            },
            Opcode::JrCCE8(cc) => {
                if self.condition_met(cc) {
                    self.registers.pc = self.relative_target(mmu);
                    (true, 4)
                } else {
                    (false, 0)
                }
            },
            Opcode::Ret => {
                self.ret(mmu);
                (true, 0)
            },
            Opcode::RetCC(cc) => {
                if self.condition_met(cc) {
                    self.ret(mmu);
                    (true, 12)
                } else {
                    (false, 0)
                }
            },
            Opcode::RetI => {
                self.interrupts.set_ime();
                self.ret(mmu);
                (true, 0)
            },
            Opcode::Rst(vec) => {
                let ret = up16(self.registers.pc, length as u16);
                self.push_u16(mmu, ret);
                self.registers.pc = *vec as u16;
                (true, 0)
            },
            _ => (false, 0),
        }
    }
}

} // verus!
