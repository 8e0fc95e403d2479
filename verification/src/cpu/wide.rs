//! The 16-bit arithmetic and the loads of SP.

use vstd::prelude::*;
use crate::bits::{high_byte, low_byte, up16, down16};
use crate::cpu::alu::{alu_add16, alu_add_offset};
use crate::cpu::decoder::{Opcode, R16};
use crate::cpu::instructions::nibble_kept;
use crate::cpu::machine::{Group, group, writes_flags};
use crate::cpu::{Cpu, machine};
use crate::mmu::Mmu;

verus! {

impl Cpu {
    fn op_addhlr16(&mut self, reg: &R16, mmu: &mut Mmu)
        ensures
            machine(*final(self), *final(mmu)) == machine(*old(self), *old(mmu)).run_wide(
                Opcode::AddHLR16(*reg),
            ),
            final(self).log_kept(*old(self)),
            nibble_kept(*old(self), *final(self)),
            final(self).registers.wf(),
    {
        let hl = self.registers.hl();
        let f = self.registers.f;
        let value = self.read_r16(reg);
        let x = alu_add16(hl, value, f);
        self.registers.set_hl(x.value);
        self.registers.f = x.f;
    }

    fn op_addhlsp(&mut self, mmu: &mut Mmu)
        ensures
            machine(*final(self), *final(mmu)) == machine(*old(self), *old(mmu)).run_wide(
                Opcode::AddHLSP,
            ),
            final(self).log_kept(*old(self)),
            nibble_kept(*old(self), *final(self)),
            final(self).registers.wf(),
    {
        let hl = self.registers.hl();
        let sp = self.registers.sp;
        let f = self.registers.f;
        let x = alu_add16(hl, sp, f);
        self.registers.set_hl(x.value);
        self.registers.f = x.f;
    }

    fn op_decr16(&mut self, reg: &R16, mmu: &mut Mmu)
        ensures
            machine(*final(self), *final(mmu)) == machine(*old(self), *old(mmu)).run_wide(
                Opcode::DecR16(*reg),
            ),
            final(self).log_kept(*old(self)),
            nibble_kept(*old(self), *final(self)),
    {
        let value = self.read_r16(reg);
        self.write_r16(reg, down16(value, 1));
    }

    fn op_incr16(&mut self, reg: &R16, mmu: &mut Mmu)
        ensures
            machine(*final(self), *final(mmu)) == machine(*old(self), *old(mmu)).run_wide(
                Opcode::IncR16(*reg),
            ),
            final(self).log_kept(*old(self)),
            nibble_kept(*old(self), *final(self)),
    {
        let value = self.read_r16(reg);
        self.write_r16(reg, up16(value, 1));
    }

    fn op_decsp(&mut self, mmu: &mut Mmu)
        ensures
            machine(*final(self), *final(mmu)) == machine(*old(self), *old(mmu)).run_wide(
                Opcode::DecSP,
            ),
            final(self).log_kept(*old(self)),
            nibble_kept(*old(self), *final(self)),
    {
        let sp = self.registers.sp;
        self.registers.sp = down16(sp, 1);
    }

    fn op_incsp(&mut self, mmu: &mut Mmu)
        ensures
            machine(*final(self), *final(mmu)) == machine(*old(self), *old(mmu)).run_wide(
                Opcode::IncSP,
            ),
            final(self).log_kept(*old(self)),
            nibble_kept(*old(self), *final(self)),
    {
        let sp = self.registers.sp;
        self.registers.sp = up16(sp, 1);
    }

    fn op_ldspn16(&mut self, mmu: &mut Mmu)
        ensures
            machine(*final(self), *final(mmu)) == machine(*old(self), *old(mmu)).run_wide(
                Opcode::LdSPN16,
            ),
            final(self).log_kept(*old(self)),
            nibble_kept(*old(self), *final(self)),
    {
        let sp = self.registers.sp;
        self.registers.sp = self.imm16(mmu);
    }

    fn op_ldsphl(&mut self, mmu: &mut Mmu)
        ensures
            machine(*final(self), *final(mmu)) == machine(*old(self), *old(mmu)).run_wide(
                Opcode::LdSPHL,
            ),
            final(self).log_kept(*old(self)),
            nibble_kept(*old(self), *final(self)),
    {
        let hl = self.registers.hl();
        let sp = self.registers.sp;
        self.registers.sp = hl;
    }

    fn op_addspe8(&mut self, mmu: &mut Mmu)
        ensures
            machine(*final(self), *final(mmu)) == machine(*old(self), *old(mmu)).run_wide(
                Opcode::AddSPe8,
            ),
            final(self).log_kept(*old(self)),
            nibble_kept(*old(self), *final(self)),
            final(self).registers.wf(),
    {
        let sp = self.registers.sp;
        let f = self.registers.f;
        let x = alu_add_offset(sp, self.imm8(mmu));
        self.registers.sp = x.value;
        self.registers.f = x.f;
    }

    fn op_ldhlspe8(&mut self, mmu: &mut Mmu)
        ensures
            machine(*final(self), *final(mmu)) == machine(*old(self), *old(mmu)).run_wide(
                Opcode::LdHLSPe8,
            ),
            final(self).log_kept(*old(self)),
            nibble_kept(*old(self), *final(self)),
            final(self).registers.wf(),
    {
        let sp = self.registers.sp;
        let f = self.registers.f;
        let x = alu_add_offset(sp, self.imm8(mmu));
        self.registers.set_hl(x.value);
        self.registers.f = x.f;
    }

    fn op_ldptrn16sp(&mut self, mmu: &mut Mmu)
        ensures
            machine(*final(self), *final(mmu)) == machine(*old(self), *old(mmu)).run_wide(
                Opcode::LdPtrN16SP,
            ),
            final(self).log_kept(*old(self)),
            nibble_kept(*old(self), *final(self)),
    {
        let sp = self.registers.sp;
        let addr = self.imm16(mmu);
        mmu.write_8(addr, low_byte(sp));
        mmu.write_8(up16(addr, 1), high_byte(sp));
    }

    /// Runs one 16-bit instruction; any other operation is left alone.
    pub(crate) fn exec_wide(&mut self, op: &Opcode, mmu: &mut Mmu)
        ensures
            machine(*final(self), *final(mmu)) == machine(*old(self), *old(mmu)).run_wide(*op),
            final(self).log_kept(*old(self)),
            nibble_kept(*old(self), *final(self)),
            group(*op) == Group::Wide && writes_flags(*op) ==> final(self).registers.wf(),
    {
        match op {
            Opcode::AddHLR16(reg) => self.op_addhlr16(reg, mmu),
            Opcode::AddHLSP => self.op_addhlsp(mmu),
            Opcode::DecR16(reg) => self.op_decr16(reg, mmu),
            Opcode::IncR16(reg) => self.op_incr16(reg, mmu),
            Opcode::DecSP => self.op_decsp(mmu),
            Opcode::IncSP => self.op_incsp(mmu),
            Opcode::LdSPN16 => self.op_ldspn16(mmu),
            Opcode::LdSPHL => self.op_ldsphl(mmu),
            Opcode::AddSPe8 => self.op_addspe8(mmu),
            Opcode::LdHLSPe8 => self.op_ldhlspe8(mmu),
            Opcode::LdPtrN16SP => self.op_ldptrn16sp(mmu),
            _ => {},
        }
    }
}

} // verus!
