//! The 8-bit arithmetic and logic instructions.

use vstd::prelude::*;
use crate::cpu::alu::{
    alu_add,
    alu_sub,
    alu_and,
    alu_or,
    alu_xor,
    alu_inc,
    alu_dec,
    alu_cpl,
    alu_scf,
    alu_ccf,
    alu_daa,
};
use crate::cpu::decoder::{Opcode, R8};
use crate::cpu::instructions::nibble_kept;
use crate::cpu::machine::{Group, group, writes_flags};
use crate::cpu::registers::Flags;
use crate::cpu::{Cpu, machine};
use crate::mmu::Mmu;

verus! {

impl Cpu {
    fn op_adcar8(&mut self, reg: &R8, mmu: &mut Mmu)
        ensures
            machine(*final(self), *final(mmu)) == machine(*old(self), *old(mmu)).run_alu(
                Opcode::AdcAR8(*reg),
            ),
            final(self).log_kept(*old(self)),
            nibble_kept(*old(self), *final(self)),
            final(self).registers.wf(),
    {
        let a = self.registers.a;
        let c = self.registers.is_set(Flags::C);
        let x = alu_add(a, self.read_r8(reg, mmu), c);
        self.accumulate(x);
    }

    fn op_adcan8(&mut self, mmu: &mut Mmu)
        ensures
            machine(*final(self), *final(mmu)) == machine(*old(self), *old(mmu)).run_alu(
                Opcode::AdcAN8,
            ),
            final(self).log_kept(*old(self)),
            nibble_kept(*old(self), *final(self)),
            final(self).registers.wf(),
    {
        let a = self.registers.a;
        let c = self.registers.is_set(Flags::C);
        let x = alu_add(a, self.imm8(mmu), c);
        self.accumulate(x);
    }

    fn op_addar8(&mut self, reg: &R8, mmu: &mut Mmu)
        ensures
            machine(*final(self), *final(mmu)) == machine(*old(self), *old(mmu)).run_alu(
                Opcode::AddAR8(*reg),
            ),
            final(self).log_kept(*old(self)),
            nibble_kept(*old(self), *final(self)),
            final(self).registers.wf(),
    {
        let a = self.registers.a;
        let x = alu_add(a, self.read_r8(reg, mmu), false);
        self.accumulate(x);
    }

    fn op_addan8(&mut self, mmu: &mut Mmu)
        ensures
            machine(*final(self), *final(mmu)) == machine(*old(self), *old(mmu)).run_alu(
                Opcode::AddAN8,
            ),
            final(self).log_kept(*old(self)),
            nibble_kept(*old(self), *final(self)),
            final(self).registers.wf(),
    {
        let a = self.registers.a;
        let x = alu_add(a, self.imm8(mmu), false);
        self.accumulate(x);
    }

    fn op_cpar8(&mut self, reg: &R8, mmu: &mut Mmu)
        ensures
            machine(*final(self), *final(mmu)) == machine(*old(self), *old(mmu)).run_alu(
                Opcode::CpAR8(*reg),
            ),
            final(self).log_kept(*old(self)),
            nibble_kept(*old(self), *final(self)),
            final(self).registers.wf(),
    {
        let a = self.registers.a;
        let f = self.registers.f;
        self.registers.f = alu_sub(a, self.read_r8(reg, mmu), false).f;
    }

    fn op_cpan8(&mut self, mmu: &mut Mmu)
        ensures
            machine(*final(self), *final(mmu)) == machine(*old(self), *old(mmu)).run_alu(
                Opcode::CpAN8,
            ),
            final(self).log_kept(*old(self)),
            nibble_kept(*old(self), *final(self)),
            final(self).registers.wf(),
    {
        let a = self.registers.a;
        let f = self.registers.f;
        self.registers.f = alu_sub(a, self.imm8(mmu), false).f;
    }

    fn op_decr8(&mut self, reg: &R8, mmu: &mut Mmu)
        ensures
            machine(*final(self), *final(mmu)) == machine(*old(self), *old(mmu)).run_alu(
                Opcode::DecR8(*reg),
            ),
            final(self).log_kept(*old(self)),
            nibble_kept(*old(self), *final(self)),
            final(self).registers.wf(),
    {
        let f = self.registers.f;
        let x = alu_dec(self.read_r8(reg, mmu), f);
        self.write_result(reg, x, mmu);
    }

    fn op_incr8(&mut self, reg: &R8, mmu: &mut Mmu)
        ensures
            machine(*final(self), *final(mmu)) == machine(*old(self), *old(mmu)).run_alu(
                Opcode::IncR8(*reg),
            ),
            final(self).log_kept(*old(self)),
            nibble_kept(*old(self), *final(self)),
            final(self).registers.wf(),
    {
        let f = self.registers.f;
        let x = alu_inc(self.read_r8(reg, mmu), f);
        self.write_result(reg, x, mmu);
    }

    fn op_sbcar8(&mut self, reg: &R8, mmu: &mut Mmu)
        ensures
            machine(*final(self), *final(mmu)) == machine(*old(self), *old(mmu)).run_alu(
                Opcode::SbcAR8(*reg),
            ),
            final(self).log_kept(*old(self)),
            nibble_kept(*old(self), *final(self)),
            final(self).registers.wf(),
    {
        let a = self.registers.a;
        let c = self.registers.is_set(Flags::C);
        let x = alu_sub(a, self.read_r8(reg, mmu), c);
        self.accumulate(x);
    }

    fn op_sbcan8(&mut self, mmu: &mut Mmu)
        ensures
            machine(*final(self), *final(mmu)) == machine(*old(self), *old(mmu)).run_alu(
                Opcode::SbcAN8,
            ),
            final(self).log_kept(*old(self)),
            nibble_kept(*old(self), *final(self)),
            final(self).registers.wf(),
    {
        let a = self.registers.a;
        let c = self.registers.is_set(Flags::C);
        let x = alu_sub(a, self.imm8(mmu), c);
        self.accumulate(x);
    }

    fn op_subar8(&mut self, reg: &R8, mmu: &mut Mmu)
        ensures
            machine(*final(self), *final(mmu)) == machine(*old(self), *old(mmu)).run_alu(
                Opcode::SubAR8(*reg),
            ),
            final(self).log_kept(*old(self)),
            nibble_kept(*old(self), *final(self)),
            final(self).registers.wf(),
    {
        let a = self.registers.a;
        let x = alu_sub(a, self.read_r8(reg, mmu), false);
        self.accumulate(x);
    }

    fn op_suban8(&mut self, mmu: &mut Mmu)
        ensures
            machine(*final(self), *final(mmu)) == machine(*old(self), *old(mmu)).run_alu(
                Opcode::SubAN8,
            ),
            final(self).log_kept(*old(self)),
            nibble_kept(*old(self), *final(self)),
            final(self).registers.wf(),
    {
        let a = self.registers.a;
        let x = alu_sub(a, self.imm8(mmu), false);
        self.accumulate(x);
    }

    fn op_andar8(&mut self, reg: &R8, mmu: &mut Mmu)
        ensures
            machine(*final(self), *final(mmu)) == machine(*old(self), *old(mmu)).run_alu(
                Opcode::AndAR8(*reg),
            ),
            final(self).log_kept(*old(self)),
            nibble_kept(*old(self), *final(self)),
            final(self).registers.wf(),
    {
        let a = self.registers.a;
        let x = alu_and(a, self.read_r8(reg, mmu));
        self.accumulate(x);
    }

    fn op_andan8(&mut self, mmu: &mut Mmu)
        ensures
            machine(*final(self), *final(mmu)) == machine(*old(self), *old(mmu)).run_alu(
                Opcode::AndAN8,
            ),
            final(self).log_kept(*old(self)),
            nibble_kept(*old(self), *final(self)),
            final(self).registers.wf(),
    {
        let a = self.registers.a;
        let x = alu_and(a, self.imm8(mmu));
        self.accumulate(x);
    }

    fn op_orar8(&mut self, reg: &R8, mmu: &mut Mmu)
        ensures
            machine(*final(self), *final(mmu)) == machine(*old(self), *old(mmu)).run_alu(
                Opcode::OrAR8(*reg),
            ),
            final(self).log_kept(*old(self)),
            nibble_kept(*old(self), *final(self)),
            final(self).registers.wf(),
    {
        let a = self.registers.a;
        let x = alu_or(a, self.read_r8(reg, mmu));
        self.accumulate(x);
    }

    fn op_oran8(&mut self, mmu: &mut Mmu)
        ensures
            machine(*final(self), *final(mmu)) == machine(*old(self), *old(mmu)).run_alu(
                Opcode::OrAN8,
            ),
            final(self).log_kept(*old(self)),
            nibble_kept(*old(self), *final(self)),
            final(self).registers.wf(),
    {
        let a = self.registers.a;
        let x = alu_or(a, self.imm8(mmu));
        self.accumulate(x);
    }

    fn op_xorar8(&mut self, reg: &R8, mmu: &mut Mmu)
        ensures
            machine(*final(self), *final(mmu)) == machine(*old(self), *old(mmu)).run_alu(
                Opcode::XorAR8(*reg),
            ),
            final(self).log_kept(*old(self)),
            nibble_kept(*old(self), *final(self)),
            final(self).registers.wf(),
    {
        let a = self.registers.a;
        let x = alu_xor(a, self.read_r8(reg, mmu));
        self.accumulate(x);
    }

    fn op_xoran8(&mut self, mmu: &mut Mmu)
        ensures
            machine(*final(self), *final(mmu)) == machine(*old(self), *old(mmu)).run_alu(
                Opcode::XorAN8,
            ),
            final(self).log_kept(*old(self)),
            nibble_kept(*old(self), *final(self)),
            final(self).registers.wf(),
    {
        let a = self.registers.a;
        let x = alu_xor(a, self.imm8(mmu));
        self.accumulate(x);
    }

    fn op_cpl(&mut self, mmu: &mut Mmu)
        ensures
            machine(*final(self), *final(mmu)) == machine(*old(self), *old(mmu)).run_alu(
                Opcode::Cpl,
            ),
            final(self).log_kept(*old(self)),
            nibble_kept(*old(self), *final(self)),
            final(self).registers.wf(),
    {
        let a = self.registers.a;
        let f = self.registers.f;
        let x = alu_cpl(a, f);
        self.accumulate(x);
    }

    fn op_daa(&mut self, mmu: &mut Mmu)
        ensures
            machine(*final(self), *final(mmu)) == machine(*old(self), *old(mmu)).run_alu(
                Opcode::Daa,
            ),
            final(self).log_kept(*old(self)),
            nibble_kept(*old(self), *final(self)),
            final(self).registers.wf(),
    {
        let a = self.registers.a;
        let f = self.registers.f;
        let x = alu_daa(a, f);
        self.accumulate(x);
    }

    fn op_scf(&mut self, mmu: &mut Mmu)
        ensures
            machine(*final(self), *final(mmu)) == machine(*old(self), *old(mmu)).run_alu(
                Opcode::Scf,
            ),
            final(self).log_kept(*old(self)),
            nibble_kept(*old(self), *final(self)),
            final(self).registers.wf(),
    {
        let f = self.registers.f;
        self.registers.f = alu_scf(f);
    }

    fn op_ccf(&mut self, mmu: &mut Mmu)
        ensures
            machine(*final(self), *final(mmu)) == machine(*old(self), *old(mmu)).run_alu(
                Opcode::Ccf,
            ),
            final(self).log_kept(*old(self)),
            nibble_kept(*old(self), *final(self)),
            final(self).registers.wf(),
    {
        let f = self.registers.f;
        self.registers.f = alu_ccf(f);
    }

    /// Runs one 8-bit arithmetic or logic instruction; any other operation is left alone.
    pub(crate) fn exec_alu(&mut self, op: &Opcode, mmu: &mut Mmu)
        ensures
            machine(*final(self), *final(mmu)) == machine(*old(self), *old(mmu)).run_alu(*op),
            final(self).log_kept(*old(self)),
            nibble_kept(*old(self), *final(self)),
            group(*op) == Group::Alu && writes_flags(*op) ==> final(self).registers.wf(),
    {
        match op {
            Opcode::AdcAR8(reg) => self.op_adcar8(reg, mmu),
            Opcode::AdcAN8 => self.op_adcan8(mmu),
            Opcode::AddAR8(reg) => self.op_addar8(reg, mmu),
            Opcode::AddAN8 => self.op_addan8(mmu),
            Opcode::CpAR8(reg) => self.op_cpar8(reg, mmu),
            Opcode::CpAN8 => self.op_cpan8(mmu),
            Opcode::DecR8(reg) => self.op_decr8(reg, mmu),
            Opcode::IncR8(reg) => self.op_incr8(reg, mmu),
            Opcode::SbcAR8(reg) => self.op_sbcar8(reg, mmu),
            Opcode::SbcAN8 => self.op_sbcan8(mmu),
            Opcode::SubAR8(reg) => self.op_subar8(reg, mmu),
            Opcode::SubAN8 => self.op_suban8(mmu),
            Opcode::AndAR8(reg) => self.op_andar8(reg, mmu),
            Opcode::AndAN8 => self.op_andan8(mmu),
            Opcode::OrAR8(reg) => self.op_orar8(reg, mmu),
            Opcode::OrAN8 => self.op_oran8(mmu),
            Opcode::XorAR8(reg) => self.op_xorar8(reg, mmu),
            Opcode::XorAN8 => self.op_xoran8(mmu),
            Opcode::Cpl => self.op_cpl(mmu),
            Opcode::Daa => self.op_daa(mmu),
            Opcode::Scf => self.op_scf(mmu),
            Opcode::Ccf => self.op_ccf(mmu),
            _ => {},
        }
    }
}

} // verus!
