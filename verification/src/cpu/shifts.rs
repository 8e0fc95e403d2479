//! The bit tests, the rotates and the shifts.

use vstd::prelude::*;
use crate::cpu::alu::{
    alu_rlc,
    alu_rl,
    alu_rrc,
    alu_rr,
    alu_sla,
    alu_sra,
    alu_srl,
    alu_swap,
    alu_bit,
    alu_set,
    alu_res,
};
use crate::cpu::decoder::{Opcode, R8};
use crate::cpu::instructions::nibble_kept;
use crate::cpu::machine::{Group, group, writes_flags};
use crate::cpu::registers::Flags;
use crate::cpu::{Cpu, machine};
use crate::mmu::Mmu;

verus! {

impl Cpu {
    fn op_bit(&mut self, n: &u8, reg: &R8, mmu: &mut Mmu)
        ensures
            machine(*final(self), *final(mmu)) == machine(*old(self), *old(mmu)).run_bits(
                Opcode::Bit(*n, *reg),
            ),
            final(self).log_kept(*old(self)),
            nibble_kept(*old(self), *final(self)),
            final(self).registers.wf(),
    {
        let f = self.registers.f;
        self.registers.f = alu_bit(*n, self.read_r8(reg, mmu), f);
    }

    fn op_setbit(&mut self, n: &u8, reg: &R8, mmu: &mut Mmu)
        ensures
            machine(*final(self), *final(mmu)) == machine(*old(self), *old(mmu)).run_bits(
                Opcode::SetBit(*n, *reg),
            ),
            final(self).log_kept(*old(self)),
            nibble_kept(*old(self), *final(self)),
    {
        let value = alu_set(*n, self.read_r8(reg, mmu));
        self.write_r8(reg, value, mmu);
    }

    fn op_res(&mut self, n: &u8, reg: &R8, mmu: &mut Mmu)
        ensures
            machine(*final(self), *final(mmu)) == machine(*old(self), *old(mmu)).run_bits(
                Opcode::Res(*n, *reg),
            ),
            final(self).log_kept(*old(self)),
            nibble_kept(*old(self), *final(self)),
    {
        let value = alu_res(*n, self.read_r8(reg, mmu));
        self.write_r8(reg, value, mmu);
    }

    fn op_rlr8(&mut self, reg: &R8, mmu: &mut Mmu)
        ensures
            machine(*final(self), *final(mmu)) == machine(*old(self), *old(mmu)).run_bits(
                Opcode::RlR8(*reg),
            ),
            final(self).log_kept(*old(self)),
            nibble_kept(*old(self), *final(self)),
            final(self).registers.wf(),
    {
        let c = self.registers.is_set(Flags::C);
        let x = alu_rl(self.read_r8(reg, mmu), c, true);
        self.write_result(reg, x, mmu);
    }

    fn op_rla(&mut self, mmu: &mut Mmu)
        ensures
            machine(*final(self), *final(mmu)) == machine(*old(self), *old(mmu)).run_bits(
                Opcode::RlA,
            ),
            final(self).log_kept(*old(self)),
            nibble_kept(*old(self), *final(self)),
            final(self).registers.wf(),
    {
        let a = self.registers.a;
        let c = self.registers.is_set(Flags::C);
        let x = alu_rl(a, c, false);
        self.accumulate(x);
    }

    fn op_rlcr8(&mut self, reg: &R8, mmu: &mut Mmu)
        ensures
            machine(*final(self), *final(mmu)) == machine(*old(self), *old(mmu)).run_bits(
                Opcode::RlcR8(*reg),
            ),
            final(self).log_kept(*old(self)),
            nibble_kept(*old(self), *final(self)),
            final(self).registers.wf(),
    {
        let x = alu_rlc(self.read_r8(reg, mmu), true);
        self.write_result(reg, x, mmu);
    }

    fn op_rlca(&mut self, mmu: &mut Mmu)
        ensures
            machine(*final(self), *final(mmu)) == machine(*old(self), *old(mmu)).run_bits(
                Opcode::RlcA,
            ),
            final(self).log_kept(*old(self)),
            nibble_kept(*old(self), *final(self)),
            final(self).registers.wf(),
    {
        let a = self.registers.a;
        let x = alu_rlc(a, false);
        self.accumulate(x);
    }

    fn op_rrr8(&mut self, reg: &R8, mmu: &mut Mmu)
        ensures
            machine(*final(self), *final(mmu)) == machine(*old(self), *old(mmu)).run_bits(
                Opcode::RrR8(*reg),
            ),
            final(self).log_kept(*old(self)),
            nibble_kept(*old(self), *final(self)),
            final(self).registers.wf(),
    {
        let c = self.registers.is_set(Flags::C);
        let x = alu_rr(self.read_r8(reg, mmu), c, true);
        self.write_result(reg, x, mmu);
    }

    fn op_rra(&mut self, mmu: &mut Mmu)
        ensures
            machine(*final(self), *final(mmu)) == machine(*old(self), *old(mmu)).run_bits(
                Opcode::RrA,
            ),
            final(self).log_kept(*old(self)),
            nibble_kept(*old(self), *final(self)),
            final(self).registers.wf(),
    {
        let a = self.registers.a;
        let c = self.registers.is_set(Flags::C);
        let x = alu_rr(a, c, false);
        self.accumulate(x);
    }

    fn op_rrcr8(&mut self, reg: &R8, mmu: &mut Mmu)
        ensures
            machine(*final(self), *final(mmu)) == machine(*old(self), *old(mmu)).run_bits(
                Opcode::RrcR8(*reg),
            ),
            final(self).log_kept(*old(self)),
            nibble_kept(*old(self), *final(self)),
            final(self).registers.wf(),
    {
        let x = alu_rrc(self.read_r8(reg, mmu), true);
        self.write_result(reg, x, mmu);
    }

    fn op_rrca(&mut self, mmu: &mut Mmu)
        ensures
            machine(*final(self), *final(mmu)) == machine(*old(self), *old(mmu)).run_bits(
                Opcode::RrcA,
            ),
            final(self).log_kept(*old(self)),
            nibble_kept(*old(self), *final(self)),
            final(self).registers.wf(),
    {
        let a = self.registers.a;
        let x = alu_rrc(a, false);
        self.accumulate(x);
    }

    fn op_slar8(&mut self, reg: &R8, mmu: &mut Mmu)
        ensures
            machine(*final(self), *final(mmu)) == machine(*old(self), *old(mmu)).run_bits(
                Opcode::SlaR8(*reg),
            ),
            final(self).log_kept(*old(self)),
            nibble_kept(*old(self), *final(self)),
            final(self).registers.wf(),
    {
        let x = alu_sla(self.read_r8(reg, mmu));
        self.write_result(reg, x, mmu);
    }

    fn op_srar8(&mut self, reg: &R8, mmu: &mut Mmu)
        ensures
            machine(*final(self), *final(mmu)) == machine(*old(self), *old(mmu)).run_bits(
                Opcode::SraR8(*reg),
            ),
            final(self).log_kept(*old(self)),
            nibble_kept(*old(self), *final(self)),
            final(self).registers.wf(),
    {
        let x = alu_sra(self.read_r8(reg, mmu));
        self.write_result(reg, x, mmu);
    }

    fn op_srlr8(&mut self, reg: &R8, mmu: &mut Mmu)
        ensures
            machine(*final(self), *final(mmu)) == machine(*old(self), *old(mmu)).run_bits(
                Opcode::SrlR8(*reg),
            ),
            final(self).log_kept(*old(self)),
            nibble_kept(*old(self), *final(self)),
            final(self).registers.wf(),
    {
        let x = alu_srl(self.read_r8(reg, mmu));
        self.write_result(reg, x, mmu);
    }

    fn op_swapr8(&mut self, reg: &R8, mmu: &mut Mmu)
        ensures
            machine(*final(self), *final(mmu)) == machine(*old(self), *old(mmu)).run_bits(
                Opcode::SwapR8(*reg),
            ),
            final(self).log_kept(*old(self)),
            nibble_kept(*old(self), *final(self)),
            final(self).registers.wf(),
    {
        let x = alu_swap(self.read_r8(reg, mmu));
        self.write_result(reg, x, mmu);
    }

    /// Runs one bit test, rotate or shift; any other operation is left alone.
    pub(crate) fn exec_bits(&mut self, op: &Opcode, mmu: &mut Mmu)
        ensures
            machine(*final(self), *final(mmu)) == machine(*old(self), *old(mmu)).run_bits(*op),
            final(self).log_kept(*old(self)),
            nibble_kept(*old(self), *final(self)),
            group(*op) == Group::Bits && writes_flags(*op) ==> final(self).registers.wf(),
    {
        match op {
            Opcode::Bit(n, reg) => self.op_bit(n, reg, mmu),
            Opcode::SetBit(n, reg) => self.op_setbit(n, reg, mmu),
            Opcode::Res(n, reg) => self.op_res(n, reg, mmu),
            Opcode::RlR8(reg) => self.op_rlr8(reg, mmu),
            Opcode::RlA => self.op_rla(mmu),
            Opcode::RlcR8(reg) => self.op_rlcr8(reg, mmu),
            Opcode::RlcA => self.op_rlca(mmu),
            Opcode::RrR8(reg) => self.op_rrr8(reg, mmu),
            Opcode::RrA => self.op_rra(mmu),
            Opcode::RrcR8(reg) => self.op_rrcr8(reg, mmu),
            Opcode::RrcA => self.op_rrca(mmu),
            Opcode::SlaR8(reg) => self.op_slar8(reg, mmu),
            Opcode::SraR8(reg) => self.op_srar8(reg, mmu),
            Opcode::SrlR8(reg) => self.op_srlr8(reg, mmu),
            Opcode::SwapR8(reg) => self.op_swapr8(reg, mmu),
            _ => {},
        }
    }
}

} // verus!
