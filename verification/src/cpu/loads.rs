//! The loads between registers, memory and immediates.

use vstd::prelude::*;
use crate::bits::{up16, down16};
use crate::cpu::decoder::{Opcode, R8, R16};
use crate::cpu::instructions::nibble_kept;
use crate::cpu::{Cpu, machine};
use crate::mmu::Mmu;

verus! {

impl Cpu {
    fn op_ldr8r8(&mut self, reg: &R8, vreg: &R8, mmu: &mut Mmu)
        ensures
            machine(*final(self), *final(mmu)) == machine(*old(self), *old(mmu)).run_load(
                Opcode::LdR8R8(*reg, *vreg),
            ),
            final(self).log_kept(*old(self)),
            nibble_kept(*old(self), *final(self)),
    {
        let value = self.read_r8(vreg, mmu);
        self.write_r8(reg, value, mmu);
    }

    fn op_ldr8n8(&mut self, reg: &R8, mmu: &mut Mmu)
        ensures
            machine(*final(self), *final(mmu)) == machine(*old(self), *old(mmu)).run_load(
                Opcode::LdR8N8(*reg),
            ),
            final(self).log_kept(*old(self)),
            nibble_kept(*old(self), *final(self)),
    {
        let value = self.imm8(mmu);
        self.write_r8(reg, value, mmu);
    }

    fn op_ldr16n16(&mut self, reg: &R16, mmu: &mut Mmu)
        ensures
            machine(*final(self), *final(mmu)) == machine(*old(self), *old(mmu)).run_load(
                Opcode::LdR16N16(*reg),
            ),
            final(self).log_kept(*old(self)),
            nibble_kept(*old(self), *final(self)),
    {
        let value = self.imm16(mmu);
        self.write_r16(reg, value);
    }

    fn op_ldptrr16a(&mut self, reg: &R16, mmu: &mut Mmu)
        ensures
            machine(*final(self), *final(mmu)) == machine(*old(self), *old(mmu)).run_load(
                Opcode::LdPtrR16A(*reg),
            ),
            final(self).log_kept(*old(self)),
            nibble_kept(*old(self), *final(self)),
    {
        let addr = self.read_r16(reg);
        mmu.write_8(addr, self.registers.a);
    }

    fn op_ldptrn16a(&mut self, mmu: &mut Mmu)
        ensures
            machine(*final(self), *final(mmu)) == machine(*old(self), *old(mmu)).run_load(
                Opcode::LdPtrN16A,
            ),
            final(self).log_kept(*old(self)),
            nibble_kept(*old(self), *final(self)),
    {
        let addr = self.imm16(mmu);
        mmu.write_8(addr, self.registers.a);
    }

    fn op_ldhptrca(&mut self, mmu: &mut Mmu)
        ensures
            machine(*final(self), *final(mmu)) == machine(*old(self), *old(mmu)).run_load(
                Opcode::LdHPtrCA,
            ),
            final(self).log_kept(*old(self)),
            nibble_kept(*old(self), *final(self)),
    {
        let addr = 0xFF00 + self.registers.c as u16;
        mmu.write_8(addr, self.registers.a);
    }

    fn op_ldaptrr16(&mut self, reg: &R16, mmu: &mut Mmu)
        ensures
            machine(*final(self), *final(mmu)) == machine(*old(self), *old(mmu)).run_load(
                Opcode::LdAPtrR16(*reg),
            ),
            final(self).log_kept(*old(self)),
            nibble_kept(*old(self), *final(self)),
    {
        let addr = self.read_r16(reg);
        self.registers.a = mmu.read_8(addr);
    }

    fn op_ldaptrn16(&mut self, mmu: &mut Mmu)
        ensures
            machine(*final(self), *final(mmu)) == machine(*old(self), *old(mmu)).run_load(
                Opcode::LdAPtrN16,
            ),
            final(self).log_kept(*old(self)),
            nibble_kept(*old(self), *final(self)),
    {
        self.registers.a = mmu.read_8(self.imm16(mmu));
    }

    fn op_ldhaptrc(&mut self, mmu: &mut Mmu)
        ensures
            machine(*final(self), *final(mmu)) == machine(*old(self), *old(mmu)).run_load(
                Opcode::LdHAPtrC,
            ),
            final(self).log_kept(*old(self)),
            nibble_kept(*old(self), *final(self)),
    {
        let addr = 0xFF00 + self.registers.c as u16;
        self.registers.a = mmu.read_8(addr);
    }

    fn op_ldhaptrn8(&mut self, mmu: &mut Mmu)
        ensures
            machine(*final(self), *final(mmu)) == machine(*old(self), *old(mmu)).run_load(
                Opcode::LDHAPtrN8,
            ),
            final(self).log_kept(*old(self)),
            nibble_kept(*old(self), *final(self)),
    {
        let addr = 0xFF00 + self.imm8(mmu) as u16;
        self.registers.a = mmu.read_8(addr);
    }

    fn op_ldhptrn8a(&mut self, mmu: &mut Mmu)
        ensures
            machine(*final(self), *final(mmu)) == machine(*old(self), *old(mmu)).run_load(
                Opcode::LDHPtrN8A,
            ),
            final(self).log_kept(*old(self)),
            nibble_kept(*old(self), *final(self)),
    {
        let addr = 0xFF00 + self.imm8(mmu) as u16;
        mmu.write_8(addr, self.registers.a);
    }

    fn op_ldptrhlinca(&mut self, mmu: &mut Mmu)
        ensures
            machine(*final(self), *final(mmu)) == machine(*old(self), *old(mmu)).run_load(
                Opcode::LdPtrHLIncA,
            ),
            final(self).log_kept(*old(self)),
            nibble_kept(*old(self), *final(self)),
    {
        let addr = self.registers.hl();
        mmu.write_8(addr, self.registers.a);
        self.registers.set_hl(up16(addr, 1));
    }

    fn op_ldptrhldeca(&mut self, mmu: &mut Mmu)
        ensures
            machine(*final(self), *final(mmu)) == machine(*old(self), *old(mmu)).run_load(
                Opcode::LdPtrHLDecA,
            ),
            final(self).log_kept(*old(self)),
            nibble_kept(*old(self), *final(self)),
    {
        let addr = self.registers.hl();
        mmu.write_8(addr, self.registers.a);
        self.registers.set_hl(down16(addr, 1));
    }

    fn op_ldaptrhldec(&mut self, mmu: &mut Mmu)
        ensures
            machine(*final(self), *final(mmu)) == machine(*old(self), *old(mmu)).run_load(
                Opcode::LdAPtrHLDec,
            ),
            final(self).log_kept(*old(self)),
            nibble_kept(*old(self), *final(self)),
    {
        let addr = self.registers.hl();
        self.registers.a = mmu.read_8(addr);
        self.registers.set_hl(down16(addr, 1));
    }

    fn op_ldaptrhlinc(&mut self, mmu: &mut Mmu)
        ensures
            machine(*final(self), *final(mmu)) == machine(*old(self), *old(mmu)).run_load(
                Opcode::LdAPtrHLInc,
            ),
            final(self).log_kept(*old(self)),
            nibble_kept(*old(self), *final(self)),
    {
        let addr = self.registers.hl();
        self.registers.a = mmu.read_8(addr);
        self.registers.set_hl(up16(addr, 1));
    }

    /// Runs one load; any other operation is left alone.
    pub(crate) fn exec_load(&mut self, op: &Opcode, mmu: &mut Mmu)
        ensures
            machine(*final(self), *final(mmu)) == machine(*old(self), *old(mmu)).run_load(*op),
            final(self).log_kept(*old(self)),
            nibble_kept(*old(self), *final(self)),
    {
        match op {
            Opcode::LdR8R8(reg, vreg) => self.op_ldr8r8(reg, vreg, mmu),
            Opcode::LdR8N8(reg) => self.op_ldr8n8(reg, mmu),
            Opcode::LdR16N16(reg) => self.op_ldr16n16(reg, mmu),
            Opcode::LdPtrR16A(reg) => self.op_ldptrr16a(reg, mmu),
            Opcode::LdPtrN16A => self.op_ldptrn16a(mmu),
            Opcode::LdHPtrCA => self.op_ldhptrca(mmu),
            Opcode::LdAPtrR16(reg) => self.op_ldaptrr16(reg, mmu),
            Opcode::LdAPtrN16 => self.op_ldaptrn16(mmu),
            Opcode::LdHAPtrC => self.op_ldhaptrc(mmu),
            Opcode::LDHAPtrN8 => self.op_ldhaptrn8(mmu),
            Opcode::LDHPtrN8A => self.op_ldhptrn8a(mmu),
            Opcode::LdPtrHLIncA => self.op_ldptrhlinca(mmu),
            Opcode::LdPtrHLDecA => self.op_ldptrhldeca(mmu),
            Opcode::LdAPtrHLDec => self.op_ldaptrhldec(mmu),
            Opcode::LdAPtrHLInc => self.op_ldaptrhlinc(mmu),
            _ => {},
        }
    }
}

} // verus!
