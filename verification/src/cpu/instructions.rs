//! The execution engine: applies a decoded operation to the registers and
//! to memory.

use vstd::prelude::*;
use crate::bits::{high_byte, low_byte, make_word, up16, down16};
use crate::cpu::alu::Alu;
use crate::cpu::decoder::{CC, Opcode, OpcodeEntry, R8, R16, decode_cb};
use crate::cpu::machine::{reg16, with_reg16, satisfies, writes_flags};
use crate::cpu::registers::Flags;
use crate::cpu::{Cpu, machine};
use crate::mmu::Mmu;

verus! {

/// Whether a call left the flag byte's low nibble clear if it was clear.
pub open spec fn nibble_kept(before: Cpu, after: Cpu) -> bool {
    before.registers.wf() ==> after.registers.wf()
}

impl Cpu {
    /// Advances PC by `v`, wrapping at the end of the address space.
    pub fn increment_pc(&mut self, v: u16)
        ensures
            *final(self) == (Cpu {
                registers: crate::cpu::registers::Registers {
                    pc: crate::bits::wrap16(old(self).registers.pc + v),
                    ..old(self).registers
                },
                ..*old(self)
            }),
    {
        self.registers.pc = up16(self.registers.pc, v);
    }

    /// The value of an 8-bit operand.
    pub fn read_r8(&self, r: &R8, mmu: &Mmu) -> (v: u8)
        ensures
            v == machine(*self, *mmu).r8(*r),
    {
        match r {
            R8::A => self.registers.a,
            R8::B => self.registers.b,
            R8::C => self.registers.c,
            R8::D => self.registers.d,
            R8::E => self.registers.e,
            R8::H => self.registers.h,
            R8::L => self.registers.l,
            R8::HLIndirect => {
                let addr = self.registers.hl();
                mmu.read_8(addr)
            },
        }
    }

    /// Writes an 8-bit operand.
    pub fn write_r8(&mut self, r: &R8, value: u8, mmu: &mut Mmu)
        ensures
            machine(*final(self), *final(mmu)) == machine(*old(self), *old(mmu)).with_r8(*r, value),
            final(self).log_kept(*old(self)),
            final(self).registers.f == old(self).registers.f,
    {
        match r {
            R8::A => self.registers.a = value,
            R8::B => self.registers.b = value,
            R8::C => self.registers.c = value,
            R8::D => self.registers.d = value,
            R8::E => self.registers.e = value,
            R8::H => self.registers.h = value,
            R8::L => self.registers.l = value,
            R8::HLIndirect => {
                let addr = self.registers.hl();
                mmu.write_8(addr, value);
            },
        }
    }

    /// The value of a 16-bit register.
    pub fn read_r16(&self, r: &R16) -> (v: u16)
        ensures
            v == reg16(self.registers, *r),
    {
        match r {
            R16::AF => self.registers.af(),
            R16::BC => self.registers.bc(),
            R16::DE => self.registers.de(),
            R16::HL => self.registers.hl(),
            R16::SP => self.registers.sp,
            R16::PC => self.registers.pc,
        }
    }

    /// Writes a 16-bit register.
    pub fn write_r16(&mut self, r: &R16, value: u16)
        ensures
            final(self).registers == with_reg16(old(self).registers, *r, value),
            final(self).interrupts == old(self).interrupts,
            final(self).log_kept(*old(self)),
            nibble_kept(*old(self), *final(self)),
            *r != R16::AF ==> final(self).registers.f == old(self).registers.f,
            *r == R16::AF ==> final(self).registers.wf(),
    {
        match r {
            R16::AF => self.registers.set_af(value),
            R16::BC => self.registers.set_bc(value),
            R16::DE => self.registers.set_de(value),
            R16::HL => self.registers.set_hl(value),
            R16::SP => self.registers.sp = value,
            R16::PC => self.registers.pc = value,
        }
    }

    /// The byte that follows the opcode.
    pub fn imm8(&self, mmu: &Mmu) -> (v: u8)
        ensures
            v == machine(*self, *mmu).imm8(),
    {
        mmu.read_8(up16(self.registers.pc, 1))
    }

    /// The word that follows the opcode.
    pub fn imm16(&self, mmu: &Mmu) -> (v: u16)
        ensures
            v == machine(*self, *mmu).imm16(),
    {
        mmu.read_16(up16(self.registers.pc, 1))
    }

    /// Pushes a byte: SP steps down, then the byte is written there.
    pub fn push_u8(&mut self, mmu: &mut Mmu, value: u8)
        ensures
            machine(*final(self), *final(mmu)) == machine(*old(self), *old(mmu)).pushed8(value),
            final(self).log_kept(*old(self)),
            final(self).registers.f == old(self).registers.f,
    {
        self.registers.sp = down16(self.registers.sp, 1);
        mmu.write_8(self.registers.sp, value);
    }

    /// Pops a byte: the byte at SP is read, then SP steps up.
    pub fn pop_u8(&mut self, mmu: &Mmu) -> (value: u8)
        ensures
            value == machine(*old(self), *mmu).top8(),
            machine(*final(self), *mmu) == machine(*old(self), *mmu).dropped8(),
            final(self).log_kept(*old(self)),
            final(self).registers.f == old(self).registers.f,
    {
        let value = mmu.read_8(self.registers.sp);
        self.registers.sp = up16(self.registers.sp, 1);
        value
    }

    /// Pushes a word, high byte first.
    pub fn push_u16(&mut self, mmu: &mut Mmu, value: u16)
        ensures
            machine(*final(self), *final(mmu)) == machine(*old(self), *old(mmu)).pushed16(value),
            final(self).log_kept(*old(self)),
            final(self).registers.f == old(self).registers.f,
    {
        self.push_u8(mmu, high_byte(value));
        self.push_u8(mmu, low_byte(value));
    }

    /// Pops a word, low byte first.
    pub fn pop_u16(&mut self, mmu: &Mmu) -> (value: u16)
        ensures
            value == machine(*old(self), *mmu).top16(),
            machine(*final(self), *mmu) == machine(*old(self), *mmu).dropped16(),
            final(self).log_kept(*old(self)),
            final(self).registers.f == old(self).registers.f,
    {
        let low = self.pop_u8(mmu);
        let high = self.pop_u8(mmu);
        make_word(high, low)
    }

    /// Whether the flags satisfy a branch condition.
    pub fn condition_met(&self, cc: &CC) -> (r: bool)
        ensures
            r == satisfies(self.registers.f, *cc),
    {
        match cc {
            CC::NZ => !self.registers.is_set(Flags::Z),
            CC::Z => self.registers.is_set(Flags::Z),
            CC::NC => !self.registers.is_set(Flags::C),
            CC::C => self.registers.is_set(Flags::C),
        }
    }

    pub(crate) fn accumulate(&mut self, x: Alu)
        requires
            x.f & 0x0F == 0,
        ensures
            final(self).registers == (crate::cpu::registers::Registers {
                a: x.value,
                f: x.f,
                ..old(self).registers
            }),
            final(self).interrupts == old(self).interrupts,
            final(self).log_kept(*old(self)),
            final(self).registers.wf(),
    {
        self.registers.a = x.value;
        self.registers.f = x.f;
    }

    pub(crate) fn write_result(&mut self, r: &R8, x: Alu, mmu: &mut Mmu)
        requires
            x.f & 0x0F == 0,
        ensures
            machine(*final(self), *final(mmu)) == machine(*old(self), *old(mmu)).with_result(*r, x),
            final(self).log_kept(*old(self)),
            final(self).registers.wf(),
    {
        self.write_r8(r, x.value, mmu);
        self.registers.f = x.f;
    }

    /// Runs one operation; PC's advance past it is left to the caller.
    fn run(&mut self, op: &Opcode, length: u8, mmu: &mut Mmu) -> (r: (bool, u8))
        ensures
            machine(*final(self), *final(mmu)) == machine(*old(self), *old(mmu)).run(*op, length).m,
            r.0 == machine(*old(self), *old(mmu)).run(*op, length).jumped,
            r.1 == machine(*old(self), *old(mmu)).run(*op, length).extra,
            final(self).log_kept(*old(self)),
            nibble_kept(*old(self), *final(self)),
            writes_flags(*op) ==> final(self).registers.wf(),
    {
        match op {
            Opcode::LdR8R8(_, _)
            | Opcode::LdR8N8(_)
            | Opcode::LdR16N16(_)
            | Opcode::LdPtrR16A(_)
            | Opcode::LdPtrN16A
            | Opcode::LdHPtrCA
            | Opcode::LdAPtrR16(_)
            | Opcode::LdAPtrN16
            | Opcode::LdHAPtrC
            | Opcode::LDHAPtrN8
            | Opcode::LDHPtrN8A
            | Opcode::LdPtrHLIncA
            | Opcode::LdPtrHLDecA
            | Opcode::LdAPtrHLDec
            | Opcode::LdAPtrHLInc => {
                self.exec_load(op, mmu);
                (false, 0)
            },
            Opcode::AdcAR8(_)
            | Opcode::AdcAN8
            | Opcode::AddAR8(_)
            | Opcode::AddAN8
            | Opcode::CpAR8(_)
            | Opcode::CpAN8
            | Opcode::DecR8(_)
            | Opcode::IncR8(_)
            | Opcode::SbcAR8(_)
            | Opcode::SbcAN8
            | Opcode::SubAR8(_)
            | Opcode::SubAN8
            | Opcode::AndAR8(_)
            | Opcode::AndAN8
            | Opcode::OrAR8(_)
            | Opcode::OrAN8
            | Opcode::XorAR8(_)
            | Opcode::XorAN8
            | Opcode::Cpl
            | Opcode::Daa
            | Opcode::Scf
            | Opcode::Ccf => {
                self.exec_alu(op, mmu);
                (false, 0)
            },
            Opcode::AddHLR16(_)
            | Opcode::AddHLSP
            | Opcode::DecR16(_)
            | Opcode::IncR16(_)
            | Opcode::DecSP
            | Opcode::IncSP
            | Opcode::LdSPN16
            | Opcode::LdSPHL
            | Opcode::AddSPe8
            | Opcode::LdHLSPe8
            | Opcode::LdPtrN16SP => {
                self.exec_wide(op, mmu);
                (false, 0)
            },
            Opcode::Bit(_, _)
            | Opcode::SetBit(_, _)
            | Opcode::Res(_, _)
            | Opcode::RlR8(_)
            | Opcode::RlA
            | Opcode::RlcR8(_)
            | Opcode::RlcA
            | Opcode::RrR8(_)
            | Opcode::RrA
            | Opcode::RrcR8(_)
            | Opcode::RrcA
            | Opcode::SlaR8(_)
            | Opcode::SraR8(_)
            | Opcode::SrlR8(_)
            | Opcode::SwapR8(_) => {
                self.exec_bits(op, mmu);
                (false, 0)
            },
            Opcode::CallN16
            | Opcode::CallCCN16(_)
            | Opcode::JpHL
            | Opcode::JpN16
            | Opcode::JpCCN16(_)
            | Opcode::JrE8
            | Opcode::JrCCE8(_)
            | Opcode::Ret
            | Opcode::RetCC(_)
            | Opcode::RetI
            | Opcode::Rst(_) => self.exec_flow(op, length, mmu),
            Opcode::PopAF
            | Opcode::PopR16(_)
            | Opcode::PushAF
            | Opcode::PushR16(_)
            | Opcode::Di
            | Opcode::Ei
            | Opcode::Halt => {
                self.exec_misc(op, mmu);
                (false, 0)
            },
            Opcode::Nop | Opcode::Stop | Opcode::Undefined | Opcode::Prefix => (false, 0),
        }
    }

    /// Executes the instruction of `entry` at PC and returns the cycles it
    /// cost. Unless the operation set PC itself, or `increment` is off, PC
    /// advances by the entry's length. If the low nibble of F was clear, it
    /// is clear afterwards, and after an operation that writes the flags it is
    /// clear whatever it was. The instruction count goes up by one; the
    /// history is not touched.
    pub fn execute_instruction(&mut self, entry: &OpcodeEntry, mmu: &mut Mmu, increment: bool) -> (cycles:
        u32)
        ensures
            machine(*final(self), *final(mmu)) == machine(*old(self), *old(mmu)).execute(
                *entry,
                increment,
            ),
            cycles == machine(*old(self), *old(mmu)).cost(*entry),
            final(self).history == old(self).history,
            final(self).instruction_number == (if old(self).instruction_number == u128::MAX {
                0
            } else {
                (old(self).instruction_number + 1) as u128
            }),
            old(self).registers.f & 0x0F == 0 ==> final(self).registers.f & 0x0F == 0,
            writes_flags(machine(*old(self), *old(mmu)).operation(*entry))
                ==> final(self).registers.wf(),
    {
        let ghost m = machine(*self, *mmu);
        let scheduled = self.interrupts.ime_scheduled;
        self.instruction_number = self.instruction_number.wrapping_add(1);
        let jumped;
        let cycles: u32;
        match entry.opcode {
            Opcode::Prefix => {
                let cb = decode_cb(self.imm8(mmu));
                self.registers.pc = up16(self.registers.pc, 2);
                let _ = self.run(&cb.opcode, cb.length, mmu);
                jumped = true;
                cycles = cb.cycles as u32;
            },
            _ => {
                let r = self.run(&entry.opcode, entry.length, mmu);
                jumped = r.0;
                cycles = entry.cycles as u32 + r.1 as u32;
            },
        }
        assert(machine(*self, *mmu) == m.dispatch(*entry).m);
        if increment && !jumped {
            self.increment_pc(entry.length as u16);
        }
        if scheduled {
            self.interrupts.set_ime();
        }
        cycles
    }
}

} // verus!
