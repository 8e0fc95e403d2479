//! What executing an operation does, as a function on the state of the
//! whole machine: the register file, the interrupt latches, and everything
//! behind the address space.
//!
//! Cycle policy: the decoder's tables charge a conditional jump, call or
//! return as not taken; `Outcome::extra` is what a taken branch adds.

use vstd::prelude::*;
use crate::bits::{word, wrap16, signed};
use crate::cpu::alu::{
    Alu, Alu16, add8, sub8, and8, or8, xor8, inc8, dec8, rlc, rl, rrc, rr, sla, sra, srl, swap,
    bit_test, set_bit, reset_bit, cpl, scf, ccf, daa, add16, add_offset,
};
use crate::cpu::decoder::{CC, Opcode, OpcodeEntry, R8, R16, base_table, cb_table, entry};
use crate::cpu::interrupts::Interrupts;
use crate::cpu::registers::{Flags, Registers};
use crate::interrupt_controller::Interrupt;
use crate::mmu::{Bus, is_ram, lemma_ram_write_read};

verus! {

/// The state of the machine as plain values.
pub struct Machine {
    pub regs: Registers,
    pub ints: Interrupts,
    pub bus: Bus,
}

/// What an operation leaves behind: the new state, whether it set PC
/// itself, and the cycles it costs beyond its tabulated base cost.
pub struct Outcome {
    pub m: Machine,
    pub jumped: bool,
    pub extra: u8,
}

/// The families of operations.
#[derive(Clone, Copy, Debug, PartialEq, Eq, Structural)]
pub enum Group {
    /// Loads between registers, memory and immediates.
    Load,
    /// 8-bit arithmetic and logic.
    Alu,
    /// 16-bit arithmetic and loads of SP.
    Wide,
    /// Bit tests, rotates and shifts.
    Bits,
    /// Jumps, calls, returns and restarts.
    Flow,
    /// Stack moves and interrupt switches.
    Misc,
    /// Operations that change nothing but PC.
    Idle,
}

/// The family an operation belongs to.
pub open spec fn group(op: Opcode) -> Group {
    match op {
        Opcode::LdR8R8(_, _)
        | Opcode::LdR8N8(_)
        | Opcode::LdR16N16(_)
        | Opcode::LdPtrR16A(_)
        | Opcode::LdPtrN16A
        | Opcode::LdHPtrCA
        | Opcode::LdAPtrR16(_)
        | Opcode::LdAPtrN16
        | Opcode::LdHAPtrC
        | Opcode::LDHAPtrN8
        | Opcode::LDHPtrN8A
        | Opcode::LdPtrHLIncA
        | Opcode::LdPtrHLDecA
        | Opcode::LdAPtrHLDec
        | Opcode::LdAPtrHLInc => Group::Load,
        Opcode::AdcAR8(_)
        | Opcode::AdcAN8
        | Opcode::AddAR8(_)
        | Opcode::AddAN8
        | Opcode::CpAR8(_)
        | Opcode::CpAN8
        | Opcode::DecR8(_)
        | Opcode::IncR8(_)
        | Opcode::SbcAR8(_)
        | Opcode::SbcAN8
        | Opcode::SubAR8(_)
        | Opcode::SubAN8
        | Opcode::AndAR8(_)
        | Opcode::AndAN8
        | Opcode::OrAR8(_)
        | Opcode::OrAN8
        | Opcode::XorAR8(_)
        | Opcode::XorAN8
        | Opcode::Cpl
        | Opcode::Daa
        | Opcode::Scf
        | Opcode::Ccf => Group::Alu,
        Opcode::AddHLR16(_)
        | Opcode::AddHLSP
        | Opcode::DecR16(_)
        | Opcode::IncR16(_)
        | Opcode::DecSP
        | Opcode::IncSP
        | Opcode::LdSPN16
        | Opcode::LdSPHL
        | Opcode::AddSPe8
        | Opcode::LdHLSPe8
        | Opcode::LdPtrN16SP => Group::Wide,
        Opcode::Bit(_, _)
        | Opcode::SetBit(_, _)
        | Opcode::Res(_, _)
        | Opcode::RlR8(_)
        | Opcode::RlA
        | Opcode::RlcR8(_)
        | Opcode::RlcA
        | Opcode::RrR8(_)
        | Opcode::RrA
        | Opcode::RrcR8(_)
        | Opcode::RrcA
        | Opcode::SlaR8(_)
        | Opcode::SraR8(_)
        | Opcode::SrlR8(_)
        | Opcode::SwapR8(_) => Group::Bits,
        Opcode::CallN16
        | Opcode::CallCCN16(_)
        | Opcode::JpHL
        | Opcode::JpN16
        | Opcode::JpCCN16(_)
        | Opcode::JrE8
        | Opcode::JrCCE8(_)
        | Opcode::Ret
        | Opcode::RetCC(_)
        | Opcode::RetI
        | Opcode::Rst(_) => Group::Flow,
        Opcode::PopAF
        | Opcode::PopR16(_)
        | Opcode::PushAF
        | Opcode::PushR16(_)
        | Opcode::Di
        | Opcode::Ei
        | Opcode::Halt => Group::Misc,
        Opcode::Nop | Opcode::Stop | Opcode::Undefined | Opcode::Prefix => Group::Idle,
    }
}

/// Whether an operation computes the flag byte anew: the 8-bit arithmetic
/// and logic, the bit tests, rotates and shifts, the 16-bit additions, and
/// the pop into AF.
pub open spec fn writes_flags(op: Opcode) -> bool {
    match op {
        Opcode::AdcAR8(_)
        | Opcode::AdcAN8
        | Opcode::AddAR8(_)
        | Opcode::AddAN8
        | Opcode::CpAR8(_)
        | Opcode::CpAN8
        | Opcode::DecR8(_)
        | Opcode::IncR8(_)
        | Opcode::SbcAR8(_)
        | Opcode::SbcAN8
        | Opcode::SubAR8(_)
        | Opcode::SubAN8
        | Opcode::AndAR8(_)
        | Opcode::AndAN8
        | Opcode::OrAR8(_)
        | Opcode::OrAN8
        | Opcode::XorAR8(_)
        | Opcode::XorAN8
        | Opcode::Cpl
        | Opcode::Daa
        | Opcode::Scf
        | Opcode::Ccf
        | Opcode::Bit(_, _)
        | Opcode::RlR8(_)
        | Opcode::RlA
        | Opcode::RlcR8(_)
        | Opcode::RlcA
        | Opcode::RrR8(_)
        | Opcode::RrA
        | Opcode::RrcR8(_)
        | Opcode::RrcA
        | Opcode::SlaR8(_)
        | Opcode::SraR8(_)
        | Opcode::SrlR8(_)
        | Opcode::SwapR8(_)
        | Opcode::AddHLR16(_)
        | Opcode::AddHLSP
        | Opcode::AddSPe8
        | Opcode::LdHLSPe8
        | Opcode::PopAF => true,
        _ => false,
    }
}

/// The address in the high page at offset `low`.
pub open spec fn high_page(low: u8) -> u16 {
    (0xFF00 + low) as u16
}

/// The value of a 16-bit register.
pub open spec fn reg16(regs: Registers, r: R16) -> u16 {
    match r {
        R16::AF => regs.spec_af(),
        R16::BC => regs.spec_bc(),
        R16::DE => regs.spec_de(),
        R16::HL => regs.spec_hl(),
        R16::SP => regs.sp,
        R16::PC => regs.pc,
    }
}

/// The register file with a 16-bit register replaced.
pub open spec fn with_reg16(regs: Registers, r: R16, value: u16) -> Registers {
    match r {
        R16::AF => regs.with_af(value),
        R16::BC => regs.with_bc(value),
        R16::DE => regs.with_de(value),
        R16::HL => regs.with_hl(value),
        R16::SP => Registers { sp: value, ..regs },
        R16::PC => Registers { pc: value, ..regs },
    }
}

/// Whether the flag byte satisfies a branch condition.
pub open spec fn satisfies(f: u8, cc: CC) -> bool {
    match cc {
        CC::NZ => f < 0x80,
        CC::Z => f >= 0x80,
        CC::NC => f % 0x20 < 0x10,
        CC::C => f % 0x20 >= 0x10,
    }
}

impl Machine {
    pub open spec fn with_regs(self, regs: Registers) -> Machine {
        Machine { regs, ..self }
    }

    pub open spec fn with_a(self, a: u8) -> Machine {
        self.with_regs(Registers { a, ..self.regs })
    }

    pub open spec fn with_f(self, f: u8) -> Machine {
        self.with_regs(Registers { f, ..self.regs })
    }

    pub open spec fn with_pc(self, pc: u16) -> Machine {
        self.with_regs(Registers { pc, ..self.regs })
    }

    pub open spec fn with_sp(self, sp: u16) -> Machine {
        self.with_regs(Registers { sp, ..self.regs })
    }

    pub open spec fn with_ints(self, ints: Interrupts) -> Machine {
        Machine { ints, ..self }
    }

    /// The accumulator and the flags replaced by an ALU result.
    pub open spec fn accumulate(self, x: Alu) -> Machine {
        self.with_regs(Registers { a: x.value, f: x.f, ..self.regs })
    }

    /// The state after `value` is written at `addr`.
    pub open spec fn stored(self, addr: u16, value: u8) -> Machine {
        Machine { bus: self.bus.write(addr, value), ..self }
    }

    /// The value of an 8-bit operand; `(HL)` is the byte HL points at.
    pub open spec fn r8(&self, r: R8) -> u8 {
        match r {
            R8::A => self.regs.a,
            R8::B => self.regs.b,
            R8::C => self.regs.c,
            R8::D => self.regs.d,
            R8::E => self.regs.e,
            R8::H => self.regs.h,
            R8::L => self.regs.l,
            R8::HLIndirect => self.bus.read(self.regs.spec_hl()),
        }
    }

    pub open spec fn with_r8(self, r: R8, value: u8) -> Machine {
        match r {
            R8::A => self.with_regs(Registers { a: value, ..self.regs }),
            R8::B => self.with_regs(Registers { b: value, ..self.regs }),
            R8::C => self.with_regs(Registers { c: value, ..self.regs }),
            R8::D => self.with_regs(Registers { d: value, ..self.regs }),
            R8::E => self.with_regs(Registers { e: value, ..self.regs }),
            R8::H => self.with_regs(Registers { h: value, ..self.regs }),
            R8::L => self.with_regs(Registers { l: value, ..self.regs }),
            R8::HLIndirect => self.stored(self.regs.spec_hl(), value),
        }
    }

    pub open spec fn r16(&self, r: R16) -> u16 {
        reg16(self.regs, r)
    }

    pub open spec fn with_r16(self, r: R16, value: u16) -> Machine {
        self.with_regs(with_reg16(self.regs, r, value))
    }

    /// An 8-bit operand and the flags replaced by an ALU result.
    pub open spec fn with_result(self, r: R8, x: Alu) -> Machine {
        self.with_r8(r, x.value).with_f(x.f)
    }

    /// The byte that follows the opcode.
    pub open spec fn imm8(&self) -> u8 {
        self.bus.read(wrap16(self.regs.pc + 1))
    }

    /// The little-endian word that follows the opcode.
    pub open spec fn imm16(&self) -> u16 {
        self.bus.read16(wrap16(self.regs.pc + 1))
    }

    /// SP steps down by one, then the byte is written there.
    pub open spec fn pushed8(self, value: u8) -> Machine {
        let sp = wrap16(self.regs.sp - 1);
        self.with_sp(sp).stored(sp, value)
    }

    /// The high byte is pushed first, then the low byte.
    pub open spec fn pushed16(self, value: u16) -> Machine {
        self.pushed8((value / 256) as u8).pushed8((value % 256) as u8)
    }

    /// The byte on top of the stack.
    pub open spec fn top8(&self) -> u8 {
        self.bus.read(self.regs.sp)
    }

    pub open spec fn dropped8(self) -> Machine {
        self.with_sp(wrap16(self.regs.sp + 1))
    }

    /// The word on top of the stack: low byte first.
    pub open spec fn top16(&self) -> u16 {
        word(self.dropped8().top8(), self.top8())
    }

    pub open spec fn dropped16(self) -> Machine {
        self.dropped8().dropped8()
    }

    /// Whether the flags satisfy a branch condition.
    pub open spec fn holds(&self, cc: CC) -> bool {
        satisfies(self.regs.f, cc)
    }

    /// The loads between registers, memory and immediates.
    pub open spec fn run_load(self, op: Opcode) -> Machine {
        let a = self.regs.a;
        let hl = self.regs.spec_hl();
        match op {
            Opcode::LdR8R8(dst, src) => self.with_r8(dst, self.r8(src)),
            Opcode::LdR8N8(r) => self.with_r8(r, self.imm8()),
            Opcode::LdR16N16(r) => self.with_r16(r, self.imm16()),
            Opcode::LdPtrR16A(r) => self.stored(self.r16(r), a),
            Opcode::LdPtrN16A => self.stored(self.imm16(), a),
            Opcode::LdHPtrCA => self.stored(high_page(self.regs.c), a),
            Opcode::LdAPtrR16(r) => self.with_a(self.bus.read(self.r16(r))),
            Opcode::LdAPtrN16 => self.with_a(self.bus.read(self.imm16())),
            Opcode::LdHAPtrC => self.with_a(self.bus.read(high_page(self.regs.c))),
            Opcode::LDHAPtrN8 => self.with_a(self.bus.read(high_page(self.imm8()))),
            Opcode::LDHPtrN8A => self.stored(high_page(self.imm8()), a),
            Opcode::LdPtrHLIncA => self.stored(hl, a).with_r16(R16::HL, wrap16(hl + 1)),
            Opcode::LdPtrHLDecA => self.stored(hl, a).with_r16(R16::HL, wrap16(hl - 1)),
            Opcode::LdAPtrHLInc => self.with_a(self.bus.read(hl)).with_r16(R16::HL, wrap16(hl + 1)),
            Opcode::LdAPtrHLDec => self.with_a(self.bus.read(hl)).with_r16(R16::HL, wrap16(hl - 1)),
            _ => self,
        }
    }

    /// The 8-bit arithmetic and logic.
    pub open spec fn run_alu(self, op: Opcode) -> Machine {
        let a = self.regs.a;
        let f = self.regs.f;
        let c = self.regs.flag(Flags::C);
        match op {
            Opcode::AdcAR8(r) => self.accumulate(add8(a, self.r8(r), c)),
            Opcode::AdcAN8 => self.accumulate(add8(a, self.imm8(), c)),
            Opcode::AddAR8(r) => self.accumulate(add8(a, self.r8(r), false)),
            Opcode::AddAN8 => self.accumulate(add8(a, self.imm8(), false)),
            Opcode::CpAR8(r) => self.with_f(sub8(a, self.r8(r), false).f),
            Opcode::CpAN8 => self.with_f(sub8(a, self.imm8(), false).f),
            Opcode::DecR8(r) => self.with_result(r, dec8(self.r8(r), f)),
            Opcode::IncR8(r) => self.with_result(r, inc8(self.r8(r), f)),
            Opcode::SbcAR8(r) => self.accumulate(sub8(a, self.r8(r), c)),
            Opcode::SbcAN8 => self.accumulate(sub8(a, self.imm8(), c)),
            Opcode::SubAR8(r) => self.accumulate(sub8(a, self.r8(r), false)),
            Opcode::SubAN8 => self.accumulate(sub8(a, self.imm8(), false)),
            Opcode::AndAR8(r) => self.accumulate(and8(a, self.r8(r))),
            Opcode::AndAN8 => self.accumulate(and8(a, self.imm8())),
            Opcode::OrAR8(r) => self.accumulate(or8(a, self.r8(r))),
            Opcode::OrAN8 => self.accumulate(or8(a, self.imm8())),
            Opcode::XorAR8(r) => self.accumulate(xor8(a, self.r8(r))),
            Opcode::XorAN8 => self.accumulate(xor8(a, self.imm8())),
            Opcode::Cpl => self.accumulate(cpl(a, f)),
            Opcode::Daa => self.accumulate(daa(a, f)),
            Opcode::Scf => self.with_f(scf(f)),
            Opcode::Ccf => self.with_f(ccf(f)),
            _ => self,
        }
    }

    /// HL and the flags replaced by a 16-bit ALU result.
    pub open spec fn with_hl_result(self, x: Alu16) -> Machine {
        self.with_r16(R16::HL, x.value).with_f(x.f)
    }

    /// The 16-bit arithmetic and the loads of SP.
    pub open spec fn run_wide(self, op: Opcode) -> Machine {
        let hl = self.regs.spec_hl();
        let sp = self.regs.sp;
        let f = self.regs.f;
        match op {
            Opcode::AddHLR16(r) => self.with_hl_result(add16(hl, self.r16(r), f)),
            Opcode::AddHLSP => self.with_hl_result(add16(hl, sp, f)),
            Opcode::DecR16(r) => self.with_r16(r, wrap16(self.r16(r) - 1)),
            Opcode::IncR16(r) => self.with_r16(r, wrap16(self.r16(r) + 1)),
            Opcode::DecSP => self.with_sp(wrap16(sp - 1)),
            Opcode::IncSP => self.with_sp(wrap16(sp + 1)),
            Opcode::LdSPN16 => self.with_sp(self.imm16()),
            Opcode::LdSPHL => self.with_sp(hl),
            Opcode::AddSPe8 => self.with_sp(add_offset(sp, self.imm8()).value).with_f(
                add_offset(sp, self.imm8()).f,
            ),
            Opcode::LdHLSPe8 => self.with_hl_result(add_offset(sp, self.imm8())),
            Opcode::LdPtrN16SP => self.stored(self.imm16(), (sp % 256) as u8).stored(
                wrap16(self.imm16() + 1),
                (sp / 256) as u8,
            ),
            _ => self,
        }
    }

    /// The bit tests, the rotates and the shifts.
    pub open spec fn run_bits(self, op: Opcode) -> Machine {
        let a = self.regs.a;
        let f = self.regs.f;
        let c = self.regs.flag(Flags::C);
        match op {
            Opcode::Bit(n, r) => self.with_f(bit_test(n, self.r8(r), f)),
            Opcode::SetBit(n, r) => self.with_r8(r, set_bit(n, self.r8(r))),
            Opcode::Res(n, r) => self.with_r8(r, reset_bit(n, self.r8(r))),
            Opcode::RlR8(r) => self.with_result(r, rl(self.r8(r), c, true)),
            Opcode::RlA => self.accumulate(rl(a, c, false)),
            Opcode::RlcR8(r) => self.with_result(r, rlc(self.r8(r), true)),
            Opcode::RlcA => self.accumulate(rlc(a, false)),
            Opcode::RrR8(r) => self.with_result(r, rr(self.r8(r), c, true)),
            Opcode::RrA => self.accumulate(rr(a, c, false)),
            Opcode::RrcR8(r) => self.with_result(r, rrc(self.r8(r), true)),
            Opcode::RrcA => self.accumulate(rrc(a, false)),
            Opcode::SlaR8(r) => self.with_result(r, sla(self.r8(r))),
            Opcode::SraR8(r) => self.with_result(r, sra(self.r8(r))),
            Opcode::SrlR8(r) => self.with_result(r, srl(self.r8(r))),
            Opcode::SwapR8(r) => self.with_result(r, swap(self.r8(r))),
            _ => self,
        }
    }

    /// The stack moves and the interrupt switches.
    pub open spec fn run_misc(self, op: Opcode) -> Machine {
        match op {
            Opcode::PopAF => self.dropped16().with_r16(R16::AF, self.top16()),
            Opcode::PopR16(r) => self.dropped16().with_r16(r, self.top16()),
            Opcode::PushAF => self.pushed16(self.regs.spec_af()),
            Opcode::PushR16(r) => self.pushed16(self.r16(r)),
            Opcode::Di => self.with_ints(Interrupts { ime: false, ..self.ints }),
            Opcode::Ei => self.with_ints(Interrupts { ime_scheduled: true, ..self.ints }),
            Opcode::Halt => self.with_ints(Interrupts { halted: true, ..self.ints }),
            _ => self,
        }
    }

    pub open spec fn stay(self) -> Outcome {
        Outcome { m: self, jumped: false, extra: 0 }
    }

    pub open spec fn jump(self, target: u16, extra: u8) -> Outcome {
        Outcome { m: self.with_pc(target), jumped: true, extra }
    }

    /// The target of a relative jump: the signed offset counts from the
    /// instruction after the jump.
    pub open spec fn relative(&self) -> u16 {
        wrap16(wrap16(self.regs.pc + 2) + signed(self.imm8()))
    }

    /// A call: the address of the next instruction is pushed, then PC
    /// takes the target.
    pub open spec fn call(self, extra: u8) -> Outcome {
        self.pushed16(wrap16(self.regs.pc + 3)).jump(self.imm16(), extra)
    }

    /// A return: PC takes the word on top of the stack.
    pub open spec fn ret(self, extra: u8) -> Outcome {
        self.dropped16().jump(self.top16(), extra)
    }

    /// The jumps, calls, returns and restarts. A conditional one whose
    /// condition fails does nothing.
    pub open spec fn run_flow(self, op: Opcode, length: u8) -> Outcome {
        match op {
            Opcode::CallN16 => self.call(0),
            Opcode::CallCCN16(cc) => if self.holds(cc) {
                self.call(12)
            } else {
                self.stay()
            },
            Opcode::JpHL => self.jump(self.regs.spec_hl(), 0),
            Opcode::JpN16 => self.jump(self.imm16(), 0),
            Opcode::JpCCN16(cc) => if self.holds(cc) {
                self.jump(self.imm16(), 4)
            } else {
                self.stay()
            },
            Opcode::JrE8 => self.jump(self.relative(), 0),
            Opcode::JrCCE8(cc) => if self.holds(cc) {
                self.jump(self.relative(), 4)
            } else {
                self.stay()
            },
            Opcode::Ret => self.ret(0),
            Opcode::RetCC(cc) => if self.holds(cc) {
                self.ret(12)
            } else {
                self.stay()
            },
            Opcode::RetI => self.with_ints(self.ints.with_ime()).ret(0),
            Opcode::Rst(v) => self.pushed16(wrap16(self.regs.pc + length)).jump(v as u16, 0),
            _ => self.stay(),
        }
    }

    /// What one operation does, PC's advance past it left aside.
    pub open spec fn run(self, op: Opcode, length: u8) -> Outcome {
        match group(op) {
            Group::Load => self.run_load(op).stay(),
            Group::Alu => self.run_alu(op).stay(),
            Group::Wide => self.run_wide(op).stay(),
            Group::Bits => self.run_bits(op).stay(),
            Group::Flow => self.run_flow(op, length),
            Group::Misc => self.run_misc(op).stay(),
            Group::Idle => self.stay(),
        }
    }

    /// The operation that executing `entry` runs: the entry's own, or for
    /// the prefix marker the one that the byte after it names.
    pub open spec fn operation(self, entry: OpcodeEntry) -> Opcode {
        if entry.opcode == Opcode::Prefix {
            cb_table(self.imm8()).opcode
        } else {
            entry.opcode
        }
    }

    /// What the operation of `entry` does, PC's advance left aside. The
    /// prefix marker takes the byte after it, steps PC over both, and does
    /// what the CB-prefixed table names for that byte.
    pub open spec fn dispatch(self, entry: OpcodeEntry) -> Outcome {
        if entry.opcode == Opcode::Prefix {
            let cb = cb_table(self.imm8());
            let out = self.with_pc(wrap16(self.regs.pc + 2)).run(cb.opcode, cb.length);
            Outcome { jumped: true, ..out }
        } else {
            self.run(entry.opcode, entry.length)
        }
    }

    /// The state after the instruction of `entry` is executed. Unless the
    /// operation set PC itself, or `increment` is off, PC advances by the
    /// entry's length. An enable that `EI` scheduled before this instruction
    /// takes effect at its end.
    pub open spec fn execute(self, entry: OpcodeEntry, increment: bool) -> Machine {
        let out = self.dispatch(entry);
        let moved = if increment && !out.jumped {
            out.m.with_pc(wrap16(out.m.regs.pc + entry.length))
        } else {
            out.m
        };
        if self.ints.ime_scheduled {
            moved.with_ints(moved.ints.with_ime())
        } else {
            moved
        }
    }

    /// The cycles the instruction of `entry` costs: the tabulated base cost
    /// and what a taken branch adds; for the prefix marker, the cost that
    /// the CB-prefixed table gives.
    pub open spec fn cost(self, entry: OpcodeEntry) -> u32 {
        if entry.opcode == Opcode::Prefix {
            cb_table(self.imm8()).cycles as u32
        } else {
            (entry.cycles + self.run(entry.opcode, entry.length).extra) as u32
        }
    }

    /// The state after the CPU turns to an interrupt: the master enable and
    /// the halt are dropped, the request is acknowledged, PC is pushed and
    /// takes the source's vector.
    pub open spec fn serviced(self, irq: Interrupt) -> Machine {
        Machine {
            ints: Interrupts { ime: false, ime_scheduled: false, halted: false },
            bus: Bus { interrupts: self.bus.interrupts.after_ack(irq), ..self.bus },
            ..self
        }.pushed16(self.regs.pc).with_pc(irq.spec_vector())
    }

    /// Whether the next step executes an instruction, rather than idling in
    /// a halt or turning to an interrupt.
    pub open spec fn fetches(&self) -> bool {
        !self.ints.halted && !(self.ints.ime && self.bus.interrupts.spec_highest() is Some)
    }

    /// The instruction at PC.
    pub open spec fn current(&self) -> OpcodeEntry {
        base_table(self.bus.read(self.regs.pc))
    }

    /// The state one step later. A halted CPU idles, and wakes once an
    /// enabled interrupt is pending; with the master enable set, a pending
    /// interrupt is serviced in place of a fetch; else the instruction at PC
    /// is executed.
    pub open spec fn step(self) -> Machine {
        if self.ints.halted {
            if self.bus.interrupts.pending() != 0 {
                self.with_ints(Interrupts { halted: false, ..self.ints })
            } else {
                self
            }
        } else if self.ints.ime && self.bus.interrupts.spec_highest() is Some {
            self.serviced(self.bus.interrupts.spec_highest().unwrap())
        } else {
            self.execute(self.current(), true)
        }
    }

    /// The cycles of the next step: 4 while halted, 20 for an interrupt,
    /// else the cost of the instruction at PC.
    pub open spec fn step_cycles(self) -> u32 {
        if self.ints.halted {
            4
        } else if self.ints.ime && self.bus.interrupts.spec_highest() is Some {
            20
        } else {
            self.cost(self.current())
        }
    }
}

/// The stack's next two bytes lie in the console's own RAM.
pub open spec fn stack_in_ram(m: Machine) -> bool {
    &&& m.bus.wf()
    &&& m.regs.sp >= 2
    &&& is_ram((m.regs.sp - 1) as u16)
    &&& is_ram((m.regs.sp - 2) as u16)
}

/// A word pushed onto a stack in RAM is the word on top of it, two bytes
/// below where SP stood, and popping it puts SP back.
pub proof fn lemma_push_then_top(m: Machine, value: u16)
    requires
        stack_in_ram(m),
    ensures
        m.pushed16(value).top16() == value,
        m.pushed16(value).regs.sp == m.regs.sp - 2,
        m.pushed16(value).dropped16().regs.sp == m.regs.sp,
        m.pushed16(value).regs == (Registers { sp: (m.regs.sp - 2) as u16, ..m.regs }),
        m.pushed16(value).ints == m.ints,
{
    let hi = (value / 256) as u8;
    let lo = (value % 256) as u8;
    let sp1 = (m.regs.sp - 1) as u16;
    let sp2 = (m.regs.sp - 2) as u16;
    let first = m.pushed8(hi);
    assert(first.regs.sp == sp1);
    lemma_ram_write_read(m.bus, sp1, hi, sp1);
    let second = first.pushed8(lo);
    assert(second.regs.sp == sp2);
    lemma_ram_write_read(first.bus, sp2, lo, sp1);
    assert(second.top8() == lo);
    assert(second.dropped8().regs.sp == sp1);
    assert(second.dropped8().top8() == hi);
}

/// `CALL` followed at once by `RET`, with the stack in RAM, comes back to
/// the instruction after the call with SP where it was; in between, PC is
/// at the call's target and SP two bytes lower.
pub proof fn lemma_call_ret_round_trip(m: Machine)
    requires
        stack_in_ram(m),
    ensures
        m.run_flow(Opcode::CallN16, 3).m.regs.pc == m.imm16(),
        m.run_flow(Opcode::CallN16, 3).m.regs.sp == m.regs.sp - 2,
        m.run_flow(Opcode::CallN16, 3).m.run_flow(Opcode::Ret, 1).m.regs.pc == wrap16(
            m.regs.pc + 3,
        ),
        m.run_flow(Opcode::CallN16, 3).m.run_flow(Opcode::Ret, 1).m.regs.sp == m.regs.sp,
{
    lemma_push_then_top(m, wrap16(m.regs.pc + 3));
}

/// Pushing a register pair and popping it again, with the stack in RAM and
/// the low nibble of F clear, leaves every register as it was.
pub proof fn lemma_push_pop_round_trip(m: Machine, r: R16)
    requires
        stack_in_ram(m),
        m.regs.wf(),
    ensures
        m.run_misc(Opcode::PushR16(r)).run_misc(Opcode::PopR16(r)).regs == m.regs,
{
    lemma_push_then_top(m, m.r16(r));
    crate::cpu::registers::lemma_flag_bits(m.regs.f);
    let v = m.r16(r);
    let p = m.pushed16(v);
    assert(p.dropped16().regs == m.regs);
}

/// `EI` takes effect one instruction late: executing it leaves the master
/// enable as it was and schedules the enable, and whatever instruction is
/// executed next ends with the master enable set and nothing scheduled.
pub proof fn lemma_ei_delay(m: Machine, next: OpcodeEntry, increment: bool)
    requires
        !m.ints.ime_scheduled,
    ensures
        m.execute(entry(Opcode::Ei, 1, 4), true).ints == (Interrupts {
            ime_scheduled: true,
            ..m.ints
        }),
        m.execute(entry(Opcode::Ei, 1, 4), true).execute(next, increment).ints.ime,
        !m.execute(entry(Opcode::Ei, 1, 4), true).execute(next, increment).ints.ime_scheduled,
{
}

} // verus!
