//! The disassembler: the canonical mnemonic of every operation.

use vstd::prelude::*;
use vstd::string::StringExecFns;
use crate::cpu::decoder::{CC, Opcode, R8, R16};

verus! {

impl R8 {
    pub open spec fn spec_name(&self) -> Seq<char> {
        match self {
            R8::A => "A"@,
            R8::B => "B"@,
            R8::C => "C"@,
            R8::D => "D"@,
            R8::E => "E"@,
            R8::H => "H"@,
            R8::L => "L"@,
            R8::HLIndirect => "(HL)"@,
        }
    }

    pub fn name(&self) -> (r: &'static str)
        ensures
            r@ == self.spec_name(),
    {
        match self {
            R8::A => "A",
            R8::B => "B",
            R8::C => "C",
            R8::D => "D",
            R8::E => "E",
            R8::H => "H",
            R8::L => "L",
            R8::HLIndirect => "(HL)",
        }
    }
}

impl R16 {
    pub open spec fn spec_name(&self) -> Seq<char> {
        match self {
            R16::AF => "AF"@,
            R16::BC => "BC"@,
            R16::DE => "DE"@,
            R16::HL => "HL"@,
            R16::SP => "SP"@,
            R16::PC => "PC"@,
        }
    }

    pub fn name(&self) -> (r: &'static str)
        ensures
            r@ == self.spec_name(),
    {
        match self {
            R16::AF => "AF",
            R16::BC => "BC",
            R16::DE => "DE",
            R16::HL => "HL",
            R16::SP => "SP",
            R16::PC => "PC",
        }
    }
}

impl CC {
    pub open spec fn spec_name(&self) -> Seq<char> {
        match self {
            CC::NZ => "NZ"@,
            CC::Z => "Z"@,
            CC::NC => "NC"@,
            CC::C => "C"@,
        }
    }

    pub fn name(&self) -> (r: &'static str)
        ensures
            r@ == self.spec_name(),
    {
        match self {
            CC::NZ => "NZ",
            CC::Z => "Z",
            CC::NC => "NC",
            CC::C => "C",
        }
    }
}

/// The text of one hexadecimal digit, in upper case.
pub open spec fn hex_digit(d: u8) -> Seq<char> {
    match d {
        0 => "0"@,
        1 => "1"@,
        2 => "2"@,
        3 => "3"@,
        4 => "4"@,
        5 => "5"@,
        6 => "6"@,
        7 => "7"@,
        8 => "8"@,
        9 => "9"@,
        10 => "A"@,
        11 => "B"@,
        12 => "C"@,
        13 => "D"@,
        14 => "E"@,
        _ => "F"@,
    }
}

pub fn hex_text(d: u8) -> (r: &'static str)
    ensures
        r@ == hex_digit(d),
{
    match d {
        0 => "0",
        1 => "1",
        2 => "2",
        3 => "3",
        4 => "4",
        5 => "5",
        6 => "6",
        7 => "7",
        8 => "8",
        9 => "9",
        10 => "A",
        11 => "B",
        12 => "C",
        13 => "D",
        14 => "E",
        _ => "F",
    }
}

/// The decimal text of a byte, without leading zeros.
pub open spec fn decimal(n: u8) -> Seq<char> {
    if n < 10 {
        hex_digit(n)
    } else if n < 100 {
        hex_digit(n / 10) + hex_digit(n % 10)
    } else {
        hex_digit(n / 100) + hex_digit(n / 10 % 10) + hex_digit(n % 10)
    }
}

/// The two-digit hexadecimal text of a byte.
pub open spec fn hex_byte(n: u8) -> Seq<char> {
    hex_digit(n / 16) + hex_digit(n % 16)
}

/// `head`, then `operand`, then `tail`.
pub open spec fn around(head: Seq<char>, operand: Seq<char>, tail: Seq<char>) -> Seq<char> {
    head + operand + tail
}

fn compose(head: &str, operand: &str, tail: &str) -> (r: String)
    ensures
        r@ == around(head@, operand@, tail@),
{
    let mut s = String::from_str(head);
    s.append(operand);
    s.append(tail);
    s
}

fn decimal_text(n: u8) -> (r: String)
    ensures
        r@ == decimal(n),
{
    if n < 10 {
        String::from_str(hex_text(n))
    } else if n < 100 {
        let mut s = String::from_str(hex_text(n / 10));
        s.append(hex_text(n % 10));
        s
    } else {
        let mut s = String::from_str(hex_text(n / 100));
        s.append(hex_text(n / 10 % 10));
        s.append(hex_text(n % 10));
        s
    }
}

/// The mnemonic of an operation. Immediate operands are shown as `n`, `nn`
/// and `e`; a restart shows its vector as two hexadecimal digits.
pub open spec fn mnemonic(opcode: Opcode) -> Seq<char> {
    match opcode {
        Opcode::Nop => "NOP"@,
        Opcode::Stop => "STOP"@,
        Opcode::Halt => "HALT"@,
        Opcode::Prefix => "PREFIX CB"@,
        Opcode::LdPtrN16A => "LD (nn),A"@,
        Opcode::LdAPtrN16 => "LD A,(nn)"@,
        Opcode::LdHAPtrC => "LD A,(0xFF00+C)"@,
        Opcode::LDHAPtrN8 => "LD A,(0xFF00+n)"@,
        Opcode::LDHPtrN8A => "LD (0xFF00+n),A"@,
        Opcode::LdPtrHLIncA => "LD (HL+),A"@,
        Opcode::LdPtrHLDecA => "LD (HL-),A"@,
        Opcode::LdAPtrHLInc => "LD A,(HL+)"@,
        Opcode::LdAPtrHLDec => "LD A,(HL-)"@,
        Opcode::AddAN8 => "ADD A,n"@,
        Opcode::AdcAN8 => "ADC A,n"@,
        Opcode::SubAN8 => "SUB n"@,
        Opcode::SbcAN8 => "SBC A,n"@,
        Opcode::CpAN8 => "CP n"@,
        Opcode::AddHLSP => "ADD HL,SP"@,
        Opcode::AddSPe8 => "ADD SP,e"@,
        Opcode::AndAN8 => "AND n"@,
        Opcode::OrAN8 => "OR n"@,
        Opcode::XorAN8 => "XOR n"@,
        Opcode::Cpl => "CPL"@,
        Opcode::Daa => "DAA"@,
        Opcode::RlA => "RL A"@,
        Opcode::RlcA => "RLC A"@,
        Opcode::RrA => "RR A"@,
        Opcode::RrcA => "RRC A"@,
        Opcode::JpN16 => "JP nn"@,
        Opcode::JpHL => "JP (HL)"@,
        Opcode::JrE8 => "JR e"@,
        Opcode::CallN16 => "CALL nn"@,
        Opcode::Ret => "RET"@,
        Opcode::RetI => "RETI"@,
        Opcode::PopAF => "POP AF"@,
        Opcode::PushAF => "PUSH AF"@,
        Opcode::LdSPHL => "LD SP,HL"@,
        Opcode::LdSPN16 => "LD SP,nn"@,
        Opcode::LdHLSPe8 => "LD HL,SP+e"@,
        Opcode::LdPtrN16SP => "LD (nn),SP"@,
        Opcode::Scf => "SCF"@,
        Opcode::Ccf => "CCF"@,
        Opcode::Di => "DI"@,
        Opcode::Ei => "EI"@,
        Opcode::Undefined => "DB ??"@,
        Opcode::LdHPtrCA => "LD (0xFF00+C),A"@,
        Opcode::DecSP => "DEC SP"@,
        Opcode::IncSP => "INC SP"@,
        Opcode::LdR8R8(dst, src) => around("LD "@, dst.spec_name(), ","@) + src.spec_name(),
        Opcode::LdR8N8(x) => around("LD "@, x.spec_name(), ",n"@),
        Opcode::LdR16N16(x) => around("LD "@, x.spec_name(), ",nn"@),
        Opcode::LdPtrR16A(x) => around("LD ("@, x.spec_name(), "),A"@),
        Opcode::LdAPtrR16(x) => around("LD A,("@, x.spec_name(), ")"@),
        Opcode::AddAR8(x) => around("ADD A,"@, x.spec_name(), ""@),
        Opcode::AdcAR8(x) => around("ADC A,"@, x.spec_name(), ""@),
        Opcode::SubAR8(x) => around("SUB "@, x.spec_name(), ""@),
        Opcode::SbcAR8(x) => around("SBC A,"@, x.spec_name(), ""@),
        Opcode::CpAR8(x) => around("CP "@, x.spec_name(), ""@),
        Opcode::IncR8(x) => around("INC "@, x.spec_name(), ""@),
        Opcode::DecR8(x) => around("DEC "@, x.spec_name(), ""@),
        Opcode::AddHLR16(x) => around("ADD HL,"@, x.spec_name(), ""@),
        Opcode::IncR16(x) => around("INC "@, x.spec_name(), ""@),
        Opcode::DecR16(x) => around("DEC "@, x.spec_name(), ""@),
        Opcode::AndAR8(x) => around("AND "@, x.spec_name(), ""@),
        Opcode::OrAR8(x) => around("OR "@, x.spec_name(), ""@),
        Opcode::XorAR8(x) => around("XOR "@, x.spec_name(), ""@),
        Opcode::RlR8(x) => around("RL "@, x.spec_name(), ""@),
        Opcode::RlcR8(x) => around("RLC "@, x.spec_name(), ""@),
        Opcode::RrR8(x) => around("RR "@, x.spec_name(), ""@),
        Opcode::RrcR8(x) => around("RRC "@, x.spec_name(), ""@),
        Opcode::SlaR8(x) => around("SLA "@, x.spec_name(), ""@),
        Opcode::SraR8(x) => around("SRA "@, x.spec_name(), ""@),
        Opcode::SrlR8(x) => around("SRL "@, x.spec_name(), ""@),
        Opcode::SwapR8(x) => around("SWAP "@, x.spec_name(), ""@),
        Opcode::JpCCN16(x) => around("JP "@, x.spec_name(), ",nn"@),
        Opcode::JrCCE8(x) => around("JR "@, x.spec_name(), ",e"@),
        Opcode::CallCCN16(x) => around("CALL "@, x.spec_name(), ",nn"@),
        Opcode::RetCC(x) => around("RET "@, x.spec_name(), ""@),
        Opcode::PopR16(x) => around("POP "@, x.spec_name(), ""@),
        Opcode::PushR16(x) => around("PUSH "@, x.spec_name(), ""@),
        Opcode::Bit(b, r) => around("BIT "@, decimal(b), ","@) + r.spec_name(),
        Opcode::SetBit(b, r) => around("SET "@, decimal(b), ","@) + r.spec_name(),
        Opcode::Res(b, r) => around("RES "@, decimal(b), ","@) + r.spec_name(),
        Opcode::Rst(v) => around("RST $"@, hex_digit(v / 16), hex_digit(v % 16)),
    }
}

/// The mnemonic of `opcode` as a string.
pub fn disassemble(opcode: &Opcode) -> (r: String)
    ensures
        r@ == mnemonic(*opcode),
{
    match opcode {
        Opcode::Nop => String::from_str("NOP"),
        Opcode::Stop => String::from_str("STOP"),
        Opcode::Halt => String::from_str("HALT"),
        Opcode::Prefix => String::from_str("PREFIX CB"),
        Opcode::LdPtrN16A => String::from_str("LD (nn),A"),
        Opcode::LdAPtrN16 => String::from_str("LD A,(nn)"),
        Opcode::LdHAPtrC => String::from_str("LD A,(0xFF00+C)"),
        Opcode::LDHAPtrN8 => String::from_str("LD A,(0xFF00+n)"),
        Opcode::LDHPtrN8A => String::from_str("LD (0xFF00+n),A"),
        Opcode::LdPtrHLIncA => String::from_str("LD (HL+),A"),
        Opcode::LdPtrHLDecA => String::from_str("LD (HL-),A"),
        Opcode::LdAPtrHLInc => String::from_str("LD A,(HL+)"),
        Opcode::LdAPtrHLDec => String::from_str("LD A,(HL-)"),
        Opcode::AddAN8 => String::from_str("ADD A,n"),
        Opcode::AdcAN8 => String::from_str("ADC A,n"),
        Opcode::SubAN8 => String::from_str("SUB n"),
        Opcode::SbcAN8 => String::from_str("SBC A,n"),
        Opcode::CpAN8 => String::from_str("CP n"),
        Opcode::AddHLSP => String::from_str("ADD HL,SP"),
        Opcode::AddSPe8 => String::from_str("ADD SP,e"),
        Opcode::AndAN8 => String::from_str("AND n"),
        Opcode::OrAN8 => String::from_str("OR n"),
        Opcode::XorAN8 => String::from_str("XOR n"),
        Opcode::Cpl => String::from_str("CPL"),
        Opcode::Daa => String::from_str("DAA"),
        Opcode::RlA => String::from_str("RL A"),
        Opcode::RlcA => String::from_str("RLC A"),
        Opcode::RrA => String::from_str("RR A"),
        Opcode::RrcA => String::from_str("RRC A"),
        Opcode::JpN16 => String::from_str("JP nn"),
        Opcode::JpHL => String::from_str("JP (HL)"),
        Opcode::JrE8 => String::from_str("JR e"),
        Opcode::CallN16 => String::from_str("CALL nn"),
        Opcode::Ret => String::from_str("RET"),
        Opcode::RetI => String::from_str("RETI"),
        Opcode::PopAF => String::from_str("POP AF"),
        Opcode::PushAF => String::from_str("PUSH AF"),
        Opcode::LdSPHL => String::from_str("LD SP,HL"),
        Opcode::LdSPN16 => String::from_str("LD SP,nn"),
        Opcode::LdHLSPe8 => String::from_str("LD HL,SP+e"),
        Opcode::LdPtrN16SP => String::from_str("LD (nn),SP"),
        Opcode::Scf => String::from_str("SCF"),
        Opcode::Ccf => String::from_str("CCF"),
        Opcode::Di => String::from_str("DI"),
        Opcode::Ei => String::from_str("EI"),
        Opcode::Undefined => String::from_str("DB ??"),
        Opcode::LdHPtrCA => String::from_str("LD (0xFF00+C),A"),
        Opcode::DecSP => String::from_str("DEC SP"),
        Opcode::IncSP => String::from_str("INC SP"),
        Opcode::LdR8R8(dst, src) => {
            let mut s = compose("LD ", dst.name(), ",");
            s.append(src.name());
            s
        },
        Opcode::LdR8N8(x) => compose("LD ", x.name(), ",n"),
        Opcode::LdR16N16(x) => compose("LD ", x.name(), ",nn"),
        Opcode::LdPtrR16A(x) => compose("LD (", x.name(), "),A"),
        Opcode::LdAPtrR16(x) => compose("LD A,(", x.name(), ")"),
        Opcode::AddAR8(x) => compose("ADD A,", x.name(), ""),
        Opcode::AdcAR8(x) => compose("ADC A,", x.name(), ""),
        Opcode::SubAR8(x) => compose("SUB ", x.name(), ""),
        Opcode::SbcAR8(x) => compose("SBC A,", x.name(), ""),
        Opcode::CpAR8(x) => compose("CP ", x.name(), ""),
        Opcode::IncR8(x) => compose("INC ", x.name(), ""),
        Opcode::DecR8(x) => compose("DEC ", x.name(), ""),
        Opcode::AddHLR16(x) => compose("ADD HL,", x.name(), ""),
        Opcode::IncR16(x) => compose("INC ", x.name(), ""),
        Opcode::DecR16(x) => compose("DEC ", x.name(), ""),
        Opcode::AndAR8(x) => compose("AND ", x.name(), ""),
        Opcode::OrAR8(x) => compose("OR ", x.name(), ""),
        Opcode::XorAR8(x) => compose("XOR ", x.name(), ""),
        Opcode::RlR8(x) => compose("RL ", x.name(), ""),
        Opcode::RlcR8(x) => compose("RLC ", x.name(), ""),
        Opcode::RrR8(x) => compose("RR ", x.name(), ""),
        Opcode::RrcR8(x) => compose("RRC ", x.name(), ""),
        Opcode::SlaR8(x) => compose("SLA ", x.name(), ""),
        Opcode::SraR8(x) => compose("SRA ", x.name(), ""),
        Opcode::SrlR8(x) => compose("SRL ", x.name(), ""),
        Opcode::SwapR8(x) => compose("SWAP ", x.name(), ""),
        Opcode::JpCCN16(x) => compose("JP ", x.name(), ",nn"),
        Opcode::JrCCE8(x) => compose("JR ", x.name(), ",e"),
        Opcode::CallCCN16(x) => compose("CALL ", x.name(), ",nn"),
        Opcode::RetCC(x) => compose("RET ", x.name(), ""),
        Opcode::PopR16(x) => compose("POP ", x.name(), ""),
        Opcode::PushR16(x) => compose("PUSH ", x.name(), ""),
        Opcode::Bit(b, r) => {
            let digits = decimal_text(*b);
            let mut s = compose("BIT ", digits.as_str(), ",");
            s.append(r.name());
            s
        },
        Opcode::SetBit(b, r) => {
            let digits = decimal_text(*b);
            let mut s = compose("SET ", digits.as_str(), ",");
            s.append(r.name());
            s
        },
        Opcode::Res(b, r) => {
            let digits = decimal_text(*b);
            let mut s = compose("RES ", digits.as_str(), ",");
            s.append(r.name());
            s
        },
        Opcode::Rst(v) => compose("RST $", hex_text(*v / 16), hex_text(*v % 16)),
    }
}

} // verus!
