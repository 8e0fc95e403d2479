//! The instruction decoder: the operation, encoded length and base cycle
//! cost of every opcode byte, for the base set and for the CB-prefixed set.
//!
//! The two opcode tables are the contract. The decoder itself does not store
//! them: it takes the byte apart into its three octal fields and computes the
//! entry, and is proved to agree with the tables on all 256 bytes.
//!
//! Cycle policy: for conditional jumps, calls and returns the tables hold the
//! cost of the branch that is not taken; the execution engine adds the rest
//! when the branch is taken. For the CB-prefixed set the tabulated length and
//! cost include the prefix byte and its fetch.

use vstd::prelude::*;

verus! {

#[derive(Clone, Copy, Debug, PartialEq, Eq, Structural)]
pub enum R8 {
    A,
    B,
    C,
    D,
    E,
    H,
    L,
    HLIndirect,
}

#[derive(Clone, Copy, Debug, PartialEq, Eq, Structural)]
pub enum R16 {
    AF,
    BC,
    DE,
    HL,
    SP,
    PC,
}

#[derive(Clone, Copy, Debug, PartialEq, Eq, Structural)]
pub enum CC {
    NZ,
    Z,
    NC,
    C,
}

#[derive(Clone, Copy, Debug, PartialEq, Eq, Structural)]
pub enum Opcode {
    LdR8R8(R8, R8),
    LdR8N8(R8),
    LdR16N16(R16),
    LdPtrR16A(R16),
    LdPtrN16A,
    LdHPtrCA,
    LdAPtrR16(R16),
    LdAPtrN16,
    LdHAPtrC,
    LDHAPtrN8,
    LDHPtrN8A,
    LdPtrHLIncA,
    LdPtrHLDecA,
    LdAPtrHLDec,
    LdAPtrHLInc,
    AdcAR8(R8),
    AdcAN8,
    AddAR8(R8),
    AddAN8,
    CpAR8(R8),
    CpAN8,
    DecR8(R8),
    IncR8(R8),
    SbcAR8(R8),
    SbcAN8,
    SubAR8(R8),
    SubAN8,
    AddHLR16(R16),
    DecR16(R16),
    IncR16(R16),
    AndAR8(R8),
    AndAN8,
    Cpl,
    OrAR8(R8),
    OrAN8,
    XorAR8(R8),
    XorAN8,
    Bit(u8, R8),
    SetBit(u8, R8),
    Res(u8, R8),
    RlR8(R8),
    RlA,
    RlcR8(R8),
    RlcA,
    RrR8(R8),
    RrA,
    RrcR8(R8),
    RrcA,
    SlaR8(R8),
    SraR8(R8),
    SrlR8(R8),
    SwapR8(R8),
    CallN16,
    CallCCN16(CC),
    JpHL,
    JpN16,
    JpCCN16(CC),
    JrE8,
    JrCCE8(CC),
    Ret,
    RetCC(CC),
    RetI,
    Rst(u8),
    Scf,
    Ccf,
    AddHLSP,
    AddSPe8,
    LdHLSPe8,
    DecSP,
    IncSP,
    LdSPN16,
    LdPtrN16SP,
    LdSPHL,
    PopAF,
    PopR16(R16),
    PushAF,
    PushR16(R16),
    Di,
    Ei,
    Halt,
    Daa,
    Nop,
    Stop,
    Undefined,
    Prefix,
}

/// An operation with its encoded length in bytes and its base cycle cost.
#[derive(Clone, Copy, Debug, PartialEq, Eq, Structural)]
pub struct OpcodeEntry {
    pub opcode: Opcode,
    pub length: u8,
    pub cycles: u8,
}

pub open spec fn entry(opcode: Opcode, length: u8, cycles: u8) -> OpcodeEntry {
    OpcodeEntry { opcode, length, cycles }
}

/// The base opcode table.
#[verifier::opaque]
pub open spec fn base_table(byte: u8) -> OpcodeEntry {
    match byte {
        0x00 => entry(Opcode::Nop, 1, 4),
        0x01 => entry(Opcode::LdR16N16(R16::BC), 3, 12),
        0x02 => entry(Opcode::LdPtrR16A(R16::BC), 1, 8),
        0x03 => entry(Opcode::IncR16(R16::BC), 1, 8),
        0x04 => entry(Opcode::IncR8(R8::B), 1, 4),
        0x05 => entry(Opcode::DecR8(R8::B), 1, 4),
        0x06 => entry(Opcode::LdR8N8(R8::B), 2, 8),
        0x07 => entry(Opcode::RlcA, 1, 4),
        0x08 => entry(Opcode::LdPtrN16SP, 3, 20),
        0x09 => entry(Opcode::AddHLR16(R16::BC), 1, 8),
        0x0A => entry(Opcode::LdAPtrR16(R16::BC), 1, 8),
        0x0B => entry(Opcode::DecR16(R16::BC), 1, 8),
        0x0C => entry(Opcode::IncR8(R8::C), 1, 4),
        0x0D => entry(Opcode::DecR8(R8::C), 1, 4),
        0x0E => entry(Opcode::LdR8N8(R8::C), 2, 8),
        0x0F => entry(Opcode::RrcA, 1, 4),
        0x10 => entry(Opcode::Stop, 2, 4),
        0x11 => entry(Opcode::LdR16N16(R16::DE), 3, 12),
        0x12 => entry(Opcode::LdPtrR16A(R16::DE), 1, 8),
        0x13 => entry(Opcode::IncR16(R16::DE), 1, 8),
        0x14 => entry(Opcode::IncR8(R8::D), 1, 4),
        0x15 => entry(Opcode::DecR8(R8::D), 1, 4),
        0x16 => entry(Opcode::LdR8N8(R8::D), 2, 8),
        0x17 => entry(Opcode::RlA, 1, 4),
        0x18 => entry(Opcode::JrE8, 2, 12),
        0x19 => entry(Opcode::AddHLR16(R16::DE), 1, 8),
        0x1A => entry(Opcode::LdAPtrR16(R16::DE), 1, 8),
        0x1B => entry(Opcode::DecR16(R16::DE), 1, 8),
        0x1C => entry(Opcode::IncR8(R8::E), 1, 4),
        0x1D => entry(Opcode::DecR8(R8::E), 1, 4),
        0x1E => entry(Opcode::LdR8N8(R8::E), 2, 8),
        0x1F => entry(Opcode::RrA, 1, 4),
        0x20 => entry(Opcode::JrCCE8(CC::NZ), 2, 8),
        0x21 => entry(Opcode::LdR16N16(R16::HL), 3, 12),
        0x22 => entry(Opcode::LdPtrHLIncA, 1, 8),
        0x23 => entry(Opcode::IncR16(R16::HL), 1, 8),
        0x24 => entry(Opcode::IncR8(R8::H), 1, 4),
        0x25 => entry(Opcode::DecR8(R8::H), 1, 4),
        0x26 => entry(Opcode::LdR8N8(R8::H), 2, 8),
        0x27 => entry(Opcode::Daa, 1, 4),
        0x28 => entry(Opcode::JrCCE8(CC::Z), 2, 8),
        0x29 => entry(Opcode::AddHLR16(R16::HL), 1, 8),
        0x2A => entry(Opcode::LdAPtrHLInc, 1, 8),
        0x2B => entry(Opcode::DecR16(R16::HL), 1, 8),
        0x2C => entry(Opcode::IncR8(R8::L), 1, 4),
        0x2D => entry(Opcode::DecR8(R8::L), 1, 4),
        0x2E => entry(Opcode::LdR8N8(R8::L), 2, 8),
        0x2F => entry(Opcode::Cpl, 1, 4),
        0x30 => entry(Opcode::JrCCE8(CC::NC), 2, 8),
        0x31 => entry(Opcode::LdSPN16, 3, 12),
        0x32 => entry(Opcode::LdPtrHLDecA, 1, 8),
        0x33 => entry(Opcode::IncSP, 1, 8),
        0x34 => entry(Opcode::IncR8(R8::HLIndirect), 1, 12),
        0x35 => entry(Opcode::DecR8(R8::HLIndirect), 1, 12),
        0x36 => entry(Opcode::LdR8N8(R8::HLIndirect), 2, 12),
        0x37 => entry(Opcode::Scf, 1, 4),
        0x38 => entry(Opcode::JrCCE8(CC::C), 2, 8),
        0x39 => entry(Opcode::AddHLSP, 1, 8),
        0x3A => entry(Opcode::LdAPtrHLDec, 1, 8),
        0x3B => entry(Opcode::DecSP, 1, 8),
        0x3C => entry(Opcode::IncR8(R8::A), 1, 4),
        0x3D => entry(Opcode::DecR8(R8::A), 1, 4),
        0x3E => entry(Opcode::LdR8N8(R8::A), 2, 8),
        0x3F => entry(Opcode::Ccf, 1, 4),
        0x40 => entry(Opcode::LdR8R8(R8::B, R8::B), 1, 4),
        0x41 => entry(Opcode::LdR8R8(R8::B, R8::C), 1, 4),
        0x42 => entry(Opcode::LdR8R8(R8::B, R8::D), 1, 4),
        0x43 => entry(Opcode::LdR8R8(R8::B, R8::E), 1, 4),
        0x44 => entry(Opcode::LdR8R8(R8::B, R8::H), 1, 4),
        0x45 => entry(Opcode::LdR8R8(R8::B, R8::L), 1, 4),
        0x46 => entry(Opcode::LdR8R8(R8::B, R8::HLIndirect), 1, 8),
        0x47 => entry(Opcode::LdR8R8(R8::B, R8::A), 1, 4),
        0x48 => entry(Opcode::LdR8R8(R8::C, R8::B), 1, 4),
        0x49 => entry(Opcode::LdR8R8(R8::C, R8::C), 1, 4),
        0x4A => entry(Opcode::LdR8R8(R8::C, R8::D), 1, 4),
        0x4B => entry(Opcode::LdR8R8(R8::C, R8::E), 1, 4),
        0x4C => entry(Opcode::LdR8R8(R8::C, R8::H), 1, 4),
        0x4D => entry(Opcode::LdR8R8(R8::C, R8::L), 1, 4),
        0x4E => entry(Opcode::LdR8R8(R8::C, R8::HLIndirect), 1, 8),
        0x4F => entry(Opcode::LdR8R8(R8::C, R8::A), 1, 4),
        0x50 => entry(Opcode::LdR8R8(R8::D, R8::B), 1, 4),
        0x51 => entry(Opcode::LdR8R8(R8::D, R8::C), 1, 4),
        0x52 => entry(Opcode::LdR8R8(R8::D, R8::D), 1, 4),
        0x53 => entry(Opcode::LdR8R8(R8::D, R8::E), 1, 4),
        0x54 => entry(Opcode::LdR8R8(R8::D, R8::H), 1, 4),
        0x55 => entry(Opcode::LdR8R8(R8::D, R8::L), 1, 4),
        0x56 => entry(Opcode::LdR8R8(R8::D, R8::HLIndirect), 1, 8),
        0x57 => entry(Opcode::LdR8R8(R8::D, R8::A), 1, 4),
        0x58 => entry(Opcode::LdR8R8(R8::E, R8::B), 1, 4),
        0x59 => entry(Opcode::LdR8R8(R8::E, R8::C), 1, 4),
        0x5A => entry(Opcode::LdR8R8(R8::E, R8::D), 1, 4),
        0x5B => entry(Opcode::LdR8R8(R8::E, R8::E), 1, 4),
        0x5C => entry(Opcode::LdR8R8(R8::E, R8::H), 1, 4),
        0x5D => entry(Opcode::LdR8R8(R8::E, R8::L), 1, 4),
        0x5E => entry(Opcode::LdR8R8(R8::E, R8::HLIndirect), 1, 8),
        0x5F => entry(Opcode::LdR8R8(R8::E, R8::A), 1, 4),
        0x60 => entry(Opcode::LdR8R8(R8::H, R8::B), 1, 4),
        0x61 => entry(Opcode::LdR8R8(R8::H, R8::C), 1, 4),
        0x62 => entry(Opcode::LdR8R8(R8::H, R8::D), 1, 4),
        0x63 => entry(Opcode::LdR8R8(R8::H, R8::E), 1, 4),
        0x64 => entry(Opcode::LdR8R8(R8::H, R8::H), 1, 4),
        0x65 => entry(Opcode::LdR8R8(R8::H, R8::L), 1, 4),
        0x66 => entry(Opcode::LdR8R8(R8::H, R8::HLIndirect), 1, 8),
        0x67 => entry(Opcode::LdR8R8(R8::H, R8::A), 1, 4),
        0x68 => entry(Opcode::LdR8R8(R8::L, R8::B), 1, 4),
        0x69 => entry(Opcode::LdR8R8(R8::L, R8::C), 1, 4),
        0x6A => entry(Opcode::LdR8R8(R8::L, R8::D), 1, 4),
        0x6B => entry(Opcode::LdR8R8(R8::L, R8::E), 1, 4),
        0x6C => entry(Opcode::LdR8R8(R8::L, R8::H), 1, 4),
        0x6D => entry(Opcode::LdR8R8(R8::L, R8::L), 1, 4),
        0x6E => entry(Opcode::LdR8R8(R8::L, R8::HLIndirect), 1, 8),
        0x6F => entry(Opcode::LdR8R8(R8::L, R8::A), 1, 4),
        0x70 => entry(Opcode::LdR8R8(R8::HLIndirect, R8::B), 1, 8),
        0x71 => entry(Opcode::LdR8R8(R8::HLIndirect, R8::C), 1, 8),
        0x72 => entry(Opcode::LdR8R8(R8::HLIndirect, R8::D), 1, 8),
        0x73 => entry(Opcode::LdR8R8(R8::HLIndirect, R8::E), 1, 8),
        0x74 => entry(Opcode::LdR8R8(R8::HLIndirect, R8::H), 1, 8),
        0x75 => entry(Opcode::LdR8R8(R8::HLIndirect, R8::L), 1, 8),
        0x76 => entry(Opcode::Halt, 1, 4),
        0x77 => entry(Opcode::LdR8R8(R8::HLIndirect, R8::A), 1, 8),
        0x78 => entry(Opcode::LdR8R8(R8::A, R8::B), 1, 4),
        0x79 => entry(Opcode::LdR8R8(R8::A, R8::C), 1, 4),
        0x7A => entry(Opcode::LdR8R8(R8::A, R8::D), 1, 4),
        0x7B => entry(Opcode::LdR8R8(R8::A, R8::E), 1, 4),
        0x7C => entry(Opcode::LdR8R8(R8::A, R8::H), 1, 4),
        0x7D => entry(Opcode::LdR8R8(R8::A, R8::L), 1, 4),
        0x7E => entry(Opcode::LdR8R8(R8::A, R8::HLIndirect), 1, 8),
        0x7F => entry(Opcode::LdR8R8(R8::A, R8::A), 1, 4),
        0x80 => entry(Opcode::AddAR8(R8::B), 1, 4),
        0x81 => entry(Opcode::AddAR8(R8::C), 1, 4),
        0x82 => entry(Opcode::AddAR8(R8::D), 1, 4),
        0x83 => entry(Opcode::AddAR8(R8::E), 1, 4),
        0x84 => entry(Opcode::AddAR8(R8::H), 1, 4),
        0x85 => entry(Opcode::AddAR8(R8::L), 1, 4),
        0x86 => entry(Opcode::AddAR8(R8::HLIndirect), 1, 8),
        0x87 => entry(Opcode::AddAR8(R8::A), 1, 4),
        0x88 => entry(Opcode::AdcAR8(R8::B), 1, 4),
        0x89 => entry(Opcode::AdcAR8(R8::C), 1, 4),
        0x8A => entry(Opcode::AdcAR8(R8::D), 1, 4),
        0x8B => entry(Opcode::AdcAR8(R8::E), 1, 4),
        0x8C => entry(Opcode::AdcAR8(R8::H), 1, 4),
        0x8D => entry(Opcode::AdcAR8(R8::L), 1, 4),
        0x8E => entry(Opcode::AdcAR8(R8::HLIndirect), 1, 8),
        0x8F => entry(Opcode::AdcAR8(R8::A), 1, 4),
        0x90 => entry(Opcode::SubAR8(R8::B), 1, 4),
        0x91 => entry(Opcode::SubAR8(R8::C), 1, 4),
        0x92 => entry(Opcode::SubAR8(R8::D), 1, 4),
        0x93 => entry(Opcode::SubAR8(R8::E), 1, 4),
        0x94 => entry(Opcode::SubAR8(R8::H), 1, 4),
        0x95 => entry(Opcode::SubAR8(R8::L), 1, 4),
        0x96 => entry(Opcode::SubAR8(R8::HLIndirect), 1, 8),
        0x97 => entry(Opcode::SubAR8(R8::A), 1, 4),
        0x98 => entry(Opcode::SbcAR8(R8::B), 1, 4),
        0x99 => entry(Opcode::SbcAR8(R8::C), 1, 4),
        0x9A => entry(Opcode::SbcAR8(R8::D), 1, 4),
        0x9B => entry(Opcode::SbcAR8(R8::E), 1, 4),
        0x9C => entry(Opcode::SbcAR8(R8::H), 1, 4),
        0x9D => entry(Opcode::SbcAR8(R8::L), 1, 4),
        0x9E => entry(Opcode::SbcAR8(R8::HLIndirect), 1, 8),
        0x9F => entry(Opcode::SbcAR8(R8::A), 1, 4),
        0xA0 => entry(Opcode::AndAR8(R8::B), 1, 4),
        0xA1 => entry(Opcode::AndAR8(R8::C), 1, 4),
        0xA2 => entry(Opcode::AndAR8(R8::D), 1, 4),
        0xA3 => entry(Opcode::AndAR8(R8::E), 1, 4),
        0xA4 => entry(Opcode::AndAR8(R8::H), 1, 4),
        0xA5 => entry(Opcode::AndAR8(R8::L), 1, 4),
        0xA6 => entry(Opcode::AndAR8(R8::HLIndirect), 1, 8),
        0xA7 => entry(Opcode::AndAR8(R8::A), 1, 4),
        0xA8 => entry(Opcode::XorAR8(R8::B), 1, 4),
        0xA9 => entry(Opcode::XorAR8(R8::C), 1, 4),
        0xAA => entry(Opcode::XorAR8(R8::D), 1, 4),
        0xAB => entry(Opcode::XorAR8(R8::E), 1, 4),
        0xAC => entry(Opcode::XorAR8(R8::H), 1, 4),
        0xAD => entry(Opcode::XorAR8(R8::L), 1, 4),
        0xAE => entry(Opcode::XorAR8(R8::HLIndirect), 1, 8),
        0xAF => entry(Opcode::XorAR8(R8::A), 1, 4),
        0xB0 => entry(Opcode::OrAR8(R8::B), 1, 4),
        0xB1 => entry(Opcode::OrAR8(R8::C), 1, 4),
        0xB2 => entry(Opcode::OrAR8(R8::D), 1, 4),
        0xB3 => entry(Opcode::OrAR8(R8::E), 1, 4),
        0xB4 => entry(Opcode::OrAR8(R8::H), 1, 4),
        0xB5 => entry(Opcode::OrAR8(R8::L), 1, 4),
        0xB6 => entry(Opcode::OrAR8(R8::HLIndirect), 1, 8),
        0xB7 => entry(Opcode::OrAR8(R8::A), 1, 4),
        0xB8 => entry(Opcode::CpAR8(R8::B), 1, 4),
        0xB9 => entry(Opcode::CpAR8(R8::C), 1, 4),
        0xBA => entry(Opcode::CpAR8(R8::D), 1, 4),
        0xBB => entry(Opcode::CpAR8(R8::E), 1, 4),
        0xBC => entry(Opcode::CpAR8(R8::H), 1, 4),
        0xBD => entry(Opcode::CpAR8(R8::L), 1, 4),
        0xBE => entry(Opcode::CpAR8(R8::HLIndirect), 1, 8),
        0xBF => entry(Opcode::CpAR8(R8::A), 1, 4),
        0xC0 => entry(Opcode::RetCC(CC::NZ), 1, 8),
        0xC1 => entry(Opcode::PopR16(R16::BC), 1, 12),
        0xC2 => entry(Opcode::JpCCN16(CC::NZ), 3, 12),
        0xC3 => entry(Opcode::JpN16, 3, 16),
        0xC4 => entry(Opcode::CallCCN16(CC::NZ), 3, 12),
        0xC5 => entry(Opcode::PushR16(R16::BC), 1, 16),
        0xC6 => entry(Opcode::AddAN8, 2, 16),
        0xC7 => entry(Opcode::Rst(0x00), 1, 16),
        0xC8 => entry(Opcode::RetCC(CC::Z), 1, 8),
        0xC9 => entry(Opcode::Ret, 1, 16),
        0xCA => entry(Opcode::JpCCN16(CC::Z), 3, 12),
        0xCB => entry(Opcode::Prefix, 1, 4),
        0xCC => entry(Opcode::CallCCN16(CC::Z), 3, 12),
        0xCD => entry(Opcode::CallN16, 3, 24),
        0xCE => entry(Opcode::AdcAN8, 2, 8),
        0xCF => entry(Opcode::Rst(0x08), 1, 16),
        0xD0 => entry(Opcode::RetCC(CC::NC), 1, 8),
        0xD1 => entry(Opcode::PopR16(R16::DE), 1, 12),
        0xD2 => entry(Opcode::JpCCN16(CC::NC), 3, 12),
        0xD3 => entry(Opcode::Undefined, 1, 4),
        0xD4 => entry(Opcode::CallCCN16(CC::NC), 3, 12),
        0xD5 => entry(Opcode::PushR16(R16::DE), 1, 16),
        0xD6 => entry(Opcode::SubAN8, 2, 8),
        0xD7 => entry(Opcode::Rst(0x10), 1, 16),
        0xD8 => entry(Opcode::RetCC(CC::C), 1, 8),
        0xD9 => entry(Opcode::RetI, 1, 16),
        0xDA => entry(Opcode::JpCCN16(CC::C), 3, 12),
        0xDB => entry(Opcode::Undefined, 1, 4),
        0xDC => entry(Opcode::CallCCN16(CC::C), 3, 12),
        0xDD => entry(Opcode::Undefined, 1, 4),
        0xDE => entry(Opcode::SbcAN8, 2, 8),
        0xDF => entry(Opcode::Rst(0x18), 1, 16),
        0xE0 => entry(Opcode::LDHPtrN8A, 2, 12),
        0xE1 => entry(Opcode::PopR16(R16::HL), 1, 12),
        0xE2 => entry(Opcode::LdHAPtrC, 1, 8),
        0xE3 => entry(Opcode::Undefined, 1, 4),
        0xE4 => entry(Opcode::Undefined, 1, 4),
        0xE5 => entry(Opcode::PushR16(R16::HL), 1, 16),
        0xE6 => entry(Opcode::AndAN8, 2, 8),
        0xE7 => entry(Opcode::Rst(0x20), 1, 16),
        0xE8 => entry(Opcode::AddSPe8, 2, 8),
        0xE9 => entry(Opcode::JpHL, 1, 4),
        0xEA => entry(Opcode::LdPtrN16A, 3, 16),
        0xEB => entry(Opcode::Undefined, 1, 4),
        0xEC => entry(Opcode::Undefined, 1, 4),
        0xED => entry(Opcode::Undefined, 1, 4),
        0xEE => entry(Opcode::XorAN8, 2, 8),
        0xEF => entry(Opcode::Rst(0x28), 1, 16),
        0xF0 => entry(Opcode::LDHAPtrN8, 2, 12),
        0xF1 => entry(Opcode::PopAF, 1, 12),
        0xF2 => entry(Opcode::LdHAPtrC, 1, 8),
        0xF3 => entry(Opcode::Di, 1, 4),
        0xF4 => entry(Opcode::Undefined, 1, 4),
        0xF5 => entry(Opcode::PushAF, 1, 16),
        0xF6 => entry(Opcode::OrAN8, 2, 8),
        0xF7 => entry(Opcode::Rst(0x30), 1, 16),
        0xF8 => entry(Opcode::LdHLSPe8, 2, 12),
        0xF9 => entry(Opcode::LdSPHL, 1, 8),
        0xFA => entry(Opcode::LdAPtrN16, 3, 16),
        0xFB => entry(Opcode::Ei, 1, 4),
        0xFC => entry(Opcode::Undefined, 1, 4),
        0xFD => entry(Opcode::Undefined, 1, 4),
        0xFE => entry(Opcode::CpAN8, 2, 8),
        _ => entry(Opcode::Rst(0x38), 1, 16),
    }
}

/// The CB-prefixed opcode table.
#[verifier::opaque]
pub open spec fn cb_table(byte: u8) -> OpcodeEntry {
    match byte {
        0x00 => entry(Opcode::RlcR8(R8::B), 2, 8),
        0x01 => entry(Opcode::RlcR8(R8::C), 2, 8),
        0x02 => entry(Opcode::RlcR8(R8::D), 2, 8),
        0x03 => entry(Opcode::RlcR8(R8::E), 2, 8),
        0x04 => entry(Opcode::RlcR8(R8::H), 2, 8),
        0x05 => entry(Opcode::RlcR8(R8::L), 2, 8),
        0x06 => entry(Opcode::RlcR8(R8::HLIndirect), 2, 16),
        0x07 => entry(Opcode::RlcR8(R8::A), 2, 8),
        0x08 => entry(Opcode::RrcR8(R8::B), 2, 8),
        0x09 => entry(Opcode::RrcR8(R8::C), 2, 8),
        0x0A => entry(Opcode::RrcR8(R8::D), 2, 8),
        0x0B => entry(Opcode::RrcR8(R8::E), 2, 8),
        0x0C => entry(Opcode::RrcR8(R8::H), 2, 8),
        0x0D => entry(Opcode::RrcR8(R8::L), 2, 8),
        0x0E => entry(Opcode::RrcR8(R8::HLIndirect), 2, 16),
        0x0F => entry(Opcode::RrcR8(R8::A), 2, 8),
        0x10 => entry(Opcode::RlR8(R8::B), 2, 8),
        0x11 => entry(Opcode::RlR8(R8::C), 2, 8),
        0x12 => entry(Opcode::RlR8(R8::D), 2, 8),
        0x13 => entry(Opcode::RlR8(R8::E), 2, 8),
        0x14 => entry(Opcode::RlR8(R8::H), 2, 8),
        0x15 => entry(Opcode::RlR8(R8::L), 2, 8),
        0x16 => entry(Opcode::RlR8(R8::HLIndirect), 2, 16),
        0x17 => entry(Opcode::RlR8(R8::A), 2, 8),
        0x18 => entry(Opcode::RrR8(R8::B), 2, 8),
        0x19 => entry(Opcode::RrR8(R8::C), 2, 8),
        0x1A => entry(Opcode::RrR8(R8::D), 2, 8),
        0x1B => entry(Opcode::RrR8(R8::E), 2, 8),
        0x1C => entry(Opcode::RrR8(R8::H), 2, 8),
        0x1D => entry(Opcode::RrR8(R8::L), 2, 8),
        0x1E => entry(Opcode::RrR8(R8::HLIndirect), 2, 16),
        0x1F => entry(Opcode::RrR8(R8::A), 2, 8),
        0x20 => entry(Opcode::SlaR8(R8::B), 2, 8),
        0x21 => entry(Opcode::SlaR8(R8::C), 2, 8),
        0x22 => entry(Opcode::SlaR8(R8::D), 2, 8),
        0x23 => entry(Opcode::SlaR8(R8::E), 2, 8),
        0x24 => entry(Opcode::SlaR8(R8::H), 2, 8),
        0x25 => entry(Opcode::SlaR8(R8::L), 2, 8),
        0x26 => entry(Opcode::SlaR8(R8::HLIndirect), 2, 16),
        0x27 => entry(Opcode::SlaR8(R8::A), 2, 8),
        0x28 => entry(Opcode::SraR8(R8::B), 2, 8),
        0x29 => entry(Opcode::SraR8(R8::C), 2, 8),
        0x2A => entry(Opcode::SraR8(R8::D), 2, 8),
        0x2B => entry(Opcode::SraR8(R8::E), 2, 8),
        0x2C => entry(Opcode::SraR8(R8::H), 2, 8),
        0x2D => entry(Opcode::SraR8(R8::L), 2, 8),
        0x2E => entry(Opcode::SraR8(R8::HLIndirect), 2, 16),
        0x2F => entry(Opcode::SraR8(R8::A), 2, 8),
        0x30 => entry(Opcode::SwapR8(R8::B), 2, 8),
        0x31 => entry(Opcode::SwapR8(R8::C), 2, 8),
        0x32 => entry(Opcode::SwapR8(R8::D), 2, 8),
        0x33 => entry(Opcode::SwapR8(R8::E), 2, 8),
        0x34 => entry(Opcode::SwapR8(R8::H), 2, 8),
        0x35 => entry(Opcode::SwapR8(R8::L), 2, 8),
        0x36 => entry(Opcode::SwapR8(R8::HLIndirect), 2, 16),
        0x37 => entry(Opcode::SwapR8(R8::A), 2, 8),
        0x38 => entry(Opcode::SrlR8(R8::B), 2, 8),
        0x39 => entry(Opcode::SrlR8(R8::C), 2, 8),
        0x3A => entry(Opcode::SrlR8(R8::D), 2, 8),
        0x3B => entry(Opcode::SrlR8(R8::E), 2, 8),
        0x3C => entry(Opcode::SrlR8(R8::H), 2, 8),
        0x3D => entry(Opcode::SrlR8(R8::L), 2, 8),
        0x3E => entry(Opcode::SrlR8(R8::HLIndirect), 2, 16),
        0x3F => entry(Opcode::SrlR8(R8::A), 2, 8),
        0x40 => entry(Opcode::Bit(0, R8::B), 2, 8),
        0x41 => entry(Opcode::Bit(0, R8::C), 2, 8),
        0x42 => entry(Opcode::Bit(0, R8::D), 2, 8),
        0x43 => entry(Opcode::Bit(0, R8::E), 2, 8),
        0x44 => entry(Opcode::Bit(0, R8::H), 2, 8),
        0x45 => entry(Opcode::Bit(0, R8::L), 2, 8),
        0x46 => entry(Opcode::Bit(0, R8::HLIndirect), 2, 16),
        0x47 => entry(Opcode::Bit(0, R8::A), 2, 8),
        0x48 => entry(Opcode::Bit(1, R8::B), 2, 8),
        0x49 => entry(Opcode::Bit(1, R8::C), 2, 8),
        0x4A => entry(Opcode::Bit(1, R8::D), 2, 8),
        0x4B => entry(Opcode::Bit(1, R8::E), 2, 8),
        0x4C => entry(Opcode::Bit(1, R8::H), 2, 8),
        0x4D => entry(Opcode::Bit(1, R8::L), 2, 8),
        0x4E => entry(Opcode::Bit(1, R8::HLIndirect), 2, 16),
        0x4F => entry(Opcode::Bit(1, R8::A), 2, 8),
        0x50 => entry(Opcode::Bit(2, R8::B), 2, 8),
        0x51 => entry(Opcode::Bit(2, R8::C), 2, 8),
        0x52 => entry(Opcode::Bit(2, R8::D), 2, 8),
        0x53 => entry(Opcode::Bit(2, R8::E), 2, 8),
        0x54 => entry(Opcode::Bit(2, R8::H), 2, 8),
        0x55 => entry(Opcode::Bit(2, R8::L), 2, 8),
        0x56 => entry(Opcode::Bit(2, R8::HLIndirect), 2, 16),
        0x57 => entry(Opcode::Bit(2, R8::A), 2, 8),
        0x58 => entry(Opcode::Bit(3, R8::B), 2, 8),
        0x59 => entry(Opcode::Bit(3, R8::C), 2, 8),
        0x5A => entry(Opcode::Bit(3, R8::D), 2, 8),
        0x5B => entry(Opcode::Bit(3, R8::E), 2, 8),
        0x5C => entry(Opcode::Bit(3, R8::H), 2, 8),
        0x5D => entry(Opcode::Bit(3, R8::L), 2, 8),
        0x5E => entry(Opcode::Bit(3, R8::HLIndirect), 2, 16),
        0x5F => entry(Opcode::Bit(3, R8::A), 2, 8),
        0x60 => entry(Opcode::Bit(4, R8::B), 2, 8),
        0x61 => entry(Opcode::Bit(4, R8::C), 2, 8),
        0x62 => entry(Opcode::Bit(4, R8::D), 2, 8),
        0x63 => entry(Opcode::Bit(4, R8::E), 2, 8),
        0x64 => entry(Opcode::Bit(4, R8::H), 2, 8),
        0x65 => entry(Opcode::Bit(4, R8::L), 2, 8),
        0x66 => entry(Opcode::Bit(4, R8::HLIndirect), 2, 16),
        0x67 => entry(Opcode::Bit(4, R8::A), 2, 8),
        0x68 => entry(Opcode::Bit(5, R8::B), 2, 8),
        0x69 => entry(Opcode::Bit(5, R8::C), 2, 8),
        0x6A => entry(Opcode::Bit(5, R8::D), 2, 8),
        0x6B => entry(Opcode::Bit(5, R8::E), 2, 8),
        0x6C => entry(Opcode::Bit(5, R8::H), 2, 8),
        0x6D => entry(Opcode::Bit(5, R8::L), 2, 8),
        0x6E => entry(Opcode::Bit(5, R8::HLIndirect), 2, 16),
        0x6F => entry(Opcode::Bit(5, R8::A), 2, 8),
        0x70 => entry(Opcode::Bit(6, R8::B), 2, 8),
        0x71 => entry(Opcode::Bit(6, R8::C), 2, 8),
        0x72 => entry(Opcode::Bit(6, R8::D), 2, 8),
        0x73 => entry(Opcode::Bit(6, R8::E), 2, 8),
        0x74 => entry(Opcode::Bit(6, R8::H), 2, 8),
        0x75 => entry(Opcode::Bit(6, R8::L), 2, 8),
        0x76 => entry(Opcode::Bit(6, R8::HLIndirect), 2, 16),
        0x77 => entry(Opcode::Bit(6, R8::A), 2, 8),
        0x78 => entry(Opcode::Bit(7, R8::B), 2, 8),
        0x79 => entry(Opcode::Bit(7, R8::C), 2, 8),
        0x7A => entry(Opcode::Bit(7, R8::D), 2, 8),
        0x7B => entry(Opcode::Bit(7, R8::E), 2, 8),
        0x7C => entry(Opcode::Bit(7, R8::H), 2, 8),
        0x7D => entry(Opcode::Bit(7, R8::L), 2, 8),
        0x7E => entry(Opcode::Bit(7, R8::HLIndirect), 2, 16),
        0x7F => entry(Opcode::Bit(7, R8::A), 2, 8),
        0x80 => entry(Opcode::Res(0, R8::B), 2, 8),
        0x81 => entry(Opcode::Res(0, R8::C), 2, 8),
        0x82 => entry(Opcode::Res(0, R8::D), 2, 8),
        0x83 => entry(Opcode::Res(0, R8::E), 2, 8),
        0x84 => entry(Opcode::Res(0, R8::H), 2, 8),
        0x85 => entry(Opcode::Res(0, R8::L), 2, 8),
        0x86 => entry(Opcode::Res(0, R8::HLIndirect), 2, 16),
        0x87 => entry(Opcode::Res(0, R8::A), 2, 8),
        0x88 => entry(Opcode::Res(1, R8::B), 2, 8),
        0x89 => entry(Opcode::Res(1, R8::C), 2, 8),
        0x8A => entry(Opcode::Res(1, R8::D), 2, 8),
        0x8B => entry(Opcode::Res(1, R8::E), 2, 8),
        0x8C => entry(Opcode::Res(1, R8::H), 2, 8),
        0x8D => entry(Opcode::Res(1, R8::L), 2, 8),
        0x8E => entry(Opcode::Res(1, R8::HLIndirect), 2, 16),
        0x8F => entry(Opcode::Res(1, R8::A), 2, 8),
        0x90 => entry(Opcode::Res(2, R8::B), 2, 8),
        0x91 => entry(Opcode::Res(2, R8::C), 2, 8),
        0x92 => entry(Opcode::Res(2, R8::D), 2, 8),
        0x93 => entry(Opcode::Res(2, R8::E), 2, 8),
        0x94 => entry(Opcode::Res(2, R8::H), 2, 8),
        0x95 => entry(Opcode::Res(2, R8::L), 2, 8),
        0x96 => entry(Opcode::Res(2, R8::HLIndirect), 2, 16),
        0x97 => entry(Opcode::Res(2, R8::A), 2, 8),
        0x98 => entry(Opcode::Res(3, R8::B), 2, 8),
        0x99 => entry(Opcode::Res(3, R8::C), 2, 8),
        0x9A => entry(Opcode::Res(3, R8::D), 2, 8),
        0x9B => entry(Opcode::Res(3, R8::E), 2, 8),
        0x9C => entry(Opcode::Res(3, R8::H), 2, 8),
        0x9D => entry(Opcode::Res(3, R8::L), 2, 8),
        0x9E => entry(Opcode::Res(3, R8::HLIndirect), 2, 16),
        0x9F => entry(Opcode::Res(3, R8::A), 2, 8),
        0xA0 => entry(Opcode::Res(4, R8::B), 2, 8),
        0xA1 => entry(Opcode::Res(4, R8::C), 2, 8),
        0xA2 => entry(Opcode::Res(4, R8::D), 2, 8),
        0xA3 => entry(Opcode::Res(4, R8::E), 2, 8),
        0xA4 => entry(Opcode::Res(4, R8::H), 2, 8),
        0xA5 => entry(Opcode::Res(4, R8::L), 2, 8),
        0xA6 => entry(Opcode::Res(4, R8::HLIndirect), 2, 16),
        0xA7 => entry(Opcode::Res(4, R8::A), 2, 8),
        0xA8 => entry(Opcode::Res(5, R8::B), 2, 8),
        0xA9 => entry(Opcode::Res(5, R8::C), 2, 8),
        0xAA => entry(Opcode::Res(5, R8::D), 2, 8),
        0xAB => entry(Opcode::Res(5, R8::E), 2, 8),
        0xAC => entry(Opcode::Res(5, R8::H), 2, 8),
        0xAD => entry(Opcode::Res(5, R8::L), 2, 8),
        0xAE => entry(Opcode::Res(5, R8::HLIndirect), 2, 16),
        0xAF => entry(Opcode::Res(5, R8::A), 2, 8),
        0xB0 => entry(Opcode::Res(6, R8::B), 2, 8),
        0xB1 => entry(Opcode::Res(6, R8::C), 2, 8),
        0xB2 => entry(Opcode::Res(6, R8::D), 2, 8),
        0xB3 => entry(Opcode::Res(6, R8::E), 2, 8),
        0xB4 => entry(Opcode::Res(6, R8::H), 2, 8),
        0xB5 => entry(Opcode::Res(6, R8::L), 2, 8),
        0xB6 => entry(Opcode::Res(6, R8::HLIndirect), 2, 16),
        0xB7 => entry(Opcode::Res(6, R8::A), 2, 8),
        0xB8 => entry(Opcode::Res(7, R8::B), 2, 8),
        0xB9 => entry(Opcode::Res(7, R8::C), 2, 8),
        0xBA => entry(Opcode::Res(7, R8::D), 2, 8),
        0xBB => entry(Opcode::Res(7, R8::E), 2, 8),
        0xBC => entry(Opcode::Res(7, R8::H), 2, 8),
        0xBD => entry(Opcode::Res(7, R8::L), 2, 8),
        0xBE => entry(Opcode::Res(7, R8::HLIndirect), 2, 16),
        0xBF => entry(Opcode::Res(7, R8::A), 2, 8),
        0xC0 => entry(Opcode::SetBit(0, R8::B), 2, 8),
        0xC1 => entry(Opcode::SetBit(0, R8::C), 2, 8),
        0xC2 => entry(Opcode::SetBit(0, R8::D), 2, 8),
        0xC3 => entry(Opcode::SetBit(0, R8::E), 2, 8),
        0xC4 => entry(Opcode::SetBit(0, R8::H), 2, 8),
        0xC5 => entry(Opcode::SetBit(0, R8::L), 2, 8),
        0xC6 => entry(Opcode::SetBit(0, R8::HLIndirect), 2, 16),
        0xC7 => entry(Opcode::SetBit(0, R8::A), 2, 8),
        0xC8 => entry(Opcode::SetBit(1, R8::B), 2, 8),
        0xC9 => entry(Opcode::SetBit(1, R8::C), 2, 8),
        0xCA => entry(Opcode::SetBit(1, R8::D), 2, 8),
        0xCB => entry(Opcode::SetBit(1, R8::E), 2, 8),
        0xCC => entry(Opcode::SetBit(1, R8::H), 2, 8),
        0xCD => entry(Opcode::SetBit(1, R8::L), 2, 8),
        0xCE => entry(Opcode::SetBit(1, R8::HLIndirect), 2, 16),
        0xCF => entry(Opcode::SetBit(1, R8::A), 2, 8),
        0xD0 => entry(Opcode::SetBit(2, R8::B), 2, 8),
        0xD1 => entry(Opcode::SetBit(2, R8::C), 2, 8),
        0xD2 => entry(Opcode::SetBit(2, R8::D), 2, 8),
        0xD3 => entry(Opcode::SetBit(2, R8::E), 2, 8),
        0xD4 => entry(Opcode::SetBit(2, R8::H), 2, 8),
        0xD5 => entry(Opcode::SetBit(2, R8::L), 2, 8),
        0xD6 => entry(Opcode::SetBit(2, R8::HLIndirect), 2, 16),
        0xD7 => entry(Opcode::SetBit(2, R8::A), 2, 8),
        0xD8 => entry(Opcode::SetBit(3, R8::B), 2, 8),
        0xD9 => entry(Opcode::SetBit(3, R8::C), 2, 8),
        0xDA => entry(Opcode::SetBit(3, R8::D), 2, 8),
        0xDB => entry(Opcode::SetBit(3, R8::E), 2, 8),
        0xDC => entry(Opcode::SetBit(3, R8::H), 2, 8),
        0xDD => entry(Opcode::SetBit(3, R8::L), 2, 8),
        0xDE => entry(Opcode::SetBit(3, R8::HLIndirect), 2, 16),
        0xDF => entry(Opcode::SetBit(3, R8::A), 2, 8),
        0xE0 => entry(Opcode::SetBit(4, R8::B), 2, 8),
        0xE1 => entry(Opcode::SetBit(4, R8::C), 2, 8),
        0xE2 => entry(Opcode::SetBit(4, R8::D), 2, 8),
        0xE3 => entry(Opcode::SetBit(4, R8::E), 2, 8),
        0xE4 => entry(Opcode::SetBit(4, R8::H), 2, 8),
        0xE5 => entry(Opcode::SetBit(4, R8::L), 2, 8),
        0xE6 => entry(Opcode::SetBit(4, R8::HLIndirect), 2, 16),
        0xE7 => entry(Opcode::SetBit(4, R8::A), 2, 8),
        0xE8 => entry(Opcode::SetBit(5, R8::B), 2, 8),
        0xE9 => entry(Opcode::SetBit(5, R8::C), 2, 8),
        0xEA => entry(Opcode::SetBit(5, R8::D), 2, 8),
        0xEB => entry(Opcode::SetBit(5, R8::E), 2, 8),
        0xEC => entry(Opcode::SetBit(5, R8::H), 2, 8),
        0xED => entry(Opcode::SetBit(5, R8::L), 2, 8),
        0xEE => entry(Opcode::SetBit(5, R8::HLIndirect), 2, 16),
        0xEF => entry(Opcode::SetBit(5, R8::A), 2, 8),
        0xF0 => entry(Opcode::SetBit(6, R8::B), 2, 8),
        0xF1 => entry(Opcode::SetBit(6, R8::C), 2, 8),
        0xF2 => entry(Opcode::SetBit(6, R8::D), 2, 8),
        0xF3 => entry(Opcode::SetBit(6, R8::E), 2, 8),
        0xF4 => entry(Opcode::SetBit(6, R8::H), 2, 8),
        0xF5 => entry(Opcode::SetBit(6, R8::L), 2, 8),
        0xF6 => entry(Opcode::SetBit(6, R8::HLIndirect), 2, 16),
        0xF7 => entry(Opcode::SetBit(6, R8::A), 2, 8),
        0xF8 => entry(Opcode::SetBit(7, R8::B), 2, 8),
        0xF9 => entry(Opcode::SetBit(7, R8::C), 2, 8),
        0xFA => entry(Opcode::SetBit(7, R8::D), 2, 8),
        0xFB => entry(Opcode::SetBit(7, R8::E), 2, 8),
        0xFC => entry(Opcode::SetBit(7, R8::H), 2, 8),
        0xFD => entry(Opcode::SetBit(7, R8::L), 2, 8),
        0xFE => entry(Opcode::SetBit(7, R8::HLIndirect), 2, 16),
        _ => entry(Opcode::SetBit(7, R8::A), 2, 8),
    }
}

/// What holds of every entry of the base table.
pub open spec fn base_shape(r: OpcodeEntry) -> bool {
    &&& 1 <= r.length <= 3
    &&& 4 <= r.cycles <= 24
    &&& r.opcode == Opcode::Undefined ==> r.length == 1 && r.cycles == 4
}

/// What holds of every entry of the CB-prefixed table, whose operand field
/// is `z`.
pub open spec fn cb_shape(r: OpcodeEntry, z: u8) -> bool {
    &&& r.length == 2
    &&& r.cycles == (if z == 6 { 16u8 } else { 8u8 })
    &&& r.opcode != Opcode::Undefined
    &&& r.opcode != Opcode::Prefix
}

fn mk(opcode: Opcode, length: u8, cycles: u8) -> (r: OpcodeEntry)
    ensures
        r == entry(opcode, length, cycles),
{
    OpcodeEntry { opcode, length, cycles }
}

/// The 8-bit operand named by a three-bit register field.
pub fn operand(field: u8) -> (r: R8)
    requires
        field < 8,
    ensures
        r == match field {
            0 => R8::B,
            1 => R8::C,
            2 => R8::D,
            3 => R8::E,
            4 => R8::H,
            5 => R8::L,
            6 => R8::HLIndirect,
            _ => R8::A,
        },
{
    match field {
        0 => R8::B,
        1 => R8::C,
        2 => R8::D,
        3 => R8::E,
        4 => R8::H,
        5 => R8::L,
        6 => R8::HLIndirect,
        _ => R8::A,
    }
}

/// The condition named by a two-bit condition field.
pub fn condition(field: u8) -> (r: CC)
    requires
        field < 4,
    ensures
        r == match field {
            0 => CC::NZ,
            1 => CC::Z,
            2 => CC::NC,
            _ => CC::C,
        },
{
    match field {
        0 => CC::NZ,
        1 => CC::Z,
        2 => CC::NC,
        _ => CC::C,
    }
}

fn pair(field: u8) -> (r: R16)
    requires
        field < 3,
    ensures
        r == match field {
            0 => R16::BC,
            1 => R16::DE,
            _ => R16::HL,
        },
{
    match field {
        0 => R16::BC,
        1 => R16::DE,
        _ => R16::HL,
    }
}

fn decode_low(y: u8, z: u8) -> (r: OpcodeEntry)
    requires
        y < 8,
        z < 8,
    ensures
        r == base_table((y * 8 + z) as u8),
        base_shape(r),
        r.opcode != Opcode::Prefix,
{
    reveal(base_table);
    let p: u8 = y / 2;
    let odd = y % 2 == 1;
    match z {
        0 => match y {
            0 => mk(Opcode::Nop, 1, 4),
            1 => mk(Opcode::LdPtrN16SP, 3, 20),
            2 => mk(Opcode::Stop, 2, 4),
            3 => mk(Opcode::JrE8, 2, 12),
            _ => mk(Opcode::JrCCE8(condition(y - 4)), 2, 8),
        },
        1 => if odd {
            if p == 3 {
                mk(Opcode::AddHLSP, 1, 8)
            } else {
                mk(Opcode::AddHLR16(pair(p)), 1, 8)
            }
        } else {
            if p == 3 {
                mk(Opcode::LdSPN16, 3, 12)
            } else {
                mk(Opcode::LdR16N16(pair(p)), 3, 12)
            }
        },
        2 => match y {
            0 => mk(Opcode::LdPtrR16A(R16::BC), 1, 8),
            1 => mk(Opcode::LdAPtrR16(R16::BC), 1, 8),
            2 => mk(Opcode::LdPtrR16A(R16::DE), 1, 8),
            3 => mk(Opcode::LdAPtrR16(R16::DE), 1, 8),
            4 => mk(Opcode::LdPtrHLIncA, 1, 8),
            5 => mk(Opcode::LdAPtrHLInc, 1, 8),
            6 => mk(Opcode::LdPtrHLDecA, 1, 8),
            _ => mk(Opcode::LdAPtrHLDec, 1, 8),
        },
        3 => if odd {
            if p == 3 {
                mk(Opcode::DecSP, 1, 8)
            } else {
                mk(Opcode::DecR16(pair(p)), 1, 8)
            }
        } else {
            if p == 3 {
                mk(Opcode::IncSP, 1, 8)
            } else {
                mk(Opcode::IncR16(pair(p)), 1, 8)
            }
        },
        4 => mk(Opcode::IncR8(operand(y)), 1, if y == 6 { 12 } else { 4 }),
        5 => mk(Opcode::DecR8(operand(y)), 1, if y == 6 { 12 } else { 4 }),
        6 => mk(Opcode::LdR8N8(operand(y)), 2, if y == 6 { 12 } else { 8 }),
        _ => match y {
            0 => mk(Opcode::RlcA, 1, 4),
            1 => mk(Opcode::RrcA, 1, 4),
            2 => mk(Opcode::RlA, 1, 4),
            3 => mk(Opcode::RrA, 1, 4),
            4 => mk(Opcode::Daa, 1, 4),
            5 => mk(Opcode::Cpl, 1, 4),
            6 => mk(Opcode::Scf, 1, 4),
            _ => mk(Opcode::Ccf, 1, 4),
        },
    }
}

fn decode_high(y: u8, z: u8) -> (r: OpcodeEntry)
    requires
        y < 8,
        z < 8,
    ensures
        r == base_table((0xC0 + y * 8 + z) as u8),
        base_shape(r),
        r.opcode == Opcode::Prefix <==> y == 1 && z == 3,
{
    reveal(base_table);
    let p: u8 = y / 2;
    let odd = y % 2 == 1;
    match z {
        0 => match y {
            4 => mk(Opcode::LDHPtrN8A, 2, 12),
            5 => mk(Opcode::AddSPe8, 2, 8),
            6 => mk(Opcode::LDHAPtrN8, 2, 12),
            7 => mk(Opcode::LdHLSPe8, 2, 12),
            _ => mk(Opcode::RetCC(condition(y)), 1, 8),
        },
        1 => if odd {
            match p {
                0 => mk(Opcode::Ret, 1, 16),
                1 => mk(Opcode::RetI, 1, 16),
                2 => mk(Opcode::JpHL, 1, 4),
                _ => mk(Opcode::LdSPHL, 1, 8),
            }
        } else {
            if p == 3 {
                mk(Opcode::PopAF, 1, 12)
            } else {
                mk(Opcode::PopR16(pair(p)), 1, 12)
            }
        },
        2 => match y {
            4 => mk(Opcode::LdHAPtrC, 1, 8),
            5 => mk(Opcode::LdPtrN16A, 3, 16),
            6 => mk(Opcode::LdHAPtrC, 1, 8),
            7 => mk(Opcode::LdAPtrN16, 3, 16),
            _ => mk(Opcode::JpCCN16(condition(y)), 3, 12),
        },
        3 => match y {
            0 => mk(Opcode::JpN16, 3, 16),
            1 => mk(Opcode::Prefix, 1, 4),
            6 => mk(Opcode::Di, 1, 4),
            7 => mk(Opcode::Ei, 1, 4),
            _ => mk(Opcode::Undefined, 1, 4),
        },
        4 => if y < 4 {
            mk(Opcode::CallCCN16(condition(y)), 3, 12)
        } else {
            mk(Opcode::Undefined, 1, 4)
        },
        5 => if odd {
            if p == 0 {
                mk(Opcode::CallN16, 3, 24)
            } else {
                mk(Opcode::Undefined, 1, 4)
            }
        } else {
            if p == 3 {
                mk(Opcode::PushAF, 1, 16)
            } else {
                mk(Opcode::PushR16(pair(p)), 1, 16)
            }
        },
        6 => match y {
            0 => mk(Opcode::AddAN8, 2, 16),
            1 => mk(Opcode::AdcAN8, 2, 8),
            2 => mk(Opcode::SubAN8, 2, 8),
            3 => mk(Opcode::SbcAN8, 2, 8),
            4 => mk(Opcode::AndAN8, 2, 8),
            5 => mk(Opcode::XorAN8, 2, 8),
            6 => mk(Opcode::OrAN8, 2, 8),
            _ => mk(Opcode::CpAN8, 2, 8),
        },
        _ => mk(Opcode::Rst(y * 8), 1, 16),
    }
}

fn decode_load(y: u8, z: u8) -> (r: OpcodeEntry)
    requires
        y < 8,
        z < 8,
    ensures
        r == base_table((0x40 + y * 8 + z) as u8),
        base_shape(r),
        r.opcode != Opcode::Prefix,
{
    reveal(base_table);
    if y == 6 && z == 6 {
        mk(Opcode::Halt, 1, 4)
    } else {
        mk(Opcode::LdR8R8(operand(y), operand(z)), 1, if y == 6 || z == 6 { 8 } else { 4 })
    }
}

fn decode_alu(y: u8, z: u8) -> (r: OpcodeEntry)
    requires
        y < 8,
        z < 8,
    ensures
        r == base_table((0x80 + y * 8 + z) as u8),
        base_shape(r),
        r.opcode != Opcode::Prefix,
{
    reveal(base_table);
    let src = operand(z);
    let cycles: u8 = if z == 6 { 8 } else { 4 };
    match y {
        0 => mk(Opcode::AddAR8(src), 1, cycles),
        1 => mk(Opcode::AdcAR8(src), 1, cycles),
        2 => mk(Opcode::SubAR8(src), 1, cycles),
        3 => mk(Opcode::SbcAR8(src), 1, cycles),
        4 => mk(Opcode::AndAR8(src), 1, cycles),
        5 => mk(Opcode::XorAR8(src), 1, cycles),
        6 => mk(Opcode::OrAR8(src), 1, cycles),
        _ => mk(Opcode::CpAR8(src), 1, cycles),
    }
}

/// The entry of the base table for `byte`. Every byte has one: the eleven
/// bytes that name no instruction decode to `Undefined`, one byte long and
/// four cycles, and `0xCB` decodes to the `Prefix` marker.
pub fn decode(byte: u8) -> (r: OpcodeEntry)
    ensures
        r == base_table(byte),
        base_shape(r),
        byte == 0xCB <==> r.opcode == Opcode::Prefix,
{
    assert(byte == (byte / 64) * 64 + (byte / 8 % 8) * 8 + byte % 8);
    let y: u8 = byte / 8 % 8;
    let z: u8 = byte % 8;
    match byte / 64 {
        0 => decode_low(y, z),
        1 => decode_load(y, z),
        2 => decode_alu(y, z),
        _ => decode_high(y, z),
    }
}

fn decode_rotate(y: u8, z: u8) -> (r: OpcodeEntry)
    requires
        y < 8,
        z < 8,
    ensures
        r == cb_table((y * 8 + z) as u8),
        cb_shape(r, z),
{
    reveal(cb_table);
    let reg = operand(z);
    let cycles: u8 = if z == 6 { 16 } else { 8 };
    match y {
        0 => mk(Opcode::RlcR8(reg), 2, cycles),
        1 => mk(Opcode::RrcR8(reg), 2, cycles),
        2 => mk(Opcode::RlR8(reg), 2, cycles),
        3 => mk(Opcode::RrR8(reg), 2, cycles),
        4 => mk(Opcode::SlaR8(reg), 2, cycles),
        5 => mk(Opcode::SraR8(reg), 2, cycles),
        6 => mk(Opcode::SwapR8(reg), 2, cycles),
        _ => mk(Opcode::SrlR8(reg), 2, cycles),
    }
}

fn decode_bit_op(x: u8, y: u8, z: u8) -> (r: OpcodeEntry)
    requires
        1 <= x <= 3,
        y < 8,
        z < 8,
    ensures
        r == cb_table((x * 64 + y * 8 + z) as u8),
        cb_shape(r, z),
{
    reveal(cb_table);
    let reg = operand(z);
    let cycles: u8 = if z == 6 { 16 } else { 8 };
    match x {
        1 => mk(Opcode::Bit(y, reg), 2, cycles),
        2 => mk(Opcode::Res(y, reg), 2, cycles),
        _ => mk(Opcode::SetBit(y, reg), 2, cycles),
    }
}

/// The entry of the CB-prefixed table for `byte`: a rotate, shift or swap
/// for the first quarter, then `BIT`, `RES` and `SET` with the bit number in
/// the middle field. Every entry is two bytes long.
pub fn decode_cb(byte: u8) -> (r: OpcodeEntry)
    ensures
        r == cb_table(byte),
        cb_shape(r, byte % 8),
{
    assert(byte == (byte / 64) * 64 + (byte / 8 % 8) * 8 + byte % 8);
    let y: u8 = byte / 8 % 8;
    let z: u8 = byte % 8;
    match byte / 64 {
        0 => decode_rotate(y, z),
        1 => decode_bit_op(1, y, z),
        2 => decode_bit_op(2, y, z),
        _ => decode_bit_op(3, y, z),
    }
}

/// Byte `0x00` is `NOP`, one byte long and four cycles; byte `0xCB` is the
/// prefix marker.
pub proof fn lemma_nop_and_prefix()
    ensures
        base_table(0x00) == entry(Opcode::Nop, 1, 4),
        base_table(0xCB) == entry(Opcode::Prefix, 1, 4),
{
    reveal(base_table);
}

} // verus!
