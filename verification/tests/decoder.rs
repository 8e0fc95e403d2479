use dmg_core::cpu::decoder::{decode, decode_cb, Opcode, OpcodeEntry, CC, R16, R8};

#[test]
fn decode_nop_entry() {
    let entry = decode(0x00);
    assert!(matches!(
        entry,
        OpcodeEntry {
            opcode: Opcode::Nop,
            length: 1,
            cycles: 4
        }
    ));
}

#[test]
fn decode_prefix_and_cb_table_entries() {
    let pref = decode(0xCB);
    assert!(matches!(
        pref,
        OpcodeEntry {
            opcode: Opcode::Prefix,
            length: 1,
            cycles: 4
        }
    ));

    assert!(matches!(
        decode_cb(0x07),
        OpcodeEntry {
            opcode: Opcode::RlcR8(R8::A),
            length: 2,
            cycles: 8
        }
    ));

    assert!(matches!(
        decode_cb(0x06),
        OpcodeEntry {
            opcode: Opcode::RlcR8(R8::HLIndirect),
            length: 2,
            cycles: 16
        }
    ));

    assert!(matches!(
        decode_cb(0x47),
        OpcodeEntry {
            opcode: Opcode::Bit(0, R8::A),
            length: 2,
            cycles: 8
        }
    ));
}

#[test]
fn decode_loads_and_halt() {
    let e2 = decode(0x22);
    assert!(matches!(
        e2,
        OpcodeEntry {
            opcode: Opcode::LdPtrHLIncA,
            length: 1,
            cycles: 8
        }
    ));

    let halt = decode(0x76);
    assert!(matches!(
        halt,
        OpcodeEntry {
            opcode: Opcode::Halt,
            length: 1,
            cycles: 4
        }
    ));
}

#[test]
fn decode_alu_and_misc() {
    let add_hl = decode(0x86);
    assert!(matches!(
        add_hl,
        OpcodeEntry {
            opcode: Opcode::AddAR8(R8::HLIndirect),
            length: 1,
            cycles: 8
        }
    ));

    let jp = decode(0xC3);
    assert!(matches!(
        jp,
        OpcodeEntry {
            opcode: Opcode::JpN16,
            length: 3,
            cycles: 16
        }
    ));

    let e2 = decode(0xE2);
    assert!(matches!(
        e2,
        OpcodeEntry {
            opcode: Opcode::LdHAPtrC,
            length: 1,
            cycles: 8
        }
    ));
}

#[test]
fn decode_is_total_and_well_shaped() {
    let mut undefined = 0;
    for byte in 0..=255u8 {
        let e = decode(byte);
        assert!(e.length >= 1 && e.length <= 3);
        assert!(e.cycles >= 4 && e.cycles <= 24);
        if e.opcode == Opcode::Undefined {
            undefined += 1;
            assert_eq!((e.length, e.cycles), (1, 4));
        }
        assert_eq!(e.opcode == Opcode::Prefix, byte == 0xCB);
        let cb = decode_cb(byte);
        assert_eq!(cb.length, 2);
        assert_eq!(cb.cycles, if byte % 8 == 6 { 16 } else { 8 });
    }
    assert_eq!(undefined, 11);
}

#[test]
fn decode_samples_across_the_table() {
    assert_eq!(decode(0x01), OpcodeEntry { opcode: Opcode::LdR16N16(R16::BC), length: 3, cycles: 12 });
    assert_eq!(decode(0x20), OpcodeEntry { opcode: Opcode::JrCCE8(CC::NZ), length: 2, cycles: 8 });
    assert_eq!(decode(0x31), OpcodeEntry { opcode: Opcode::LdSPN16, length: 3, cycles: 12 });
    assert_eq!(decode(0x36), OpcodeEntry { opcode: Opcode::LdR8N8(R8::HLIndirect), length: 2, cycles: 12 });
    assert_eq!(decode(0x41), OpcodeEntry { opcode: Opcode::LdR8R8(R8::B, R8::C), length: 1, cycles: 4 });
    assert_eq!(decode(0xA7), OpcodeEntry { opcode: Opcode::AndAR8(R8::A), length: 1, cycles: 4 });
    assert_eq!(decode(0xC6), OpcodeEntry { opcode: Opcode::AddAN8, length: 2, cycles: 16 });
    assert_eq!(decode(0xCD), OpcodeEntry { opcode: Opcode::CallN16, length: 3, cycles: 24 });
    assert_eq!(decode(0xD8), OpcodeEntry { opcode: Opcode::RetCC(CC::C), length: 1, cycles: 8 });
    assert_eq!(decode(0xD3), OpcodeEntry { opcode: Opcode::Undefined, length: 1, cycles: 4 });
    assert_eq!(decode(0xF1), OpcodeEntry { opcode: Opcode::PopAF, length: 1, cycles: 12 });
    assert_eq!(decode(0xFF), OpcodeEntry { opcode: Opcode::Rst(0x38), length: 1, cycles: 16 });
    assert_eq!(decode_cb(0x7E), OpcodeEntry { opcode: Opcode::Bit(7, R8::HLIndirect), length: 2, cycles: 16 });
    assert_eq!(decode_cb(0x80), OpcodeEntry { opcode: Opcode::Res(0, R8::B), length: 2, cycles: 8 });
    assert_eq!(decode_cb(0xFF), OpcodeEntry { opcode: Opcode::SetBit(7, R8::A), length: 2, cycles: 8 });
    assert_eq!(decode_cb(0x37), OpcodeEntry { opcode: Opcode::SwapR8(R8::A), length: 2, cycles: 8 });
    assert_eq!(decode_cb(0x3A), OpcodeEntry { opcode: Opcode::SrlR8(R8::D), length: 2, cycles: 8 });
}
