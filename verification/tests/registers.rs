use dmg_core::cpu::registers::{Flags, Registers};

#[test]
fn test_af_register() {
    let mut registers = Registers::new();
    registers.a = 0xAB;
    registers.f = 0xCD;
    assert_eq!(registers.af(), 0xABCD);
}

#[test]
fn test_bc_register() {
    let mut registers = Registers::new();
    registers.b = 0x12;
    registers.c = 0x34;
    assert_eq!(registers.bc(), 0x1234);
}

#[test]
fn test_de_register() {
    let mut registers = Registers::new();
    registers.d = 0x56;
    registers.e = 0x78;
    assert_eq!(registers.de(), 0x5678);
}

#[test]
fn test_hl_register() {
    let mut registers = Registers::new();
    registers.h = 0x9A;
    registers.l = 0xBC;
    assert_eq!(registers.hl(), 0x9ABC);
}

#[test]
fn test_set_af_register() {
    let mut registers = Registers::new();
    registers.set_af(0xABCD);
    assert_eq!(registers.a, 0xAB);
    assert_eq!(registers.f, 0xC0);
}

#[test]
fn test_set_bc_register() {
    let mut registers = Registers::new();
    registers.set_bc(0x1234);
    assert_eq!(registers.b, 0x12);
    assert_eq!(registers.c, 0x34);
}

#[test]
fn test_set_de_register() {
    let mut registers = Registers::new();
    registers.set_de(0x5678);
    assert_eq!(registers.d, 0x56);
    assert_eq!(registers.e, 0x78);
}

#[test]
fn test_set_hl_register() {
    let mut registers = Registers::new();
    registers.set_hl(0x9ABC);
    assert_eq!(registers.h, 0x9A);
    assert_eq!(registers.l, 0xBC);
}

#[test]
fn test_set_flags() {
    let mut registers = Registers::new();
    registers.set_flags(true, false, false, true);
    assert_eq!(registers.f, 0b1001_0000);
}

#[test]
fn test_get_flag_set() {
    let mut registers = Registers::new();
    registers.set_flags(false, false, true, false);
    assert_eq!(registers.get_flag(Flags::H), Flags::H.bit());
    assert_eq!(registers.get_flag(Flags::Z), 0);
}

#[test]
fn test_get_flag_clear() {
    let mut registers = Registers::new();
    registers.set_flags(false, true, false, false);
    assert_eq!(registers.get_flag(Flags::N), Flags::N.bit());
}

#[test]
fn test_multiple_flag_operations() {
    let mut registers = Registers::new();
    registers.set_flags(true, true, true, true);
    assert_eq!(registers.get_flag(Flags::Z), Flags::Z.bit());
    assert_eq!(registers.get_flag(Flags::N), Flags::N.bit());
}

#[test]
fn test_reset_to_dmg_state() {
    let mut registers = Registers::new();
    registers.a = 0xFF;
    registers.f = 0xFF;
    registers.b = 0xFF;
    registers.c = 0xFF;
    registers.d = 0xFF;
    registers.e = 0xFF;
    registers.h = 0xFF;
    registers.l = 0xFF;
    registers.sp = 0x0000;
    registers.pc = 0x0000;

    registers.reset();

    assert_eq!(registers.af(), 0x01B0);
    assert_eq!(registers.bc(), 0x0013);
    assert_eq!(registers.de(), 0x00D8);
    assert_eq!(registers.hl(), 0x014D);
    assert_eq!(registers.sp, 0xFFFE);
    assert_eq!(registers.pc, 0x0100);
}

#[test]
fn test_set_flag_method() {
    let mut registers = Registers::new();
    registers.set_flag(Flags::Z, true);
    assert_eq!(registers.get_flag(Flags::Z), Flags::Z.bit());
    registers.set_flag(Flags::Z, false);
    assert_eq!(registers.get_flag(Flags::Z), 0);
}

#[test]
fn flag_masks_and_is_set() {
    assert_eq!(Flags::Z.bit(), 0x80);
    assert_eq!(Flags::N.bit(), 0x40);
    assert_eq!(Flags::H.bit(), 0x20);
    assert_eq!(Flags::C.bit(), 0x10);
    let mut registers = Registers::new();
    registers.set_flag(Flags::C, true);
    registers.set_flag(Flags::H, true);
    assert_eq!(registers.f, 0x30);
    assert!(registers.is_set(Flags::C));
    assert!(!registers.is_set(Flags::Z));
    registers.set_flag(Flags::H, false);
    assert_eq!(registers.f, 0x10);
}

#[test]
fn new_registers_power_on_values() {
    let r = Registers::new();
    assert_eq!((r.a, r.f, r.b, r.c, r.d, r.e, r.h, r.l), (0, 0, 0, 0, 0, 0, 0, 0));
    assert_eq!(r.sp, 0xFFFE);
    assert_eq!(r.pc, 0x0100);
}
