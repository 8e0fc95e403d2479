use dmg_core::mmu::cartridge::{detect_mbc, detect_ram_size, Cartridge, LoadError};
use dmg_core::mmu::mbc::{Mbc, Mbc1, Mbcs};

#[test]
fn test_detect_mbc() {
    let mut rom = vec![0; 0x150];

    rom[0x147] = 0x00;
    assert!(matches!(detect_mbc(&rom).unwrap(), Mbcs::NoMbc));

    for code in 0x01..=0x03 {
        rom[0x147] = code;
        assert!(matches!(detect_mbc(&rom).unwrap(), Mbcs::Mbc1));
    }

    for code in 0x05..=0x06 {
        rom[0x147] = code;
        assert!(matches!(detect_mbc(&rom).unwrap(), Mbcs::Mbc2));
    }

    for code in 0x0F..=0x13 {
        rom[0x147] = code;
        assert!(matches!(detect_mbc(&rom).unwrap(), Mbcs::Mbc3));
    }

    for code in 0x19..=0x1E {
        rom[0x147] = code;
        assert!(matches!(detect_mbc(&rom).unwrap(), Mbcs::Mbc5));
    }

    rom[0x147] = 0xFF;
    assert!(detect_mbc(&rom).is_err());
}

#[test]
fn test_detect_ram_size() {
    let mut rom = vec![0; 0x150];

    rom[0x149] = 0x00;
    assert_eq!(detect_ram_size(&rom).unwrap(), 0);

    rom[0x149] = 0x01;
    assert_eq!(detect_ram_size(&rom).unwrap(), 2);

    rom[0x149] = 0x02;
    assert_eq!(detect_ram_size(&rom).unwrap(), 8);

    rom[0x149] = 0x03;
    assert_eq!(detect_ram_size(&rom).unwrap(), 32);

    rom[0x149] = 0x04;
    assert_eq!(detect_ram_size(&rom).unwrap(), 128);

    rom[0x149] = 0x05;
    assert_eq!(detect_ram_size(&rom).unwrap(), 64);

    rom[0x149] = 0xFF;
    assert!(detect_ram_size(&rom).is_err());
}

#[test]
fn load_mbc1_with_8k_ram() {
    let mut rom = vec![0u8; 0x150];
    rom[0x147] = 0x01;
    rom[0x149] = 0x02;
    let cart = Cartridge::new(rom).unwrap();
    assert_eq!(cart.mbc.name(), "Mbc1");
    assert_eq!(cart.ram.len(), 8192);
    assert!(cart.ram.iter().all(|b| *b == 0));
    assert_eq!(cart.rom.len(), 0x150);
}

#[test]
fn load_errors_each_with_its_input() {
    assert_eq!(Cartridge::new(vec![0u8; 0x14F]).err(), Some(LoadError::RomSize));
    assert_eq!(Cartridge::new(Vec::new()).err(), Some(LoadError::RomSize));
    let mut rom = vec![0u8; 0x150];
    rom[0x147] = 0x04;
    assert_eq!(Cartridge::new(rom.clone()).err(), Some(LoadError::MbcType));
    rom[0x147] = 0x00;
    rom[0x149] = 0x06;
    assert_eq!(Cartridge::new(rom.clone()).err(), Some(LoadError::RamSize));
    rom[0x147] = 0x04;
    assert_eq!(Cartridge::new(rom).err(), Some(LoadError::MbcType));
    assert_eq!(LoadError::RomSize.message(), "ROM size invalid!");
    assert_eq!(LoadError::MbcType.message(), "Mbc type invalid!");
    assert_eq!(LoadError::RamSize.message(), "RAM size invalid!");
    assert_eq!(detect_mbc(&vec![0u8; 0x147]).err(), Some(LoadError::RomSize));
    assert_eq!(detect_ram_size(&vec![0u8; 0x149]).err(), Some(LoadError::RomSize));
}

#[test]
fn ram_sizes_in_bytes() {
    for (code, bytes) in [(0u8, 0usize), (1, 2048), (2, 8192), (3, 32768), (4, 131072), (5, 65536)] {
        let mut rom = vec![0u8; 0x150];
        rom[0x149] = code;
        assert_eq!(Cartridge::new(rom).unwrap().ram.len(), bytes);
    }
}

#[test]
fn controller_names() {
    assert_eq!(Mbc::new(Mbcs::NoMbc).name(), "NoMbc");
    assert_eq!(Mbc::new(Mbcs::Mbc1).name(), "Mbc1");
    assert_eq!(Mbc::new(Mbcs::Mbc2).name(), "Mbc2");
    assert_eq!(Mbc::new(Mbcs::Mbc3).name(), "Mbc3");
    assert_eq!(Mbc::new(Mbcs::Mbc5).name(), "Mbc5");
}

fn banked_rom(banks: usize) -> Vec<u8> {
    let mut rom = vec![0u8; banks * 0x4000];
    for bank in 0..banks {
        for i in 0..0x4000 {
            rom[bank * 0x4000 + i] = (bank as u8).wrapping_mul(16).wrapping_add((i % 13) as u8);
        }
    }
    rom
}

#[test]
fn mbc1_bank_zero_reads_as_bank_one() {
    let rom = banked_rom(4);
    let mut zero = Mbc1::new();
    zero.write_rom(0x2000, 0x02);
    zero.write_rom(0x2100, 0x00);
    let mut one = Mbc1::new();
    one.write_rom(0x2000, 0x02);
    one.write_rom(0x3FFF, 0x01);
    assert_eq!(zero, one);
    for addr in [0x4000u16, 0x4001, 0x5ABC, 0x7FFF] {
        assert_eq!(zero.read_rom(&rom, addr), one.read_rom(&rom, addr));
        assert_eq!(zero.read_rom(&rom, addr), rom[0x4000 + (addr as usize - 0x4000)]);
    }
    assert_eq!(zero.get_rom_bank(), 1);
}

#[test]
fn mbc1_banking_and_ram_gate() {
    let rom = banked_rom(8);
    let mut m = Mbc1::new();
    assert_eq!(m.read_rom(&rom, 0x0005), rom[5]);
    m.write_rom(0x2000, 0x03);
    assert_eq!(m.get_rom_bank(), 3);
    assert_eq!(m.read_rom(&rom, 0x4002), rom[3 * 0x4000 + 2]);
    m.write_rom(0x4000, 0x01);
    assert_eq!(m.get_rom_bank(), 0x23);
    assert_eq!(m.read_rom(&rom, 0x4000), 0xFF);
    m.write_rom(0x6000, 0x01);
    assert_eq!(m.get_rom_bank(), 3);
    assert_eq!(m.get_ram_bank(), 1);
    assert_eq!(m.read_rom(&rom, 0x8000), 0xFF);

    let mut ram = vec![0u8; 0x8000];
    m.write_ram(&mut ram, 0xA010, 0x77);
    assert!(ram.iter().all(|b| *b == 0));
    assert_eq!(m.read_ram(&ram, 0xA010), 0xFF);
    m.write_rom(0x0000, 0x1A);
    m.write_ram(&mut ram, 0xA010, 0x77);
    assert_eq!(ram[0x2010], 0x77);
    assert_eq!(m.read_ram(&ram, 0xA010), 0x77);
    m.write_rom(0x1FFF, 0x0B);
    assert_eq!(m.read_ram(&ram, 0xA010), 0xFF);
}

#[test]
fn plain_cartridge_passes_through() {
    let rom = banked_rom(2);
    let mut mbc = Mbc::new(Mbcs::NoMbc);
    assert_eq!(mbc.read_rom(&rom, 0x7FFF), rom[0x7FFF]);
    assert_eq!(mbc.read_rom(&rom[..0x100], 0x0100), 0xFF);
    mbc.write_rom(&rom, 0x2000, 0x05);
    assert_eq!(mbc, Mbc::new(Mbcs::NoMbc));
    let mut ram = vec![0u8; 0x2000];
    mbc.write_ram(&mut ram, 0xA123, 0x5A);
    assert_eq!(ram[0x123], 0x5A);
    assert_eq!(mbc.read_ram(&ram, 0xA123), 0x5A);
    assert_eq!(mbc.read_ram(&ram, 0x9FFF), 0xFF);
    let mut small = vec![0u8; 4];
    mbc.write_ram(&mut small, 0xA004, 1);
    assert_eq!(small, vec![0u8; 4]);
    assert_eq!(mbc.read_ram(&small, 0xA004), 0xFF);
}
