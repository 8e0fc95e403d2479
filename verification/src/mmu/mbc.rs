//! Memory bank controllers: how a cartridge maps the CPU's ROM and RAM
//! windows onto its own storage.

use vstd::prelude::*;
use vstd::string::StringExecFns;
use crate::bits::lemma_mask_bits;

verus! {

/// The controller families a cartridge header can name.
#[derive(Clone, Copy, Debug, PartialEq, Eq, Structural)]
pub enum Mbcs {
    NoMbc,
    Mbc1,
    Mbc2,
    Mbc3,
    Mbc5,
}

/// The byte at `index` of a buffer, or the open-bus value `0xFF` beyond it.
pub open spec fn byte_or_open(buf: Seq<u8>, index: int) -> u8 {
    if 0 <= index < buf.len() {
        buf[index]
    } else {
        0xFF
    }
}

/// The buffer with the byte at `index` replaced; unchanged beyond its end.
pub open spec fn store_within(buf: Seq<u8>, index: int, value: u8) -> Seq<u8> {
    if 0 <= index < buf.len() {
        buf.update(index, value)
    } else {
        buf
    }
}

pub fn fetch(buf: &[u8], index: usize) -> (r: u8)
    ensures
        r == byte_or_open(buf@, index as int),
{
    if index < buf.len() {
        buf[index]
    } else {
        0xFF
    }
}

pub fn store(buf: &mut Vec<u8>, index: usize, value: u8)
    ensures
        final(buf)@ == store_within(old(buf)@, index as int, value),
{
    if index < buf.len() {
        buf[index] = value;
    }
}

#[derive(Clone, Copy, Debug, PartialEq, Eq, Structural)]
pub struct NoMbc {}

impl NoMbc {
    pub fn new() -> (r: Self)
        ensures
            r == (NoMbc {  }),
    {
        Self {  }
    }
}

#[derive(Clone, Copy, Debug, PartialEq, Eq, Structural)]
pub struct Mbc2 {}

impl Mbc2 {
    pub fn new() -> (r: Self)
        ensures
            r == (Mbc2 {  }),
    {
        Self {  }
    }
}

#[derive(Clone, Copy, Debug, PartialEq, Eq, Structural)]
pub struct Mbc3 {}

impl Mbc3 {
    pub fn new() -> (r: Self)
        ensures
            r == (Mbc3 {  }),
    {
        Self {  }
    }
}

#[derive(Clone, Copy, Debug, PartialEq, Eq, Structural)]
pub struct Mbc5 {}

impl Mbc5 {
    pub fn new() -> (r: Self)
        ensures
            r == (Mbc5 {  }),
    {
        Self {  }
    }
}

#[derive(Clone, Copy, Debug, PartialEq, Eq, Structural)]
pub struct Mbc1 {
    /// The RAM-enable latch.
    pub ram_enabled: bool,
    /// The low five bits of the ROM bank; never written as zero.
    pub rom_bank_low: u8,
    /// The two-bit secondary register: high ROM bank bits or the RAM bank.
    pub rom_bank_high: u8,
    /// The one-bit banking mode.
    pub mode: u8,
}

impl Mbc1 {
    /// The ROM bank mapped at `0x4000..=0x7FFF`: the low register joined with
    /// the secondary register in mode 0, the low register alone in mode 1,
    /// and never a bank whose low five bits are zero.
    pub open spec fn rom_bank(&self) -> int {
        let low = self.rom_bank_low % 32;
        let bank = if self.mode % 2 == 0 {
            low + 32 * (self.rom_bank_high % 4)
        } else {
            low as int
        };
        if bank % 32 == 0 {
            bank + 1
        } else {
            bank
        }
    }

    /// The RAM bank mapped at `0xA000..=0xBFFF`.
    pub open spec fn ram_bank(&self) -> int {
        if self.mode % 2 == 1 {
            (self.rom_bank_high % 4) as int
        } else {
            0
        }
    }

    pub open spec fn rom_byte(&self, rom: Seq<u8>, addr: u16) -> u8 {
        if addr < 0x4000 {
            byte_or_open(rom, addr as int)
        } else if addr < 0x8000 {
            byte_or_open(rom, self.rom_bank() * 0x4000 + (addr - 0x4000))
        } else {
            0xFF
        }
    }

    /// The index into cartridge RAM that `addr` names, if RAM is enabled and
    /// `addr` lies in the RAM window.
    pub open spec fn ram_index(&self, addr: u16) -> Option<int> {
        if self.ram_enabled && 0xA000 <= addr < 0xC000 {
            Some(self.ram_bank() * 0x2000 + (addr - 0xA000))
        } else {
            None
        }
    }

    /// The controller after a write to its control registers.
    pub open spec fn after_control(self, addr: u16, value: u8) -> Mbc1 {
        if addr < 0x2000 {
            Mbc1 { ram_enabled: value % 16 == 0x0A, ..self }
        } else if addr < 0x4000 {
            Mbc1 { rom_bank_low: if value % 32 == 0 { 1 } else { value % 32 }, ..self }
        } else if addr < 0x6000 {
            Mbc1 { rom_bank_high: value % 4, ..self }
        } else if addr < 0x8000 {
            Mbc1 { mode: value % 2, ..self }
        } else {
            self
        }
    }

    pub fn new() -> (r: Self)
        ensures
            r == (Mbc1 { ram_enabled: false, rom_bank_low: 1, rom_bank_high: 0, mode: 0 }),
            r.rom_bank() == 1,
    {
        Self { ram_enabled: false, rom_bank_low: 1, rom_bank_high: 0, mode: 0 }
    }

    pub fn get_rom_bank(&self) -> (r: u8)
        ensures
            r == self.rom_bank(),
            r % 32 != 0,
    {
        let low = self.rom_bank_low & 0x1F;
        let high = self.rom_bank_high & 0x03;
        proof {
            lemma_mask_bits(self.rom_bank_low);
            lemma_mask_bits(self.rom_bank_high);
            lemma_mask_bits(self.mode);
        }
        let bank: u8 = if self.mode & 0x01 == 0 {
            low + 32 * high
        } else {
            low
        };
        if bank % 32 == 0 {
            bank + 1
        } else {
            bank
        }
    }

    pub fn get_ram_bank(&self) -> (r: u8)
        ensures
            r == self.ram_bank(),
            r < 4,
    {
        proof {
            lemma_mask_bits(self.rom_bank_high);
            lemma_mask_bits(self.mode);
        }
        if self.mode & 0x01 == 1 {
            self.rom_bank_high & 0x03
        } else {
            0
        }
    }

    pub fn read_rom(&self, rom: &[u8], addr: u16) -> (r: u8)
        ensures
            r == self.rom_byte(rom@, addr),
    {
        if addr < 0x4000 {
            fetch(rom, addr as usize)
        } else if addr < 0x8000 {
            let bank = self.get_rom_bank();
            fetch(rom, (bank as usize) * 0x4000 + (addr as usize - 0x4000))
        } else {
            0xFF
        }
    }

    pub fn write_rom(&mut self, addr: u16, value: u8)
        ensures
            *final(self) == old(self).after_control(addr, value),
    {
        proof {
            lemma_mask_bits(value);
        }
        if addr < 0x2000 {
            self.ram_enabled = (value & 0x0F) == 0x0A;
        } else if addr < 0x4000 {
            self.rom_bank_low = value & 0x1F;
            if self.rom_bank_low == 0 {
                self.rom_bank_low = 1;
            }
        } else if addr < 0x6000 {
            self.rom_bank_high = value & 0x03;
        } else if addr < 0x8000 {
            self.mode = value & 0x01;
        }
    }

    pub fn read_ram(&self, ram: &[u8], addr: u16) -> (r: u8)
        ensures
            r == (match self.ram_index(addr) {
                Some(i) => byte_or_open(ram@, i),
                None => 0xFF,
            }),
    {
        if !self.ram_enabled || addr < 0xA000 || addr >= 0xC000 {
            return 0xFF;
        }
        let bank = self.get_ram_bank();
        fetch(ram, (bank as usize) * 0x2000 + (addr as usize - 0xA000))
    }

    pub fn write_ram(&self, ram: &mut Vec<u8>, addr: u16, value: u8)
        ensures
            final(ram)@ == (match self.ram_index(addr) {
                Some(i) => store_within(old(ram)@, i, value),
                None => old(ram)@,
            }),
    {
        if !self.ram_enabled || addr < 0xA000 || addr >= 0xC000 {
            return ;
        }
        let bank = self.get_ram_bank();
        store(ram, (bank as usize) * 0x2000 + (addr as usize - 0xA000), value);
    }
}

/// The bank controller of a cartridge: one of the five families.
#[derive(Clone, Copy, Debug, PartialEq, Eq, Structural)]
pub enum Mbc {
    NoMbc(NoMbc),
    Mbc1(Mbc1),
    Mbc2(Mbc2),
    Mbc3(Mbc3),
    Mbc5(Mbc5),
}

impl Mbc {
    /// The byte read at `addr` in the ROM window.
    pub open spec fn rom_byte(&self, rom: Seq<u8>, addr: u16) -> u8 {
        match self {
            Mbc::NoMbc(_) => if addr < 0x8000 {
                byte_or_open(rom, addr as int)
            } else {
                0xFF
            },
            Mbc::Mbc1(m) => m.rom_byte(rom, addr),
            _ => byte_or_open(rom, addr as int),
        }
    }

    /// The controller after a write to the ROM window. A write there never
    /// changes the ROM: it reaches the controller's registers, and only the
    /// MBC1 has any.
    pub open spec fn after_control(self, addr: u16, value: u8) -> Mbc {
        match self {
            Mbc::Mbc1(m) => Mbc::Mbc1(m.after_control(addr, value)),
            _ => self,
        }
    }

    /// The byte read at `addr` in the cartridge RAM window.
    pub open spec fn ram_byte(&self, ram: Seq<u8>, addr: u16) -> u8 {
        match self {
            Mbc::NoMbc(_) => if 0xA000 <= addr < 0xC000 {
                byte_or_open(ram, addr - 0xA000)
            } else {
                0xFF
            },
            Mbc::Mbc1(m) => match m.ram_index(addr) {
                Some(i) => byte_or_open(ram, i),
                None => 0xFF,
            },
            _ => byte_or_open(ram, addr as int),
        }
    }

    /// The cartridge RAM after a write at `addr`.
    pub open spec fn ram_after_write(&self, ram: Seq<u8>, addr: u16, value: u8) -> Seq<u8> {
        match self {
            Mbc::NoMbc(_) => if 0xA000 <= addr < 0xC000 {
                store_within(ram, addr - 0xA000, value)
            } else {
                ram
            },
            Mbc::Mbc1(m) => match m.ram_index(addr) {
                Some(i) => store_within(ram, i, value),
                None => ram,
            },
            _ => ram,
        }
    }

    pub open spec fn spec_name(&self) -> Seq<char> {
        match self {
            Mbc::NoMbc(_) => "NoMbc"@,
            Mbc::Mbc1(_) => "Mbc1"@,
            Mbc::Mbc2(_) => "Mbc2"@,
            Mbc::Mbc3(_) => "Mbc3"@,
            Mbc::Mbc5(_) => "Mbc5"@,
        }
    }

    /// A fresh controller of the given family.
    pub fn new(kind: Mbcs) -> (r: Self)
        ensures
            r == (match kind {
                Mbcs::NoMbc => Mbc::NoMbc(NoMbc {  }),
                Mbcs::Mbc1 => Mbc::Mbc1(
                    Mbc1 { ram_enabled: false, rom_bank_low: 1, rom_bank_high: 0, mode: 0 },
                ),
                Mbcs::Mbc2 => Mbc::Mbc2(Mbc2 {  }),
                Mbcs::Mbc3 => Mbc::Mbc3(Mbc3 {  }),
                Mbcs::Mbc5 => Mbc::Mbc5(Mbc5 {  }),
            }),
    {
        match kind {
            Mbcs::NoMbc => Mbc::NoMbc(NoMbc::new()),
            Mbcs::Mbc1 => Mbc::Mbc1(Mbc1::new()),
            Mbcs::Mbc2 => Mbc::Mbc2(Mbc2::new()),
            Mbcs::Mbc3 => Mbc::Mbc3(Mbc3::new()),
            Mbcs::Mbc5 => Mbc::Mbc5(Mbc5::new()),
        }
    }

    pub fn read_rom(&self, rom: &[u8], addr: u16) -> (r: u8)
        ensures
            r == self.rom_byte(rom@, addr),
    {
        match self {
            Mbc::NoMbc(_) => if addr < 0x8000 {
                fetch(rom, addr as usize)
            } else {
                0xFF
            },
            Mbc::Mbc1(m) => m.read_rom(rom, addr),
            _ => fetch(rom, addr as usize),
        }
    }

    pub fn write_rom(&mut self, rom: &[u8], addr: u16, value: u8)
        ensures
            *final(self) == old(self).after_control(addr, value),
    {
        match self {
            Mbc::Mbc1(m) => {
                m.write_rom(addr, value);
            },
            _ => {},
        }
    }

    pub fn read_ram(&self, ram: &[u8], addr: u16) -> (r: u8)
        ensures
            r == self.ram_byte(ram@, addr),
    {
        match self {
            Mbc::NoMbc(_) => if 0xA000 <= addr && addr < 0xC000 {
                fetch(ram, (addr - 0xA000) as usize)
            } else {
                0xFF
            },
            Mbc::Mbc1(m) => m.read_ram(ram, addr),
            _ => fetch(ram, addr as usize),
        }
    }

    pub fn write_ram(&mut self, ram: &mut Vec<u8>, addr: u16, value: u8)
        ensures
            *final(self) == *old(self),
            final(ram)@ == old(self).ram_after_write(old(ram)@, addr, value),
    {
        match self {
            Mbc::NoMbc(_) => if 0xA000 <= addr && addr < 0xC000 {
                store(ram, (addr - 0xA000) as usize, value);
            },
            Mbc::Mbc1(m) => {
                m.write_ram(ram, addr, value);
            },
            _ => {},
        }
    }

    /// The family's name.
    pub fn name(&self) -> (r: String)
        ensures
            r@ == self.spec_name(),
    {
        match self {
            Mbc::NoMbc(_) => String::from_str("NoMbc"),
            Mbc::Mbc1(_) => String::from_str("Mbc1"),
            Mbc::Mbc2(_) => String::from_str("Mbc2"),
            Mbc::Mbc3(_) => String::from_str("Mbc3"),
            Mbc::Mbc5(_) => String::from_str("Mbc5"),
        }
    }
}

/// Writing zero to the MBC1's low ROM bank register selects bank 1: the
/// controller is left exactly as a write of one leaves it, so every read in
/// `0x4000..=0x7FFF` yields the same byte either way.
pub proof fn lemma_mbc1_bank_zero_is_one(m: Mbc1, reg: u16, rom: Seq<u8>, addr: u16)
    requires
        0x2000 <= reg <= 0x3FFF,
        0x4000 <= addr <= 0x7FFF,
    ensures
        m.after_control(reg, 0x00) == m.after_control(reg, 0x01),
        m.after_control(reg, 0x00).rom_byte(rom, addr) == m.after_control(reg, 0x01).rom_byte(
            rom,
            addr,
        ),
        Mbc::Mbc1(m).after_control(reg, 0x00).rom_byte(rom, addr) == Mbc::Mbc1(m).after_control(
            reg,
            0x01,
        ).rom_byte(rom, addr),
        m.after_control(reg, 0x00).rom_bank() % 32 == 1,
{
}

} // verus!
