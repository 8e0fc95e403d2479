//! The cartridge: its ROM image, its RAM, and the bank controller that the
//! ROM header names.

use vstd::prelude::*;
use vstd::string::StringExecFns;
use crate::mmu::mbc::{Mbc, Mbcs};

verus! {

/// Why a ROM image was rejected.
#[derive(Clone, Copy, Debug, PartialEq, Eq, Structural)]
pub enum LoadError {
    /// The image is shorter than its own header.
    RomSize,
    /// The header names no known bank controller.
    MbcType,
    /// The header names no known RAM size.
    RamSize,
}

impl LoadError {
    pub open spec fn spec_message(&self) -> Seq<char> {
        match self {
            LoadError::RomSize => "ROM size invalid!"@,
            LoadError::MbcType => "Mbc type invalid!"@,
            LoadError::RamSize => "RAM size invalid!"@,
        }
    }

    /// The reason in words.
    pub fn message(&self) -> (r: String)
        ensures
            r@ == self.spec_message(),
    {
        match self {
            LoadError::RomSize => String::from_str("ROM size invalid!"),
            LoadError::MbcType => String::from_str("Mbc type invalid!"),
            LoadError::RamSize => String::from_str("RAM size invalid!"),
        }
    }
}

/// The smallest image that holds a whole header.
pub const HEADER_END: usize = 0x150;

/// The controller family that the header byte `code` names.
pub open spec fn mbc_of(code: u8) -> Option<Mbcs> {
    if code == 0x00 {
        Some(Mbcs::NoMbc)
    } else if 0x01 <= code <= 0x03 {
        Some(Mbcs::Mbc1)
    } else if 0x05 <= code <= 0x06 {
        Some(Mbcs::Mbc2)
    } else if 0x0F <= code <= 0x13 {
        Some(Mbcs::Mbc3)
    } else if 0x19 <= code <= 0x1E {
        Some(Mbcs::Mbc5)
    } else {
        None
    }
}

/// The RAM size in KiB that the header byte `code` names.
pub open spec fn ram_kib_of(code: u8) -> Option<usize> {
    if code == 0x00 {
        Some(0)
    } else if code == 0x01 {
        Some(2)
    } else if code == 0x02 {
        Some(8)
    } else if code == 0x03 {
        Some(32)
    } else if code == 0x04 {
        Some(128)
    } else if code == 0x05 {
        Some(64)
    } else {
        None
    }
}

/// Reads the controller family from header byte `0x147`.
pub fn detect_mbc(rom: &Vec<u8>) -> (r: Result<Mbcs, LoadError>)
    ensures
        rom.len() <= 0x147 ==> r == Err::<Mbcs, LoadError>(LoadError::RomSize),
        rom.len() > 0x147 ==> r == (match mbc_of(rom[0x147]) {
            Some(kind) => Ok::<Mbcs, LoadError>(kind),
            None => Err(LoadError::MbcType),
        }),
{
    if rom.len() <= 0x147 {
        return Err(LoadError::RomSize);
    }
    let code = rom[0x147];
    if code == 0x00 {
        Ok(Mbcs::NoMbc)
    } else if 0x01 <= code && code <= 0x03 {
        Ok(Mbcs::Mbc1)
    } else if 0x05 <= code && code <= 0x06 {
        Ok(Mbcs::Mbc2)
    } else if 0x0F <= code && code <= 0x13 {
        Ok(Mbcs::Mbc3)
    } else if 0x19 <= code && code <= 0x1E {
        Ok(Mbcs::Mbc5)
    } else {
        Err(LoadError::MbcType)
    }
}

/// Reads the RAM size, in KiB, from header byte `0x149`.
pub fn detect_ram_size(rom: &Vec<u8>) -> (r: Result<usize, LoadError>)
    ensures
        rom.len() <= 0x149 ==> r == Err::<usize, LoadError>(LoadError::RomSize),
        rom.len() > 0x149 ==> r == (match ram_kib_of(rom[0x149]) {
            Some(kib) => Ok::<usize, LoadError>(kib),
            None => Err(LoadError::RamSize),
        }),
{
    if rom.len() <= 0x149 {
        return Err(LoadError::RomSize);
    }
    match rom[0x149] {
        0x00 => Ok(0),
        0x01 => Ok(2),
        0x02 => Ok(8),
        0x03 => Ok(32),
        0x04 => Ok(128),
        0x05 => Ok(64),
        _ => Err(LoadError::RamSize),
    }
}

pub struct Cartridge {
    pub rom: Vec<u8>,
    pub ram: Vec<u8>,
    pub mbc: Mbc,
}

/// A cartridge as plain values.
pub struct CartridgeModel {
    pub rom: Seq<u8>,
    pub ram: Seq<u8>,
    pub mbc: Mbc,
}

impl View for Cartridge {
    type V = CartridgeModel;

    open spec fn view(&self) -> CartridgeModel {
        CartridgeModel { rom: self.rom@, ram: self.ram@, mbc: self.mbc }
    }
}

impl CartridgeModel {
    pub open spec fn rom_byte(&self, addr: u16) -> u8 {
        self.mbc.rom_byte(self.rom, addr)
    }

    pub open spec fn ram_byte(&self, addr: u16) -> u8 {
        self.mbc.ram_byte(self.ram, addr)
    }

    pub open spec fn after_rom_write(self, addr: u16, value: u8) -> CartridgeModel {
        CartridgeModel { mbc: self.mbc.after_control(addr, value), ..self }
    }

    pub open spec fn after_ram_write(self, addr: u16, value: u8) -> CartridgeModel {
        CartridgeModel { ram: self.mbc.ram_after_write(self.ram, addr, value), ..self }
    }
}

/// What loading the image `rom` yields: the error, or the fresh cartridge.
pub open spec fn load(rom: Seq<u8>) -> Result<CartridgeModel, LoadError> {
    if rom.len() < 0x150 {
        Err(LoadError::RomSize)
    } else {
        match mbc_of(rom[0x147]) {
            None => Err(LoadError::MbcType),
            Some(kind) => match ram_kib_of(rom[0x149]) {
                None => Err(LoadError::RamSize),
                Some(kib) => Ok(
                    CartridgeModel {
                        rom,
                        ram: Seq::new((kib * 1024) as nat, |i: int| 0u8),
                        mbc: fresh_mbc(kind),
                    },
                ),
            },
        }
    }
}

/// The power-on state of a controller of the given family.
pub open spec fn fresh_mbc(kind: Mbcs) -> Mbc {
    match kind {
        Mbcs::NoMbc => Mbc::NoMbc(crate::mmu::mbc::NoMbc {  }),
        Mbcs::Mbc1 => Mbc::Mbc1(
            crate::mmu::mbc::Mbc1 {
                ram_enabled: false,
                rom_bank_low: 1,
                rom_bank_high: 0,
                mode: 0,
            },
        ),
        Mbcs::Mbc2 => Mbc::Mbc2(crate::mmu::mbc::Mbc2 {  }),
        Mbcs::Mbc3 => Mbc::Mbc3(crate::mmu::mbc::Mbc3 {  }),
        Mbcs::Mbc5 => Mbc::Mbc5(crate::mmu::mbc::Mbc5 {  }),
    }
}

fn zeroed(n: usize) -> (v: Vec<u8>)
    ensures
        v@ == Seq::new(n as nat, |i: int| 0u8),
{
    let mut v: Vec<u8> = Vec::new();
    let mut i: usize = 0;
    while i < n
        invariant
            i <= n,
            v@ == Seq::new(i as nat, |j: int| 0u8),
        decreases n - i,
    {
        v.push(0u8);
        i = i + 1;
        assert(v@ =~= Seq::new(i as nat, |j: int| 0u8));
    }
    v
}

impl Cartridge {
    /// Builds a cartridge from a ROM image. The image is rejected when it is
    /// shorter than `0x150` bytes, when header byte `0x147` names no known
    /// controller, or when header byte `0x149` names no known RAM size, in
    /// that order; otherwise the cartridge holds the image, zeroed RAM of
    /// the size named, and a fresh controller.
    pub fn new(rom: Vec<u8>) -> (r: Result<Cartridge, LoadError>)
        ensures
            r is Ok <==> load(rom@) is Ok,
            r matches Ok(cart) ==> load(rom@) == Ok::<CartridgeModel, LoadError>(cart@),
            r matches Err(e) ==> load(rom@) == Err::<CartridgeModel, LoadError>(e),
    {
        if rom.len() < HEADER_END {
            return Err(LoadError::RomSize);
        }
        let kind = match detect_mbc(&rom) {
            Ok(kind) => kind,
            Err(e) => {
                return Err(e);
            },
        };
        let kib = match detect_ram_size(&rom) {
            Ok(kib) => kib,
            Err(e) => {
                return Err(e);
            },
        };
        let ram = zeroed(kib * 1024);
        let mbc = Mbc::new(kind);
        Ok(Cartridge { rom, ram, mbc })
    }
}

} // verus!
