//! The memory map: the dispatcher that routes every address to its block of
//! memory, the cartridge, or a peripheral's register.
//!
//! | Range           | Target                                   |
//! |-----------------|------------------------------------------|
//! | `0000..=7FFF`   | cartridge ROM (writes: bank controller)  |
//! | `8000..=9FFF`   | video RAM                                |
//! | `A000..=BFFF`   | cartridge RAM                            |
//! | `C000..=DFFF`   | work RAM                                 |
//! | `E000..=FDFF`   | echo of work RAM                         |
//! | `FE00..=FE9F`   | sprite attribute table                   |
//! | `FF00`          | joypad                                   |
//! | `FF01..=FF02`   | serial port                              |
//! | `FF04..=FF07`   | timer                                    |
//! | `FF0F`          | interrupt requests                       |
//! | `FF10..=FF3F`   | audio registers                          |
//! | `FF40..=FF4B`   | PPU registers                            |
//! | `FF80..=FFFE`   | high RAM                                 |
//! | `FFFF`          | interrupt enables                        |
//!
//! Every other address reads `0xFF` and ignores writes, and so do the two
//! cartridge ranges while no cartridge is loaded.

pub mod cartridge;
pub mod mbc;
pub mod memory;

use vstd::prelude::*;
use crate::apu::Apu;
use crate::bits::{word, make_word};
use crate::interrupt_controller::{Interrupt, InterruptController};
use crate::joypad::Joypad;
use crate::mmu::cartridge::{Cartridge, CartridgeModel, LoadError, load};
use crate::mmu::memory::Memory;
use crate::ppu::{Ppu, PpuModel};
use crate::serial::{SerialPort, SerialModel};
use crate::timer::Timer;

verus! {

/// The base of the page that the high-page loads and stores address.
pub const HIGH_RAM: u16 = 0xFF00;

pub struct Mmu {
    pub memory: Memory,
    pub cartridge: Option<Cartridge>,
    pub timer: Timer,
    pub ppu: Ppu,
    pub joypad: Joypad,
    pub interrupts: InterruptController,
    pub serial: SerialPort,
    pub apu: Apu,
}

/// Everything behind the address space, as plain values.
pub struct Bus {
    pub vram: Seq<u8>,
    pub wram: Seq<u8>,
    pub hram: Seq<u8>,
    pub oam: Seq<u8>,
    pub cartridge: Option<CartridgeModel>,
    pub timer: Timer,
    pub ppu: PpuModel,
    pub joypad: Joypad,
    pub interrupts: InterruptController,
    pub serial: SerialModel,
    pub apu: Seq<u8>,
}

impl View for Mmu {
    type V = Bus;

    closed spec fn view(&self) -> Bus {
        Bus {
            vram: self.memory.vram@,
            wram: self.memory.wram@,
            hram: self.memory.hram@,
            oam: self.memory.oam@,
            cartridge: match self.cartridge {
                Some(cart) => Some(cart@),
                None => None,
            },
            timer: self.timer,
            ppu: self.ppu@,
            joypad: self.joypad,
            interrupts: self.interrupts,
            serial: self.serial@,
            apu: self.apu.regs@,
        }
    }
}

impl Bus {
    /// The blocks of memory have their fixed sizes.
    pub open spec fn wf(&self) -> bool {
        &&& self.vram.len() == 0x2000
        &&& self.wram.len() == 0x2000
        &&& self.hram.len() == 0x7F
        &&& self.oam.len() == 0xA0
        &&& self.apu.len() == 0x30
        &&& self.ppu.pixels.len() == 23040
    }

    /// The byte read at `addr`.
    #[verifier::opaque]
    pub open spec fn read(&self, addr: u16) -> u8 {
        if addr < 0x8000 {
            match self.cartridge {
                Some(cart) => cart.rom_byte(addr),
                None => 0xFF,
            }
        } else if addr < 0xA000 {
            self.vram[addr - 0x8000]
        } else if addr < 0xC000 {
            match self.cartridge {
                Some(cart) => cart.ram_byte(addr),
                None => 0xFF,
            }
        } else if addr < 0xE000 {
            self.wram[addr - 0xC000]
        } else if addr < 0xFE00 {
            self.wram[addr - 0xE000]
        } else if addr < 0xFEA0 {
            self.oam[addr - 0xFE00]
        } else if addr == 0xFF00 {
            self.joypad.reg()
        } else if 0xFF01 <= addr <= 0xFF02 {
            self.serial.reg(addr)
        } else if 0xFF04 <= addr <= 0xFF07 {
            self.timer.reg(addr)
        } else if addr == 0xFF0F {
            self.interrupts.iflag
        } else if 0xFF10 <= addr <= 0xFF3F {
            Apu::reg(self.apu, addr)
        } else if 0xFF40 <= addr <= 0xFF4B {
            self.ppu.reg(addr)
        } else if 0xFF80 <= addr <= 0xFFFE {
            self.hram[addr - 0xFF80]
        } else if addr == 0xFFFF {
            self.interrupts.ie
        } else {
            0xFF
        }
    }

    /// The state after `value` is written at `addr`.
    #[verifier::opaque]
    pub open spec fn write(self, addr: u16, value: u8) -> Bus {
        if addr < 0x8000 {
            match self.cartridge {
                Some(cart) => Bus { cartridge: Some(cart.after_rom_write(addr, value)), ..self },
                None => self,
            }
        } else if addr < 0xA000 {
            Bus { vram: self.vram.update(addr - 0x8000, value), ..self }
        } else if addr < 0xC000 {
            match self.cartridge {
                Some(cart) => Bus { cartridge: Some(cart.after_ram_write(addr, value)), ..self },
                None => self,
            }
        } else if addr < 0xE000 {
            Bus { wram: self.wram.update(addr - 0xC000, value), ..self }
        } else if addr < 0xFE00 {
            Bus { wram: self.wram.update(addr - 0xE000, value), ..self }
        } else if addr < 0xFEA0 {
            Bus { oam: self.oam.update(addr - 0xFE00, value), ..self }
        } else if addr == 0xFF00 {
            Bus { joypad: Joypad { select: value & 0x30 }, ..self }
        } else if 0xFF01 <= addr <= 0xFF02 {
            Bus { serial: self.serial.with_reg(addr, value), ..self }
        } else if 0xFF04 <= addr <= 0xFF07 {
            Bus { timer: self.timer.with_reg(addr, value), ..self }
        } else if addr == 0xFF0F {
            Bus {
                interrupts: InterruptController {
                    iflag: (value & 0x1F) | 0xE0,
                    ..self.interrupts
                },
                ..self
            }
        } else if 0xFF10 <= addr <= 0xFF3F {
            Bus { apu: Apu::with_reg(self.apu, addr, value), ..self }
        } else if 0xFF40 <= addr <= 0xFF4B {
            Bus { ppu: self.ppu.with_reg(addr, value), ..self }
        } else if 0xFF80 <= addr <= 0xFFFE {
            Bus { hram: self.hram.update(addr - 0xFF80, value), ..self }
        } else if addr == 0xFFFF {
            Bus { interrupts: InterruptController { ie: value, ..self.interrupts }, ..self }
        } else {
            self
        }
    }

    /// The little-endian word at `addr` and the address after it.
    pub open spec fn read16(&self, addr: u16) -> u16 {
        word(self.read(crate::bits::wrap16(addr + 1)), self.read(addr))
    }

    /// The state after the peripherals have run for `cycles` cycles: the PPU
    /// first, which requests the VBlank interrupt if it entered the
    /// vertical blank, then the timer.
    pub open spec fn after_tick(self, cycles: u32) -> Bus {
        let ppu = self.ppu.after_tick(cycles, self.vram, self.oam);
        let requested = if ppu.frame_complete {
            self.interrupts.after_request(Interrupt::VBlank)
        } else {
            self.interrupts
        };
        Bus {
            ppu,
            timer: self.timer.after_tick(cycles),
            interrupts: if self.timer.overflows(cycles) {
                requested.after_request(Interrupt::Timer)
            } else {
                requested
            },
            ..self
        }
    }

    /// The state after an attempt to load the image `rom`.
    pub open spec fn after_load(self, rom: Seq<u8>) -> Bus {
        match load(rom) {
            Ok(cart) => Bus { cartridge: Some(cart), ..self },
            Err(_) => self,
        }
    }
}

impl Mmu {
    pub fn new(
        memory: Memory,
        cartridge: Option<Cartridge>,
        timer: Timer,
        ppu: Ppu,
        joypad: Joypad,
        interrupts: InterruptController,
        serial: SerialPort,
        apu: Apu,
    ) -> (r: Self)
        ensures
            r.memory == memory,
            r.cartridge == cartridge,
            r.timer == timer,
            r.ppu == ppu,
            r.joypad == joypad,
            r.interrupts == interrupts,
            r.serial == serial,
            r.apu == apu,
            r@.wf(),
            r@.vram == memory.vram@,
            r@.wram == memory.wram@,
            r@.hram == memory.hram@,
            r@.oam == memory.oam@,
            r@.cartridge == (match cartridge {
                Some(cart) => Some(cart@),
                None => None,
            }),
            r@.timer == timer,
            r@.ppu == ppu@,
            r@.joypad == joypad,
            r@.interrupts == interrupts,
            r@.serial == serial@,
            r@.apu == apu.regs@,
    {
        Self { memory, cartridge, timer, ppu, joypad, interrupts, serial, apu }
    }

    /// Reads the byte at `addr`.
    pub fn read_8(&self, addr: u16) -> (r: u8)
        ensures
            r == self@.read(addr),
    {
        reveal(Bus::read);
        if addr < 0x8000 {
            self.read_rom(addr)
        } else if addr < 0xA000 {
            self.read_vram(addr)
        } else if addr < 0xC000 {
            self.read_cartridge_ram(addr)
        } else if addr < 0xE000 {
            self.read_wram(addr)
        } else if addr < 0xFE00 {
            self.read_echo(addr)
        } else if addr < 0xFEA0 {
            self.read_oam(addr)
        } else if addr == 0xFF00 {
            self.joypad.read_reg()
        } else if 0xFF01 <= addr && addr <= 0xFF02 {
            self.serial.read_reg(addr)
        } else if 0xFF04 <= addr && addr <= 0xFF07 {
            self.timer.read_reg(addr)
        } else if addr == 0xFF0F {
            self.interrupts.iflag
        } else if 0xFF10 <= addr && addr <= 0xFF3F {
            self.apu.read_reg(addr)
        } else if 0xFF40 <= addr && addr <= 0xFF4B {
            self.ppu.read_reg(addr)
        } else if 0xFF80 <= addr && addr <= 0xFFFE {
            self.read_hram(addr)
        } else if addr == 0xFFFF {
            self.interrupts.ie
        } else {
            0xFF
        }
    }

    /// Writes `value` at `addr`.
    pub fn write_8(&mut self, addr: u16, value: u8)
        ensures
            final(self)@ == old(self)@.write(addr, value),
    {
        reveal(Bus::write);
        if addr < 0x8000 {
            self.write_rom(addr, value);
        } else if addr < 0xA000 {
            self.write_vram(addr, value);
        } else if addr < 0xC000 {
            self.write_cartridge_ram(addr, value);
        } else if addr < 0xE000 {
            self.write_wram(addr, value);
        } else if addr < 0xFE00 {
            self.write_echo(addr, value);
        } else if addr < 0xFEA0 {
            self.write_oam(addr, value);
        } else if addr == 0xFF00 {
            self.joypad.write_reg(value);
        } else if 0xFF01 <= addr && addr <= 0xFF02 {
            self.serial.write_reg(addr, value);
        } else if 0xFF04 <= addr && addr <= 0xFF07 {
            self.timer.write_reg(addr, value);
        } else if addr == 0xFF0F {
            self.interrupts.iflag = (value & 0x1F) | 0xE0;
        } else if 0xFF10 <= addr && addr <= 0xFF3F {
            self.apu.write_reg(addr, value);
        } else if 0xFF40 <= addr && addr <= 0xFF4B {
            self.ppu.write_reg(addr, value);
        } else if 0xFF80 <= addr && addr <= 0xFFFE {
            self.write_hram(addr, value);
        } else if addr == 0xFFFF {
            self.interrupts.ie = value;
        }
    }

    /// Reads the little-endian word at `addr`: the low byte at `addr`, the
    /// high byte at the address after it.
    pub fn read_16(&self, addr: u16) -> (r: u16)
        ensures
            r == self@.read16(addr),
    {
        let lo = self.read_8(addr);
        let hi = self.read_8(crate::bits::up16(addr, 1));
        make_word(hi, lo)
    }

    /// Runs the PPU and the timer for `cycles` cycles.
    pub fn tick(&mut self, cycles: u32)
        ensures
            final(self)@ == old(self)@.after_tick(cycles),
    {
        self.ppu.tick(cycles, &self.memory.vram, &self.memory.oam);
        if self.ppu.frame_ready() {
            self.interrupts.request(Interrupt::VBlank);
        }
        self.timer.tick(cycles, &mut self.interrupts);
    }

    /// Loads a ROM image as the cartridge. A rejected image leaves the
    /// memory map as it was.
    pub fn load_rom(&mut self, rom: Vec<u8>) -> (r: Result<(), LoadError>)
        ensures
            final(self)@ == old(self)@.after_load(rom@),
            r is Ok <==> load(rom@) is Ok,
            r matches Err(e) ==> load(rom@) == Err::<CartridgeModel, LoadError>(e),
    {
        match Cartridge::new(rom) {
            Ok(cartridge) => {
                self.cartridge = Some(cartridge);
                Ok(())
            },
            Err(e) => Err(e),
        }
    }

    /// The mask of interrupts that are both requested and enabled.
    pub fn pending_interrupts(&self) -> (r: u8)
        ensures
            r == self@.interrupts.pending(),
    {
        self.interrupts.pending_mask()
    }

    /// The pending interrupt of highest priority.
    pub fn highest_interrupt(&self) -> (r: Option<Interrupt>)
        ensures
            r == self@.interrupts.spec_highest(),
    {
        self.interrupts.highest()
    }

    /// Acknowledges an interrupt: its request bit is cleared.
    pub fn ack_interrupt(&mut self, irq: Interrupt)
        ensures
            final(self)@ == (Bus { interrupts: old(self)@.interrupts.after_ack(irq), ..old(self)@ }),
    {
        self.interrupts.ack(irq);
    }

    pub fn read_rom(&self, addr: u16) -> (r: u8)
        ensures
            r == (match self@.cartridge {
                Some(cart) => cart.rom_byte(addr),
                None => 0xFF,
            }),
    {
        match &self.cartridge {
            Some(cart) => cart.mbc.read_rom(cart.rom.as_slice(), addr),
            None => 0xFF,
        }
    }

    pub fn write_rom(&mut self, addr: u16, value: u8)
        ensures
            final(self)@ == (match old(self)@.cartridge {
                Some(cart) => Bus {
                    cartridge: Some(cart.after_rom_write(addr, value)),
                    ..old(self)@
                },
                None => old(self)@,
            }),
    {
        match &mut self.cartridge {
            Some(cart) => {
                let mut mbc = cart.mbc;
                mbc.write_rom(cart.rom.as_slice(), addr, value);
                cart.mbc = mbc;
            },
            None => {},
        }
    }

    pub fn read_vram(&self, addr: u16) -> (r: u8)
        requires
            0x8000 <= addr < 0xA000,
        ensures
            r == self@.vram[addr - 0x8000],
    {
        self.memory.vram[(addr - 0x8000) as usize]
    }

    pub fn write_vram(&mut self, addr: u16, value: u8)
        requires
            0x8000 <= addr < 0xA000,
        ensures
            final(self)@ == (Bus { vram: old(self)@.vram.update(addr - 0x8000, value), ..old(self)@ }),
    {
        self.memory.vram[(addr - 0x8000) as usize] = value;
    }

    pub fn read_cartridge_ram(&self, addr: u16) -> (r: u8)
        ensures
            r == (match self@.cartridge {
                Some(cart) => cart.ram_byte(addr),
                None => 0xFF,
            }),
    {
        match &self.cartridge {
            Some(cart) => cart.mbc.read_ram(cart.ram.as_slice(), addr),
            None => 0xFF,
        }
    }

    pub fn write_cartridge_ram(&mut self, addr: u16, value: u8)
        ensures
            final(self)@ == (match old(self)@.cartridge {
                Some(cart) => Bus {
                    cartridge: Some(cart.after_ram_write(addr, value)),
                    ..old(self)@
                },
                None => old(self)@,
            }),
    {
        match &mut self.cartridge {
            Some(cart) => {
                let mut mbc = cart.mbc;
                mbc.write_ram(&mut cart.ram, addr, value);
            },
            None => {},
        }
    }

    pub fn read_wram(&self, addr: u16) -> (r: u8)
        requires
            0xC000 <= addr < 0xE000,
        ensures
            r == self@.wram[addr - 0xC000],
    {
        self.memory.wram[(addr - 0xC000) as usize]
    }

    pub fn write_wram(&mut self, addr: u16, value: u8)
        requires
            0xC000 <= addr < 0xE000,
        ensures
            final(self)@ == (Bus { wram: old(self)@.wram.update(addr - 0xC000, value), ..old(self)@ }),
    {
        self.memory.wram[(addr - 0xC000) as usize] = value;
    }

    /// Reads work RAM through its echo.
    pub fn read_echo(&self, addr: u16) -> (r: u8)
        requires
            0xE000 <= addr < 0xFE00,
        ensures
            r == self@.wram[addr - 0xE000],
    {
        self.read_wram(addr - 0x2000)
    }

    /// Writes work RAM through its echo.
    pub fn write_echo(&mut self, addr: u16, value: u8)
        requires
            0xE000 <= addr < 0xFE00,
        ensures
            final(self)@ == (Bus { wram: old(self)@.wram.update(addr - 0xE000, value), ..old(self)@ }),
    {
        self.write_wram(addr - 0x2000, value)
    }

    pub fn read_oam(&self, addr: u16) -> (r: u8)
        requires
            0xFE00 <= addr < 0xFEA0,
        ensures
            r == self@.oam[addr - 0xFE00],
    {
        self.memory.oam[(addr - 0xFE00) as usize]
    }

    pub fn write_oam(&mut self, addr: u16, value: u8)
        requires
            0xFE00 <= addr < 0xFEA0,
        ensures
            final(self)@ == (Bus { oam: old(self)@.oam.update(addr - 0xFE00, value), ..old(self)@ }),
    {
        self.memory.oam[(addr - 0xFE00) as usize] = value;
    }

    pub fn read_hram(&self, addr: u16) -> (r: u8)
        requires
            0xFF80 <= addr < 0xFFFF,
        ensures
            r == self@.hram[addr - 0xFF80],
    {
        self.memory.hram[(addr - 0xFF80) as usize]
    }

    pub fn write_hram(&mut self, addr: u16, value: u8)
        requires
            0xFF80 <= addr < 0xFFFF,
        ensures
            final(self)@ == (Bus { hram: old(self)@.hram.update(addr - 0xFF80, value), ..old(self)@ }),
    {
        self.memory.hram[(addr - 0xFF80) as usize] = value;
    }
}

/// Whether `addr` names a byte of the console's own RAM: video RAM, work
/// RAM or its echo, the sprite attribute table, or high RAM.
pub open spec fn is_ram(addr: u16) -> bool {
    (0x8000 <= addr < 0xA000) || (0xC000 <= addr < 0xFEA0) || (0xFF80 <= addr < 0xFFFF)
}

/// Whether two addresses name the same byte of storage: they are equal, or
/// one is the echo of the other.
pub open spec fn same_cell(a: u16, b: u16) -> bool {
    a == b || (0xC000 <= a < 0xFE00 && 0xC000 <= b < 0xFE00 && (a - b == 0x2000 || b - a
        == 0x2000))
}

/// What the view of an `Mmu` holds: each block and each peripheral as it
/// stands in the `Mmu`, the blocks with their fixed sizes.
pub proof fn lemma_view(mmu: Mmu)
    ensures
        mmu@.wf(),
        mmu@.vram == mmu.memory.vram@,
        mmu@.wram == mmu.memory.wram@,
        mmu@.hram == mmu.memory.hram@,
        mmu@.oam == mmu.memory.oam@,
        mmu@.cartridge == (match mmu.cartridge {
            Some(cart) => Some(cart@),
            None => None,
        }),
        mmu@.timer == mmu.timer,
        mmu@.ppu == mmu.ppu@,
        mmu@.joypad == mmu.joypad,
        mmu@.interrupts == mmu.interrupts,
        mmu@.serial == mmu.serial@,
        mmu@.apu == mmu.apu.regs@,
{
}

/// A byte written to RAM reads back, and the write leaves every other byte
/// of storage as it reads.
pub proof fn lemma_ram_write_read(bus: Bus, addr: u16, value: u8, other: u16)
    requires
        bus.wf(),
        is_ram(addr),
    ensures
        bus.write(addr, value).wf(),
        bus.write(addr, value).read(addr) == value,
        !same_cell(addr, other) ==> bus.write(addr, value).read(other) == bus.read(other),
{
    reveal(Bus::read);
    reveal(Bus::write);
}

/// Echo RAM is work RAM: a byte written through either address reads back
/// through both.
pub proof fn lemma_echo_aliases_wram(bus: Bus, addr: u16, value: u8)
    requires
        bus.wf(),
        0xC000 <= addr < 0xDE00,
    ensures
        bus.write(addr, value).read((addr + 0x2000) as u16) == value,
        bus.write((addr + 0x2000) as u16, value).read(addr) == value,
        bus.write(addr, value) == bus.write((addr + 0x2000) as u16, value),
{
    reveal(Bus::read);
    reveal(Bus::write);
}

/// With no cartridge loaded, the cartridge's two ranges read `0xFF` and
/// ignore writes.
pub proof fn lemma_no_cartridge_is_open(bus: Bus, addr: u16, value: u8)
    requires
        bus.cartridge is None,
        addr < 0x8000 || 0xA000 <= addr < 0xC000,
    ensures
        bus.read(addr) == 0xFF,
        bus.write(addr, value) == bus,
{
    reveal(Bus::read);
    reveal(Bus::write);
}

} // verus!
