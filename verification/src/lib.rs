//! A Game Boy (DMG) core: CPU, memory map with cartridge bank switching,
//! interrupt controller, timer and scanline PPU, each with a machine-checked
//! contract over a mathematical model of the hardware state.
//!
//! * `cpu` holds the register file, the decoder, the ALU and the execution
//!   engine. `cpu::machine` says what every operation does as a function on
//!   the state of the whole machine; the engine is proved to do exactly that.
//! * `mmu` routes addresses to memory, the cartridge and the peripherals.
//!   Its model, `mmu::Bus`, is what the contracts of reads and writes speak
//!   of.
//! * `ppu`, `timer`, `serial`, `joypad`, `apu` and `interrupt_controller`
//!   are the peripherals behind the memory map.
//! * `emulator` steps the CPU and the peripherals together; `debug` and
//!   `command` serve a front end.
//!
//! Nothing here reads a file or draws: a front end hands in the bytes of a
//! ROM image and takes out the screen, the serial text and the history.

pub mod bits;
pub mod cpu;
pub mod interrupt_controller;
pub mod timer;
pub mod joypad;
pub mod apu;
pub mod serial;
pub mod mmu;
pub mod ppu;
pub mod debug;
pub mod shell;
pub mod interrupts;
pub mod emulator;
pub mod command;
