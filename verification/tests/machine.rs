use dmg_core::command::{AddBreakpointCommand, Command, ResetCommand, ToggleLogCommand};
use dmg_core::cpu::alu::{
    alu_add, alu_add16, alu_add_offset, alu_daa, alu_rl, alu_rlc, alu_rr, alu_rrc, alu_sla, alu_sra,
    alu_srl, alu_sub, alu_swap, is_flag,
};
use dmg_core::debug::mem::MemoryWidget;
use dmg_core::cpu::decoder::{decode, Opcode, OpcodeEntry, R16, R8};
use dmg_core::cpu::registers::Flags;
use dmg_core::debug::disasm::disassemble;
use dmg_core::emulator::Emulator;
use dmg_core::interrupt_controller::{Interrupt, InterruptController};
use dmg_core::ppu::Ppu;
use dmg_core::serial::SerialPort;
use dmg_core::shell::{parse_address, parse_words, ShellCommand};
use dmg_core::timer::Timer;

fn emulator_with(program: &[u8]) -> Emulator {
    let mut rom = vec![0u8; 0x8000];
    rom[0x100..0x100 + program.len()].copy_from_slice(program);
    let mut emu = Emulator::new();
    emu.load_rom(rom).unwrap();
    emu
}

#[test]
fn ld_a_then_and_a() {
    let mut emu = emulator_with(&[0x3E, 0x42, 0xA7]);
    assert_eq!(emu.tick(), 8);
    assert_eq!(emu.cpu.registers.a, 0x42);
    assert_eq!(emu.cpu.registers.pc, 0x0102);
    assert_eq!(emu.tick(), 4);
    assert_eq!(emu.cpu.registers.a, 0x42);
    assert_eq!(emu.cpu.registers.f, 0x20);
    assert!(!emu.cpu.registers.is_set(Flags::Z));
    assert!(!emu.cpu.registers.is_set(Flags::N));
    assert!(emu.cpu.registers.is_set(Flags::H));
    assert!(!emu.cpu.registers.is_set(Flags::C));
    assert_eq!(emu.cpu.registers.pc, 0x0103);
    assert_eq!(emu.cpu.instruction_number, 2);
}

#[test]
fn call_then_ret_restores_sp_and_returns_after_call() {
    for sp in [0xFFFEu16, 0xD000, 0xC002, 0xFF90] {
        let mut rom = vec![0u8; 0x8000];
        rom[0x100..0x103].copy_from_slice(&[0xCD, 0x00, 0x02]);
        rom[0x200] = 0xC9;
        let mut emu = Emulator::new();
        emu.load_rom(rom).unwrap();
        emu.cpu.registers.sp = sp;
        assert_eq!(emu.tick(), 24);
        assert_eq!(emu.cpu.registers.pc, 0x0200);
        assert_eq!(emu.cpu.registers.sp, sp - 2);
        assert_eq!(emu.mmu.read_8(sp - 1), 0x01);
        assert_eq!(emu.mmu.read_8(sp - 2), 0x03);
        assert_eq!(emu.tick(), 16);
        assert_eq!(emu.cpu.registers.pc, 0x0103);
        assert_eq!(emu.cpu.registers.sp, sp);
    }
}

#[test]
fn push_pop_pairs_round_trip() {
    // LD BC,0x1234; PUSH BC; POP DE; PUSH AF; POP HL
    let mut emu = emulator_with(&[0x01, 0x34, 0x12, 0xC5, 0xD1, 0xF5, 0xE1]);
    emu.cpu.registers.a = 0x9C;
    emu.cpu.registers.f = 0xB0;
    for _ in 0..5 {
        emu.tick();
    }
    assert_eq!(emu.cpu.registers.de(), 0x1234);
    assert_eq!(emu.cpu.registers.hl(), 0x9CB0);
    assert_eq!(emu.cpu.registers.sp, 0xFFFE);
}

#[test]
fn conditional_branches_charge_taken_and_not_taken() {
    // XOR A (Z=1); JR NZ,+2 (not taken, 8); JR Z,+1 (taken, 12); NOP; JP NZ (not taken 12); CALL Z (taken 24)
    let mut emu = emulator_with(&[0xAF, 0x20, 0x02, 0x28, 0x01, 0x00, 0xC2, 0x00, 0x03, 0xCC, 0x00, 0x03]);
    emu.mmu.load_rom({
        let mut rom = vec![0u8; 0x8000];
        rom[0x100..0x10C].copy_from_slice(&[0xAF, 0x20, 0x02, 0x28, 0x01, 0x00, 0xC2, 0x00, 0x03, 0xCC, 0x00, 0x03]);
        rom[0x300] = 0xC0; // RET NZ (not taken, 8)
        rom[0x301] = 0xC8; // RET Z (taken, 20)
        rom
    }).unwrap();
    assert_eq!(emu.tick(), 4);
    assert_eq!(emu.cpu.registers.f, 0x80);
    assert_eq!(emu.tick(), 8);
    assert_eq!(emu.cpu.registers.pc, 0x0103);
    assert_eq!(emu.tick(), 12);
    assert_eq!(emu.cpu.registers.pc, 0x0106);
    assert_eq!(emu.tick(), 12);
    assert_eq!(emu.cpu.registers.pc, 0x0109);
    assert_eq!(emu.tick(), 24);
    assert_eq!(emu.cpu.registers.pc, 0x0300);
    assert_eq!(emu.tick(), 8);
    assert_eq!(emu.cpu.registers.pc, 0x0301);
    assert_eq!(emu.tick(), 20);
    assert_eq!(emu.cpu.registers.pc, 0x010C);
}

#[test]
fn jr_backwards_wraps_by_signed_offset() {
    let mut emu = emulator_with(&[0x18, 0xFE]);
    assert_eq!(emu.tick(), 12);
    assert_eq!(emu.cpu.registers.pc, 0x0100);
}

#[test]
fn prefixed_operations() {
    // LD A,0x81; RLC A (CB 07); BIT 0,A (CB 47); SET 3,B (CB D8); LD HL,0xC000; SET 1,(HL) (CB CE)
    let mut emu = emulator_with(&[0x3E, 0x81, 0xCB, 0x07, 0xCB, 0x47, 0xCB, 0xD8, 0x21, 0x00, 0xC0, 0xCB, 0xCE]);
    emu.tick();
    assert_eq!(emu.tick(), 8);
    assert_eq!(emu.cpu.registers.a, 0x03);
    assert_eq!(emu.cpu.registers.f, 0x10);
    assert_eq!(emu.cpu.registers.pc, 0x0104);
    assert_eq!(emu.tick(), 8);
    assert_eq!(emu.cpu.registers.f, 0x30);
    emu.tick();
    assert_eq!(emu.cpu.registers.b, 0x08);
    emu.tick();
    assert_eq!(emu.tick(), 16);
    assert_eq!(emu.mmu.read_8(0xC000), 0x02);
    assert_eq!(emu.cpu.registers.pc, 0x010D);
}

#[test]
fn eight_bit_arithmetic_flags() {
    let r = alu_add(0x0F, 0x01, false);
    assert_eq!((r.value, r.f), (0x10, 0x20));
    let r = alu_add(0xFF, 0x01, false);
    assert_eq!((r.value, r.f), (0x00, 0xB0));
    let r = alu_add(0x0E, 0x01, true);
    assert_eq!((r.value, r.f), (0x10, 0x20));
    let r = alu_sub(0x10, 0x01, false);
    assert_eq!((r.value, r.f), (0x0F, 0x60));
    let r = alu_sub(0x00, 0x01, false);
    assert_eq!((r.value, r.f), (0xFF, 0x70));
    let r = alu_sub(0x42, 0x42, false);
    assert_eq!((r.value, r.f), (0x00, 0xC0));
    let r = alu_sub(0x00, 0xFF, true);
    assert_eq!((r.value, r.f), (0x00, 0xF0));
}

#[test]
fn flag_low_nibble_stays_clear_over_a_program() {
    let program = [
        0x3E, 0x99, 0xC6, 0x01, 0x27, 0x3C, 0x3D, 0x2F, 0x37, 0x3F, 0xE6, 0x0F, 0xF6, 0xF0, 0xEE, 0xFF,
        0xD6, 0x05, 0xDE, 0x01, 0xCE, 0xFF, 0xFE, 0x00, 0x07, 0x17, 0x0F, 0x1F, 0x09, 0xE8, 0x7F, 0xF8, 0x80,
    ];
    let mut emu = emulator_with(&program);
    while (emu.cpu.registers.pc as usize) < 0x100 + program.len() {
        emu.tick();
        assert_eq!(emu.cpu.registers.f & 0x0F, 0);
    }
}

fn bcd(n: u32) -> u8 {
    (((n / 10) << 4) | (n % 10)) as u8
}

#[test]
fn daa_corrects_every_bcd_sum() {
    for x in 0..100u32 {
        for y in 0..100u32 {
            let sum = alu_add(bcd(x), bcd(y), false);
            let fixed = alu_daa(sum.value, sum.f);
            assert_eq!(fixed.value, bcd((x + y) % 100));
            assert_eq!(is_flag(fixed.f, Flags::C), x + y >= 100);
            assert_eq!(is_flag(fixed.f, Flags::Z), (x + y) % 100 == 0);
            assert!(!is_flag(fixed.f, Flags::H));
        }
    }
}

#[test]
fn daa_after_subtraction() {
    let diff = alu_sub(bcd(42), bcd(17), false);
    let fixed = alu_daa(diff.value, diff.f);
    assert_eq!(fixed.value, bcd(25));
    assert!(is_flag(fixed.f, Flags::N));
}

#[test]
fn timer_overflow_reloads_and_requests() {
    let mut timer = Timer::new();
    let mut ic = InterruptController::new();
    ic.iflag = 0xE0;
    timer.write_reg(0xFF06, 0x42);
    timer.write_reg(0xFF05, 0xFF);
    timer.write_reg(0xFF07, 0x05);
    timer.tick(15, &mut ic);
    assert_eq!(timer.read_reg(0xFF05), 0xFF);
    assert_eq!(ic.iflag, 0xE0);
    timer.tick(1, &mut ic);
    assert_eq!(timer.read_reg(0xFF05), 0x42);
    assert_eq!(ic.iflag & 0x04, 0x04);
    assert_eq!(ic.iflag, 0xE4);
}

#[test]
fn timer_periods_and_divider() {
    for (tac, period) in [(0x04u8, 1024u32), (0x05, 16), (0x06, 64), (0x07, 256)] {
        let mut timer = Timer::new();
        let mut ic = InterruptController::new();
        timer.write_reg(0xFF07, tac);
        timer.tick(period - 1, &mut ic);
        assert_eq!(timer.read_reg(0xFF05), 0);
        timer.tick(1, &mut ic);
        assert_eq!(timer.read_reg(0xFF05), 1);
        timer.tick(3 * period + 1, &mut ic);
        assert_eq!(timer.read_reg(0xFF05), 4);
        timer.tick(period - 1, &mut ic);
        assert_eq!(timer.read_reg(0xFF05), 5);
    }
    let mut timer = Timer::new();
    let mut ic = InterruptController::new();
    timer.tick(0x1234, &mut ic);
    assert_eq!(timer.read_reg(0xFF04), 0x12);
    assert_eq!(timer.read_reg(0xFF05), 0);
    assert_eq!(timer.read_reg(0xFF07), 0xF8);
    timer.write_reg(0xFF04, 0x55);
    assert_eq!(timer.read_reg(0xFF04), 0);
    timer.tick(0x200, &mut ic);
    timer.reset_div();
    assert_eq!(timer.read_reg(0xFF04), 0);
    assert_eq!(timer.read_reg(0xFF08), 0xFF);
}

#[test]
fn ppu_frame_cadence() {
    let vram = [0u8; 0x2000];
    let oam = [0u8; 0xA0];
    for chunk in [4u32, 8, 12, 456] {
        let mut ppu = Ppu::new();
        let mut edges = 0;
        let mut lines = vec![0u8];
        let mut fed = 0;
        while fed < 70224 {
            ppu.tick(chunk, &vram, &oam);
            fed += chunk;
            if ppu.frame_ready() {
                edges += 1;
                assert_eq!(ppu.ly, 144);
            }
            if *lines.last().unwrap() != ppu.ly {
                lines.push(ppu.ly);
            }
        }
        assert_eq!(fed, 70224);
        assert_eq!(edges, 1);
        assert_eq!(ppu.ly, 0);
        let mut expected: Vec<u8> = (0..=153).collect();
        expected.push(0);
        assert_eq!(lines, expected);
    }
}

#[test]
fn ppu_modes_follow_the_dots() {
    let vram = [0u8; 0x2000];
    let oam = [0u8; 0xA0];
    let mut ppu = Ppu::new();
    assert_eq!(ppu.read_reg(0xFF41) & 3, 2);
    ppu.tick(79, &vram, &oam);
    assert_eq!(ppu.read_reg(0xFF41) & 3, 2);
    ppu.tick(1, &vram, &oam);
    assert_eq!(ppu.read_reg(0xFF41) & 3, 3);
    ppu.tick(171, &vram, &oam);
    assert_eq!(ppu.read_reg(0xFF41) & 3, 3);
    ppu.tick(1, &vram, &oam);
    assert_eq!(ppu.read_reg(0xFF41) & 3, 0);
    ppu.tick(204, &vram, &oam);
    assert_eq!(ppu.read_reg(0xFF41) & 3, 2);
    assert_eq!(ppu.read_reg(0xFF44), 1);
    ppu.tick(456 * 143, &vram, &oam);
    assert_eq!(ppu.read_reg(0xFF44), 144);
    assert_eq!(ppu.read_reg(0xFF41) & 3, 1);
    assert!(ppu.frame_ready());
    ppu.tick(1, &vram, &oam);
    assert!(!ppu.frame_ready());
    ppu.write_reg(0xFF41, 0xFF);
    assert_eq!(ppu.read_reg(0xFF41), 0xF9);
    ppu.write_reg(0xFF44, 0x12);
    assert_eq!(ppu.read_reg(0xFF44), 144);
}

#[test]
fn ppu_draws_background_and_sprites() {
    let mut vram = [0u8; 0x2000];
    let mut oam = [0u8; 0xA0];
    // tile 1: every row colour 3; tile 2: every row colour 1
    for row in 0..8 {
        vram[16 + row * 2] = 0xFF;
        vram[16 + row * 2 + 1] = 0xFF;
        vram[32 + row * 2] = 0xFF;
    }
    // map (0,0) -> tile 1; the rest tile 0
    vram[0x1800] = 1;
    // sprite 0: top-left at (4, 0), tile 2, over the background
    oam[0] = 16;
    oam[1] = 12;
    oam[2] = 2;
    oam[3] = 0x00;
    // sprite 1: at (20, 0), tile 2, behind a non-zero background, palette 1
    oam[4] = 16;
    oam[5] = 28;
    oam[6] = 2;
    oam[7] = 0x90;
    let mut ppu = Ppu::new();
    ppu.write_reg(0xFF40, 0x93); // LCD on, tile data 0x8000, sprites on, background on
    ppu.write_reg(0xFF47, 0xE4); // identity palette
    ppu.write_reg(0xFF48, 0xE4);
    ppu.write_reg(0xFF49, 0x1B); // reversed palette
    ppu.tick(80, &vram, &oam);
    let px = &ppu.framebuffer.pixels;
    assert_eq!(px[0], 3);
    assert_eq!(px[3], 3);
    assert_eq!(px[4], 1);
    assert_eq!(px[7], 1);
    assert_eq!(px[8], 1);
    assert_eq!(px[11], 1);
    assert_eq!(px[12], 0);
    assert_eq!(px[20], 2);
    assert_eq!(px[27], 2);
    assert_eq!(px[28], 0);
    assert_eq!(px[160], 0);
    assert_eq!(ppu.bg_pixel(0, 0, &vram, &oam), 3);
    assert_eq!(ppu.bg_pixel(8, 0, &vram, &oam), 0);

    // behind-background sprite over a non-zero background is hidden
    oam[5] = 8;
    let mut ppu2 = Ppu::new();
    ppu2.write_reg(0xFF40, 0x93);
    ppu2.write_reg(0xFF47, 0xE4);
    ppu2.write_reg(0xFF48, 0xE4);
    ppu2.write_reg(0xFF49, 0x1B);
    ppu2.render_frame(&vram, &oam);
    assert!(ppu2.frame_ready());
    assert_eq!(ppu2.framebuffer.pixels[0], 3);
    assert_eq!(ppu2.framebuffer.pixels[4], 1);
    assert_eq!(ppu2.framebuffer.pixels[7 * 160 + 2], 3);
    assert_eq!(ppu2.framebuffer.pixels[8 * 160 + 2], 0);

    // background off: blank, and no sprite yields to it; the later sprite lies on top
    let mut ppu3 = Ppu::new();
    ppu3.write_reg(0xFF40, 0x92);
    ppu3.write_reg(0xFF48, 0xE4);
    ppu3.tick(80, &vram, &oam);
    assert_eq!(ppu3.framebuffer.pixels[0], 3);
    assert_eq!(ppu3.framebuffer.pixels[4], 3);
    assert_eq!(ppu3.framebuffer.pixels[8], 1);
    assert_eq!(ppu3.framebuffer.pixels[12], 0);
    assert_eq!(ppu3.bg_pixel(0, 0, &vram, &oam), 0);
}

#[test]
fn ppu_sprite_limit_and_flips() {
    let mut vram = [0u8; 0x2000];
    let mut oam = [0u8; 0xA0];
    // tile 4: leftmost column colour 1 on row 0 only
    vram[64] = 0x80;
    for i in 0..11 {
        oam[i * 4] = 16;
        oam[i * 4 + 1] = 8 + (i as u8) * 8;
        oam[i * 4 + 2] = 4;
    }
    let mut ppu = Ppu::new();
    ppu.write_reg(0xFF40, 0x82);
    ppu.write_reg(0xFF48, 0xE4);
    ppu.tick(80, &vram, &oam);
    for i in 0..10 {
        assert_eq!(ppu.framebuffer.pixels[i * 8], 1);
    }
    assert_eq!(ppu.framebuffer.pixels[80], 0);

    // mirrored: the set column moves to the right edge; flipped: row 0 shows on line 7
    let mut oam2 = [0u8; 0xA0];
    oam2[0] = 16;
    oam2[1] = 8;
    oam2[2] = 4;
    oam2[3] = 0x60;
    let mut ppu2 = Ppu::new();
    ppu2.write_reg(0xFF40, 0x82);
    ppu2.write_reg(0xFF48, 0xE4);
    ppu2.render_frame(&vram, &oam2);
    assert_eq!(ppu2.framebuffer.pixels[0], 0);
    assert_eq!(ppu2.framebuffer.pixels[7], 0);
    assert_eq!(ppu2.framebuffer.pixels[7 * 160 + 7], 1);
    assert_eq!(ppu2.framebuffer.pixels[7 * 160], 0);

    // tall sprites take the even tile and run into the next one
    vram[80 + 14] = 0x01;
    let mut oam3 = [0u8; 0xA0];
    oam3[0] = 16;
    oam3[1] = 8;
    oam3[2] = 5;
    let mut ppu3 = Ppu::new();
    ppu3.write_reg(0xFF40, 0x86);
    ppu3.write_reg(0xFF48, 0xE4);
    ppu3.render_frame(&vram, &oam3);
    assert_eq!(ppu3.framebuffer.pixels[0], 1);
    assert_eq!(ppu3.framebuffer.pixels[15 * 160 + 7], 1);
    assert_eq!(ppu3.framebuffer.pixels[16 * 160 + 7], 0);
}

#[test]
fn interrupt_priority_request_and_ack() {
    let mut ic = InterruptController::new();
    assert_eq!(ic.iflag, 0xE1);
    assert_eq!(ic.highest(), None);
    ic.ie = 0x1F;
    assert_eq!(ic.highest(), Some(Interrupt::VBlank));
    ic.ack(Interrupt::VBlank);
    assert_eq!(ic.iflag, 0xE0);
    assert_eq!(ic.highest(), None);
    ic.request(Interrupt::Joypad);
    ic.request(Interrupt::Timer);
    assert_eq!(ic.iflag, 0xF4);
    assert_eq!(ic.pending_mask(), 0x14);
    assert_eq!(ic.highest(), Some(Interrupt::Timer));
    ic.ie = 0x10;
    assert_eq!(ic.highest(), Some(Interrupt::Joypad));
    ic.iflag = 0x02;
    ic.ie = 0x0A;
    assert_eq!(ic.highest(), Some(Interrupt::Stat));
    ic.request(Interrupt::Serial);
    assert_eq!(ic.iflag, 0xEA);
    ic.ack(Interrupt::Stat);
    assert_eq!(ic.highest(), Some(Interrupt::Serial));
    let all = [Interrupt::VBlank, Interrupt::Stat, Interrupt::Timer, Interrupt::Serial, Interrupt::Joypad];
    for (i, irq) in all.iter().enumerate() {
        assert_eq!(irq.bit(), 1 << i);
        assert_eq!(irq.vector(), 0x40 + 8 * i as u16);
    }
}

#[test]
fn interrupt_service_and_ei_delay() {
    // EI; NOP; NOP
    let mut emu = emulator_with(&[0xFB, 0x00, 0x00]);
    emu.mmu.write_8(0xFFFF, 0x04);
    emu.mmu.write_8(0xFF0F, 0x04);
    assert_eq!(emu.mmu.read_8(0xFF0F), 0xE4);
    assert_eq!(emu.tick(), 4);
    assert!(!emu.cpu.interrupts.ime);
    assert!(emu.cpu.interrupts.ime_scheduled);
    assert_eq!(emu.tick(), 4);
    assert!(emu.cpu.interrupts.ime);
    assert_eq!(emu.cpu.registers.pc, 0x0102);
    assert_eq!(emu.tick(), 20);
    assert_eq!(emu.cpu.registers.pc, 0x0050);
    assert_eq!(emu.cpu.registers.sp, 0xFFFC);
    assert_eq!(emu.mmu.read_16(0xFFFC), 0x0102);
    assert!(!emu.cpu.interrupts.ime);
    assert_eq!(emu.mmu.read_8(0xFF0F), 0xE0);
}

#[test]
fn halt_idles_until_an_interrupt_is_pending() {
    // HALT; NOP
    let mut emu = emulator_with(&[0x76, 0x00]);
    emu.mmu.write_8(0xFF0F, 0x00);
    emu.mmu.write_8(0xFFFF, 0x01);
    assert_eq!(emu.tick(), 4);
    assert!(emu.cpu.interrupts.halted);
    assert_eq!(emu.tick(), 4);
    assert_eq!(emu.tick(), 4);
    assert!(emu.cpu.interrupts.halted);
    assert_eq!(emu.cpu.registers.pc, 0x0101);
    emu.mmu.interrupts.request(Interrupt::VBlank);
    assert_eq!(emu.tick(), 4);
    assert!(!emu.cpu.interrupts.halted);
    assert_eq!(emu.tick(), 4);
    assert_eq!(emu.cpu.registers.pc, 0x0102);
}

#[test]
fn reti_enables_at_once_and_di_disables() {
    // CALL 0x0200; DI   ...  0x0200: RETI
    let mut rom = vec![0u8; 0x8000];
    rom[0x100..0x104].copy_from_slice(&[0xCD, 0x00, 0x02, 0xF3]);
    rom[0x200] = 0xD9;
    let mut emu = Emulator::new();
    emu.load_rom(rom).unwrap();
    emu.mmu.write_8(0xFF0F, 0x00);
    emu.tick();
    assert_eq!(emu.tick(), 16);
    assert!(emu.cpu.interrupts.ime);
    assert_eq!(emu.cpu.registers.pc, 0x0103);
    emu.tick();
    assert!(!emu.cpu.interrupts.ime);
}

#[test]
fn memory_map_routes() {
    let mut emu = Emulator::new();
    assert_eq!(emu.mmu.read_8(0x0000), 0xFF);
    assert_eq!(emu.mmu.read_8(0x7FFF), 0xFF);
    assert_eq!(emu.mmu.read_8(0xA000), 0xFF);
    emu.mmu.write_8(0x0000, 0x0A);
    emu.mmu.write_8(0xA000, 0x12);
    assert_eq!(emu.mmu.read_8(0xA000), 0xFF);
    emu.mmu.write_8(0xC123, 0x77);
    assert_eq!(emu.mmu.read_8(0xE123), 0x77);
    emu.mmu.write_8(0xFDFF, 0x66);
    assert_eq!(emu.mmu.read_8(0xDDFF), 0x66);
    emu.mmu.write_8(0x8000, 0x11);
    assert_eq!(emu.mmu.read_8(0x8000), 0x11);
    assert_eq!(emu.mmu.memory.vram[0], 0x11);
    emu.mmu.write_8(0xFE9F, 0x22);
    assert_eq!(emu.mmu.read_8(0xFE9F), 0x22);
    emu.mmu.write_8(0xFEA0, 0x33);
    assert_eq!(emu.mmu.read_8(0xFEA0), 0xFF);
    assert_eq!(emu.mmu.read_8(0xFEFF), 0xFF);
    emu.mmu.write_8(0xFF80, 0x44);
    emu.mmu.write_8(0xFFFE, 0x45);
    assert_eq!(emu.mmu.read_16(0xFF80), 0x0044);
    assert_eq!(emu.mmu.read_8(0xFFFE), 0x45);
    emu.mmu.write_8(0xFFFF, 0x1F);
    assert_eq!(emu.mmu.read_8(0xFFFF), 0x1F);
    assert_eq!(emu.mmu.read_16(0xFFFF), 0xFF1F);
    emu.mmu.write_8(0xFF0F, 0x03);
    assert_eq!(emu.mmu.read_8(0xFF0F), 0xE3);
    emu.mmu.write_8(0xFF06, 0x9A);
    assert_eq!(emu.mmu.read_8(0xFF06), 0x9A);
    emu.mmu.write_8(0xFF42, 0x21);
    assert_eq!(emu.mmu.read_8(0xFF42), 0x21);
    emu.mmu.write_8(0xFF11, 0x80);
    assert_eq!(emu.mmu.read_8(0xFF11), 0x80);
    emu.mmu.write_8(0xFF00, 0x10);
    assert_eq!(emu.mmu.read_8(0xFF00), 0xDF);
    emu.mmu.write_8(0xFF01, b'O');
    emu.mmu.write_8(0xFF02, 0x81);
    emu.mmu.write_8(0xFF01, b'k');
    emu.mmu.write_8(0xFF02, 0x01);
    emu.mmu.write_8(0xFF02, 0x81);
    assert_eq!(emu.mmu.serial.output, "Ok");
    assert_eq!(emu.mmu.read_8(0xFF02), 0x01);
    assert_eq!(emu.mmu.read_8(0xFF03), 0xFF);
    assert_eq!(emu.mmu.read_8(0xFF4C), 0xFF);
}

#[test]
fn serial_port_alone() {
    let mut port = SerialPort::new();
    port.write_reg(0xFF01, 0x41);
    assert_eq!(port.read_reg(0xFF01), 0x41);
    port.write_reg(0xFF02, 0x7F);
    assert_eq!(port.output, "");
    assert_eq!(port.read_reg(0xFF02), 0x7F);
    port.write_reg(0xFF02, 0x81);
    assert_eq!(port.output, "A");
    assert_eq!(port.read_reg(0xFF02), 0x01);
    port.write_reg(0xFF01, 0xE9);
    port.write_reg(0xFF02, 0x80);
    assert_eq!(port.output, "A\u{e9}");
    assert_eq!(port.read_reg(0xFF02), 0x00);
    assert_eq!(port.read_reg(0xFF00), 0xFF);
}

#[test]
fn peripherals_raise_interrupts_for_the_next_step() {
    let mut emu = emulator_with(&[0x00; 16]);
    emu.mmu.write_8(0xFF0F, 0x00);
    emu.mmu.write_8(0xFF05, 0xFF);
    emu.mmu.write_8(0xFF06, 0x10);
    emu.mmu.write_8(0xFF07, 0x05);
    for _ in 0..3 {
        emu.tick();
    }
    assert_eq!(emu.mmu.read_8(0xFF0F), 0xE0);
    emu.tick();
    assert_eq!(emu.mmu.read_8(0xFF0F), 0xE4);
    assert_eq!(emu.mmu.read_8(0xFF05), 0x10);
    let mut vblank = false;
    for _ in 0..20000 {
        emu.tick();
        if emu.mmu.ppu.frame_ready() {
            vblank = true;
            assert_eq!(emu.mmu.read_8(0xFF0F) & 0x01, 0x01);
            break;
        }
    }
    assert!(vblank);
}

#[test]
fn disassembly_texts() {
    assert_eq!(disassemble(&Opcode::Nop), "NOP");
    assert_eq!(disassemble(&Opcode::LdR8R8(R8::A, R8::HLIndirect)), "LD A,(HL)");
    assert_eq!(disassemble(&Opcode::JrCCE8(dmg_core::cpu::decoder::CC::NZ)), "JR NZ,e");
    assert_eq!(disassemble(&Opcode::Rst(0x08)), "RST $08");
    assert_eq!(disassemble(&Opcode::Rst(0x38)), "RST $38");
    assert_eq!(disassemble(&Opcode::Rst(0xAF)), "RST $AF");
    assert_eq!(disassemble(&Opcode::Undefined), "DB ??");
    assert_eq!(disassemble(&Opcode::Bit(7, R8::HLIndirect)), "BIT 7,(HL)");
    assert_eq!(disassemble(&Opcode::SetBit(0, R8::B)), "SET 0,B");
    assert_eq!(disassemble(&Opcode::Res(123, R8::C)), "RES 123,C");
    assert_eq!(disassemble(&Opcode::Res(45, R8::C)), "RES 45,C");
    assert_eq!(disassemble(&Opcode::LdR16N16(R16::SP)), "LD SP,nn");
    assert_eq!(disassemble(&Opcode::LdPtrR16A(R16::DE)), "LD (DE),A");
    assert_eq!(disassemble(&Opcode::LdAPtrR16(R16::BC)), "LD A,(BC)");
    assert_eq!(disassemble(&Opcode::SubAR8(R8::L)), "SUB L");
    assert_eq!(disassemble(&Opcode::CallCCN16(dmg_core::cpu::decoder::CC::C)), "CALL C,nn");
    assert_eq!(disassemble(&Opcode::Prefix), "PREFIX CB");
    assert_eq!(disassemble(&Opcode::LdHLSPe8), "LD HL,SP+e");
    assert_eq!(disassemble(&Opcode::LdHPtrCA), "LD (0xFF00+C),A");
    assert_eq!(R8::HLIndirect.name(), "(HL)");
    assert_eq!(R16::AF.name(), "AF");
    assert_eq!(dmg_core::cpu::decoder::CC::NC.name(), "NC");
    for byte in 0..=255u8 {
        assert!(!disassemble(&decode(byte).opcode).is_empty());
    }
}

#[test]
fn breakpoints_history_and_reset() {
    let mut emu = emulator_with(&[0x00, 0x3E, 0x01, 0x00]);
    assert!(!emu.check_breakpoint());
    assert_eq!(emu.add_breakpoint(0x0100), "Added breakpoint");
    assert_eq!(emu.add_breakpoint(0x0200), "Added breakpoint");
    assert!(emu.check_breakpoint());
    assert_eq!(emu.debug.breakpoints, vec![0x0100, 0x0200]);
    assert_eq!(emu.add_breakpoint(0x0100), "Removed breakpoint");
    assert_eq!(emu.debug.breakpoints, vec![0x0200]);
    assert!(!emu.check_breakpoint());

    emu.tick();
    assert_eq!(emu.dump_history(), "");
    emu.toggle_log();
    emu.tick();
    emu.tick();
    emu.toggle_log();
    assert_eq!(emu.cpu.history, vec!["LD A,n".to_string(), "NOP".to_string()]);
    assert_eq!(emu.dump_history(), "LD A,n\nNOP\n");
    assert_eq!(emu.cpu.get_current_opcode(&emu.mmu), OpcodeEntry { opcode: Opcode::Nop, length: 1, cycles: 4 });

    emu.reset();
    assert_eq!(emu.cpu.registers.af(), 0x01B0);
    assert_eq!(emu.cpu.registers.pc, 0x0100);
    assert_eq!(emu.load_rom(vec![0u8; 10]).err(), Some(dmg_core::mmu::cartridge::LoadError::RomSize));
    assert_eq!(emu.mmu.read_8(0x0101), 0x3E);
}

#[test]
fn commands_and_memory_window() {
    let mut emu = Emulator::new();
    emu.cpu.registers.pc = 0x1234;
    assert_eq!(ResetCommand {}.execute(&mut emu), "Emulator reset.");
    assert_eq!(emu.cpu.registers.pc, 0x0100);
    assert_eq!(ToggleLogCommand {}.execute(&mut emu), "Logging toggled.");
    assert!(emu.debug.log_cpu);
    assert_eq!(AddBreakpointCommand { address: 0x0100 }.execute(&mut emu), "Added breakpoint");
    assert!(emu.check_breakpoint());
    assert_eq!(AddBreakpointCommand { address: 0x0100 }.execute(&mut emu), "Removed breakpoint");

    let mut w = MemoryWidget::new();
    assert_eq!((w.start_addr, w.bytes_per_row, w.rows), (0, 16, 32));
    assert!(w.scroll(-1));
    assert_eq!(w.start_addr, 0);
    w.scroll(16);
    assert_eq!(w.start_addr, 0x0100);
    w.scroll(-1);
    assert_eq!(w.start_addr, 0x00F0);
    w.scroll(i16::MAX);
    assert_eq!(w.start_addr, 0xFFFF);
    w.scroll(-1);
    assert_eq!(w.start_addr, 0xFFEF);
}

#[test]
fn legacy_register_pair_and_logger() {
    let pair = dmg_core::interrupts::InterruptController::new();
    assert_eq!((pair.ie, pair._if), (0, 0));
    let mut log = dmg_core::debug::logger::Logger::new();
    log.log_step("one");
    log.log_step("two");
    assert_eq!(log.messages(), &vec!["one".to_string(), "two".to_string()]);
    log.clear();
    assert!(log.messages().is_empty());
}

#[test]
fn sixteen_bit_arithmetic_and_stack_pointer_offsets() {
    let r = alu_add16(0x0FFF, 0x0001, 0x80);
    assert_eq!((r.value, r.f), (0x1000, 0xA0));
    let r = alu_add16(0xFFFF, 0x0001, 0x00);
    assert_eq!((r.value, r.f), (0x0000, 0x30));
    let r = alu_add_offset(0xFFF8, 0x08);
    assert_eq!((r.value, r.f), (0x0000, 0x30));
    let r = alu_add_offset(0x0001, 0xFF);
    assert_eq!((r.value, r.f), (0x0000, 0x30));
    let r = alu_add_offset(0x0000, 0xFF);
    assert_eq!((r.value, r.f), (0xFFFF, 0x00));
    assert_eq!(dmg_core::bits::add_signed(0x0100, 0x80), 0x0080);
    assert_eq!(dmg_core::bits::add_signed(0x0100, 0x7F), 0x017F);
}

#[test]
fn rotates_and_shifts() {
    let r = alu_rlc(0x80, true);
    assert_eq!((r.value, r.f), (0x01, 0x10));
    let r = alu_rlc(0x00, false);
    assert_eq!((r.value, r.f), (0x00, 0x00));
    let r = alu_rlc(0x00, true);
    assert_eq!((r.value, r.f), (0x00, 0x80));
    let r = alu_rl(0x80, false, true);
    assert_eq!((r.value, r.f), (0x00, 0x90));
    let r = alu_rl(0x01, true, true);
    assert_eq!((r.value, r.f), (0x03, 0x00));
    let r = alu_rrc(0x01, true);
    assert_eq!((r.value, r.f), (0x80, 0x10));
    let r = alu_rr(0x01, false, true);
    assert_eq!((r.value, r.f), (0x00, 0x90));
    let r = alu_rr(0x02, true, true);
    assert_eq!((r.value, r.f), (0x81, 0x00));
    let r = alu_sla(0xC1);
    assert_eq!((r.value, r.f), (0x82, 0x10));
    let r = alu_sra(0x81);
    assert_eq!((r.value, r.f), (0xC0, 0x10));
    let r = alu_srl(0x81);
    assert_eq!((r.value, r.f), (0x40, 0x10));
    let r = alu_swap(0xA5);
    assert_eq!((r.value, r.f), (0x5A, 0x00));
}

fn words(line: &str) -> Vec<String> {
    line.split_whitespace().map(|w| w.to_string()).collect()
}

#[test]
fn shell_lines() {
    assert_eq!(parse_words(&words("")), None);
    assert_eq!(parse_words(&words("   ")), None);
    assert_eq!(parse_words(&words("reset")), Some(ShellCommand::Reset));
    assert_eq!(parse_words(&words("reset now")), Some(ShellCommand::Reset));
    assert_eq!(parse_words(&words("log")), Some(ShellCommand::Log));
    assert_eq!(parse_words(&words("load a.gb")), Some(ShellCommand::Load("a.gb".to_string())));
    assert_eq!(parse_words(&words("load")), Some(ShellCommand::Unknown));
    assert_eq!(parse_words(&words("load a b")), Some(ShellCommand::Unknown));
    assert_eq!(parse_words(&words("dump out.txt")), Some(ShellCommand::Dump("out.txt".to_string())));
    assert_eq!(parse_words(&words("break 0x0150")), Some(ShellCommand::Break(0x0150)));
    assert_eq!(parse_words(&words("break 0xffff")), Some(ShellCommand::Break(0xFFFF)));
    assert_eq!(parse_words(&words("break 0x10000")), Some(ShellCommand::BadAddress));
    assert_eq!(parse_words(&words("break 150")), Some(ShellCommand::BadAddress));
    assert_eq!(parse_words(&words("break")), Some(ShellCommand::Unknown));
    assert_eq!(parse_words(&words("Reset")), Some(ShellCommand::Unknown));
    assert_eq!(parse_words(&words("quit")), Some(ShellCommand::Unknown));
}

#[test]
fn addresses_agree_with_the_standard_parser() {
    let samples = [
        "0x0", "0x1F", "0xAbCd", "0x+12", "0x", "0x+", "0xG", "0x-1", "0x00001234", "0x12345", "x12",
        "0X12", "12", "", "0", "0x 1", "0xFFFF", "0x10000", "0xé",
    ];
    for s in samples {
        let expected = s.strip_prefix("0x").and_then(|d| u16::from_str_radix(d, 16).ok());
        assert_eq!(parse_address(s), expected, "{}", s);
    }
}
