//! The PPU: a state machine that walks the 456 dots of each of the 154
//! scanlines of a frame and draws each visible line once.

pub mod registers;
pub mod renderer;

use vstd::prelude::*;
use crate::ppu::registers::PpuRegisters;
use crate::ppu::renderer::{Framebuffer, scene_of, with_line, draw_line, bg_index, shade_of};

verus! {

#[derive(Clone, Copy, Debug, PartialEq, Eq, Structural)]
pub enum PpuMode {
    HBlank,
    VBlank,
    OamSearch,
    PixelTransfer,
}

impl PpuMode {
    /// The mode's number, as the low two bits of STAT show it.
    pub open spec fn spec_bits(self) -> u8 {
        match self {
            PpuMode::HBlank => 0,
            PpuMode::VBlank => 1,
            PpuMode::OamSearch => 2,
            PpuMode::PixelTransfer => 3,
        }
    }

    pub fn bits(self) -> (r: u8)
        ensures
            r == self.spec_bits(),
    {
        match self {
            PpuMode::HBlank => 0,
            PpuMode::VBlank => 1,
            PpuMode::OamSearch => 2,
            PpuMode::PixelTransfer => 3,
        }
    }
}

pub struct Ppu {
    /// Dots passed within the current scanline.
    pub line_dots: u16,
    /// The current scanline.
    pub ly: u8,
    pub registers: PpuRegisters,
    pub framebuffer: Framebuffer,
    /// Whether the last tick entered the vertical blank.
    pub frame_complete: bool,
}

/// The PPU as plain values.
pub struct PpuModel {
    pub line_dots: u16,
    pub ly: u8,
    pub registers: PpuRegisters,
    pub pixels: Seq<u8>,
    pub frame_complete: bool,
}

impl View for Ppu {
    type V = PpuModel;

    open spec fn view(&self) -> PpuModel {
        PpuModel {
            line_dots: self.line_dots,
            ly: self.ly,
            registers: self.registers,
            pixels: self.framebuffer.pixels@,
            frame_complete: self.frame_complete,
        }
    }
}

impl PpuModel {
    /// The state with STAT's low two bits showing `mode`.
    pub open spec fn with_mode(self, mode: PpuMode) -> PpuModel {
        PpuModel {
            registers: PpuRegisters {
                stat: (self.registers.stat & 0xFC) | mode.spec_bits(),
                ..self.registers
            },
            ..self
        }
    }

    /// The scanline after the current one.
    pub open spec fn next_line(&self) -> u8 {
        if self.ly >= 153 {
            0
        } else {
            (self.ly + 1) as u8
        }
    }

    /// The state one dot later. Dot 80 of a visible line starts the pixel
    /// transfer and draws the line; dot 252 starts the horizontal blank; the
    /// end of the line moves on to the next, into the vertical blank at line
    /// 144, where the frame is complete, and back to line 0 after line 153.
    pub open spec fn dot(self, vram: Seq<u8>, oam: Seq<u8>) -> PpuModel {
        if self.line_dots >= 455 {
            let ly = self.next_line();
            PpuModel {
                line_dots: 0,
                ly,
                frame_complete: self.frame_complete || ly == 144,
                ..self
            }.with_mode(if ly >= 144 { PpuMode::VBlank } else { PpuMode::OamSearch })
        } else {
            let moved = PpuModel { line_dots: (self.line_dots + 1) as u16, ..self };
            if self.ly < 144 && moved.line_dots == 80 {
                PpuModel {
                    pixels: with_line(self.pixels, scene_of(self.registers, vram, oam, self.ly)),
                    ..moved
                }.with_mode(PpuMode::PixelTransfer)
            } else if self.ly < 144 && moved.line_dots == 252 {
                moved.with_mode(PpuMode::HBlank)
            } else {
                moved
            }
        }
    }

    /// The state `n` dots later.
    pub open spec fn dots(self, n: nat, vram: Seq<u8>, oam: Seq<u8>) -> PpuModel
        decreases n,
    {
        if n == 0 {
            self
        } else {
            self.dots((n - 1) as nat, vram, oam).dot(vram, oam)
        }
    }

    /// The state after a tick of `cycles` dots: the frame-complete flag of
    /// the tick before is dropped first.
    pub open spec fn after_tick(self, cycles: u32, vram: Seq<u8>, oam: Seq<u8>) -> PpuModel {
        PpuModel { frame_complete: false, ..self }.dots(cycles as nat, vram, oam)
    }

    /// The whole screen drawn at once from the given memory.
    pub open spec fn after_render(self, vram: Seq<u8>, oam: Seq<u8>) -> PpuModel {
        PpuModel {
            pixels: Seq::new(
                23040,
                |i: int| scene_of(self.registers, vram, oam, (i / 160) as u8).pixel((i % 160) as u8),
            ),
            frame_complete: true,
            ..self
        }
    }

    pub open spec fn reg(&self, addr: u16) -> u8 {
        if addr == 0xFF40 {
            self.registers.lcdc
        } else if addr == 0xFF41 {
            self.registers.stat
        } else if addr == 0xFF42 {
            self.registers.scy
        } else if addr == 0xFF43 {
            self.registers.scx
        } else if addr == 0xFF44 {
            self.ly
        } else if addr == 0xFF45 {
            self.registers.lyc
        } else if addr == 0xFF47 {
            self.registers.bgp
        } else if addr == 0xFF48 {
            self.registers.obp0
        } else if addr == 0xFF49 {
            self.registers.obp1
        } else if addr == 0xFF4A {
            self.registers.wy
        } else if addr == 0xFF4B {
            self.registers.wx
        } else {
            0xFF
        }
    }

    /// The registers after a write. LY is read-only; a write to STAT keeps
    /// the low three bits and takes the rest from the value.
    pub open spec fn regs_after_write(&self, addr: u16, value: u8) -> PpuRegisters {
        let r = self.registers;
        if addr == 0xFF40 {
            PpuRegisters { lcdc: value, ..r }
        } else if addr == 0xFF41 {
            PpuRegisters { stat: (r.stat & 0x07) | (value & 0xF8), ..r }
        } else if addr == 0xFF42 {
            PpuRegisters { scy: value, ..r }
        } else if addr == 0xFF43 {
            PpuRegisters { scx: value, ..r }
        } else if addr == 0xFF45 {
            PpuRegisters { lyc: value, ..r }
        } else if addr == 0xFF47 {
            PpuRegisters { bgp: value, ..r }
        } else if addr == 0xFF48 {
            PpuRegisters { obp0: value, ..r }
        } else if addr == 0xFF49 {
            PpuRegisters { obp1: value, ..r }
        } else if addr == 0xFF4A {
            PpuRegisters { wy: value, ..r }
        } else if addr == 0xFF4B {
            PpuRegisters { wx: value, ..r }
        } else {
            r
        }
    }

    pub open spec fn with_reg(self, addr: u16, value: u8) -> PpuModel {
        PpuModel { registers: self.regs_after_write(addr, value), ..self }
    }
}

impl Ppu {
    /// A PPU at the first dot of the first line, in the OAM search.
    pub fn new() -> (r: Self)
        ensures
            r@.line_dots == 0,
            r@.ly == 0,
            !r@.frame_complete,
            r@.pixels == Seq::new(23040, |i: int| 0u8),
            r@.registers == (PpuRegisters {
                lcdc: 0x00,
                stat: 0x02,
                scy: 0,
                scx: 0,
                lyc: 0,
                bgp: 0xFC,
                obp0: 0xFF,
                obp1: 0xFF,
                wy: 0,
                wx: 0,
            }),
    {
        let mut ppu = Self {
            line_dots: 0,
            ly: 0,
            registers: PpuRegisters::new(),
            framebuffer: Framebuffer::new(),
            frame_complete: false,
        };
        ppu.set_mode(PpuMode::OamSearch);
        assert((0x00u8 & 0xFC) | 0x02 == 0x02) by (bit_vector);
        ppu
    }

    fn dot(&mut self, vram: &[u8; 0x2000], oam: &[u8; 0xA0])
        ensures
            final(self)@ == old(self)@.dot(vram@, oam@),
    {
        if self.line_dots >= 455 {
            self.line_dots = 0;
            self.ly = if self.ly >= 153 {
                0
            } else {
                self.ly + 1
            };
            if self.ly == 144 {
                self.frame_complete = true;
            }
            self.set_mode(
                if self.ly >= 144 {
                    PpuMode::VBlank
                } else {
                    PpuMode::OamSearch
                },
            );
        } else {
            self.line_dots = self.line_dots + 1;
            if self.ly < 144 {
                if self.line_dots == 80 {
                    draw_line(&mut self.framebuffer.pixels, &self.registers, vram, oam, self.ly);
                    self.set_mode(PpuMode::PixelTransfer);
                } else if self.line_dots == 252 {
                    self.set_mode(PpuMode::HBlank);
                }
            }
        }
    }

    /// Advances the PPU by `cycles` dots, drawing each visible line from
    /// `vram` and `oam` as its pixel transfer begins. Afterwards
    /// `frame_ready` tells whether this tick entered the vertical blank.
    pub fn tick(&mut self, cycles: u32, vram: &[u8; 0x2000], oam: &[u8; 0xA0])
        ensures
            final(self)@ == old(self)@.after_tick(cycles, vram@, oam@),
    {
        self.frame_complete = false;
        let ghost start = self@;
        let mut done: u32 = 0;
        while done < cycles
            invariant
                done <= cycles,
                self@ == start.dots(done as nat, vram@, oam@),
            decreases cycles - done,
        {
            self.dot(vram, oam);
            done = done + 1;
        }
    }

    /// Draws all 144 lines at once from `vram` and `oam`, whatever the
    /// state machine's position, and marks the frame complete.
    pub fn render_frame(&mut self, vram: &[u8; 0x2000], oam: &[u8; 0xA0])
        ensures
            final(self)@ == old(self)@.after_render(vram@, oam@),
    {
        let mut line: u8 = 0;
        while line < 144
            invariant
                line <= 144,
                self.line_dots == old(self).line_dots,
                self.ly == old(self).ly,
                self.registers == old(self).registers,
                self.frame_complete == old(self).frame_complete,
                forall|k: int|
                    0 <= k < line * 160 ==> #[trigger] self.framebuffer.pixels@[k] == scene_of(
                        self.registers,
                        vram@,
                        oam@,
                        (k / 160) as u8,
                    ).pixel((k % 160) as u8),
            decreases 144 - line,
        {
            draw_line(&mut self.framebuffer.pixels, &self.registers, vram, oam, line);
            line = line + 1;
        }
        self.frame_complete = true;
        assert(self@.pixels =~= old(self)@.after_render(vram@, oam@).pixels);
    }

    /// The background's shade at pixel (`x`, `y`).
    pub fn bg_pixel(&self, x: u8, y: u8, vram: &[u8; 0x2000], oam: &[u8; 0xA0]) -> (r: u8)
        ensures
            r == scene_of(self.registers, vram@, oam@, y).bg_shade(x),
    {
        if self.registers.lcdc & 0x01 == 0 {
            0
        } else {
            shade_of(self.registers.bgp, bg_index(&self.registers, vram, oam, x, y))
        }
    }

    /// Whether the last tick entered the vertical blank.
    pub fn frame_ready(&self) -> (r: bool)
        ensures
            r == self@.frame_complete,
    {
        self.frame_complete
    }

    pub fn read_reg(&self, addr: u16) -> (r: u8)
        ensures
            r == self@.reg(addr),
    {
        match addr {
            0xFF40 => self.registers.lcdc,
            0xFF41 => self.registers.stat,
            0xFF42 => self.registers.scy,
            0xFF43 => self.registers.scx,
            0xFF44 => self.ly,
            0xFF45 => self.registers.lyc,
            0xFF47 => self.registers.bgp,
            0xFF48 => self.registers.obp0,
            0xFF49 => self.registers.obp1,
            0xFF4A => self.registers.wy,
            0xFF4B => self.registers.wx,
            _ => 0xFF,
        }
    }

    pub fn write_reg(&mut self, addr: u16, value: u8)
        ensures
            final(self)@ == old(self)@.with_reg(addr, value),
    {
        match addr {
            0xFF40 => {
                self.registers.lcdc = value;
            },
            0xFF41 => self.registers.stat = (self.registers.stat & 0x07) | (value & 0xF8),
            0xFF42 => self.registers.scy = value,
            0xFF43 => self.registers.scx = value,
            0xFF44 => {},
            0xFF45 => self.registers.lyc = value,
            0xFF47 => self.registers.bgp = value,
            0xFF48 => self.registers.obp0 = value,
            0xFF49 => self.registers.obp1 = value,
            0xFF4A => self.registers.wy = value,
            0xFF4B => self.registers.wx = value,
            _ => {},
        }
    }

    /// Shows `mode` in the low two bits of STAT.
    pub fn set_mode(&mut self, mode: PpuMode)
        ensures
            final(self)@ == old(self)@.with_mode(mode),
    {
        self.registers.stat = (self.registers.stat & 0xFC) | mode.bits();
    }
}

impl PpuModel {
    /// The scanline and the dot within it are in range.
    pub open spec fn timed(&self) -> bool {
        self.ly < 154 && self.line_dots < 456
    }

    /// Dots passed since the frame began.
    pub open spec fn position(&self) -> int {
        self.ly * 456 + self.line_dots
    }

    /// The state after `k` ticks of `chunk` dots each.
    pub open spec fn fed(self, chunk: u32, k: nat, vram: Seq<u8>, oam: Seq<u8>) -> PpuModel
        decreases k,
    {
        if k == 0 {
            self
        } else {
            self.fed(chunk, (k - 1) as nat, vram, oam).after_tick(chunk, vram, oam)
        }
    }

    /// How many of the first `k` ticks of `chunk` dots each raised the
    /// frame-complete flag.
    pub open spec fn edges(self, chunk: u32, k: nat, vram: Seq<u8>, oam: Seq<u8>) -> nat
        decreases k,
    {
        if k == 0 {
            0
        } else {
            self.edges(chunk, (k - 1) as nat, vram, oam) + (if self.fed(
                chunk,
                k,
                vram,
                oam,
            ).frame_complete {
                1nat
            } else {
                0nat
            })
        }
    }
}

/// One dot moves the position on by one, around the frame, and completes
/// the frame exactly on reaching the vertical blank.
pub proof fn lemma_dot_position(p: PpuModel, vram: Seq<u8>, oam: Seq<u8>)
    requires
        p.timed(),
    ensures
        p.dot(vram, oam).timed(),
        p.dot(vram, oam).position() == (p.position() + 1) % 70224,
        p.dot(vram, oam).frame_complete == (p.frame_complete || p.position() + 1 == 65664),
{
}

/// Within one frame, `n` dots move the position on by `n`, and complete the
/// frame exactly when they reach the vertical blank.
pub proof fn lemma_dots_position(p: PpuModel, n: nat, vram: Seq<u8>, oam: Seq<u8>)
    requires
        p.timed(),
        p.position() + n <= 70224,
    ensures
        p.dots(n, vram, oam).timed(),
        p.dots(n, vram, oam).position() == (p.position() + n) % 70224,
        p.dots(n, vram, oam).ly == ((p.position() + n) % 70224) / 456,
        p.dots(n, vram, oam).frame_complete == (p.frame_complete || p.position() < 65664
            <= p.position() + n),
    decreases n,
{
    if n > 0 {
        lemma_dots_position(p, (n - 1) as nat, vram, oam);
        lemma_dot_position(p.dots((n - 1) as nat, vram, oam), vram, oam);
    }
}

/// Within one frame, a tick raises the frame-complete flag exactly when it
/// reaches the vertical blank, whatever the flag was before.
pub proof fn lemma_tick_position(p: PpuModel, cycles: u32, vram: Seq<u8>, oam: Seq<u8>)
    requires
        p.timed(),
        p.position() + cycles <= 70224,
    ensures
        p.after_tick(cycles, vram, oam).timed(),
        p.after_tick(cycles, vram, oam).position() == (p.position() + cycles) % 70224,
        p.after_tick(cycles, vram, oam).ly == ((p.position() + cycles) % 70224) / 456,
        p.after_tick(cycles, vram, oam).frame_complete == (p.position() < 65664 <= p.position()
            + cycles),
{
    lemma_dots_position(PpuModel { frame_complete: false, ..p }, cycles as nat, vram, oam);
}

proof fn lemma_feed(p: PpuModel, chunk: u32, j: nat, k: nat, vram: Seq<u8>, oam: Seq<u8>)
    requires
        p.timed(),
        p.position() == 0,
        chunk > 0,
        k * chunk == 70224,
        j <= k,
    ensures
        p.fed(chunk, j, vram, oam).timed(),
        p.fed(chunk, j, vram, oam).position() == (j * chunk) % 70224,
        p.fed(chunk, j, vram, oam).ly == ((j * chunk) % 70224) / 456,
        p.edges(chunk, j, vram, oam) == (if j * chunk >= 65664 { 1nat } else { 0nat }),
        j * chunk <= 70224,
    decreases j,
{
    assert(j * chunk <= k * chunk) by (nonlinear_arith)
        requires
            j <= k,
            chunk > 0,
    ;
    if j > 0 {
        let i = (j - 1) as nat;
        lemma_feed(p, chunk, i, k, vram, oam);
        assert(j * chunk == i * chunk + chunk) by (nonlinear_arith)
            requires
                j == i + 1,
        ;
        let q = p.fed(chunk, i, vram, oam);
        let at = i * chunk;
        assert(0 <= at && at + chunk <= 70224 && at < 70224);
        assert(at % 70224 == at);
        assert(q.position() == at);
        lemma_tick_position(q, chunk, vram, oam);
        let next = q.after_tick(chunk, vram, oam);
        assert(p.fed(chunk, j, vram, oam) == next);
        assert(next.frame_complete == (at < 65664 <= at + chunk));
        assert(p.edges(chunk, j, vram, oam) == p.edges(chunk, i, vram, oam) + (if next.frame_complete {
            1nat
        } else {
            0nat
        }));
    } else {
        assert(j * chunk == 0) by (nonlinear_arith)
            requires
                j == 0,
        ;
    }
}

/// Frame cadence: from the start of a frame, a steady feed of ticks that
/// add up to exactly one frame of 70224 dots raises the frame-complete flag
/// on exactly one tick, and ends where it began, at the first dot of line
/// 0; after `j` of those ticks the scanline is the `j`-th multiple of the
/// tick divided by 456, so LY passes once through 0 to 153.
pub proof fn lemma_frame_cadence(
    p: PpuModel,
    chunk: u32,
    j: nat,
    k: nat,
    vram: Seq<u8>,
    oam: Seq<u8>,
)
    requires
        p.timed(),
        p.position() == 0,
        chunk > 0,
        k * chunk == 70224,
        j <= k,
    ensures
        p.edges(chunk, k, vram, oam) == 1,
        p.fed(chunk, k, vram, oam).ly == 0,
        p.fed(chunk, k, vram, oam).line_dots == 0,
        j < k ==> p.fed(chunk, j, vram, oam).ly == (j * chunk) / 456,
{
    lemma_feed(p, chunk, k, k, vram, oam);
    lemma_feed(p, chunk, j, k, vram, oam);
    if j < k {
        assert(j * chunk < k * chunk) by (nonlinear_arith)
            requires
                j < k,
                chunk > 0,
        ;
    }
}

} // verus!
