//! The pixel renderer: what shade each pixel of a scanline takes, from the
//! background tile map and the sprites in the attribute table.

use vstd::prelude::*;
use crate::bits::{signed, lemma_mask_bits};
use crate::ppu::registers::PpuRegisters;

verus! {

/// The screen: one two-bit shade per pixel, row by row.
pub struct Framebuffer {
    pub pixels: [u8; 23040],
}

impl Framebuffer {
    pub fn new() -> (r: Self)
        ensures
            r.pixels@ == Seq::new(23040, |i: int| 0u8),
    {
        let r = Framebuffer { pixels: [0u8; 23040] };
        assert(r.pixels@ =~= Seq::new(23040, |i: int| 0u8));
        r
    }

    /// Sets the shade of the pixel in column `x` of row `y`.
    pub fn set(&mut self, x: usize, y: usize, v: u8)
        requires
            x < 160,
            y < 144,
        ensures
            final(self).pixels@ == old(self).pixels@.update(y * 160 + x, v),
    {
        self.pixels[y * 160 + x] = v;
    }
}

/// The colour index that the two bit planes of a tile row hold in column
/// `col`, counted from the left.
pub open spec fn plane_color(lo: u8, hi: u8, col: u8) -> u8 {
    (((hi >> (7 - col) as u8) & 1) << 1) | ((lo >> (7 - col) as u8) & 1)
}

/// The shade that a palette gives to a colour index.
pub open spec fn shade(palette: u8, index: u8) -> u8 {
    (palette >> (index * 2) as u8) & 0x03
}

pub proof fn lemma_plane_color(lo: u8, hi: u8, bit: u8)
    by (bit_vector)
    requires
        bit < 8,
    ensures
        ((((hi >> bit) & 1) << 1) | ((lo >> bit) & 1)) <= 3,
{
}

pub proof fn lemma_shade(palette: u8, amount: u8)
    by (bit_vector)
    requires
        amount < 8,
    ensures
        (palette >> amount) & 0x03 <= 3,
{
}

pub fn color_of(lo: u8, hi: u8, col: u8) -> (r: u8)
    requires
        col < 8,
    ensures
        r == plane_color(lo, hi, col),
        r <= 3,
{
    let bit: u8 = 7 - col;
    proof {
        lemma_plane_color(lo, hi, bit);
    }
    (((hi >> bit) & 1) << 1) | ((lo >> bit) & 1)
}

pub fn shade_of(palette: u8, index: u8) -> (r: u8)
    requires
        index <= 3,
    ensures
        r == shade(palette, index),
        r <= 3,
{
    let amount: u8 = index * 2;
    proof {
        lemma_shade(palette, amount);
    }
    (palette >> amount) & 0x03
}

/// All that decides the shades of one scanline.
pub struct Scene {
    pub regs: PpuRegisters,
    pub vram: Seq<u8>,
    pub oam: Seq<u8>,
    pub ly: u8,
}

impl Scene {
    pub open spec fn wf(&self) -> bool {
        self.vram.len() == 0x2000 && self.oam.len() == 0xA0
    }

    /// Where in VRAM the data of background tile `id` starts: counted up
    /// from `0x8000` when LCDC bit 4 is set, else signed around `0x9000`.
    pub open spec fn tile_data(&self, id: u8) -> int {
        if self.regs.lcdc & 0x10 != 0 {
            id as int * 16
        } else {
            0x1000 + signed(id) * 16
        }
    }

    /// The background's colour index at column `x`; zero when LCDC bit 0
    /// switches the background off.
    pub open spec fn bg_index(&self, x: u8) -> u8 {
        if self.regs.lcdc & 0x01 == 0 {
            0
        } else {
            let sx = (x + self.regs.scx) % 256;
            let sy = (self.ly + self.regs.scy) % 256;
            let map: int = if self.regs.lcdc & 0x08 == 0 { 0x1800 } else { 0x1C00 };
            let id = self.vram[map + (sy / 8) * 32 + sx / 8];
            let row = self.tile_data(id) + (sy % 8) * 2;
            plane_color(self.vram[row], self.vram[row + 1], (sx % 8) as u8)
        }
    }

    /// The background's shade at column `x`.
    pub open spec fn bg_shade(&self, x: u8) -> u8 {
        if self.regs.lcdc & 0x01 == 0 {
            0
        } else {
            shade(self.regs.bgp, self.bg_index(x))
        }
    }

    pub open spec fn sprite_height(&self) -> int {
        if self.regs.lcdc & 0x04 != 0 {
            16
        } else {
            8
        }
    }

    /// The screen row of the top of sprite `i`.
    pub open spec fn sprite_top(&self, i: int) -> int {
        self.oam[4 * i] - 16
    }

    /// The screen column of the left edge of sprite `i`.
    pub open spec fn sprite_left(&self, i: int) -> int {
        self.oam[4 * i + 1] - 8
    }

    /// Whether sprite `i` covers the scanline.
    pub open spec fn on_line(&self, i: int) -> bool {
        self.sprite_top(i) <= self.ly < self.sprite_top(i) + self.sprite_height()
    }

    /// How many of the sprites before `i` cover the scanline.
    pub open spec fn on_line_before(&self, i: int) -> int
        decreases i,
    {
        if i <= 0 {
            0
        } else {
            self.on_line_before(i - 1) + (if self.on_line(i - 1) { 1int } else { 0int })
        }
    }

    /// Whether sprite `i` is drawn: it covers the line and is among the
    /// first ten that do.
    pub open spec fn drawn(&self, i: int) -> bool {
        self.on_line(i) && self.on_line_before(i) < 10
    }

    /// Where in VRAM the tile row of sprite `i` that falls on the scanline
    /// starts. A flipped sprite counts its rows from the bottom; a tall
    /// sprite takes its two tiles from an even tile number.
    pub open spec fn sprite_row(&self, i: int) -> int {
        let attr = self.oam[4 * i + 3];
        let line = self.ly - self.sprite_top(i);
        let row = if attr & 0x40 != 0 { self.sprite_height() - 1 - line } else { line };
        let tile = if self.sprite_height() == 16 {
            self.oam[4 * i + 2] & 0xFE
        } else {
            self.oam[4 * i + 2]
        };
        tile as int * 16 + row * 2
    }

    /// The colour index of sprite `i` at screen column `x`, which must lie
    /// within the sprite. A mirrored sprite counts its columns from the
    /// right.
    pub open spec fn sprite_index(&self, i: int, x: u8) -> u8 {
        let col = x - self.sprite_left(i);
        plane_color(
            self.vram[self.sprite_row(i)],
            self.vram[self.sprite_row(i) + 1],
            (if self.oam[4 * i + 3] & 0x20 != 0 { 7 - col } else { col }) as u8,
        )
    }

    /// Whether sprite `i` puts a pixel at column `x`: the column lies within
    /// the sprite, its colour there is not the transparent zero, and it does
    /// not yield to a non-zero background.
    pub open spec fn paints(&self, i: int, x: u8) -> bool {
        &&& self.sprite_left(i) <= x < self.sprite_left(i) + 8
        &&& self.sprite_index(i, x) != 0
        &&& !(self.oam[4 * i + 3] & 0x80 != 0 && self.bg_index(x) != 0)
    }

    /// The shade sprite `i` gives to column `x`, through the palette its
    /// attributes select.
    pub open spec fn sprite_shade(&self, i: int, x: u8) -> u8 {
        shade(
            if self.oam[4 * i + 3] & 0x10 != 0 { self.regs.obp1 } else { self.regs.obp0 },
            self.sprite_index(i, x),
        )
    }

    /// The shade at column `x` once the background and the first `n`
    /// sprites are drawn, each sprite over what lay there before.
    pub open spec fn layered(&self, x: u8, n: int) -> u8
        decreases n,
    {
        if n <= 0 {
            self.bg_shade(x)
        } else if self.drawn(n - 1) && self.paints(n - 1, x) {
            self.sprite_shade(n - 1, x)
        } else {
            self.layered(x, n - 1)
        }
    }

    /// The final shade at column `x`: all forty sprites over the background
    /// when LCDC bit 1 shows sprites, the background alone when not.
    pub open spec fn pixel(&self, x: u8) -> u8 {
        if self.regs.lcdc & 0x02 != 0 {
            self.layered(x, 40)
        } else {
            self.bg_shade(x)
        }
    }
}

/// The screen after the scanline of `scene` is drawn into it: that row
/// holds the scene's pixels and every other row is as before.
pub open spec fn with_line(pixels: Seq<u8>, scene: Scene) -> Seq<u8> {
    Seq::new(
        pixels.len(),
        |i: int|
            if i / 160 == scene.ly as int {
                scene.pixel((i % 160) as u8)
            } else {
                pixels[i]
            },
    )
}

/// The pixel in column `x` of row `line`.
pub open spec fn row_pixel(pixels: Seq<u8>, line: int, x: int) -> u8 {
    pixels[line * 160 + x]
}

/// The scene of scanline `ly` under the given registers and memory.
pub open spec fn scene_of(regs: PpuRegisters, vram: Seq<u8>, oam: Seq<u8>, ly: u8) -> Scene {
    Scene { regs, vram, oam, ly }
}

/// Where in VRAM the data of background tile `id` starts.
pub fn tile_data(lcdc: u8, id: u8) -> (r: usize)
    ensures
        r == (if lcdc & 0x10 != 0 {
            id as int * 16
        } else {
            0x1000 + signed(id) * 16
        }),
        r % 16 == 0,
        r <= 0x17F0,
{
    if lcdc & 0x10 != 0 {
        id as usize * 16
    } else if id < 128 {
        0x1000 + id as usize * 16
    } else {
        0x0800 + (id as usize - 128) * 16
    }
}

/// Where in VRAM the tile map holds the tile under background point
/// (`sx`, `sy`).
pub fn map_slot(lcdc: u8, sx: u8, sy: u8) -> (r: usize)
    ensures
        r == (if lcdc & 0x08 == 0 { 0x1800int } else { 0x1C00int }) + (sy / 8) * 32 + sx / 8,
        0x1800 <= r < 0x2000,
{
    let map: usize = if lcdc & 0x08 == 0 {
        0x1800
    } else {
        0x1C00
    };
    map + (sy / 8) as usize * 32 + (sx / 8) as usize
}

/// The background's colour index at column `x` of scanline `ly`.
pub fn bg_index(regs: &PpuRegisters, vram: &[u8; 0x2000], oam: &[u8; 0xA0], x: u8, ly: u8) -> (r:
    u8)
    ensures
        r == scene_of(*regs, vram@, oam@, ly).bg_index(x),
        r <= 3,
{
    if regs.lcdc & 0x01 == 0 {
        return 0;
    }
    let sx = x.wrapping_add(regs.scx);
    let sy = ly.wrapping_add(regs.scy);
    assert(sx == (x + regs.scx) % 256);
    assert(sy == (ly + regs.scy) % 256);
    let id = vram[map_slot(regs.lcdc, sx, sy)];
    let row = tile_data(regs.lcdc, id) + (sy % 8) as usize * 2;
    color_of(vram[row], vram[row + 1], sx % 8)
}

/// Draws the background of scanline `ly` and returns its colour indices.
fn draw_background(
    pixels: &mut [u8; 23040],
    regs: &PpuRegisters,
    vram: &[u8; 0x2000],
    oam: &[u8; 0xA0],
    ly: u8,
) -> (bg: [u8; 160])
    requires
        ly < 144,
    ensures
        forall|x: int|
            0 <= x < 160 ==> #[trigger] row_pixel(final(pixels)@, ly as int, x) == scene_of(
                *regs,
                vram@,
                oam@,
                ly,
            ).bg_shade(x as u8),
        forall|x: int|
            0 <= x < 160 ==> #[trigger] bg@[x] == scene_of(*regs, vram@, oam@, ly).bg_index(
                x as u8,
            ),
        forall|k: int|
            0 <= k < 23040 && k / 160 != ly ==> #[trigger] final(pixels)@[k] == old(pixels)@[k],
{
    let ghost s = scene_of(*regs, vram@, oam@, ly);
    let mut bg = [0u8; 160];
    let base: usize = ly as usize * 160;
    let mut x: u8 = 0;
    while x < 160
        invariant
            x <= 160,
            ly < 144,
            base == ly * 160,
            s == scene_of(*regs, vram@, oam@, ly),
            forall|j: int| 0 <= j < x ==> #[trigger] row_pixel(pixels@, ly as int, j) == s.bg_shade(j as u8),
            forall|j: int| 0 <= j < x ==> #[trigger] bg@[j] == s.bg_index(j as u8),
            forall|k: int|
                0 <= k < 23040 && k / 160 != ly ==> #[trigger] pixels@[k] == old(pixels)@[k],
        decreases 160 - x,
    {
        let index = bg_index(regs, vram, oam, x, ly);
        let value = if regs.lcdc & 0x01 == 0 {
            0
        } else {
            shade_of(regs.bgp, index)
        };
        let ghost before = pixels@;
        pixels[base + x as usize] = value;
        bg[x as usize] = index;
        proof {
            assert forall|j: int| 0 <= j < x + 1 implies #[trigger] row_pixel(
                pixels@,
                ly as int,
                j,
            ) == s.bg_shade(j as u8) by {
                if j < x {
                    assert(row_pixel(before, ly as int, j) == s.bg_shade(j as u8));
                }
            }
        }
        x = x + 1;
    }
    bg
}

/// Draws the sprites of scanline `ly` over its background.
fn draw_sprites(
    pixels: &mut [u8; 23040],
    regs: &PpuRegisters,
    vram: &[u8; 0x2000],
    oam: &[u8; 0xA0],
    ly: u8,
    bg: &[u8; 160],
)
    requires
        ly < 144,
        forall|x: int|
            0 <= x < 160 ==> #[trigger] row_pixel(old(pixels)@, ly as int, x) == scene_of(
                *regs,
                vram@,
                oam@,
                ly,
            ).bg_shade(x as u8),
        forall|x: int|
            0 <= x < 160 ==> #[trigger] bg@[x] == scene_of(*regs, vram@, oam@, ly).bg_index(
                x as u8,
            ),
    ensures
        forall|x: int|
            0 <= x < 160 ==> #[trigger] row_pixel(final(pixels)@, ly as int, x) == scene_of(
                *regs,
                vram@,
                oam@,
                ly,
            ).layered(x as u8, 40),
        forall|k: int|
            0 <= k < 23040 && k / 160 != ly ==> #[trigger] final(pixels)@[k] == old(pixels)@[k],
{
    let ghost s = scene_of(*regs, vram@, oam@, ly);
    let tall = regs.lcdc & 0x04 != 0;
    let h: u8 = if tall {
        16
    } else {
        8
    };
    let base: usize = ly as usize * 160;
    let lyp: u16 = ly as u16 + 16;
    let mut seen: u8 = 0;
    let mut i: usize = 0;
    while i < 40
        invariant
            i <= 40,
            ly < 144,
            base == ly * 160,
            lyp == ly + 16,
            h == s.sprite_height(),
            tall == (h == 16),
            s == scene_of(*regs, vram@, oam@, ly),
            seen == s.on_line_before(i as int),
            seen <= i,
            forall|x: int| 0 <= x < 160 ==> #[trigger] bg@[x] == s.bg_index(x as u8),
            forall|x: int|
                0 <= x < 160 ==> #[trigger] row_pixel(pixels@, ly as int, x) == s.layered(
                    x as u8,
                    i as int,
                ),
            forall|k: int|
                0 <= k < 23040 && k / 160 != ly ==> #[trigger] pixels@[k] == old(pixels)@[k],
        decreases 40 - i,
    {
        let top = oam[4 * i];
        let left = oam[4 * i + 1];
        let tile = oam[4 * i + 2];
        let attr = oam[4 * i + 3];
        if (top as u16) <= lyp && lyp < (top as u16) + (h as u16) {
            assert(s.on_line(i as int));
            if seen < 10 {
                assert(s.drawn(i as int));
                let line: u8 = (lyp - top as u16) as u8;
                let row: u8 = if attr & 0x40 != 0 {
                    h - 1 - line
                } else {
                    line
                };
                proof {
                    lemma_mask_bits(tile);
                }
                let t: u8 = if tall {
                    tile & 0xFE
                } else {
                    tile
                };
                let data: usize = t as usize * 16 + row as usize * 2;
                let lo = vram[data];
                let hi = vram[data + 1];
                let palette = if attr & 0x10 != 0 {
                    regs.obp1
                } else {
                    regs.obp0
                };
                let mut col: u8 = 0;
                while col < 8
                    invariant
                        col <= 8,
                        i < 40,
                        ly < 144,
                        base == ly * 160,
                        s == scene_of(*regs, vram@, oam@, ly),
                        left == s.oam[4 * i + 1],
                        attr == s.oam[4 * i + 3],
                        s.drawn(i as int),
                        forall|x: int| 0 <= x < 160 ==> #[trigger] bg@[x] == s.bg_index(x as u8),
                        lo == s.vram[s.sprite_row(i as int)],
                        hi == s.vram[s.sprite_row(i as int) + 1],
                        palette == (if attr & 0x10 != 0 {
                            regs.obp1
                        } else {
                            regs.obp0
                        }),
                        forall|x: int|
                            0 <= x < 160 ==> #[trigger] row_pixel(pixels@, ly as int, x) == (if x
                                < s.sprite_left(i as int) + col && s.paints(i as int, x as u8) {
                                s.sprite_shade(i as int, x as u8)
                            } else {
                                s.layered(x as u8, i as int)
                            }),
                        forall|k: int|
                            0 <= k < 23040 && k / 160 != ly ==> #[trigger] pixels@[k] == old(
                                pixels,
                            )@[k],
                    decreases 8 - col,
                {
                    let sx: u16 = left as u16 + col as u16;
                    if sx >= 8 && sx < 168 {
                        let x: usize = (sx - 8) as usize;
                        let c = color_of(
                            lo,
                            hi,
                            if attr & 0x20 != 0 {
                                7 - col
                            } else {
                                col
                            },
                        );
                        assert(bg@[x as int] == s.bg_index(x as u8));
                        assert(c == s.sprite_index(i as int, x as u8));
                        if c != 0 && !(attr & 0x80 != 0 && bg[x] != 0) {
                            let ghost before = pixels@;
                            pixels[base + x] = shade_of(palette, c);
                            proof {
                                assert forall|j: int| 0 <= j < 160 implies #[trigger] row_pixel(
                                    pixels@,
                                    ly as int,
                                    j,
                                ) == (if j < s.sprite_left(i as int) + col + 1 && s.paints(
                                    i as int,
                                    j as u8,
                                ) {
                                    s.sprite_shade(i as int, j as u8)
                                } else {
                                    s.layered(j as u8, i as int)
                                }) by {
                                    assert(row_pixel(before, ly as int, j) == (if j
                                        < s.sprite_left(i as int) + col && s.paints(
                                        i as int,
                                        j as u8,
                                    ) {
                                        s.sprite_shade(i as int, j as u8)
                                    } else {
                                        s.layered(j as u8, i as int)
                                    }));
                                }
                            }
                        }
                    }
                    col = col + 1;
                }
            }
            seen = seen + 1;
        }
        i = i + 1;
    }
}

/// Draws scanline `ly` into the screen.
pub fn draw_line(
    pixels: &mut [u8; 23040],
    regs: &PpuRegisters,
    vram: &[u8; 0x2000],
    oam: &[u8; 0xA0],
    ly: u8,
)
    requires
        ly < 144,
    ensures
        final(pixels)@ == with_line(old(pixels)@, scene_of(*regs, vram@, oam@, ly)),
{
    let ghost s = scene_of(*regs, vram@, oam@, ly);
    let bg = draw_background(pixels, regs, vram, oam, ly);
    if regs.lcdc & 0x02 != 0 {
        draw_sprites(pixels, regs, vram, oam, ly, &bg);
    }
    proof {
        assert forall|k: int| 0 <= k < 23040 implies pixels@[k] == with_line(old(pixels)@, s)[k] by {
            if k / 160 == ly as int {
                let x = k % 160;
                assert(ly * 160 + x == k);
                assert(row_pixel(pixels@, ly as int, x) == s.pixel(x as u8));
            }
        }
        assert(pixels@ =~= with_line(old(pixels)@, s));
    }
}

} // verus!
