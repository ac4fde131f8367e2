use vstd::prelude::*;
use crate::context::{InnerContext2, RunningMode};
use crate::ppu::{Ppu, PpuRegs, pal_ok, write_regs};

verus! {

broadcast use crate::bits::group_and_bounds;

// ---------------------------------------------------------------------------
// Background and window rendering

/// Whether screen column `scr_x` of the current line shows the window.
pub open spec fn win_hit(r: PpuRegs, scr_x: u8) -> bool {
    r.window_enable && r.ly >= r.window_y && scr_x as int + 7 >= r.window_x as int
}

/// Map coordinates (x, y) and tile map base for screen column `scr_x`.
pub open spec fn bg_coords(r: PpuRegs, scr_x: u8) -> (u8, u8, u16) {
    if !win_hit(r, scr_x) {
        (
            vstd::wrapping::u8_specs::wrapping_add(scr_x, r.scroll_x),
            vstd::wrapping::u8_specs::wrapping_add(r.ly, r.scroll_y),
            if r.bg_tile_map_select { 0x1C00u16 } else { 0x1800u16 },
        )
    } else {
        (
            (scr_x + 7 - r.window_x) as u8,
            r.window_rendering_counter,
            if r.window_tile_map_select { 0x1C00u16 } else { 0x1800u16 },
        )
    }
}

/// VRAM offset of the tile map entry for screen column `scr_x`.
pub open spec fn tile_ix_addr(r: PpuRegs, scr_x: u8) -> int {
    let (x, y, map) = bg_coords(r, scr_x);
    map as int + (y as int / 8) * 32 + x as int / 8
}

/// The tile's attribute byte (bank 1 of the map, Game Boy Color only).
pub open spec fn bg_tile_attr(r: PpuRegs, vram: Seq<u8>, cgb: bool, scr_x: u8) -> u8 {
    if cgb {
        vram[0x2000 + tile_ix_addr(r, scr_x)]
    } else {
        0
    }
}

/// VRAM offset of the tile's pattern: tiles 0-127 at $8000 or $9000, tiles 128-255 at $8800.
pub open spec fn bg_tile_addr(r: PpuRegs, vram: Seq<u8>, scr_x: u8) -> int {
    let ix = vram[tile_ix_addr(r, scr_x)];
    let a = (if r.bg_and_window_tile_data_select { 0int } else { 0x1000int }) + ix as int * 16;
    if a >= 0x1800 {
        a - 0x1000
    } else {
        a
    }
}

/// The two pattern bytes of the tile row, then the column within them.
pub open spec fn bg_pattern(r: PpuRegs, vram: Seq<u8>, cgb: bool, scr_x: u8) -> (u8, u8, int) {
    let (x, y, map) = bg_coords(r, scr_x);
    let attr = bg_tile_attr(r, vram, cgb, scr_x);
    let bank: int = if (attr & 0x08) != 0 { 0x2000 } else { 0 };
    let ofs_x: int = if (attr & 0x20) != 0 { 7 - x as int % 8 } else { x as int % 8 };
    let ofs_y: int = if (attr & 0x40) != 0 { 7 - y as int % 8 } else { y as int % 8 };
    let base = bank + bg_tile_addr(r, vram, scr_x) + ofs_y * 2;
    (vram[base], vram[base + 1], ofs_x)
}

/// The two-bit color number of a pattern pixel.
pub open spec fn pixel_bits(lo: u8, hi: u8, ofs_x: int) -> u8 {
    (((lo >> (7 - ofs_x) as u8) & 1) | (((hi >> (7 - ofs_x) as u8) & 1) << 1u8)) as u8
}

pub open spec fn bg_bits(r: PpuRegs, vram: Seq<u8>, cgb: bool, scr_x: u8) -> u8 {
    let (lo, hi, ofs_x) = bg_pattern(r, vram, cgb, scr_x);
    pixel_bits(lo, hi, ofs_x)
}

/// A little-endian color from palette memory.
pub open spec fn pal_color(mem: Seq<u8>, i: int) -> u16 {
    (mem[i] as int + mem[i + 1] as int * 256) as u16
}

fn color_at(mem: &Vec<u8>, i: usize) -> (c: u16)
    requires
        i < mem.len() && i + 1 < mem.len(),
    ensures
        c == pal_color(mem@, i as int),
{
    let lo: u8 = mem[i];
    let hi: u8 = mem[i + 1];
    lo as u16 + (hi as u16) * 256
}

pub open spec fn pal_entry(p: [u8; 4], b: u8) -> u8 {
    if b == 0 { p[0] } else if b == 1 { p[1] } else if b == 2 { p[2] } else { p[3] }
}

fn pal_lookup(p: [u8; 4], b: u8) -> (r: u8)
    requires
        b < 4,
    ensures
        r == pal_entry(p, b),
        r == p[b as int],
{
    p[b as usize]
}

/// Outside the window, the tile map entry of screen column `scr_x` on line LY is at
/// $9C00 (VRAM offset $1C00) when LCDC bit 3 is set and $9800 ($1800) when it is clear,
/// plus 32 per tile row of (LY + SCY) mod 256 and one per tile column of (x + SCX) mod
/// 256; inside the window the map is the one LCDC bit 6 selects, at the window's own
/// line and column (on the 160 visible columns).
pub proof fn lemma_bg_map_entry(r: PpuRegs, scr_x: u8)
    ensures
        !win_hit(r, scr_x) ==> tile_ix_addr(r, scr_x) == (if r.bg_tile_map_select { 0x1C00int } else { 0x1800int })
            + (((r.ly + r.scroll_y) % 256) / 8) * 32 + ((scr_x + r.scroll_x) % 256) / 8,
        win_hit(r, scr_x) && scr_x < 160 ==> tile_ix_addr(r, scr_x) == (if r.window_tile_map_select {
            0x1C00int
        } else {
            0x1800int
        }) + (r.window_rendering_counter / 8) * 32 + (scr_x + 7 - r.window_x) / 8,
{
}

/// After LCDC ($FF40) is written with `data`, a column outside the window reads its
/// background tile number from the map at $9C00 when bit 3 of `data` is set and from the
/// one at $9800 when it is clear.
pub proof fn lemma_lcdc_bg_map(r: PpuRegs, cgb: bool, data: u8, scr_x: u8)
    ensures
        ({
            let n = write_regs(r, cgb, 0xFF40, data);
            !win_hit(n, scr_x) ==> tile_ix_addr(n, scr_x) == (if data & 0x08 != 0 { 0x1C00int } else { 0x1800int })
                + (((n.ly + n.scroll_y) % 256) / 8) * 32 + ((scr_x + n.scroll_x) % 256) / 8
        }),
{
    assert(0xFF40u16 & 0xff == 0x40) by (bit_vector);
    lemma_bg_map_entry(write_regs(r, cgb, 0xFF40, data), scr_x);
}

/// The pattern of background tile number n: with LCDC bit 4 set, at $8000 + 16n; with it
/// clear, tiles 0-127 at $9000 + 16n and tiles 128-255 at $8800 + 16(n - 128).
pub proof fn lemma_bg_tile_data(r: PpuRegs, vram: Seq<u8>, scr_x: u8)
    ensures
        ({
            let n = vram[tile_ix_addr(r, scr_x)] as int;
            &&& r.bg_and_window_tile_data_select ==> bg_tile_addr(r, vram, scr_x) == n * 16
            &&& !r.bg_and_window_tile_data_select ==> bg_tile_addr(r, vram, scr_x) == if n < 128 {
                0x1000 + n * 16
            } else {
                0x0800 + (n - 128) * 16
            }
        }),
{
}

proof fn lemma_pixel_bits_value(lo: u8, hi: u8, s: u8)
    by (bit_vector)
    requires
        s < 8,
    ensures
        (((lo >> s) & 1) | (((hi >> s) & 1) << 1u8)) == (lo >> s) % 2 + 2 * ((hi >> s) % 2),
{
}

/// On a Game Boy, the color number of a background pixel outside the window is bit
/// 7 - (x mod 8) of the tile row's first byte plus twice that bit of its second byte, the
/// row being (LY + SCY) mod 8 of the tile and x = (screen column + SCX) mod 256.
pub proof fn lemma_bg_pixel_dmg(r: PpuRegs, vram: Seq<u8>, scr_x: u8)
    requires
        !win_hit(r, scr_x),
    ensures
        ({
            let x = (scr_x + r.scroll_x) % 256;
            let y = (r.ly + r.scroll_y) % 256;
            let base = bg_tile_addr(r, vram, scr_x) + (y % 8) * 2;
            let s = (7 - x % 8) as u8;
            bg_bits(r, vram, false, scr_x) as int == (vram[base] >> s) % 2 + 2 * ((vram[base + 1] >> s) % 2)
        }),
{
    let x = (scr_x + r.scroll_x) % 256;
    let y = (r.ly + r.scroll_y) % 256;
    let base = bg_tile_addr(r, vram, scr_x) + (y % 8) * 2;
    lemma_pixel_bits_value(vram[base], vram[base + 1], (7 - x % 8) as u8);
}

proof fn lemma_pixel_bits_bound(lo: u8, hi: u8, ofs_x: int)
    requires
        0 <= ofs_x < 8,
    ensures
        pixel_bits(lo, hi, ofs_x) < 4,
{
    let s = (7 - ofs_x) as u8;
    assert((((lo >> s) & 1) | (((hi >> s) & 1) << 1u8)) < 4) by (bit_vector);
}

fn bg_coords_exec(r: PpuRegs, scr_x: u8) -> (res: (u8, u8, u16))
    requires
        scr_x < 160,
    ensures
        res == bg_coords(r, scr_x),
{
    let in_window = r.window_enable && r.ly >= r.window_y && scr_x as u16 + 7 >= r.window_x as u16;
    if !in_window {
        (
            scr_x.wrapping_add(r.scroll_x),
            r.ly.wrapping_add(r.scroll_y),
            if r.bg_tile_map_select { 0x1C00u16 } else { 0x1800u16 },
        )
    } else {
        (
            (scr_x as u16 + 7 - r.window_x as u16) as u8,
            r.window_rendering_counter,
            if r.window_tile_map_select { 0x1C00u16 } else { 0x1800u16 },
        )
    }
}

fn tile_index_addr(x: u8, y: u8, map: u16) -> (r: usize)
    requires
        map == 0x1800 || map == 0x1C00,
    ensures
        r as int == map as int + (y as int / 8) * 32 + x as int / 8,
        r < 0x2000,
{
    (map + (y as u16 / 8) * 32 + x as u16 / 8) as usize
}

fn tile_pattern_addr(r: PpuRegs, ix: u8) -> (a: u16)
    ensures
        a as int == ({
            let t = (if r.bg_and_window_tile_data_select { 0int } else { 0x1000int }) + ix as int * 16;
            if t >= 0x1800 { t - 0x1000 } else { t }
        }),
        a < 0x1800,
{
    let tile_data: u16 = if r.bg_and_window_tile_data_select { 0x0000 } else { 0x1000 };
    let mut tile_addr: u16 = tile_data + ix as u16 * 16;
    if tile_addr >= 0x1800 {
        tile_addr = tile_addr - 0x1000;
    }
    tile_addr
}

fn flip(v: u8, f: bool) -> (r: u8)
    requires
        v < 8,
    ensures
        r == if f { 7 - v } else { v as int },
        r < 8,
{
    if f { 7 - v } else { v }
}

fn pixel_of(lo: u8, hi: u8, ofs_x: u8) -> (b: u8)
    requires
        ofs_x < 8,
    ensures
        b == pixel_bits(lo, hi, ofs_x as int),
        b < 4,
{
    proof {
        lemma_pixel_bits_bound(lo, hi, ofs_x as int);
    }
    let sh = 7 - ofs_x;
    ((lo >> sh) & 1) | (((hi >> sh) & 1) << 1u8)
}

impl Ppu {
    /// Whether the background layer is drawn on this line.
    pub open spec fn bg_drawn(&self, cgb_mode: bool) -> bool {
        self.regs.ppu_enable && (self.regs.bg_and_window_enable || cgb_mode)
    }

    /// Color number, attribute byte of screen column `scr_x`.
    fn bg_pixel(&self, vram: &Vec<u8>, cgb: bool, scr_x: u8) -> (res: (u8, u8))
        requires
            vram@.len() == if cgb { 0x4000int } else { 0x2000int },
            scr_x < 160,
        ensures
            res.0 == bg_bits(self.regs, vram@, cgb, scr_x),
            res.1 == bg_tile_attr(self.regs, vram@, cgb, scr_x),
            res.0 < 4,
    {
        let r = self.regs;
        let (x, y, tile_map) = bg_coords_exec(r, scr_x);
        let idx = tile_index_addr(x, y, tile_map);
        let tile_ix = vram[idx];
        let tile_attr: u8 = if cgb { vram[0x2000 + idx] } else { 0 };
        let tile_addr = tile_pattern_addr(r, tile_ix);
        let vram_bank: u16 = if tile_attr & 0x08 != 0 { 0x2000 } else { 0 };
        let ofs_x = flip(x % 8, tile_attr & 0x20 != 0);
        let ofs_y = flip(y % 8, tile_attr & 0x40 != 0);
        proof {
            if !cgb {
                assert(0u8 & 0x08 == 0) by (bit_vector);
            }
        }
        let base = (vram_bank + tile_addr + ofs_y as u16 * 2) as usize;
        let lo = vram[base];
        let hi = vram[base + 1];
        (pixel_of(lo, hi, ofs_x), tile_attr)
    }
}

/// Drawing order of a pixel: higher covers lower.
pub const Z_ORD_OBJ_HIGHEST: u8 = 10;
pub const Z_ORD_BG_HIGH: u8 = 8;
pub const Z_ORD_OBJ_HIGH: u8 = 6;
pub const Z_ORD_BG_LOW: u8 = 4;
pub const Z_ORD_OBJ_LOW: u8 = 2;
pub const Z_ORD_NULL: u8 = 0;

/// Shade of column `x` on a monochrome model: the color number through BGP.
pub open spec fn bg_shade_at(r: PpuRegs, vram: Seq<u8>, x: u8) -> u8 {
    r.bg_pal[bg_bits(r, vram, false, x) as int]
}

/// Color of column `x` on a Game Boy Color: in compatibility mode the color number goes
/// through BGP into palette 0; in color mode the tile attribute chooses the palette.
pub open spec fn bg_color_at(r: PpuRegs, cpal: Seq<u8>, vram: Seq<u8>, cgb_mode: bool, x: u8) -> u16 {
    let b = bg_bits(r, vram, true, x);
    if !cgb_mode {
        pal_color(cpal, r.bg_pal[b as int] as int * 2)
    } else {
        pal_color(cpal, ((bg_tile_attr(r, vram, true, x) & 7) as int * 4 + b as int) * 2)
    }
}

/// Drawing order of column `x`: non-zero colors get BG priority from attribute bit 7.
pub open spec fn bg_attr_at(r: PpuRegs, vram: Seq<u8>, cgb: bool, x: u8, old_attr: u8) -> u8 {
    if bg_bits(r, vram, cgb, x) != 0 {
        if (bg_tile_attr(r, vram, cgb, x) & 0x80) != 0 {
            Z_ORD_BG_HIGH
        } else {
            Z_ORD_BG_LOW
        }
    } else {
        old_attr
    }
}

proof fn lemma_win_hit_monotone(r: PpuRegs, a: u8, b: u8)
    requires
        a <= b,
        win_hit(r, a),
    ensures
        win_hit(r, b),
{
}

impl Ppu {
    fn draw_bg_pixel(&mut self, vram: &Vec<u8>, cgb: bool, cgb_mode: bool, x: u8)
        requires
            old(self).wf(),
            vram@.len() == if cgb { 0x4000int } else { 0x2000int },
            x < 160,
        ensures
            final(self).wf(),
            final(self).regs == old(self).regs,
            final(self).bg_col_pal@ == old(self).bg_col_pal@,
            final(self).obj_col_pal@ == old(self).obj_col_pal@,
            final(self).dmg_palette == old(self).dmg_palette,
            final(self).render_graphics == old(self).render_graphics,
            final(self).frame_buffer == old(self).frame_buffer,
            final(self).line_buffer@ == if !cgb {
                old(self).line_buffer@.update(x as int, bg_shade_at(old(self).regs, vram@, x))
            } else {
                old(self).line_buffer@
            },
            final(self).line_buffer_col@ == if cgb {
                old(self).line_buffer_col@.update(
                    x as int,
                    bg_color_at(old(self).regs, old(self).bg_col_pal@, vram@, cgb_mode, x),
                )
            } else {
                old(self).line_buffer_col@
            },
            final(self).line_buffer_attr@ == old(self).line_buffer_attr@.update(
                x as int,
                bg_attr_at(old(self).regs, vram@, cgb, x, old(self).line_buffer_attr@[x as int]),
            ),
    {
        let (b, tile_attr) = self.bg_pixel(vram, cgb, x);
        let r = self.regs;
        let i = x as usize;
        if !cgb {
            let shade = pal_lookup(r.bg_pal, b);
            self.line_buffer.set(i, shade);
        } else if !cgb_mode {
            let k = pal_lookup(r.bg_pal, b) as usize * 2;
            let c = color_at(&self.bg_col_pal, k);
            self.line_buffer_col.set(i, c);
        } else {
            let pal_num = tile_attr & 7;
            let k = (pal_num as usize * 4 + b as usize) * 2;
            let c = color_at(&self.bg_col_pal, k);
            self.line_buffer_col.set(i, c);
        }
        let old_attr = self.line_buffer_attr[i];
        let z = if b != 0 {
            if tile_attr & 0x80 != 0 { Z_ORD_BG_HIGH } else { Z_ORD_BG_LOW }
        } else {
            old_attr
        };
        self.line_buffer_attr.set(i, z);
    }

    /// Draws the background and window of the current line into the line buffers, and
    /// counts a window line when the window showed.
    #[verifier::rlimit(100)]
    pub(crate) fn render_bg_line(&mut self, ctx: &InnerContext2)
        requires
            old(self).wf(),
            ctx.wf(),
        ensures
            final(self).wf(),
            final(self).bg_col_pal@ == old(self).bg_col_pal@,
            final(self).obj_col_pal@ == old(self).obj_col_pal@,
            final(self).dmg_palette == old(self).dmg_palette,
            final(self).render_graphics == old(self).render_graphics,
            final(self).frame_buffer == old(self).frame_buffer,
            !old(self).bg_drawn(ctx.running_mode == RunningMode::Cgb) ==> (
                final(self).regs == old(self).regs
                && final(self).line_buffer@ == old(self).line_buffer@
                && final(self).line_buffer_col@ == old(self).line_buffer_col@
                && final(self).line_buffer_attr@ == old(self).line_buffer_attr@),
            old(self).bg_drawn(ctx.running_mode == RunningMode::Cgb) ==> {
                let cgb = ctx.model.spec_is_cgb();
                let cgb_mode = ctx.running_mode == RunningMode::Cgb;
                &&& final(self).regs == (PpuRegs {
                    window_rendering_counter: if win_hit(old(self).regs, 159) {
                        vstd::wrapping::u8_specs::wrapping_add(old(self).regs.window_rendering_counter, 1)
                    } else {
                        old(self).regs.window_rendering_counter
                    },
                    ..old(self).regs
                })
                &&& forall|x: int| 0 <= x < 160 ==> #[trigger] final(self).line_buffer@[x] == if !cgb {
                    bg_shade_at(old(self).regs, ctx.vram@, x as u8)
                } else {
                    old(self).line_buffer@[x]
                }
                &&& forall|x: int| 0 <= x < 160 ==> #[trigger] final(self).line_buffer_col@[x] == if cgb {
                    bg_color_at(old(self).regs, old(self).bg_col_pal@, ctx.vram@, cgb_mode, x as u8)
                } else {
                    old(self).line_buffer_col@[x]
                }
                &&& forall|x: int| 0 <= x < 160 ==> #[trigger] final(self).line_buffer_attr@[x]
                    == bg_attr_at(old(self).regs, ctx.vram@, cgb, x as u8, old(self).line_buffer_attr@[x])
            },
    {
        let is_cgb = ctx.model().is_cgb();
        let is_cgb_mode = ctx.running_mode().is_cgb();
        if !(self.regs.ppu_enable && (self.regs.bg_and_window_enable || is_cgb_mode)) {
            return;
        }
        let ghost old_self = *self;
        let vram = &ctx.vram;
        let mut window_rendered = false;
        let mut scr_x: u8 = 0;
        while scr_x < 160
            invariant
                0 <= scr_x <= 160,
                self.wf(),
                old_self.wf(),
                ctx.wf(),
                vram == &ctx.vram,
                is_cgb == ctx.model.spec_is_cgb(),
                is_cgb_mode == (ctx.running_mode == RunningMode::Cgb),
                self.regs == old_self.regs,
                self.bg_col_pal@ == old_self.bg_col_pal@,
                self.obj_col_pal@ == old_self.obj_col_pal@,
                self.dmg_palette == old_self.dmg_palette,
                self.render_graphics == old_self.render_graphics,
                self.frame_buffer == old_self.frame_buffer,
                window_rendered == (scr_x > 0 && win_hit(old_self.regs, (scr_x - 1) as u8)),
                forall|x: int| scr_x <= x < 160 ==> #[trigger] self.line_buffer@[x] == old_self.line_buffer@[x],
                forall|x: int| scr_x <= x < 160 ==> #[trigger] self.line_buffer_col@[x] == old_self.line_buffer_col@[x],
                forall|x: int| scr_x <= x < 160 ==> #[trigger] self.line_buffer_attr@[x] == old_self.line_buffer_attr@[x],
                forall|x: int| 0 <= x < scr_x ==> #[trigger] self.line_buffer@[x] == if !is_cgb {
                    bg_shade_at(old_self.regs, ctx.vram@, x as u8)
                } else {
                    old_self.line_buffer@[x]
                },
                forall|x: int| 0 <= x < scr_x ==> #[trigger] self.line_buffer_col@[x] == if is_cgb {
                    bg_color_at(old_self.regs, old_self.bg_col_pal@, ctx.vram@, is_cgb_mode, x as u8)
                } else {
                    old_self.line_buffer_col@[x]
                },
                forall|x: int| 0 <= x < scr_x ==> #[trigger] self.line_buffer_attr@[x]
                    == bg_attr_at(old_self.regs, ctx.vram@, is_cgb, x as u8, old_self.line_buffer_attr@[x]),
            decreases 160 - scr_x,
        {
            let r = self.regs;
            if r.window_enable && r.ly >= r.window_y && scr_x as u16 + 7 >= r.window_x as u16 {
                window_rendered = true;
            }
            proof {
                if scr_x > 0 && win_hit(old_self.regs, (scr_x - 1) as u8) {
                    lemma_win_hit_monotone(old_self.regs, (scr_x - 1) as u8, scr_x);
                }
            }
            self.draw_bg_pixel(vram, is_cgb, is_cgb_mode, scr_x);
            scr_x = scr_x + 1;
        }
        if window_rendered {
            self.regs.window_rendering_counter = self.regs.window_rendering_counter.wrapping_add(1);
        }
    }
}

// ---------------------------------------------------------------------------
// Object rendering

/// Object (x, index) pairs ordered by x, then index.
pub open spec fn obj_before(a: (u8, usize), b: (u8, usize)) -> bool {
    a.0 < b.0 || (a.0 == b.0 && a.1 <= b.1)
}

pub open spec fn obj_sorted(s: Seq<(u8, usize)>) -> bool {
    forall|i: int, j: int| 0 <= i < j < s.len() ==> obj_before(s[i], s[j])
}

/// Sorts objects by x coordinate, then OAM index: the drawing order of a monochrome
/// Game Boy, where the leftmost object wins.
fn sort_objs(v: &mut Vec<(u8, usize)>)
    ensures
        obj_sorted(final(v)@),
        final(v)@.to_multiset() == old(v)@.to_multiset(),
        final(v)@.len() == old(v)@.len(),
{
    let n = v.len();
    let mut i: usize = 1;
    proof {
        broadcast use vstd::seq_lib::group_to_multiset_ensures;
    }
    if n <= 1 {
        proof {
            assert(obj_sorted(v@));
        }
        return;
    }
    while i < n
        invariant
            1 <= i <= n,
            n == v@.len(),
            n == old(v)@.len(),
            v@.to_multiset() == old(v)@.to_multiset(),
            forall|a: int, b: int| 0 <= a < b < i ==> obj_before(v@[a], v@[b]),
        decreases n - i,
    {
        let mut j: usize = i;
        while j > 0 && !obj_before_exec(v[j - 1], v[j])
            invariant
                0 <= j <= i < n,
                n == v@.len(),
                v@.to_multiset() == old(v)@.to_multiset(),
                forall|a: int, b: int| 0 <= a < b <= i && b != j ==> obj_before(v@[a], v@[b]),
                forall|a: int, b: int| 0 <= a < j && j < b <= i ==> obj_before(v@[a], v@[b]),
            decreases j,
        {
            let a = v[j - 1];
            let b = v[j];
            proof {
                broadcast use vstd::seq_lib::group_to_multiset_ensures;
                let s0 = v@;
                let s2 = s0.update(j - 1, b).update(j as int, a);
                let s1 = s0.update(j - 1, b);
                vstd::seq_lib::to_multiset_update(s0, j - 1, b);
                vstd::seq_lib::to_multiset_update(s1, j as int, a);
                assert(s2.to_multiset() =~= s0.to_multiset()) by {
                    broadcast use vstd::multiset::group_multiset_axioms;
                }
            }
            v.set(j - 1, b);
            v.set(j, a);
            j = j - 1;
        }
        proof {
            assert forall|a: int, b: int| 0 <= a < b <= i implies obj_before(v@[a], v@[b]) by {
                if b == j && a < j - 1 {
                    assert(obj_before(v@[a], v@[j - 1]));
                }
            }
        }
        i = i + 1;
    }
}

fn obj_before_exec(a: (u8, usize), b: (u8, usize)) -> (r: bool)
    ensures
        r == obj_before(a, b),
{
    a.0 < b.0 || (a.0 == b.0 && a.1 <= b.1)
}

/// Height of objects in lines.
pub open spec fn obj_height(r: PpuRegs) -> int {
    if r.obj_size { 16 } else { 8 }
}

/// Object `i` covers the current line.
pub open spec fn obj_on_line(r: PpuRegs, oam: Seq<u8>, i: int) -> bool {
    let y = oam[4 * i] as int;
    y <= r.ly as int + 16 < y + obj_height(r)
}

/// The objects of the current line: the first ten in OAM order that cover it, as
/// (x, index) pairs, scanning OAM entries below `n`.
pub open spec fn objs_on_line(r: PpuRegs, oam: Seq<u8>, n: int) -> Seq<(u8, usize)>
    decreases n,
{
    if n <= 0 {
        seq![]
    } else {
        let prev = objs_on_line(r, oam, n - 1);
        if prev.len() < 10 && obj_on_line(r, oam, n - 1) {
            prev.push((oam[4 * (n - 1) + 1], (n - 1) as usize))
        } else {
            prev
        }
    }
}

proof fn lemma_objs_on_line_len(r: PpuRegs, oam: Seq<u8>, n: int)
    requires
        n <= 40,
    ensures
        objs_on_line(r, oam, n).len() <= 10,
        n >= 0 ==> objs_on_line(r, oam, n).len() <= n,
        forall|k: int| 0 <= k < objs_on_line(r, oam, n).len() ==> (objs_on_line(r, oam, n)[k].1 as int) < n
            && obj_on_line(r, oam, objs_on_line(r, oam, n)[k].1 as int),
    decreases n,
{
    if n > 0 {
        lemma_objs_on_line_len(r, oam, n - 1);
    }
}

/// Finds the objects of the current line (at most ten, in OAM order).
fn select_objs(r: PpuRegs, oam: &Vec<u8>) -> (v: Vec<(u8, usize)>)
    requires
        oam@.len() == 0xA0,
        r.ly < 154,
    ensures
        v@ == objs_on_line(r, oam@, 40),
        v@.len() <= 10,
        forall|k: int| 0 <= k < v@.len() ==> (v@[k].1 as int) < 40 && obj_on_line(r, oam@, v@[k].1 as int),
{
    let obj_size: u16 = if r.obj_size { 16 } else { 8 };
    let mut v: Vec<(u8, usize)> = Vec::new();
    let mut i: usize = 0;
    while i < 40
        invariant
            i <= 40,
            oam@.len() == 0xA0,
            r.ly < 154,
            obj_size == obj_height(r),
            v@ == objs_on_line(r, oam@, i as int),
        decreases 40 - i,
    {
        proof {
            lemma_objs_on_line_len(r, oam@, i as int);
        }
        let y = oam[i * 4] as u16;
        let x = oam[i * 4 + 1];
        let line = r.ly as u16 + 16;
        if v.len() < 10 && y <= line && line < y + obj_size {
            v.push((x, i));
        }
        i = i + 1;
        if v.len() >= 10 {
            proof {
                assert forall|k: int| i <= k <= 40 implies objs_on_line(r, oam@, k) == objs_on_line(r, oam@, i as int) by {
                    lemma_objs_stay(r, oam@, i as int, k);
                }
            }
            return v;
        }
    }
    proof {
        lemma_objs_on_line_len(r, oam@, 40);
    }
    v
}

proof fn lemma_objs_stay(r: PpuRegs, oam: Seq<u8>, i: int, k: int)
    requires
        0 <= i <= k,
        objs_on_line(r, oam, i).len() >= 10,
    ensures
        objs_on_line(r, oam, k) == objs_on_line(r, oam, i),
    decreases k - i,
{
    if k > i {
        lemma_objs_stay(r, oam, i, k - 1);
    }
}

/// Line buffers: monochrome shades, colors, drawing order.
pub type LineBufs = (Seq<u8>, Seq<u16>, Seq<u8>);

pub open spec fn obj_pal(r: PpuRegs, pn: u8) -> [u8; 4] {
    if pn == 0 { r.obj_pal0 } else { r.obj_pal1 }
}

/// Palette number and VRAM bank of object `i`: in color mode from attribute bits 0-2
/// and 3, otherwise OBP0/OBP1 from bit 4 and bank 0.
pub open spec fn obj_pal_bank(oam: Seq<u8>, cgb_mode: bool, i: int) -> (u8, int) {
    let attr = oam[4 * i + 3];
    if !cgb_mode {
        (((attr >> 4u8) & 1) as u8, 0)
    } else {
        ((attr & 7) as u8, if (attr & 8) != 0 { 0x2000 } else { 0 })
    }
}

/// VRAM offset of the pattern row of object `i` on the current line.
pub open spec fn obj_row_addr(r: PpuRegs, oam: Seq<u8>, i: int) -> int {
    let y = oam[4 * i] as int;
    let tile = oam[4 * i + 2];
    let yflip = (oam[4 * i + 3] & 0x40) != 0;
    let ofs_y = r.ly as int + 16 - y;
    if !r.obj_size {
        let oy = if yflip { 7 - ofs_y } else { ofs_y };
        tile as int * 16 + oy * 2
    } else {
        let oy = if yflip { 15 - ofs_y } else { ofs_y };
        (tile & 0xFE) as int * 16 + (if oy >= 8 { 16int } else { 0int }) + (oy % 8) * 2
    }
}

proof fn lemma_even_tile(t: u8)
    by (bit_vector)
    ensures
        (t & 0xFE) == t - t % 2,
{
}

/// Object geometry: OAM byte 0 is the screen line plus 16 and byte 1 the column plus 8.
/// An object covers line LY exactly when LY is within its height (8, or 16 with LCDC bit
/// 2) from its top; the pattern row drawn is the line's row within the object, counted
/// from the bottom when attribute bit 6 flips it, in the object's tile (in 8x16 mode the
/// even tile of the pair, then the odd one for rows 8-15).
pub proof fn lemma_obj_geometry(r: PpuRegs, oam: Seq<u8>, i: int)
    ensures
        ({
            let top = oam[4 * i] as int - 16;
            let h: int = if r.obj_size { 16 } else { 8 };
            let row = r.ly as int - top;
            let flipped = (oam[4 * i + 3] & 0x40) != 0;
            let line = if flipped { h - 1 - row } else { row };
            let tile = oam[4 * i + 2] as int;
            let first: int = if r.obj_size { tile - tile % 2 } else { tile };
            &&& obj_on_line(r, oam, i) <==> top <= r.ly < top + h
            &&& obj_on_line(r, oam, i) ==> obj_row_addr(r, oam, i) == first * 16 + line * 2
        }),
{
    lemma_even_tile(oam[4 * i + 2]);
}

/// An object covers screen column s exactly when s is within the 8 columns from OAM byte
/// 1 minus 8; the pattern column is s's place among them, counted from the right when
/// attribute bit 5 flips it.
pub proof fn lemma_obj_columns(r: PpuRegs, oam: Seq<u8>, vram: Seq<u8>, cgb_mode: bool, i: int, s: int)
    ensures
        ({
            let left = oam[4 * i + 1] as int - 8;
            let ofs = s - left;
            let col = if (oam[4 * i + 3] & 0x20) != 0 { 7 - ofs } else { ofs };
            let (pn, bank) = obj_pal_bank(oam, cgb_mode, i);
            let a = bank + obj_row_addr(r, oam, i);
            &&& obj_bits_at(r, oam, vram, cgb_mode, i, s) is Some <==> left <= s < left + 8
            &&& left <= s < left + 8 ==> obj_bits_at(r, oam, vram, cgb_mode, i, s) == Some(
                pixel_bits(vram[a], vram[a + 1], col),
            )
        }),
{
}

/// Drawing order of object `i`: above everything when color mode turns the background
/// priority off, else below or above the background as attribute bit 7 says.
pub open spec fn obj_z(r: PpuRegs, oam: Seq<u8>, cgb_mode: bool, i: int) -> u8 {
    if cgb_mode && !r.bg_and_window_enable {
        Z_ORD_OBJ_HIGHEST
    } else if (oam[4 * i + 3] & 0x80) != 0 {
        Z_ORD_OBJ_LOW
    } else {
        Z_ORD_OBJ_HIGH
    }
}

/// Color number of object `i` at screen column `s`, if the object covers the column.
pub open spec fn obj_bits_at(r: PpuRegs, oam: Seq<u8>, vram: Seq<u8>, cgb_mode: bool, i: int, s: int) -> Option<u8> {
    let x = oam[4 * i + 1] as int;
    let ofs = s + 8 - x;
    if 0 <= ofs < 8 {
        let (pn, bank) = obj_pal_bank(oam, cgb_mode, i);
        let a = bank + obj_row_addr(r, oam, i);
        let ox = if (oam[4 * i + 3] & 0x20) != 0 { 7 - ofs } else { ofs };
        Some(pixel_bits(vram[a], vram[a + 1], ox))
    } else {
        None
    }
}

/// Column `s` of the buffers after drawing object `i`. A non-zero color is drawn where no
/// object was drawn before and the object's order is above what is there; either way the
/// column is marked as holding an object.
pub open spec fn obj_pixel(
    r: PpuRegs,
    ocp: Seq<u8>,
    oam: Seq<u8>,
    vram: Seq<u8>,
    cgb: bool,
    cgb_mode: bool,
    i: int,
    s: int,
    old: (u8, u16, u8),
) -> (u8, u16, u8) {
    match obj_bits_at(r, oam, vram, cgb_mode, i, s) {
        Some(b) => if b != 0 {
            let (pn, bank) = obj_pal_bank(oam, cgb_mode, i);
            let z = obj_z(r, oam, cgb_mode, i);
            let write = (old.2 & 1) == 0 && z > old.2;
            let shade = if write && !cgb { obj_pal(r, pn)[b as int] } else { old.0 };
            let col = if write && cgb {
                if !cgb_mode {
                    pal_color(ocp, (pn as int * 4 + obj_pal(r, pn)[b as int] as int) * 2)
                } else {
                    pal_color(ocp, (pn as int * 4 + b as int) * 2)
                }
            } else {
                old.1
            };
            (shade, col, (old.2 | 1) as u8)
        } else {
            old
        },
        None => old,
    }
}

/// The buffers after drawing object `i`.
pub open spec fn obj_drawn(
    r: PpuRegs,
    ocp: Seq<u8>,
    oam: Seq<u8>,
    vram: Seq<u8>,
    cgb: bool,
    cgb_mode: bool,
    i: int,
    bufs: LineBufs,
) -> LineBufs {
    (
        Seq::new(bufs.0.len(), |s: int| obj_pixel(r, ocp, oam, vram, cgb, cgb_mode, i, s, (bufs.0[s], bufs.1[s], bufs.2[s])).0),
        Seq::new(bufs.1.len(), |s: int| obj_pixel(r, ocp, oam, vram, cgb, cgb_mode, i, s, (bufs.0[s], bufs.1[s], bufs.2[s])).1),
        Seq::new(bufs.2.len(), |s: int| obj_pixel(r, ocp, oam, vram, cgb, cgb_mode, i, s, (bufs.0[s], bufs.1[s], bufs.2[s])).2),
    )
}

/// The buffers after drawing the objects of `order` one after the other.
pub open spec fn objs_drawn(
    r: PpuRegs,
    ocp: Seq<u8>,
    oam: Seq<u8>,
    vram: Seq<u8>,
    cgb: bool,
    cgb_mode: bool,
    order: Seq<(u8, usize)>,
    bufs: LineBufs,
) -> LineBufs
    decreases order.len(),
{
    if order.len() == 0 {
        bufs
    } else {
        let prev = objs_drawn(r, ocp, oam, vram, cgb, cgb_mode, order.drop_last(), bufs);
        obj_drawn(r, ocp, oam, vram, cgb, cgb_mode, order.last().1 as int, prev)
    }
}

impl Ppu {
    pub open spec fn bufs(&self) -> LineBufs {
        (self.line_buffer@, self.line_buffer_col@, self.line_buffer_attr@)
    }

    /// Pattern bytes, palette number and drawing order of object `i` on this line.
    fn obj_params(&self, oam: &Vec<u8>, vram: &Vec<u8>, cgb_mode: bool, i: usize) -> (res: (u8, u8, u8, u8))
        requires
            self.wf(),
            oam@.len() == 0xA0,
            vram@.len() == 0x2000 || vram@.len() == 0x4000,
            cgb_mode ==> vram@.len() == 0x4000,
            i < 40,
            obj_on_line(self.regs, oam@, i as int),
        ensures
            ({
                let (pn, bank) = obj_pal_bank(oam@, cgb_mode, i as int);
                let a = bank + obj_row_addr(self.regs, oam@, i as int);
                &&& res.0 == vram@[a]
                &&& res.1 == vram@[a + 1]
                &&& res.2 == pn
                &&& res.3 == obj_z(self.regs, oam@, cgb_mode, i as int)
            }),
            res.2 < 8,
            !cgb_mode ==> res.2 < 2,
    {
        let r = self.regs;
        let y = oam[i * 4];
        let tile_index = oam[i * 4 + 2];
        let attr = oam[i * 4 + 3];
        let bg_and_window_over_obj = attr & 0x80 != 0;
        let y_flip = attr & 0x40 != 0;
        let (palette_number, tile_vram_bank): (u8, u16) = if !cgb_mode {
            ((attr >> 4u8) & 1, 0)
        } else {
            (attr & 7, if attr & 8 != 0 { 0x2000 } else { 0 })
        };
        let ofs_y: u8 = r.ly + 16 - y;
        let tile_addr: u16 = if !r.obj_size {
            let oy: u8 = if y_flip { 7 - ofs_y } else { ofs_y };
            tile_index as u16 * 16 + oy as u16 * 2
        } else {
            let oy: u8 = if y_flip { 15 - ofs_y } else { ofs_y };
            (tile_index & 0xFE) as u16 * 16 + (if oy >= 8 { 16u16 } else { 0u16 }) + (oy % 8) as u16 * 2
        };
        let lo = vram[(tile_vram_bank + tile_addr) as usize];
        let hi = vram[(tile_vram_bank + tile_addr + 1) as usize];
        let z = if cgb_mode && !r.bg_and_window_enable {
            Z_ORD_OBJ_HIGHEST
        } else if bg_and_window_over_obj {
            Z_ORD_OBJ_LOW
        } else {
            Z_ORD_OBJ_HIGH
        };
        proof {
            assert(((attr >> 4u8) & 1) < 2) by (bit_vector);
        }
        (lo, hi, palette_number, z)
    }
}

pub open spec fn col_done(oam: Seq<u8>, i: int, s: int, k: int) -> bool {
    let ofs = s + 8 - oam[4 * i + 1] as int;
    0 <= ofs < k
}

impl Ppu {
    fn draw_obj_pixel(&mut self, s: usize, b: u8, pn: u8, z: u8, cgb: bool, cgb_mode: bool)
        requires
            old(self).wf(),
            s < 160,
            b < 4,
            pn < 8,
            !cgb_mode ==> pn < 2,
        ensures
            final(self).wf(),
            final(self).regs == old(self).regs,
            final(self).bg_col_pal@ == old(self).bg_col_pal@,
            final(self).obj_col_pal@ == old(self).obj_col_pal@,
            final(self).dmg_palette == old(self).dmg_palette,
            final(self).render_graphics == old(self).render_graphics,
            final(self).frame_buffer == old(self).frame_buffer,
            ({
                let old_px = (old(self).line_buffer@[s as int], old(self).line_buffer_col@[s as int], old(self).line_buffer_attr@[s as int]);
                let r = old(self).regs;
                let new_px = if b != 0 {
                    let write = (old_px.2 & 1) == 0 && z > old_px.2;
                    let shade = if write && !cgb { obj_pal(r, pn)[b as int] } else { old_px.0 };
                    let col = if write && cgb {
                        if !cgb_mode {
                            pal_color(old(self).obj_col_pal@, (pn as int * 4 + obj_pal(r, pn)[b as int] as int) * 2)
                        } else {
                            pal_color(old(self).obj_col_pal@, (pn as int * 4 + b as int) * 2)
                        }
                    } else {
                        old_px.1
                    };
                    (shade, col, (old_px.2 | 1) as u8)
                } else {
                    old_px
                };
                &&& final(self).line_buffer@ == old(self).line_buffer@.update(s as int, new_px.0)
                &&& final(self).line_buffer_col@ == old(self).line_buffer_col@.update(s as int, new_px.1)
                &&& final(self).line_buffer_attr@ == old(self).line_buffer_attr@.update(s as int, new_px.2)
            }),
    {
        if b == 0 {
            proof {
                assert(self.line_buffer@ =~= self.line_buffer@.update(s as int, self.line_buffer@[s as int]));
                assert(self.line_buffer_col@ =~= self.line_buffer_col@.update(s as int, self.line_buffer_col@[s as int]));
                assert(self.line_buffer_attr@ =~= self.line_buffer_attr@.update(s as int, self.line_buffer_attr@[s as int]));
            }
            return;
        }
        let old_attr = self.line_buffer_attr[s];
        if old_attr & 1 == 0 && z > old_attr {
            let pal = if pn == 0 { self.regs.obj_pal0 } else { self.regs.obj_pal1 };
            if !cgb {
                let shade = pal_lookup(pal, b);
                self.line_buffer.set(s, shade);
            } else if !cgb_mode {
                let k = (pn as usize * 4 + pal_lookup(pal, b) as usize) * 2;
                let c = color_at(&self.obj_col_pal, k);
                self.line_buffer_col.set(s, c);
            } else {
                let k = (pn as usize * 4 + b as usize) * 2;
                let c = color_at(&self.obj_col_pal, k);
                self.line_buffer_col.set(s, c);
            }
        }
        proof {
            assert(self.line_buffer@ =~= old(self).line_buffer@.update(s as int, self.line_buffer@[s as int]));
            assert(self.line_buffer_col@ =~= old(self).line_buffer_col@.update(s as int, self.line_buffer_col@[s as int]));
        }
        self.line_buffer_attr.set(s, old_attr | 1);
    }
}

pub open spec fn px_of(b: LineBufs, s: int) -> (u8, u16, u8) {
    (b.0[s], b.1[s], b.2[s])
}

impl Ppu {
    /// Draws object `i` into the line buffers.
    fn draw_obj(&mut self, oam: &Vec<u8>, vram: &Vec<u8>, cgb: bool, cgb_mode: bool, i: usize)
        requires
            old(self).wf(),
            oam@.len() == 0xA0,
            vram@.len() == 0x2000 || vram@.len() == 0x4000,
            cgb_mode ==> vram@.len() == 0x4000,
            i < 40,
            obj_on_line(old(self).regs, oam@, i as int),
        ensures
            final(self).wf(),
            final(self).regs == old(self).regs,
            final(self).bg_col_pal@ == old(self).bg_col_pal@,
            final(self).obj_col_pal@ == old(self).obj_col_pal@,
            final(self).dmg_palette == old(self).dmg_palette,
            final(self).render_graphics == old(self).render_graphics,
            final(self).frame_buffer == old(self).frame_buffer,
            final(self).bufs() == obj_drawn(old(self).regs, old(self).obj_col_pal@, oam@, vram@, cgb, cgb_mode, i as int, old(self).bufs()),
    {
        let ghost old_self = *self;
        let ghost ob = self.bufs();
        let (lo, hi, pn, z) = self.obj_params(oam, vram, cgb_mode, i);
        let x = oam[i * 4 + 1];
        let x_flip = oam[i * 4 + 3] & 0x20 != 0;
        let mut k: u8 = 0;
        while k < 8
            invariant
                0 <= k <= 8,
                self.wf(),
                oam@.len() == 0xA0,
                vram@.len() == 0x2000 || vram@.len() == 0x4000,
                cgb_mode ==> vram@.len() == 0x4000,
                obj_on_line(old_self.regs, oam@, i as int),
                i < 40,
                x == oam@[4 * i + 1],
                x_flip == ((oam@[4 * i + 3] & 0x20) != 0),
                ({
                    let (p, bank) = obj_pal_bank(oam@, cgb_mode, i as int);
                    let a = bank + obj_row_addr(old_self.regs, oam@, i as int);
                    &&& lo == vram@[a]
                    &&& hi == vram@[a + 1]
                    &&& pn == p
                    &&& z == obj_z(old_self.regs, oam@, cgb_mode, i as int)
                }),
                pn < 8,
                !cgb_mode ==> pn < 2,
                ob == old_self.bufs(),
                self.regs == old_self.regs,
                self.bg_col_pal@ == old_self.bg_col_pal@,
                self.obj_col_pal@ == old_self.obj_col_pal@,
                self.dmg_palette == old_self.dmg_palette,
                self.render_graphics == old_self.render_graphics,
                self.frame_buffer == old_self.frame_buffer,
                forall|s: int| 0 <= s < 160 ==> #[trigger] px_of(self.bufs(), s) == if col_done(oam@, i as int, s, k as int) {
                    obj_pixel(old_self.regs, old_self.obj_col_pal@, oam@, vram@, cgb, cgb_mode, i as int, s, px_of(ob, s))
                } else {
                    px_of(ob, s)
                },
            decreases 8 - k,
        {
            let scr_x = x as usize + k as usize;
            if 8 <= scr_x && scr_x < 168 {
                let s = scr_x - 8;
                let ox = flip(k, x_flip);
                let b = pixel_of(lo, hi, ox);
                let ghost before = self.bufs();
                self.draw_obj_pixel(s, b, pn, z, cgb, cgb_mode);
                proof {
                    assert(obj_bits_at(old_self.regs, oam@, vram@, cgb_mode, i as int, s as int) == Some(b));
                    assert forall|t: int| 0 <= t < 160 implies #[trigger] px_of(self.bufs(), t) == if col_done(oam@, i as int, t, k + 1) {
                        obj_pixel(old_self.regs, old_self.obj_col_pal@, oam@, vram@, cgb, cgb_mode, i as int, t, px_of(ob, t))
                    } else {
                        px_of(ob, t)
                    } by {
                        if t != s {
                            assert(px_of(self.bufs(), t) == px_of(before, t));
                        } else {
                            assert(!col_done(oam@, i as int, t, k as int));
                            assert(px_of(before, t) == px_of(ob, t));
                            assert(col_done(oam@, i as int, t, k + 1));
                            let o = px_of(ob, t);
                            let want = obj_pixel(old_self.regs, old_self.obj_col_pal@, oam@, vram@, cgb, cgb_mode, i as int, t, o);
                            assert(self.line_buffer@[t] == want.0);
                            assert(self.line_buffer_col@[t] == want.1);
                            assert(self.line_buffer_attr@[t] == want.2);
                        }
                    }
                }
            } else {
                proof {
                    assert forall|t: int| 0 <= t < 160 implies #[trigger] px_of(self.bufs(), t) == if col_done(oam@, i as int, t, k + 1) {
                        obj_pixel(old_self.regs, old_self.obj_col_pal@, oam@, vram@, cgb, cgb_mode, i as int, t, px_of(ob, t))
                    } else {
                        px_of(ob, t)
                    } by {
                        assert(t + 8 - x as int != k as int);
                    }
                }
            }
            k = k + 1;
        }
        proof {
            let target = obj_drawn(old_self.regs, old_self.obj_col_pal@, oam@, vram@, cgb, cgb_mode, i as int, ob);
            assert forall|t: int| 0 <= t < 160 implies px_of(self.bufs(), t) == px_of(target, t) by {
                assert(px_of(self.bufs(), t) == if col_done(oam@, i as int, t, 8) {
                    obj_pixel(old_self.regs, old_self.obj_col_pal@, oam@, vram@, cgb, cgb_mode, i as int, t, px_of(ob, t))
                } else {
                    px_of(ob, t)
                });
            }
            assert forall|t: int| 0 <= t < 160 implies self.line_buffer@[t] == target.0[t]
                && self.line_buffer_col@[t] == target.1[t] && self.line_buffer_attr@[t] == target.2[t] by {
                assert(px_of(self.bufs(), t) == px_of(target, t));
            }
            assert(self.line_buffer@ =~= target.0);
            assert(self.line_buffer_col@ =~= target.1);
            assert(self.line_buffer_attr@ =~= target.2);
        }
    }
}


/// The drawing order of the objects of the current line: OAM order in color mode,
/// otherwise the same objects sorted by x, then OAM index.
pub open spec fn obj_order_ok(r: PpuRegs, oam: Seq<u8>, cgb_mode: bool, order: Seq<(u8, usize)>) -> bool {
    if cgb_mode {
        order == objs_on_line(r, oam, 40)
    } else {
        &&& obj_sorted(order)
        &&& order.to_multiset() == objs_on_line(r, oam, 40).to_multiset()
    }
}

proof fn lemma_sorted_keeps_objs(r: PpuRegs, oam: Seq<u8>, a: Seq<(u8, usize)>, b: Seq<(u8, usize)>)
    requires
        a.to_multiset() == b.to_multiset(),
        forall|k: int| 0 <= k < a.len() ==> (a[k].1 as int) < 40 && obj_on_line(r, oam, a[k].1 as int),
    ensures
        forall|k: int| 0 <= k < b.len() ==> (b[k].1 as int) < 40 && obj_on_line(r, oam, b[k].1 as int),
{
    broadcast use vstd::seq_lib::group_to_multiset_ensures;
    assert forall|k: int| 0 <= k < b.len() implies (b[k].1 as int) < 40 && obj_on_line(r, oam, b[k].1 as int) by {
        let e = b[k];
        assert(b.contains(e));
        assert(b.to_multiset().count(e) > 0);
        assert(a.contains(e));
        let j = choose|j: int| 0 <= j < a.len() && a[j] == e;
        assert(a[j] == e);
    }
}

impl Ppu {
    /// Draws the objects of the current line into the line buffers, when the LCD and
    /// objects are on.
    pub(crate) fn render_obj_line(&mut self, ctx: &InnerContext2)
        requires
            old(self).wf(),
            ctx.wf(),
        ensures
            final(self).wf(),
            final(self).regs == old(self).regs,
            final(self).bg_col_pal@ == old(self).bg_col_pal@,
            final(self).obj_col_pal@ == old(self).obj_col_pal@,
            final(self).dmg_palette == old(self).dmg_palette,
            final(self).render_graphics == old(self).render_graphics,
            final(self).frame_buffer == old(self).frame_buffer,
            !(old(self).regs.ppu_enable && old(self).regs.obj_enable) ==> final(self).bufs() == old(self).bufs(),
            old(self).regs.ppu_enable && old(self).regs.obj_enable ==> exists|order: Seq<(u8, usize)>|
                obj_order_ok(old(self).regs, ctx.oam@, ctx.running_mode.spec_is_cgb(), order)
                && #[trigger] objs_drawn(
                    old(self).regs,
                    old(self).obj_col_pal@,
                    ctx.oam@,
                    ctx.vram@,
                    ctx.model.spec_is_cgb(),
                    ctx.running_mode.spec_is_cgb(),
                    order,
                    old(self).bufs(),
                ) == final(self).bufs(),
    {
        if !(self.regs.ppu_enable && self.regs.obj_enable) {
            return;
        }
        let ghost old_self = *self;
        let cgb = ctx.model.is_cgb();
        let cgb_mode = ctx.running_mode.is_cgb();
        let mut objs = select_objs(self.regs, &ctx.oam);
        let ghost found = objs@;
        if !cgb_mode {
            sort_objs(&mut objs);
            proof {
                lemma_sorted_keeps_objs(self.regs, ctx.oam@, found, objs@);
            }
        }
        let mut j: usize = 0;
        while j < objs.len()
            invariant
                0 <= j <= objs@.len() <= 10,
                self.wf(),
                ctx.wf(),
                cgb == ctx.model.spec_is_cgb(),
                cgb_mode == (ctx.running_mode == RunningMode::Cgb),
                obj_order_ok(old_self.regs, ctx.oam@, cgb_mode, objs@),
                forall|k: int| 0 <= k < objs@.len() ==> (objs@[k].1 as int) < 40 && obj_on_line(old_self.regs, ctx.oam@, objs@[k].1 as int),
                self.regs == old_self.regs,
                self.bg_col_pal@ == old_self.bg_col_pal@,
                self.obj_col_pal@ == old_self.obj_col_pal@,
                self.dmg_palette == old_self.dmg_palette,
                self.render_graphics == old_self.render_graphics,
                self.frame_buffer == old_self.frame_buffer,
                self.bufs() == objs_drawn(old_self.regs, old_self.obj_col_pal@, ctx.oam@, ctx.vram@, cgb, cgb_mode, objs@.subrange(0, j as int), old_self.bufs()),
            decreases objs@.len() - j,
        {
            let i = objs[j].1;
            self.draw_obj(&ctx.oam, &ctx.vram, cgb, cgb_mode, i);
            proof {
                let pre = objs@.subrange(0, j as int);
                let post = objs@.subrange(0, j + 1);
                assert(post.drop_last() =~= pre);
                assert(post.last() == objs@[j as int]);
            }
            j = j + 1;
        }
        proof {
            assert(objs@.subrange(0, objs@.len() as int) =~= objs@);
        }
    }
}

} // verus!
