use vstd::prelude::*;
use crate::context::InnerContext2;
use crate::interface::Color;
use crate::ppu::{Ppu, PpuRegs};
use crate::render::{
    LineBufs, bg_attr_at, bg_color_at, bg_shade_at, obj_order_ok, objs_drawn, win_hit,
};

verus! {

broadcast use crate::bits::group_and_bounds;

/// The line buffers before anything is drawn: shade 0, color 0, nothing drawn.
pub open spec fn cleared_bufs() -> LineBufs {
    (Seq::new(160, |x: int| 0u8), Seq::new(160, |x: int| 0u16), Seq::new(160, |x: int| 0u8))
}

/// Whether the background layer is drawn with these registers.
pub open spec fn bg_on(r: PpuRegs, cgb_mode: bool) -> bool {
    r.ppu_enable && (r.bg_and_window_enable || cgb_mode)
}

/// The line buffers after drawing the background and window over `b`.
pub open spec fn bg_line(r: PpuRegs, bcp: Seq<u8>, vram: Seq<u8>, cgb: bool, cgb_mode: bool, b: LineBufs) -> LineBufs {
    if !bg_on(r, cgb_mode) {
        b
    } else {
        (
            Seq::new(160, |x: int| if !cgb { bg_shade_at(r, vram, x as u8) } else { b.0[x] }),
            Seq::new(160, |x: int| if cgb { bg_color_at(r, bcp, vram, cgb_mode, x as u8) } else { b.1[x] }),
            Seq::new(160, |x: int| bg_attr_at(r, vram, cgb, x as u8, b.2[x])),
        )
    }
}

/// The registers after drawing the background: a window line is counted when the
/// window showed on the line.
pub open spec fn bg_line_regs(r: PpuRegs, cgb_mode: bool) -> PpuRegs {
    if bg_on(r, cgb_mode) && win_hit(r, 159) {
        PpuRegs {
            window_rendering_counter: vstd::wrapping::u8_specs::wrapping_add(r.window_rendering_counter, 1),
            ..r
        }
    } else {
        r
    }
}

/// The registers after a line is drawn: with graphics on, the window line counter may
/// advance.
#[verifier::opaque]
pub open spec fn regs_after_line(r: PpuRegs, render_graphics: bool, cgb_mode: bool) -> PpuRegs {
    if render_graphics {
        bg_line_regs(r, cgb_mode)
    } else {
        r
    }
}

/// A 15-bit color (5 bits each of red, green, blue from bit 0 up) widened to 8 bits
/// per channel.
pub open spec fn decoded_color(c: u16) -> Color {
    let r = (c & 0x1f) as u8;
    let g = ((c >> 5u16) & 0x1f) as u8;
    let b = ((c >> 10u16) & 0x1f) as u8;
    Color { r: (r << 3u8) | (r >> 2u8), g: (g << 3u8) | (g >> 2u8), b: (b << 3u8) | (b >> 2u8) }
}

fn decode_color(c: u16) -> (col: Color)
    ensures
        col == decoded_color(c),
{
    let r = (c & 0x1f) as u8;
    let g = ((c >> 5u16) & 0x1f) as u8;
    let b = ((c >> 10u16) & 0x1f) as u8;
    Color { r: (r << 3u8) | (r >> 2u8), g: (g << 3u8) | (g >> 2u8), b: (b << 3u8) | (b >> 2u8) }
}

/// The screen color of column `x`: decoded from the color buffer on a Game Boy Color,
/// otherwise the monochrome palette's color for the shade.
pub open spec fn line_color(dmg_palette: [Color; 4], cgb: bool, b: LineBufs, x: int) -> Color {
    if cgb {
        decoded_color(b.1[x])
    } else {
        dmg_palette[(b.0[x] & 3) as int]
    }
}

/// The frame buffer with row `y` filled from the line buffers.
pub open spec fn with_row(fb: Seq<Color>, y: int, dmg_palette: [Color; 4], cgb: bool, b: LineBufs) -> Seq<Color> {
    Seq::new(fb.len(), |i: int| if y * 160 <= i < y * 160 + 160 { line_color(dmg_palette, cgb, b, i - y * 160) } else { fb[i] })
}

/// What drawing line `ly` leaves: the window line counter, the line buffers and the
/// frame buffer. Without graphics nothing changes. Otherwise the buffers are cleared,
/// the background drawn, then the objects in their drawing order, and the line is
/// copied into row `ly`.
#[verifier::opaque]
pub open spec fn rendered(pre: Ppu, ctx: InnerContext2, wrc: u8, bufs: LineBufs, fb: Seq<Color>) -> bool {
    if !pre.render_graphics {
        &&& wrc == pre.regs.window_rendering_counter
        &&& bufs == pre.bufs()
        &&& fb == pre.frame_buffer.buffer@
    } else {
        let cgb = ctx.model.spec_is_cgb();
        let cgb_mode = ctx.running_mode.spec_is_cgb();
        let r1 = bg_line_regs(pre.regs, cgb_mode);
        let b1 = bg_line(pre.regs, pre.bg_col_pal@, ctx.vram@, cgb, cgb_mode, cleared_bufs());
        &&& wrc == r1.window_rendering_counter
        &&& (r1.ppu_enable && r1.obj_enable) ==> exists|order: Seq<(u8, usize)>|
            obj_order_ok(r1, ctx.oam@, cgb_mode, order)
            && #[trigger] objs_drawn(r1, pre.obj_col_pal@, ctx.oam@, ctx.vram@, cgb, cgb_mode, order, b1) == bufs
        &&& !(r1.ppu_enable && r1.obj_enable) ==> bufs == b1
        &&& fb == with_row(pre.frame_buffer.buffer@, pre.regs.ly as int, pre.dmg_palette, cgb, bufs)
    }
}

impl Ppu {
    fn clear_line(&mut self)
        requires
            old(self).wf(),
        ensures
            final(self).wf(),
            final(self).bufs() == cleared_bufs(),
            final(self).regs == old(self).regs,
            final(self).bg_col_pal@ == old(self).bg_col_pal@,
            final(self).obj_col_pal@ == old(self).obj_col_pal@,
            final(self).dmg_palette == old(self).dmg_palette,
            final(self).render_graphics == old(self).render_graphics,
            final(self).frame_buffer == old(self).frame_buffer,
    {
        let mut x: usize = 0;
        while x < 160
            invariant
                x <= 160,
                self.wf(),
                self.regs == old(self).regs,
                self.bg_col_pal@ == old(self).bg_col_pal@,
                self.obj_col_pal@ == old(self).obj_col_pal@,
                self.dmg_palette == old(self).dmg_palette,
                self.render_graphics == old(self).render_graphics,
                self.frame_buffer == old(self).frame_buffer,
                forall|k: int| 0 <= k < x ==> self.line_buffer@[k] == 0 && self.line_buffer_col@[k] == 0
                    && self.line_buffer_attr@[k] == 0,
            decreases 160 - x,
        {
            self.line_buffer.set(x, 0);
            self.line_buffer_col.set(x, 0);
            self.line_buffer_attr.set(x, 0);
            x = x + 1;
        }
        proof {
            assert(self.line_buffer@ =~= cleared_bufs().0);
            assert(self.line_buffer_col@ =~= cleared_bufs().1);
            assert(self.line_buffer_attr@ =~= cleared_bufs().2);
        }
    }

    /// Copies the line buffers into row `ly` of the frame buffer.
    fn output_line(&mut self, cgb: bool)
        requires
            old(self).wf(),
            old(self).regs.ly < 144,
        ensures
            final(self).wf(),
            final(self).regs == old(self).regs,
            final(self).bg_col_pal@ == old(self).bg_col_pal@,
            final(self).obj_col_pal@ == old(self).obj_col_pal@,
            final(self).dmg_palette == old(self).dmg_palette,
            final(self).render_graphics == old(self).render_graphics,
            final(self).bufs() == old(self).bufs(),
            final(self).frame_buffer.width == old(self).frame_buffer.width,
            final(self).frame_buffer.height == old(self).frame_buffer.height,
            final(self).frame_buffer.buffer@ == with_row(
                old(self).frame_buffer.buffer@,
                old(self).regs.ly as int,
                old(self).dmg_palette,
                cgb,
                old(self).bufs(),
            ),
    {
        let y = self.regs.ly as usize;
        let ghost fb0 = self.frame_buffer.buffer@;
        let ghost b = self.bufs();
        let mut x: usize = 0;
        while x < 160
            invariant
                x <= 160,
                y == old(self).regs.ly,
                y < 144,
                self.wf(),
                self.regs == old(self).regs,
                self.bg_col_pal@ == old(self).bg_col_pal@,
                self.obj_col_pal@ == old(self).obj_col_pal@,
                self.dmg_palette == old(self).dmg_palette,
                self.render_graphics == old(self).render_graphics,
                self.bufs() == b,
                b == old(self).bufs(),
                fb0 == old(self).frame_buffer.buffer@,
                self.frame_buffer.width == 160,
                self.frame_buffer.height == 144,
                self.frame_buffer.buffer@.len() == fb0.len(),
                forall|i: int| 0 <= i < fb0.len() ==> #[trigger] self.frame_buffer.buffer@[i] == if y * 160 <= i < y * 160 + x {
                    line_color(self.dmg_palette, cgb, b, i - y * 160)
                } else {
                    fb0[i]
                },
            decreases 160 - x,
        {
            let color = if cgb {
                decode_color(self.line_buffer_col[x])
            } else {
                let c = self.line_buffer[x];
                self.dmg_palette[(c & 3) as usize]
            };
            self.frame_buffer.set(x, y, color);
            x = x + 1;
        }
        proof {
            let want = with_row(fb0, y as int, self.dmg_palette, cgb, b);
            assert(self.frame_buffer.buffer@ =~= want);
        }
    }

    /// Draws line `ly` into the frame buffer when graphics are rendered: the background
    /// and window first, then the objects.
    pub fn render_line(&mut self, ctx: &InnerContext2)
        requires
            old(self).wf(),
            ctx.wf(),
            old(self).regs.ly < 144,
        ensures
            final(self).wf(),
            final(self).regs == regs_after_line(old(self).regs, old(self).render_graphics, ctx.running_mode.spec_is_cgb()),
            final(self).bg_col_pal@ == old(self).bg_col_pal@,
            final(self).obj_col_pal@ == old(self).obj_col_pal@,
            final(self).dmg_palette == old(self).dmg_palette,
            final(self).render_graphics == old(self).render_graphics,
            final(self).frame_buffer.width == old(self).frame_buffer.width,
            final(self).frame_buffer.height == old(self).frame_buffer.height,
            rendered(
                *old(self),
                *ctx,
                final(self).regs.window_rendering_counter,
                final(self).bufs(),
                final(self).frame_buffer.buffer@,
            ),
    {
        if !self.render_graphics {
            proof {
                reveal(rendered);
                reveal(regs_after_line);
            }
            return;
        }
        let ghost pre = *self;
        let ghost r0 = self.regs;
        let cgb = ctx.model.is_cgb();
        self.clear_line();
        let ghost cleared = *self;
        self.render_bg_line(ctx);
        proof {
            let cgb_mode = ctx.running_mode.spec_is_cgb();
            let b1 = bg_line(r0, cleared.bg_col_pal@, ctx.vram@, cgb, cgb_mode, cleared_bufs());
            if bg_on(r0, cgb_mode) {
                assert(self.line_buffer@ =~= b1.0);
                assert(self.line_buffer_col@ =~= b1.1);
                assert(self.line_buffer_attr@ =~= b1.2);
            }
            assert(self.bufs() == b1);
            assert(self.regs == bg_line_regs(r0, cgb_mode));
        }
        let ghost after_bg = *self;
        self.render_obj_line(ctx);
        let ghost after_obj = self.bufs();
        self.output_line(cgb);
        proof {
            let cgb_mode = ctx.running_mode.spec_is_cgb();
            let r1 = bg_line_regs(pre.regs, cgb_mode);
            let b1 = bg_line(pre.regs, pre.bg_col_pal@, ctx.vram@, cgb, cgb_mode, cleared_bufs());
            assert(after_bg.regs == r1);
            assert(after_bg.bufs() == b1);
            assert(self.bufs() == after_obj);
            assert(self.frame_buffer.buffer@ == with_row(pre.frame_buffer.buffer@, pre.regs.ly as int, pre.dmg_palette, cgb, after_obj));
            if r1.ppu_enable && r1.obj_enable {
                let order = choose|order: Seq<(u8, usize)>|
                    obj_order_ok(after_bg.regs, ctx.oam@, cgb_mode, order)
                    && #[trigger] objs_drawn(after_bg.regs, after_bg.obj_col_pal@, ctx.oam@, ctx.vram@, cgb, cgb_mode, order, after_bg.bufs()) == after_obj;
                assert(obj_order_ok(r1, ctx.oam@, cgb_mode, order));
                assert(objs_drawn(r1, pre.obj_col_pal@, ctx.oam@, ctx.vram@, cgb, cgb_mode, order, b1) == self.bufs());
            }
            assert(rendered(pre, *ctx, self.regs.window_rendering_counter, self.bufs(), self.frame_buffer.buffer@)) by {
                reveal(rendered);
            }
            reveal(regs_after_line);
        }
    }
}

} // verus!
