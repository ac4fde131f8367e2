use vstd::prelude::*;
use crate::consts::{DOTS_PER_LINE, INT_LCD_STAT, INT_VBLANK, LINES_PER_FRAME, VISIBLE_LINES};
use crate::context::InnerContext2;
use crate::line::{regs_after_line, rendered};
use crate::ppu::{Mode, Ppu, PpuRegs, same_mode};

verus! {

/// The dot and line counters after one dot: a line has 456 dots and a frame 154 lines;
/// a new frame counts up the frame number and restarts the window line counter.
pub open spec fn counters_after_dot(r: PpuRegs) -> PpuRegs {
    let end_of_line = r.lx + 1 == 456;
    let end_of_frame = end_of_line && r.ly + 1 == 154;
    PpuRegs {
        lx: if end_of_line { 0 } else { (r.lx + 1) as u64 },
        ly: if end_of_frame { 0 } else if end_of_line { (r.ly + 1) as u8 } else { r.ly },
        frame: if end_of_frame { vstd::wrapping::u64_specs::wrapping_add(r.frame, 1) } else { r.frame },
        window_rendering_counter: if end_of_frame { 0 } else { r.window_rendering_counter },
        ..r
    }
}

/// The mode for the current dot: on the visible lines 80 dots of OAM search, then the
/// transfer (172 dots plus the fine horizontal scroll), then horizontal blank; vertical
/// blank on the other lines.
pub open spec fn mode_at(r: PpuRegs) -> Mode {
    if r.ly < 144 {
        if r.lx < 80 {
            Mode::OamSearch
        } else if r.lx < 80 + 172 + (r.scroll_x % 8) {
            Mode::Transfer
        } else {
            Mode::Hblank
        }
    } else {
        Mode::Vblank
    }
}

/// The STAT interrupt line: the source enabled for the mode, or the LY=LYC coincidence.
pub open spec fn lcd_int_line(r: PpuRegs) -> bool {
    (match r.mode {
        Mode::Hblank => r.hblank_interrupt_enable,
        Mode::Vblank => r.vblank_interrupt_enable || (r.ly == 144 && r.lx < 80 && r.oam_interrupt_enable),
        Mode::OamSearch => r.oam_interrupt_enable,
        Mode::Transfer => false,
    }) || (r.lyc_interrupt_enable && r.ly == r.lyc)
}

/// OAM is locked during OAM search and transfer.
pub open spec fn oam_locks(m: Mode) -> bool {
    m == Mode::OamSearch || m == Mode::Transfer
}

/// The registers with another mode.
#[verifier::opaque]
pub open spec fn with_mode(r: PpuRegs, m: Mode) -> PpuRegs {
    PpuRegs { mode: m, ..r }
}

/// The registers with another value of the STAT interrupt line.
#[verifier::opaque]
pub open spec fn with_prev(r: PpuRegs, b: bool) -> PpuRegs {
    PpuRegs { prev_lcd_interrupt: b, ..r }
}

pub open spec fn flag_if(c: bool, bit: u8) -> u8 {
    if c {
        bit
    } else {
        0
    }
}

fn lcd_line(r: &PpuRegs) -> (b: bool)
    ensures
        b == lcd_int_line(*r),
{
    let mode_line = match r.mode {
        Mode::Hblank => r.hblank_interrupt_enable,
        Mode::Vblank => r.vblank_interrupt_enable || (r.ly as u64 == VISIBLE_LINES && r.lx < 80 && r.oam_interrupt_enable),
        Mode::OamSearch => r.oam_interrupt_enable,
        Mode::Transfer => false,
    };
    mode_line || (r.lyc_interrupt_enable && r.ly == r.lyc)
}

impl Ppu {
    fn oam_locked(&self) -> (r: bool)
        ensures
            r == oam_locks(self.regs.mode),
    {
        matches!(self.regs.mode, Mode::OamSearch | Mode::Transfer)
    }

    /// Enters `mode`. On a change, vertical blank requests its interrupt, the transfer
    /// draws the line, and the OAM lock follows the mode that is left.
    fn set_mode(&mut self, ctx: &mut InnerContext2, mode: Mode)
        requires
            old(self).wf(),
            old(ctx).wf(),
            mode == Mode::Transfer ==> old(self).regs.ly < 144,
        ensures
            final(self).wf(),
            final(ctx).wf(),
            final(self).bg_col_pal@ == old(self).bg_col_pal@,
            final(self).obj_col_pal@ == old(self).obj_col_pal@,
            final(self).dmg_palette == old(self).dmg_palette,
            final(self).render_graphics == old(self).render_graphics,
            final(self).frame_buffer.width == old(self).frame_buffer.width,
            final(self).frame_buffer.height == old(self).frame_buffer.height,
            final(self).regs == if old(self).regs.mode != mode && mode == Mode::Transfer {
                regs_after_line(with_mode(old(self).regs, mode), old(self).render_graphics, old(ctx).running_mode.spec_is_cgb())
            } else {
                with_mode(old(self).regs, mode)
            },
            ({
                let enter = old(self).regs.mode != mode;
                let draw = enter && mode == Mode::Transfer;
                &&& draw ==> rendered(
                    Ppu { regs: with_mode(old(self).regs, mode), ..*old(self) },
                    *old(ctx),
                    final(self).regs.window_rendering_counter,
                    final(self).bufs(),
                    final(self).frame_buffer.buffer@,
                )
                &&& !draw ==> final(self).bufs() == old(self).bufs()
                &&& !draw ==> final(self).frame_buffer.buffer@ == old(self).frame_buffer.buffer@
                &&& *final(ctx) == (InnerContext2 {
                    interrupt_flag: (old(ctx).interrupt_flag | flag_if(enter && mode == Mode::Vblank, 1)) as u8,
                    oam_lock: if enter { oam_locks(old(self).regs.mode) } else { old(ctx).oam_lock },
                    ..*old(ctx)
                })
            }),
    {
        let enter = !same_mode(self.regs.mode, mode);
        let lock = self.oam_locked();
        let r = PpuRegs { mode, ..self.regs };
        proof {
            assert(r == with_mode(self.regs, mode)) by {
                reveal(with_mode);
            }
        }
        self.regs = r;
        if enter {
            if matches!(mode, Mode::Vblank) {
                ctx.set_interrupt_flag_bit(INT_VBLANK);
                proof {
                    let f = old(ctx).interrupt_flag;
                    crate::bits::lemma_u8_facts(f);
                }
            }
            if matches!(mode, Mode::Transfer) {
                self.render_line(ctx);
            }
            ctx.set_oam_lock(lock);
        } else {
            proof {
                let f = old(ctx).interrupt_flag;
                crate::bits::lemma_u8_facts(f);
            }
        }
        proof {
            if !(enter && mode == Mode::Vblank) {
                let f = old(ctx).interrupt_flag;
                crate::bits::lemma_u8_facts(f);
            }
        }
    }

    /// Raises the STAT interrupt on a rising edge of the interrupt line.
    fn update_lcd_interrupt(&mut self, ctx: &mut InnerContext2)
        requires
            old(self).wf(),
        ensures
            final(self).wf(),
            final(self).regs == with_prev(old(self).regs, lcd_int_line(old(self).regs)),
            final(self).bg_col_pal == old(self).bg_col_pal,
            final(self).obj_col_pal == old(self).obj_col_pal,
            final(self).dmg_palette == old(self).dmg_palette,
            final(self).line_buffer == old(self).line_buffer,
            final(self).line_buffer_col == old(self).line_buffer_col,
            final(self).line_buffer_attr == old(self).line_buffer_attr,
            final(self).render_graphics == old(self).render_graphics,
            final(self).frame_buffer == old(self).frame_buffer,
            *final(ctx) == (InnerContext2 {
                interrupt_flag: (old(ctx).interrupt_flag | flag_if(
                    !old(self).regs.prev_lcd_interrupt && lcd_int_line(old(self).regs),
                    2,
                )) as u8,
                ..*old(ctx)
            }),
    {
        let cur = lcd_line(&self.regs);
        let f = ctx.interrupt_flag;
        if !self.regs.prev_lcd_interrupt && cur {
            ctx.set_interrupt_flag_bit(INT_LCD_STAT);
            proof {
                crate::bits::lemma_u8_facts(f);
            }
        } else {
            proof {
                crate::bits::lemma_u8_facts(f);
            }
        }
        let r = PpuRegs { prev_lcd_interrupt: cur, ..self.regs };
        proof {
            assert(r == with_prev(self.regs, cur)) by {
                reveal(with_prev);
            }
        }
        self.regs = r;
    }

    /// What one dot of `tick` leaves: the state `n`, `nc` after `o`, `oc`.
    pub open spec fn tick_post(o: &Ppu, oc: &InnerContext2, n: &Ppu, nc: &InnerContext2) -> bool {
        &&& (n.wf())
        &&& (nc.wf())
        &&& (n.bg_col_pal@ == o.bg_col_pal@)
        &&& (n.obj_col_pal@ == o.obj_col_pal@)
        &&& (n.dmg_palette == o.dmg_palette)
        &&& (n.render_graphics == o.render_graphics)
        &&& (({
                    let r1 = counters_after_dot(o.regs);
                    let m = mode_at(r1);
                    let enter = r1.mode != m;
                    let draw = r1.ppu_enable && enter && m == Mode::Transfer;
                    let r2 = if draw {
                        regs_after_line(with_mode(r1, m), o.render_graphics, oc.running_mode.spec_is_cgb())
                    } else {
                        with_mode(r1, m)
                    };
                    &&& !r1.ppu_enable ==> n.regs == with_prev(with_mode(r1, Mode::Hblank), false)
                    &&& !r1.ppu_enable ==> *nc == *oc
                    &&& r1.ppu_enable ==> n.regs == with_prev(r2, lcd_int_line(r2))
                    &&& draw ==> rendered(
                        Ppu { regs: with_mode(r1, m), ..*o },
                        *oc,
                        r2.window_rendering_counter,
                        n.bufs(),
                        n.frame_buffer.buffer@,
                    )
                    &&& !draw ==> n.bufs() == o.bufs()
                    &&& !draw ==> n.frame_buffer.buffer@ == o.frame_buffer.buffer@
                    &&& r1.ppu_enable ==> *nc == (InnerContext2 {
                        interrupt_flag: (oc.interrupt_flag | flag_if(enter && m == Mode::Vblank, 1) | flag_if(
                            !r2.prev_lcd_interrupt && lcd_int_line(r2),
                            2,
                        )) as u8,
                        oam_lock: if enter { oam_locks(r1.mode) } else { oc.oam_lock },
                        ..*oc
                    })
                }))
    }

    /// Advances the video unit by one dot.
    pub fn tick(&mut self, ctx: &mut InnerContext2)
        requires
            old(self).wf(),
            old(ctx).wf(),
        ensures
            final(self).wf(),
            final(ctx).wf(),
            final(self).bg_col_pal@ == old(self).bg_col_pal@,
            final(self).obj_col_pal@ == old(self).obj_col_pal@,
            final(self).dmg_palette == old(self).dmg_palette,
            final(self).render_graphics == old(self).render_graphics,
            ({
                let r1 = counters_after_dot(old(self).regs);
                let m = mode_at(r1);
                let enter = r1.mode != m;
                let draw = r1.ppu_enable && enter && m == Mode::Transfer;
                let r2 = if draw {
                    regs_after_line(with_mode(r1, m), old(self).render_graphics, old(ctx).running_mode.spec_is_cgb())
                } else {
                    with_mode(r1, m)
                };
                &&& !r1.ppu_enable ==> final(self).regs == with_prev(with_mode(r1, Mode::Hblank), false)
                &&& !r1.ppu_enable ==> *final(ctx) == *old(ctx)
                &&& r1.ppu_enable ==> final(self).regs == with_prev(r2, lcd_int_line(r2))
                &&& draw ==> rendered(
                    Ppu { regs: with_mode(r1, m), ..*old(self) },
                    *old(ctx),
                    r2.window_rendering_counter,
                    final(self).bufs(),
                    final(self).frame_buffer.buffer@,
                )
                &&& !draw ==> final(self).bufs() == old(self).bufs()
                &&& !draw ==> final(self).frame_buffer.buffer@ == old(self).frame_buffer.buffer@
                &&& r1.ppu_enable ==> *final(ctx) == (InnerContext2 {
                    interrupt_flag: (old(ctx).interrupt_flag | flag_if(enter && m == Mode::Vblank, 1) | flag_if(
                        !r2.prev_lcd_interrupt && lcd_int_line(r2),
                        2,
                    )) as u8,
                    oam_lock: if enter { oam_locks(r1.mode) } else { old(ctx).oam_lock },
                    ..*old(ctx)
                })
            }),
            Self::tick_post(old(self), old(ctx), final(self), final(ctx)),
    {
        self.advance_dot();
        if !self.regs.ppu_enable {
            let r = PpuRegs { mode: Mode::Hblank, prev_lcd_interrupt: false, ..self.regs };
            proof {
                assert(r == with_prev(with_mode(self.regs, Mode::Hblank), false)) by {
                    reveal(with_prev);
                    reveal(with_mode);
                }
            }
            self.regs = r;
            return;
        }
        let m = if (self.regs.ly as u64) < VISIBLE_LINES {
            if self.regs.lx < 80 {
                Mode::OamSearch
            } else if self.regs.lx < 80 + 172 + (self.regs.scroll_x % 8) as u64 {
                Mode::Transfer
            } else {
                Mode::Hblank
            }
        } else {
            Mode::Vblank
        };
        self.set_mode(ctx, m);
        self.update_lcd_interrupt(ctx);
    }

    /// Counts one dot: 456 dots make a line and 154 lines a frame.
    fn advance_dot(&mut self)
        requires
            old(self).wf(),
        ensures
            final(self).wf(),
            final(self).regs == counters_after_dot(old(self).regs),
            final(self).bg_col_pal == old(self).bg_col_pal,
            final(self).obj_col_pal == old(self).obj_col_pal,
            final(self).dmg_palette == old(self).dmg_palette,
            final(self).line_buffer == old(self).line_buffer,
            final(self).line_buffer_col == old(self).line_buffer_col,
            final(self).line_buffer_attr == old(self).line_buffer_attr,
            final(self).render_graphics == old(self).render_graphics,
            final(self).frame_buffer == old(self).frame_buffer,
    {
        let r = self.regs;
        let end_of_line = r.lx + 1 == DOTS_PER_LINE;
        let end_of_frame = end_of_line && r.ly as u64 + 1 == LINES_PER_FRAME;
        let lx = if end_of_line { 0 } else { r.lx + 1 };
        let ly = if end_of_frame { 0 } else if end_of_line { r.ly + 1 } else { r.ly };
        let frame = if end_of_frame { r.frame.wrapping_add(1) } else { r.frame };
        let wrc = if end_of_frame { 0 } else { r.window_rendering_counter };
        self.regs = PpuRegs { lx, ly, frame, window_rendering_counter: wrc, ..r };
    }
}

} // verus!
