use vstd::prelude::*;
use crate::context::{InnerContext2, RunningMode, vram_size};
use crate::interface::{Color, FrameBuffer};
use crate::config::Model;

verus! {

broadcast use crate::bits::group_and_bounds;

/// PPU mode, as shown in STAT bits 0-1.
#[derive(Clone, Copy, PartialEq, Eq, Structural, Debug)]
pub enum Mode {
    Hblank,
    Vblank,
    OamSearch,
    Transfer,
}

pub open spec fn mode_bits(m: Mode) -> u8 {
    match m {
        Mode::Hblank => 0,
        Mode::Vblank => 1,
        Mode::OamSearch => 2,
        Mode::Transfer => 3,
    }
}

pub fn mode_number(m: Mode) -> (r: u8)
    ensures
        r == mode_bits(m),
{
    match m {
        Mode::Hblank => 0,
        Mode::Vblank => 1,
        Mode::OamSearch => 2,
        Mode::Transfer => 3,
    }
}

/// Mode equality, by cases.
pub fn same_mode(a: Mode, b: Mode) -> (r: bool)
    ensures
        r == (a == b),
{
    match a {
        Mode::Hblank => matches!(b, Mode::Hblank),
        Mode::Vblank => matches!(b, Mode::Vblank),
        Mode::OamSearch => matches!(b, Mode::OamSearch),
        Mode::Transfer => matches!(b, Mode::Transfer),
    }
}

/// The PPU's registers and counters.
#[derive(Clone, Copy, Debug)]
pub struct PpuRegs {
    pub ppu_enable: bool,
    pub window_tile_map_select: bool,
    pub window_enable: bool,
    pub bg_and_window_tile_data_select: bool,
    pub bg_tile_map_select: bool,
    pub obj_size: bool,
    pub obj_enable: bool,
    pub bg_and_window_enable: bool,
    pub lyc_interrupt_enable: bool,
    pub oam_interrupt_enable: bool,
    pub vblank_interrupt_enable: bool,
    pub hblank_interrupt_enable: bool,
    pub mode: Mode,
    pub prev_lcd_interrupt: bool,
    pub scroll_y: u8,
    pub scroll_x: u8,
    pub window_y: u8,
    pub window_x: u8,
    pub bg_pal: [u8; 4],
    pub obj_pal0: [u8; 4],
    pub obj_pal1: [u8; 4],
    pub bg_col_pal_incr: bool,
    pub bg_col_pal_addr: u8,
    pub obj_col_pal_incr: bool,
    pub obj_col_pal_addr: u8,
    pub lyc: u8,
    pub ly: u8,
    pub lx: u64,
    pub frame: u64,
    pub window_rendering_counter: u8,
}

/// The picture processing unit.
pub struct Ppu {
    pub regs: PpuRegs,
    pub bg_col_pal: Vec<u8>,
    pub obj_col_pal: Vec<u8>,
    pub dmg_palette: [Color; 4],
    pub line_buffer: Vec<u8>,
    pub line_buffer_col: Vec<u16>,
    pub line_buffer_attr: Vec<u8>,
    pub render_graphics: bool,
    pub frame_buffer: FrameBuffer,
}

pub open spec fn pal_ok(p: [u8; 4]) -> bool {
    p[0] < 4 && p[1] < 4 && p[2] < 4 && p[3] < 4
}

pub open spec fn b8(c: bool, v: u8) -> u8 {
    if c {
        v
    } else {
        0
    }
}

fn bit8(c: bool, v: u8) -> (r: u8)
    ensures
        r == b8(c, v),
{
    if c {
        v
    } else {
        0
    }
}

/// A palette register: entry `i` in bits 2i..2i+1.
pub open spec fn pal_byte(p: [u8; 4]) -> u8 {
    (((p[3] & 3) << 6u8) | ((p[2] & 3) << 4u8) | ((p[1] & 3) << 2u8) | (p[0] & 3)) as u8
}

/// The four two-bit entries of a palette register.
pub open spec fn pal_decode(d: u8) -> [u8; 4] {
    [(d & 3) as u8, ((d >> 2u8) & 3) as u8, ((d >> 4u8) & 3) as u8, ((d >> 6u8) & 3) as u8]
}

fn pal_to_byte(p: [u8; 4]) -> (r: u8)
    ensures
        r == pal_byte(p),
{
    ((p[3] & 3) << 6u8) | ((p[2] & 3) << 4u8) | ((p[1] & 3) << 2u8) | (p[0] & 3)
}

fn byte_to_pal(d: u8) -> (r: [u8; 4])
    ensures
        r == pal_decode(d),
        pal_ok(r),
{
    [d & 3, (d >> 2u8) & 3, (d >> 4u8) & 3, (d >> 6u8) & 3]
}

impl PpuRegs {
    pub open spec fn lcdc(&self) -> u8 {
        (b8(self.ppu_enable, 0x80) | b8(self.window_tile_map_select, 0x40) | b8(
            self.window_enable,
            0x20,
        ) | b8(self.bg_and_window_tile_data_select, 0x10) | b8(self.bg_tile_map_select, 0x08)
            | b8(self.obj_size, 0x04) | b8(self.obj_enable, 0x02) | b8(
            self.bg_and_window_enable,
            0x01,
        )) as u8
    }

    pub open spec fn stat(&self) -> u8 {
        (0x80u8 | b8(self.lyc_interrupt_enable, 0x40) | b8(self.oam_interrupt_enable, 0x20) | b8(
            self.vblank_interrupt_enable,
            0x10,
        ) | b8(self.hblank_interrupt_enable, 0x08) | b8(self.lyc == self.ly, 0x04) | mode_bits(
            self.mode,
        )) as u8
    }
}

/// PPU registers: $FF40-$FF45, $FF47-$FF4B and the color palette registers $FF68-$FF6C.
pub open spec fn ppu_reg(addr: u16) -> bool {
    let a = addr & 0xff;
    (0x40 <= a <= 0x45) || (0x47 <= a <= 0x4B) || (0x68 <= a <= 0x6C)
}

impl Ppu {
    pub open spec fn wf(&self) -> bool {
        &&& self.bg_col_pal@.len() == 64
        &&& self.obj_col_pal@.len() == 64
        &&& self.line_buffer@.len() == 160
        &&& self.line_buffer_col@.len() == 160
        &&& self.line_buffer_attr@.len() == 160
        &&& self.frame_buffer.buffer@.len() == 23040
        &&& self.frame_buffer.width == 160
        &&& self.frame_buffer.height == 144
        &&& self.regs.bg_col_pal_addr < 64
        &&& self.regs.obj_col_pal_addr < 64
        &&& pal_ok(self.regs.bg_pal)
        &&& pal_ok(self.regs.obj_pal0)
        &&& pal_ok(self.regs.obj_pal1)
        &&& self.regs.lx < 456
        &&& self.regs.ly < 154
    }

    pub fn new(dmg_palette: &[Color; 4]) -> (r: Ppu)
        ensures
            r.wf(),
            r.dmg_palette == *dmg_palette,
            !r.regs.ppu_enable,
            r.regs.mode == Mode::Hblank,
            r.regs.ly == 0,
            r.regs.lx == 0,
            r.regs.frame == 0,
            !r.render_graphics,
    {
        Ppu {
            regs: PpuRegs {
                ppu_enable: false,
                window_tile_map_select: false,
                window_enable: false,
                bg_and_window_tile_data_select: false,
                bg_tile_map_select: false,
                obj_size: false,
                obj_enable: false,
                bg_and_window_enable: false,
                lyc_interrupt_enable: false,
                oam_interrupt_enable: false,
                vblank_interrupt_enable: false,
                hblank_interrupt_enable: false,
                mode: Mode::Hblank,
                prev_lcd_interrupt: false,
                scroll_y: 0,
                scroll_x: 0,
                window_y: 0,
                window_x: 0,
                bg_pal: [0, 0, 0, 0],
                obj_pal0: [0, 0, 0, 0],
                obj_pal1: [0, 0, 0, 0],
                bg_col_pal_incr: false,
                bg_col_pal_addr: 0,
                obj_col_pal_incr: false,
                obj_col_pal_addr: 0,
                lyc: 0,
                ly: 0,
                lx: 0,
                frame: 0,
                window_rendering_counter: 0,
            },
            bg_col_pal: vec![0u8; 64],
            obj_col_pal: vec![0u8; 64],
            dmg_palette: *dmg_palette,
            line_buffer: vec![0u8; 160],
            line_buffer_col: vec![0u16; 160],
            line_buffer_attr: vec![0u8; 160],
            render_graphics: false,
            frame_buffer: FrameBuffer::new(160, 144),
        }
    }

    pub fn dmg_palette(&self) -> (r: [Color; 4])
        ensures
            r == self.dmg_palette,
    {
        self.dmg_palette
    }

    pub fn set_dmg_palette(&mut self, palette: &[Color; 4])
        ensures
            final(self).dmg_palette == *palette,
            final(self).regs == old(self).regs,
            final(self).wf() == old(self).wf(),
    {
        self.dmg_palette = *palette;
    }

    pub fn set_render_graphics(&mut self, render_graphics: bool)
        ensures
            final(self).render_graphics == render_graphics,
            final(self).regs == old(self).regs,
            final(self).wf() == old(self).wf(),
    {
        self.render_graphics = render_graphics;
    }

    pub fn mode(&self) -> (r: Mode)
        ensures
            r == self.regs.mode,
    {
        self.regs.mode
    }

    pub fn frame(&self) -> (r: u64)
        ensures
            r == self.regs.frame,
    {
        self.regs.frame
    }

    pub fn frame_buffer(&self) -> (r: &FrameBuffer)
        ensures
            *r == self.frame_buffer,
    {
        &self.frame_buffer
    }

    /// The value a read of PPU register `addr` gives.
    pub open spec fn read_spec(&self, running_mode: RunningMode, addr: u16) -> u8 {
        let a = addr & 0xff;
        let r = self.regs;
        let cgb = running_mode == RunningMode::Cgb;
        if a == 0x40 {
            r.lcdc()
        } else if a == 0x41 {
            r.stat()
        } else if a == 0x42 {
            r.scroll_y
        } else if a == 0x43 {
            r.scroll_x
        } else if a == 0x44 {
            r.ly
        } else if a == 0x45 {
            r.lyc
        } else if a == 0x47 {
            pal_byte(r.bg_pal)
        } else if a == 0x48 {
            pal_byte(r.obj_pal0)
        } else if a == 0x49 {
            pal_byte(r.obj_pal1)
        } else if a == 0x4A {
            r.window_y
        } else if a == 0x4B {
            r.window_x
        } else if a == 0x68 {
            if cgb { (b8(r.bg_col_pal_incr, 0x80) | 0x40 | (r.bg_col_pal_addr & 0x3f)) as u8 } else { 0xFF }
        } else if a == 0x69 {
            if cgb { self.bg_col_pal@[r.bg_col_pal_addr as int] } else { 0xFF }
        } else if a == 0x6A {
            if cgb { (b8(r.obj_col_pal_incr, 0x80) | 0x40 | (r.obj_col_pal_addr & 0x3f)) as u8 } else { 0xFF }
        } else if a == 0x6B {
            if cgb { self.obj_col_pal@[r.obj_col_pal_addr as int] } else { 0xFF }
        } else {
            0xFF
        }
    }

    pub fn read(&mut self, ctx: &InnerContext2, addr: u16) -> (r: u8)
        requires
            old(self).wf(),
            ppu_reg(addr),
        ensures
            *final(self) == *old(self),
            r == old(self).read_spec(ctx.running_mode, addr),
    {
        let a = addr & 0xff;
        let r = self.regs;
        let cgb = ctx.running_mode().is_cgb();
        if a == 0x40 {
            bit8(r.ppu_enable, 0x80) | bit8(r.window_tile_map_select, 0x40) | bit8(r.window_enable, 0x20)
                | bit8(r.bg_and_window_tile_data_select, 0x10) | bit8(r.bg_tile_map_select, 0x08)
                | bit8(r.obj_size, 0x04) | bit8(r.obj_enable, 0x02) | bit8(r.bg_and_window_enable, 0x01)
        } else if a == 0x41 {
            0x80u8 | bit8(r.lyc_interrupt_enable, 0x40) | bit8(r.oam_interrupt_enable, 0x20) | bit8(
                r.vblank_interrupt_enable,
                0x10,
            ) | bit8(r.hblank_interrupt_enable, 0x08) | bit8(r.lyc == r.ly, 0x04) | mode_number(r.mode)
        } else if a == 0x42 {
            r.scroll_y
        } else if a == 0x43 {
            r.scroll_x
        } else if a == 0x44 {
            r.ly
        } else if a == 0x45 {
            r.lyc
        } else if a == 0x47 {
            pal_to_byte(r.bg_pal)
        } else if a == 0x48 {
            pal_to_byte(r.obj_pal0)
        } else if a == 0x49 {
            pal_to_byte(r.obj_pal1)
        } else if a == 0x4A {
            r.window_y
        } else if a == 0x4B {
            r.window_x
        } else if a == 0x68 {
            if cgb { bit8(r.bg_col_pal_incr, 0x80) | 0x40 | (r.bg_col_pal_addr & 0x3f) } else { 0xFF }
        } else if a == 0x69 {
            if cgb { self.bg_col_pal[r.bg_col_pal_addr as usize] } else { 0xFF }
        } else if a == 0x6A {
            if cgb { bit8(r.obj_col_pal_incr, 0x80) | 0x40 | (r.obj_col_pal_addr & 0x3f) } else { 0xFF }
        } else if a == 0x6B {
            if cgb { self.obj_col_pal[r.obj_col_pal_addr as usize] } else { 0xFF }
        } else {
            0xFF
        }
    }
}


pub open spec fn lcdc_written(r: PpuRegs, data: u8) -> PpuRegs {
    let en = (data & 0x80) != 0;
    let r1 = if !r.ppu_enable && en {
        PpuRegs { ly: 0, lx: 0, frame: vstd::wrapping::u64_specs::wrapping_add(r.frame, 1), ..r }
    } else {
        r
    };
    PpuRegs {
        ppu_enable: en,
        window_tile_map_select: (data & 0x40) != 0,
        window_enable: (data & 0x20) != 0,
        bg_and_window_tile_data_select: (data & 0x10) != 0,
        bg_tile_map_select: (data & 0x08) != 0,
        obj_size: (data & 0x04) != 0,
        obj_enable: (data & 0x02) != 0,
        bg_and_window_enable: (data & 0x01) != 0,
        ..r1
    }
}

pub open spec fn stat_written(r: PpuRegs, data: u8) -> PpuRegs {
    PpuRegs {
        lyc_interrupt_enable: (data & 0x40) != 0,
        oam_interrupt_enable: (data & 0x20) != 0,
        vblank_interrupt_enable: (data & 0x10) != 0,
        hblank_interrupt_enable: (data & 0x08) != 0,
        ..r
    }
}

pub open spec fn next_pal_addr(a: u8) -> u8 {
    (vstd::wrapping::u8_specs::wrapping_add(a, 1) & 0x3f) as u8
}

/// The registers after a write of `data` to PPU register `addr`. LCDC bit 7 turning the
/// display on restarts the line and dot counters and counts a frame. The color palette
/// registers only take writes on a Game Boy Color; a data write with auto-increment set
/// moves the index on.
pub open spec fn write_regs(r: PpuRegs, cgb: bool, addr: u16, data: u8) -> PpuRegs {
    let a = addr & 0xff;
    if a == 0x40 {
        lcdc_written(r, data)
    } else if a == 0x41 {
        stat_written(r, data)
    } else if a == 0x42 {
        PpuRegs { scroll_y: data, ..r }
    } else if a == 0x43 {
        PpuRegs { scroll_x: data, ..r }
    } else if a == 0x45 {
        PpuRegs { lyc: data, ..r }
    } else if a == 0x47 {
        PpuRegs { bg_pal: pal_decode(data), ..r }
    } else if a == 0x48 {
        PpuRegs { obj_pal0: pal_decode(data), ..r }
    } else if a == 0x49 {
        PpuRegs { obj_pal1: pal_decode(data), ..r }
    } else if a == 0x4A {
        PpuRegs { window_y: data, ..r }
    } else if a == 0x4B {
        PpuRegs { window_x: data, ..r }
    } else if a == 0x68 && cgb {
        PpuRegs { bg_col_pal_incr: (data & 0x80) != 0, bg_col_pal_addr: (data & 0x3f) as u8, ..r }
    } else if a == 0x69 && cgb && r.bg_col_pal_incr {
        PpuRegs { bg_col_pal_addr: next_pal_addr(r.bg_col_pal_addr), ..r }
    } else if a == 0x6A && cgb {
        PpuRegs { obj_col_pal_incr: (data & 0x80) != 0, obj_col_pal_addr: (data & 0x3f) as u8, ..r }
    } else if a == 0x6B && cgb && r.obj_col_pal_incr {
        PpuRegs { obj_col_pal_addr: next_pal_addr(r.obj_col_pal_addr), ..r }
    } else {
        r
    }
}

fn lcdc_write(r: PpuRegs, data: u8) -> (n: PpuRegs)
    ensures
        n == lcdc_written(r, data),
{
    let en = data & 0x80 != 0;
    let r1 = if !r.ppu_enable && en {
        PpuRegs { ly: 0, lx: 0, frame: r.frame.wrapping_add(1), ..r }
    } else {
        r
    };
    PpuRegs {
        ppu_enable: en,
        window_tile_map_select: data & 0x40 != 0,
        window_enable: data & 0x20 != 0,
        bg_and_window_tile_data_select: data & 0x10 != 0,
        bg_tile_map_select: data & 0x08 != 0,
        obj_size: data & 0x04 != 0,
        obj_enable: data & 0x02 != 0,
        bg_and_window_enable: data & 0x01 != 0,
        ..r1
    }
}

fn stat_write(r: PpuRegs, data: u8) -> (n: PpuRegs)
    ensures
        n == stat_written(r, data),
{
    PpuRegs {
        lyc_interrupt_enable: data & 0x40 != 0,
        oam_interrupt_enable: data & 0x20 != 0,
        vblank_interrupt_enable: data & 0x10 != 0,
        hblank_interrupt_enable: data & 0x08 != 0,
        ..r
    }
}

fn next_pal_index(a: u8) -> (r: u8)
    ensures
        r == next_pal_addr(a),
        r < 64,
{
    a.wrapping_add(1) & 0x3f
}

fn pal_index(data: u8) -> (r: u8)
    ensures
        r == data & 0x3f,
        r < 64,
{
    data & 0x3f
}

impl Ppu {
    pub fn write(&mut self, ctx: &InnerContext2, addr: u16, data: u8)
        requires
            old(self).wf(),
            ctx.model != Model::Auto,
        ensures
            final(self).wf(),
            final(self).regs == write_regs(old(self).regs, ctx.model.spec_is_cgb(), addr, data),
            final(self).bg_col_pal@ == if (addr & 0xff) == 0x69 && ctx.model.spec_is_cgb() {
                old(self).bg_col_pal@.update(old(self).regs.bg_col_pal_addr as int, data)
            } else {
                old(self).bg_col_pal@
            },
            final(self).obj_col_pal@ == if (addr & 0xff) == 0x6B && ctx.model.spec_is_cgb() {
                old(self).obj_col_pal@.update(old(self).regs.obj_col_pal_addr as int, data)
            } else {
                old(self).obj_col_pal@
            },
            final(self).dmg_palette == old(self).dmg_palette,
            final(self).line_buffer@ == old(self).line_buffer@,
            final(self).line_buffer_col@ == old(self).line_buffer_col@,
            final(self).line_buffer_attr@ == old(self).line_buffer_attr@,
            final(self).render_graphics == old(self).render_graphics,
            final(self).frame_buffer == old(self).frame_buffer,
    {
        let a = addr & 0xff;
        let cgb = ctx.model().is_cgb();
        let new_regs = write_regs_exec(self.regs, cgb, addr, data);
        if a == 0x69 && cgb {
            let i = self.regs.bg_col_pal_addr as usize;
            self.bg_col_pal.set(i, data);
        } else if a == 0x6B && cgb {
            let i = self.regs.obj_col_pal_addr as usize;
            self.obj_col_pal.set(i, data);
        }
        self.regs = new_regs;
    }
}

fn write_regs_exec(r: PpuRegs, cgb: bool, addr: u16, data: u8) -> (n: PpuRegs)
    requires
        r.bg_col_pal_addr < 64,
        r.obj_col_pal_addr < 64,
        pal_ok(r.bg_pal),
        pal_ok(r.obj_pal0),
        pal_ok(r.obj_pal1),
        r.lx < 456,
        r.ly < 154,
    ensures
        n == write_regs(r, cgb, addr, data),
        n.bg_col_pal_addr < 64,
        n.obj_col_pal_addr < 64,
        pal_ok(n.bg_pal),
        pal_ok(n.obj_pal0),
        pal_ok(n.obj_pal1),
        n.lx < 456,
        n.ly < 154,
{
    let a = addr & 0xff;
    if a == 0x40 {
        lcdc_write(r, data)
    } else if a == 0x41 {
        stat_write(r, data)
    } else if a == 0x42 {
        PpuRegs { scroll_y: data, ..r }
    } else if a == 0x43 {
        PpuRegs { scroll_x: data, ..r }
    } else if a == 0x45 {
        PpuRegs { lyc: data, ..r }
    } else if a == 0x47 {
        PpuRegs { bg_pal: byte_to_pal(data), ..r }
    } else if a == 0x48 {
        PpuRegs { obj_pal0: byte_to_pal(data), ..r }
    } else if a == 0x49 {
        PpuRegs { obj_pal1: byte_to_pal(data), ..r }
    } else if a == 0x4A {
        PpuRegs { window_y: data, ..r }
    } else if a == 0x4B {
        PpuRegs { window_x: data, ..r }
    } else if a == 0x68 && cgb {
        PpuRegs { bg_col_pal_incr: data & 0x80 != 0, bg_col_pal_addr: pal_index(data), ..r }
    } else if a == 0x69 && cgb && r.bg_col_pal_incr {
        PpuRegs { bg_col_pal_addr: next_pal_index(r.bg_col_pal_addr), ..r }
    } else if a == 0x6A && cgb {
        PpuRegs { obj_col_pal_incr: data & 0x80 != 0, obj_col_pal_addr: pal_index(data), ..r }
    } else if a == 0x6B && cgb && r.obj_col_pal_incr {
        PpuRegs { obj_col_pal_addr: next_pal_index(r.obj_col_pal_addr), ..r }
    } else {
        r
    }
}

/// Registers that read back what was written to them: LCDC, SCY, SCX, LYC, BGP, OBP0,
/// OBP1, WY and WX.
pub open spec fn read_back_reg(addr: u16) -> bool {
    let a = addr & 0xff;
    a == 0x40 || a == 0x42 || a == 0x43 || a == 0x45 || a == 0x47 || a == 0x48 || a == 0x49
        || a == 0x4A || a == 0x4B
}

/// A write to LCDC, SCY, SCX, LYC, BGP, OBP0, OBP1, WY or WX reads back unchanged.
pub proof fn lemma_ppu_write_then_read(p: Ppu, q: Ppu, cgb: bool, mode: RunningMode, addr: u16, data: u8)
    requires
        read_back_reg(addr),
        q.regs == write_regs(p.regs, cgb, addr, data),
    ensures
        q.read_spec(mode, addr) == data,
{
    assert((b8((data & 0x80) != 0, 0x80) | b8((data & 0x40) != 0, 0x40) | b8((data & 0x20) != 0, 0x20)
        | b8((data & 0x10) != 0, 0x10) | b8((data & 0x08) != 0, 0x08) | b8((data & 0x04) != 0, 0x04)
        | b8((data & 0x02) != 0, 0x02) | b8((data & 0x01) != 0, 0x01)) == data && (((((data >> 6u8) & 3) & 3)
        << 6u8) | ((((data >> 4u8) & 3) & 3) << 4u8) | ((((data >> 2u8) & 3) & 3) << 2u8) | ((data & 3) & 3))
        == data) by (bit_vector);
}



/// Registers that hold a plain value: SCY, SCX, LYC, BGP, OBP0, OBP1, WY and WX.
pub open spec fn plain_reg(addr: u16) -> bool {
    let a = addr & 0xff;
    a == 0x42 || a == 0x43 || a == 0x45 || a == 0x47 || a == 0x48 || a == 0x49 || a == 0x4A || a == 0x4B
}

/// A write to SCY, SCX, LYC, BGP, OBP0, OBP1, WY or WX changes what no other PPU register
/// reads, but that a write to LYC also decides the LY=LYC bit of STAT.
pub proof fn lemma_ppu_write_is_local(
    p: Ppu,
    q: Ppu,
    cgb: bool,
    mode: RunningMode,
    addr: u16,
    data: u8,
    other: u16,
)
    requires
        plain_reg(addr),
        q.regs == write_regs(p.regs, cgb, addr, data),
        q.bg_col_pal@ == p.bg_col_pal@,
        q.obj_col_pal@ == p.obj_col_pal@,
        other & 0xff != addr & 0xff,
        !(addr & 0xff == 0x45 && other & 0xff == 0x41),
    ensures
        q.read_spec(mode, other) == p.read_spec(mode, other),
{
}

/// Turning the display on (LCDC bit 7 from 0 to 1) restarts LY and the dot counter at
/// zero and counts a new frame; any other LCDC write leaves LY, the dot counter and the
/// frame count as they were.
pub proof fn lemma_lcd_enable_restarts_frame(r: PpuRegs, cgb: bool, addr: u16, data: u8)
    requires
        addr & 0xff == 0x40,
    ensures
        ({
            let n = write_regs(r, cgb, addr, data);
            &&& n.ppu_enable == (data & 0x80 != 0)
            &&& !r.ppu_enable && data & 0x80 != 0 ==> n.ly == 0 && n.lx == 0 && n.frame
                == vstd::wrapping::u64_specs::wrapping_add(r.frame, 1)
            &&& !(!r.ppu_enable && data & 0x80 != 0) ==> n.ly == r.ly && n.lx == r.lx && n.frame == r.frame
        }),
{
}

/// STAT reads bit 7 set, the four interrupt enables of the last STAT write, the LY=LYC
/// bit and the mode.
pub proof fn lemma_stat_read(p: Ppu, q: Ppu, cgb: bool, mode: RunningMode, addr: u16, s: u8)
    requires
        addr & 0xff == 0x41,
        q.regs == write_regs(p.regs, cgb, addr, s),
    ensures
        q.read_spec(mode, addr) == 0x80 | (s & 0x78) | b8(q.regs.lyc == q.regs.ly, 0x04) | mode_bits(
            q.regs.mode,
        ),
        q.regs.ly == p.regs.ly && q.regs.lyc == p.regs.lyc && q.regs.mode == p.regs.mode,
{
    let k = b8(q.regs.lyc == q.regs.ly, 0x04);
    let m = mode_bits(q.regs.mode);
    assert((0x80u8 | b8((s & 0x40) != 0, 0x40) | b8((s & 0x20) != 0, 0x20) | b8((s & 0x10) != 0, 0x10) | b8(
        (s & 0x08) != 0,
        0x08,
    ) | k | m) == 0x80 | (s & 0x78) | k | m) by (bit_vector);
}

} // verus!
