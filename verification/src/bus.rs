//! The memory bus: address decoding, work and high RAM, the boot ROM overlay, OAM DMA,
//! the Game Boy Color's HDMA and its double-speed switch.
use vstd::prelude::*;
use crate::config::Model;
use crate::context::{InnerContext1, RunningMode};
use crate::io::{Io, io_addr, lemma_high_page};
use crate::mbc::{Mbc, cart_addr};
use crate::ppu::{Mode, same_mode};
use crate::rom::copy_bytes;

verus! {

broadcast use crate::bits::group_and_bounds;

/// OAM DMA: copies 160 bytes from `source` * $100 to OAM, one byte per machine cycle,
/// after a start-up delay.
pub struct Dma {
    pub source: u8,
    pub pos: u8,
    pub enabled: bool,
    pub delay: usize,
}

/// The Game Boy Color's VRAM DMA, in blocks of 16 bytes.
pub struct Hdma {
    pub source: u16,
    pub dest: u16,
    pub length: u8,
    pub enabled_general_dma: bool,
    pub enabled_hblank_dma: bool,
    pub prev_hblank: bool,
}

/// A request the bus cannot carry out; the machine stops at it.
#[derive(Clone, Copy, PartialEq, Eq, Structural, Debug)]
pub enum BusFault {
    /// HDMA5 written while a general-purpose transfer is still running.
    HdmaWriteDuringGeneralDma,
    /// An HDMA5 write with bit 7 set while an HBlank transfer runs.
    DmaStartDuringHblankDma,
    /// The speed-switch delay ran with no switch prepared.
    SpeedSwitchNotPrepared,
}

pub struct Bus {
    pub ram: Vec<u8>,
    pub ram_bank: u8,
    pub hiram: Vec<u8>,
    pub boot_rom: Option<Vec<u8>>,
    pub map_boot_rom: bool,
    pub vram_bank: u8,
    pub current_speed: u8,
    pub prepare_speed_switch: u8,
    pub switch_delay: u16,
    pub mbc: Mbc,
    pub io: Io,
    pub dma: Dma,
    pub hdma: Hdma,
    pub reg_ff72: u8,
    pub reg_ff73: u8,
    pub reg_ff75: u8,
    pub fault: Option<BusFault>,
}

/// Work RAM: eight 4 KiB banks on the Game Boy Color, two otherwise.
pub open spec fn wram_size(model: Model) -> nat {
    if model.spec_is_cgb() {
        0x8000
    } else {
        0x2000
    }
}

/// Boot ROM size that each model takes.
pub open spec fn boot_rom_size(model: Model) -> nat {
    if model.spec_is_cgb() {
        0x900
    } else {
        0x100
    }
}

/// Offset in video RAM of `addr` ($8000-$9FFF) in bank `bank`.
pub open spec fn vram_index(addr: u16, bank: u8) -> int {
    (addr & 0x1fff) as int + bank as int * 0x2000
}

/// Offset in work RAM of `addr` ($C000-$FDFF; $E000-$FDFF echoes $C000-$DDFF) with bank
/// `bank` switched in: the low 13 bits of the address, whose bit 12 selects the
/// switchable bank.
pub open spec fn wram_index(addr: u16, bank: u8) -> int {
    let a = addr & 0x1fff;
    (a & 0x0fff) as int + (a & 0x1000) as int * bank as int
}

/// Bit 12 of the low 13 bits of an address is either clear or set, and the low 13 bits
/// of an address in $C000-$DFFF are its offset from $C000.
proof fn lemma_wram_bits(addr: u16)
    ensures
        ((addr & 0x1fff) & 0x1000) == 0 || ((addr & 0x1fff) & 0x1000) == 0x1000,
        ((addr & 0x1fff) & 0x1000) == 0 ==> ((addr & 0x1fff) & 0x0fff) == (addr & 0x1fff),
        ((addr & 0x1fff) & 0x1000) == 0x1000 ==> ((addr & 0x1fff) & 0x0fff) + 0x1000 == (addr & 0x1fff),
        0xC000 <= addr <= 0xDFFF ==> (addr & 0x1fff) == addr - 0xC000,
{
    assert((((addr & 0x1fff) & 0x1000) == 0 || ((addr & 0x1fff) & 0x1000) == 0x1000) && (((addr & 0x1fff)
        & 0x1000) == 0 ==> ((addr & 0x1fff) & 0x0fff) == (addr & 0x1fff)) && (((addr & 0x1fff) & 0x1000)
        == 0x1000 ==> ((addr & 0x1fff) & 0x0fff) + 0x1000 == (addr & 0x1fff)) && (0xC000 <= addr <= 0xDFFF
        ==> (addr & 0x1fff) == addr - 0xC000)) by (bit_vector);
}

/// Work RAM has a cell of its own for each byte of $C000-$DFFF: two different addresses
/// there never share a cell, whichever bank is switched in.
pub proof fn lemma_wram_cells_distinct(a1: u16, a2: u16, bank: u8)
    requires
        0xC000 <= a1 <= 0xDFFF,
        0xC000 <= a2 <= 0xDFFF,
        a1 != a2,
        1 <= bank,
    ensures
        wram_index(a1, bank) != wram_index(a2, bank),
{
    lemma_wram_bits(a1);
    lemma_wram_bits(a2);
    if (a1 & 0x1fff) & 0x1000 == 0x1000 && (a2 & 0x1fff) & 0x1000 == 0x1000 {
        assert(wram_index(a1, bank) == ((a1 & 0x1fff) & 0x0fff) + 0x1000 * bank);
        assert(wram_index(a2, bank) == ((a2 & 0x1fff) & 0x0fff) + 0x1000 * bank);
    }
}

/// The low byte of an OAM address, and the low seven bits of a high-RAM address, stay
/// inside those memories.
proof fn lemma_page_offsets(addr: u16)
    ensures
        0xfe00 <= addr <= 0xfe9f ==> (addr & 0xff) < 0xa0,
        0xff80 <= addr <= 0xfffe ==> (addr & 0x7f) < 0x7f,
        0xff80 <= addr <= 0xfffe ==> (addr & 0x7f) == addr - 0xff80,
{
    assert((0xfe00 <= addr <= 0xfe9f ==> (addr & 0xff) < 0xa0) && (0xff80 <= addr <= 0xfffe ==> (
    addr & 0x7f) < 0x7f) && (0xff80 <= addr <= 0xfffe ==> (addr & 0x7f) == addr - 0xff80)) by (bit_vector);
}

impl Bus {
    pub open spec fn wf(&self, ctx: &InnerContext1) -> bool {
        let cgb = ctx.inner.model.spec_is_cgb();
        &&& ctx.wf()
        &&& self.mbc.wf(&ctx.rom)
        &&& self.io.wf()
        &&& self.ram@.len() == wram_size(ctx.inner.model)
        &&& self.hiram@.len() == 0x7F
        &&& 1 <= self.ram_bank <= 7
        &&& (!cgb ==> self.ram_bank == 1)
        &&& self.vram_bank <= 1
        &&& (!cgb ==> self.vram_bank == 0)
        &&& (self.boot_rom matches Some(b) ==> b@.len() == boot_rom_size(ctx.inner.model))
        &&& (self.dma.enabled ==> self.dma.pos < 0xA0)
        &&& self.dma.delay <= 2
        &&& (self.dma.delay > 0 ==> self.dma.pos == 0)
        &&& !(self.hdma.enabled_general_dma && self.hdma.enabled_hblank_dma)
        &&& self.hdma.source % 16 == 0
        &&& self.hdma.dest % 16 == 0
        &&& self.hdma.dest < 0x2000
    }

    /// The boot ROM answers `addr`.
    pub open spec fn boot_mapped(&self, addr: u16) -> bool {
        self.map_boot_rom && (self.boot_rom matches Some(b) && addr < b@.len())
    }

    /// Addresses the cartridge answers while the boot ROM is not in the way.
    pub open spec fn cart_read_addr(addr: u16) -> bool {
        (0x0100 <= addr <= 0x01ff) || (0x0900 <= addr <= 0x7fff) || (0xA000 <= addr <= 0xBFFF)
    }

    /// The value a read of `addr` gives.
    pub open spec fn read_value(&self, ctx: &InnerContext1, addr: u16) -> u8 {
        if 0xFF00 <= addr {
            self.high_value(ctx, addr)
        } else if Self::cart_read_addr(addr) {
            self.mbc.read_spec(&ctx.rom, ctx.inner.external_ram@, addr)
        } else if addr <= 0x08ff {
            if self.boot_mapped(addr) {
                self.boot_rom->Some_0@[addr as int]
            } else {
                self.mbc.read_spec(&ctx.rom, ctx.inner.external_ram@, addr)
            }
        } else if addr <= 0x9fff {
            ctx.inner.vram@[vram_index(addr, self.vram_bank)]
        } else if addr <= 0xfdff {
            self.ram@[wram_index(addr, self.ram_bank)]
        } else if addr <= 0xfe9f {
            if self.dma.enabled {
                0xff
            } else {
                ctx.inner.oam@[(addr & 0xff) as int]
            }
        } else {
            0xff
        }
    }

    /// The value a read of `addr` ($FF00-$FFFF) gives: the bus's own registers, high
    /// RAM, or the I/O block.
    pub open spec fn high_value(&self, ctx: &InnerContext1, addr: u16) -> u8 {
        let cgb = ctx.inner.model.spec_is_cgb();
        let a = addr & 0xff;
        if addr == 0xff46 {
            self.dma.source
        } else if addr == 0xff4f {
            if cgb {
                0xfe | self.vram_bank
            } else {
                0xff
            }
        } else if addr == 0xff55 {
            if cgb {
                (if self.hdma.enabled_hblank_dma {
                    0u8
                } else {
                    0x80u8
                }) | (self.hdma.length & 0x7f)
            } else {
                0xff
            }
        } else if addr == 0xff72 {
            self.reg_ff72
        } else if addr == 0xff73 {
            self.reg_ff73
        } else if addr == 0xff75 {
            0x8f | ((self.reg_ff75 & 7) << 4u8)
        } else if addr == 0xff4c || addr == 0xff4d || addr == 0xff4e || addr == 0xff50 || (0xff51
            <= addr <= 0xff54) || addr == 0xff70 {
            0xff
        } else if 0xff80 <= addr <= 0xfffe {
            self.hiram@[(addr & 0x7f) as int]
        } else if 0x10 <= a <= 0x3F {
            ctx.apu.reg_value(addr)
        } else if 0x40 <= a <= 0x4B {
            ctx.ppu.read_spec(ctx.inner.running_mode, addr)
        } else {
            self.io.own_reg(&ctx.inner, addr)
        }
    }

    /// Offset in work RAM of `addr`.
    fn wram_offset(&self, addr: u16) -> (r: usize)
        requires
            1 <= self.ram_bank <= 7,
        ensures
            r == wram_index(addr, self.ram_bank),
            r < 0x8000,
            self.ram_bank == 1 ==> r < 0x2000,
    {
        let a: u16 = addr & 0x1fff;
        let bank: u16 = a & 0x1000;
        proof {
            lemma_wram_bits(addr);
        }
        ((a & 0x0fff) + bank * (self.ram_bank as u16)) as usize
    }

    /// Reads `addr` as the CPU or a DMA sees it; nothing changes.
    pub fn read_(&mut self, ctx: &mut InnerContext1, addr: u16) -> (r: u8)
        requires
            old(self).wf(old(ctx)),
        ensures
            *final(self) == *old(self),
            *final(ctx) == *old(ctx),
            r == old(self).read_value(old(ctx), addr),
    {
        proof {
            lemma_page_offsets(addr);
        }
        if addr >= 0xFF00 {
            self.read_high(ctx, addr)
        } else if (0x0100 <= addr && addr <= 0x01ff) || (0x0900 <= addr && addr <= 0x7fff) || (0xA000
            <= addr && addr <= 0xBFFF) {
            self.mbc.read(&ctx.rom, &ctx.inner.external_ram, addr)
        } else if addr <= 0x08ff {
            let mapped = match &self.boot_rom {
                Some(b) => self.map_boot_rom && (addr as usize) < b.len(),
                None => false,
            };
            if mapped {
                match &self.boot_rom {
                    Some(b) => b[addr as usize],
                    None => 0xff,
                }
            } else {
                self.mbc.read(&ctx.rom, &ctx.inner.external_ram, addr)
            }
        } else if addr <= 0x9fff {
            let i = (addr & 0x1fff) as usize + (self.vram_bank as usize) * 0x2000;
            ctx.inner.vram[i]
        } else if addr <= 0xfdff {
            let i = self.wram_offset(addr);
            self.ram[i]
        } else if addr <= 0xfe9f {
            if self.dma.enabled {
                0xff
            } else {
                ctx.inner.oam[(addr & 0xff) as usize]
            }
        } else {
            0xff
        }
    }

    fn read_high(&mut self, ctx: &mut InnerContext1, addr: u16) -> (r: u8)
        requires
            old(self).wf(old(ctx)),
            0xFF00 <= addr,
        ensures
            *final(self) == *old(self),
            *final(ctx) == *old(ctx),
            r == old(self).high_value(old(ctx), addr),
    {
        proof {
            lemma_high_page(addr);
            lemma_page_offsets(addr);
        }
        let cgb = ctx.inner.model.is_cgb();
        if addr == 0xff46 {
            self.dma.source
        } else if addr == 0xff4f {
            if cgb {
                0xfe | self.vram_bank
            } else {
                0xff
            }
        } else if addr == 0xff55 {
            if cgb {
                (if self.hdma.enabled_hblank_dma {
                    0u8
                } else {
                    0x80u8
                }) | (self.hdma.length & 0x7f)
            } else {
                0xff
            }
        } else if addr == 0xff72 {
            self.reg_ff72
        } else if addr == 0xff73 {
            self.reg_ff73
        } else if addr == 0xff75 {
            0x8f | ((self.reg_ff75 & 7) << 4u8)
        } else if addr == 0xff4c || addr == 0xff4d || addr == 0xff4e || addr == 0xff50 || (0xff51
            <= addr && addr <= 0xff54) || addr == 0xff70 {
            0xff
        } else if 0xff80 <= addr && addr <= 0xfffe {
            self.hiram[(addr & 0x7f) as usize]
        } else {
            self.io.read(&mut ctx.ppu, &mut ctx.apu, &ctx.inner, addr)
        }
    }

    /// Reads `addr`.
    pub fn read(&mut self, ctx: &mut InnerContext1, addr: u16) -> (r: u8)
        requires
            old(self).wf(old(ctx)),
        ensures
            *final(self) == *old(self),
            *final(ctx) == *old(ctx),
            r == old(self).read_value(old(ctx), addr),
    {
        self.read_(ctx, addr)
    }

    /// Reads `addr` for a debugger: the I/O registers, which a read may disturb, give
    /// `None`.
    pub fn read_immutable(&mut self, ctx: &mut InnerContext1, addr: u16) -> (r: Option<u8>)
        requires
            old(self).wf(old(ctx)),
        ensures
            *final(self) == *old(self),
            *final(ctx) == *old(ctx),
            r == (if (0xff00 <= addr <= 0xff7f) || addr == 0xffff {
                None
            } else {
                Some(old(self).read_value(old(ctx), addr))
            }),
    {
        if (0xff00 <= addr && addr <= 0xff7f) || addr == 0xffff {
            None
        } else {
            Some(self.read_(ctx, addr))
        }
    }
}

/// The compatibility mode that KEY0 bits 2-3 select.
pub open spec fn key0_mode(data: u8) -> RunningMode {
    let m = (data >> 2u8) & 3;
    if m == 0 {
        RunningMode::Cgb
    } else if m == 1 {
        RunningMode::Dmg
    } else if m == 2 {
        RunningMode::Pgb1
    } else {
        RunningMode::Pgb2
    }
}

/// HDMA1: the high byte of the source.
pub open spec fn hdma1(src: u16, data: u8) -> u16 {
    (src & 0x00ff) | ((data as u16) << 8u16)
}

/// HDMA2: the low byte of the source, its low four bits cleared.
pub open spec fn hdma2(src: u16, data: u8) -> u16 {
    (src & 0xff00) | ((data & 0xf0) as u16)
}

/// HDMA3: bits 8-12 of the destination.
pub open spec fn hdma3(dst: u16, data: u8) -> u16 {
    (dst & 0xe0ff) | (((data & 0x1f) as u16) << 8u16)
}

/// HDMA4: the low byte of the destination, its low four bits cleared.
pub open spec fn hdma4(dst: u16, data: u8) -> u16 {
    (dst & 0xff00) | ((data & 0xf0) as u16)
}

/// The HDMA registers keep source and destination on 16-byte blocks, and the
/// destination inside video RAM.
proof fn lemma_hdma_regs(s: u16, d: u16, x: u8)
    requires
        s % 16 == 0,
        d % 16 == 0,
        d < 0x2000,
    ensures
        hdma1(s, x) % 16 == 0,
        hdma2(s, x) % 16 == 0,
        hdma3(d, x) % 16 == 0,
        hdma3(d, x) < 0x2000,
        hdma4(d, x) % 16 == 0,
        hdma4(d, x) < 0x2000,
{
    assert(((s & 0x00ff) | ((x as u16) << 8u16)) % 16 == 0 && ((s & 0xff00) | ((x & 0xf0) as u16)) % 16
        == 0 && ((d & 0xe0ff) | (((x & 0x1f) as u16) << 8u16)) % 16 == 0 && ((d & 0xe0ff) | (((x
        & 0x1f) as u16) << 8u16)) < 0x2000 && ((d & 0xff00) | ((x & 0xf0) as u16)) % 16 == 0 && ((d
        & 0xff00) | ((x & 0xf0) as u16)) < 0x2000) by (bit_vector)
        requires
            s % 16 == 0,
            d % 16 == 0,
            d < 0x2000,
    ;
}

impl Bus {
    /// The bus's own registers are those of `o`.
    pub open spec fn regs_eq(&self, o: &Bus) -> bool {
        &&& self.ram_bank == o.ram_bank
        &&& self.map_boot_rom == o.map_boot_rom
        &&& self.vram_bank == o.vram_bank
        &&& self.current_speed == o.current_speed
        &&& self.prepare_speed_switch == o.prepare_speed_switch
        &&& self.switch_delay == o.switch_delay
        &&& self.dma == o.dma
        &&& self.hdma == o.hdma
        &&& self.reg_ff72 == o.reg_ff72
        &&& self.reg_ff73 == o.reg_ff73
        &&& self.reg_ff75 == o.reg_ff75
        &&& self.fault == o.fault
    }

    /// The bus's memories, controller and I/O block are those of `o`.
    pub open spec fn parts_eq(&self, o: &Bus) -> bool {
        &&& self.ram == o.ram
        &&& self.hiram == o.hiram
        &&& self.boot_rom == o.boot_rom
        &&& self.mbc == o.mbc
        &&& self.io == o.io
    }

    /// What a write of `data` to `addr` ($FF00-$FFFF) does to the bus's registers (`n`
    /// after it) and high RAM, for the addresses the bus itself answers.
    pub open spec fn high_write_post(&self, cgb: bool, n: &Bus, addr: u16, data: u8) -> bool {
        if addr == 0xff46 {
            &&& n.dma == (Dma { source: data, pos: 0, enabled: false, delay: 2 })
            &&& n.regs_eq(&Bus { dma: n.dma, ..*self })
        } else if addr == 0xff50 {
            n.regs_eq(&Bus { map_boot_rom: data & 1 == 0, ..*self })
        } else if addr == 0xff4d && cgb {
            n.regs_eq(&Bus { prepare_speed_switch: data & 1, ..*self })
        } else if addr == 0xff4f && cgb {
            n.regs_eq(&Bus { vram_bank: data & 1, ..*self })
        } else if addr == 0xff51 && cgb {
            n.regs_eq(&Bus { hdma: Hdma { source: hdma1(self.hdma.source, data), ..self.hdma }, ..*self })
        } else if addr == 0xff52 && cgb {
            n.regs_eq(&Bus { hdma: Hdma { source: hdma2(self.hdma.source, data), ..self.hdma }, ..*self })
        } else if addr == 0xff53 && cgb {
            n.regs_eq(&Bus { hdma: Hdma { dest: hdma3(self.hdma.dest, data), ..self.hdma }, ..*self })
        } else if addr == 0xff54 && cgb {
            n.regs_eq(&Bus { hdma: Hdma { dest: hdma4(self.hdma.dest, data), ..self.hdma }, ..*self })
        } else if addr == 0xff55 && cgb {
            if self.hdma.enabled_general_dma {
                n.regs_eq(&Bus { fault: Some(BusFault::HdmaWriteDuringGeneralDma), ..*self })
            } else if self.hdma.enabled_hblank_dma {
                if data & 0x80 != 0 {
                    n.regs_eq(&Bus { fault: Some(BusFault::DmaStartDuringHblankDma), ..*self })
                } else {
                    n.regs_eq(&Bus { hdma: Hdma { enabled_hblank_dma: false, ..self.hdma }, ..*self })
                }
            } else if data & 0x80 != 0 {
                n.regs_eq(
                    &Bus {
                        hdma: Hdma { enabled_hblank_dma: true, length: data & 0x7f, ..self.hdma },
                        ..*self
                    },
                )
            } else {
                n.regs_eq(
                    &Bus {
                        hdma: Hdma { enabled_general_dma: true, length: data & 0x7f, ..self.hdma },
                        ..*self
                    },
                )
            }
        } else if addr == 0xff70 && cgb {
            n.regs_eq(&Bus { ram_bank: if data & 7 == 0 { 1 } else { data & 7 }, ..*self })
        } else if addr == 0xff72 {
            n.regs_eq(&Bus { reg_ff72: data, ..*self })
        } else if addr == 0xff73 {
            n.regs_eq(&Bus { reg_ff73: data, ..*self })
        } else if addr == 0xff75 {
            n.regs_eq(&Bus { reg_ff75: (self.reg_ff75 & 0x8f) | (data & 0x70), ..*self })
        } else {
            n.regs_eq(self)
        }
    }
}

impl Bus {
    /// Addresses at or above $FF00 that the bus answers itself on a write.
    pub open spec fn own_high(addr: u16) -> bool {
        ||| addr == 0xff46
        ||| addr == 0xff4c
        ||| addr == 0xff4d
        ||| addr == 0xff4f
        ||| addr == 0xff50
        ||| (0xff51 <= addr <= 0xff55)
        ||| addr == 0xff70
        ||| addr == 0xff72
        ||| addr == 0xff73
        ||| addr == 0xff75
        ||| (0xff80 <= addr <= 0xfffe)
    }

    /// What a write of `data` to `addr` leaves: the bus `n` and the context `nc`.
    pub open spec fn write_post(&self, c: &InnerContext1, n: &Bus, nc: &InnerContext1, addr: u16, data: u8) -> bool {
        let cgb = c.inner.model.spec_is_cgb();
        if cart_addr(addr) {
            &&& self.mbc.write_post(&c.rom, n.mbc, c.inner.external_ram@, nc.inner.external_ram@, addr, data)
            &&& n.regs_eq(self)
            &&& n.ram == self.ram
            &&& n.hiram == self.hiram
            &&& n.boot_rom == self.boot_rom
            &&& n.io == self.io
            &&& nc.rom == c.rom
            &&& nc.ppu == c.ppu
            &&& nc.apu == c.apu
            &&& nc.inner.flags_eq(&c.inner)
            &&& nc.inner.running_mode == c.inner.running_mode
            &&& nc.inner.vram == c.inner.vram
            &&& nc.inner.oam == c.inner.oam
        } else if 0xFF00 <= addr && !Self::own_high(addr) {
            &&& self.io.write_post(&n.io, &c.inner, &nc.inner, &c.ppu, &nc.ppu, &c.apu, &nc.apu, addr, data)
            &&& self.io.own_frame(&n.io, addr & 0xff)
            &&& n.regs_eq(self)
            &&& n.ram == self.ram
            &&& n.hiram == self.hiram
            &&& n.boot_rom == self.boot_rom
            &&& n.mbc == self.mbc
            &&& nc.rom == c.rom
        } else {
            &&& self.high_write_post(cgb, n, addr, data)
            &&& n.mbc == self.mbc
            &&& n.io == self.io
            &&& n.boot_rom == self.boot_rom
            &&& n.ram@ == (if 0xC000 <= addr <= 0xFDFF {
                self.ram@.update(wram_index(addr, self.ram_bank), data)
            } else {
                self.ram@
            })
            &&& n.hiram@ == (if 0xFF80 <= addr <= 0xFFFE {
                self.hiram@.update((addr & 0x7f) as int, data)
            } else {
                self.hiram@
            })
            &&& nc.rom == c.rom
            &&& nc.ppu == c.ppu
            &&& nc.apu == c.apu
            &&& nc.inner.vram@ == (if 0x8000 <= addr <= 0x9FFF {
                c.inner.vram@.update(vram_index(addr, self.vram_bank), data)
            } else {
                c.inner.vram@
            })
            &&& nc.inner.oam@ == (if 0xFE00 <= addr <= 0xFE9F && !self.dma.enabled && !c.inner.oam_lock {
                c.inner.oam@.update((addr & 0xff) as int, data)
            } else {
                c.inner.oam@
            })
            &&& nc.inner.external_ram == c.inner.external_ram
            &&& nc.inner.running_mode == (if addr == 0xff4c && cgb {
                key0_mode(data)
            } else {
                c.inner.running_mode
            })
            &&& nc.inner.flags_eq(&c.inner)
        }
    }

    /// Writes `data` to `addr`.
    pub fn write(&mut self, ctx: &mut InnerContext1, addr: u16, data: u8)
        requires
            old(self).wf(old(ctx)),
        ensures
            final(self).wf(final(ctx)),
            old(self).write_post(old(ctx), final(self), final(ctx), addr, data),
    {
        proof {
            lemma_page_offsets(addr);
        }
        if addr >= 0xFF00 {
            self.write_high(ctx, addr, data);
        } else if addr < 0x8000 || (0xA000 <= addr && addr <= 0xBFFF) {
            self.mbc.write(&ctx.rom, &mut ctx.inner.external_ram, addr, data);
        } else if addr <= 0x9fff {
            let i = (addr & 0x1fff) as usize + (self.vram_bank as usize) * 0x2000;
            ctx.inner.vram.set(i, data);
        } else if addr <= 0xfdff {
            let i = self.wram_offset(addr);
            self.ram.set(i, data);
        } else if addr <= 0xfe9f {
            if !self.dma.enabled && !ctx.inner.oam_lock {
                ctx.inner.oam.set((addr & 0xff) as usize, data);
            }
        }
    }

    fn write_high(&mut self, ctx: &mut InnerContext1, addr: u16, data: u8)
        requires
            old(self).wf(old(ctx)),
            0xFF00 <= addr,
        ensures
            final(self).wf(final(ctx)),
            old(self).write_post(old(ctx), final(self), final(ctx), addr, data),
    {
        proof {
            lemma_high_page(addr);
            lemma_page_offsets(addr);
        }
        if Self::is_own_high(addr) {
            self.write_own_high(ctx, addr, data);
        } else {
            self.io.write(&mut ctx.ppu, &mut ctx.apu, &mut ctx.inner, addr, data);
        }
    }

    #[verifier::when_used_as_spec(own_high)]
    fn is_own_high(addr: u16) -> (r: bool)
        ensures
            r == Self::own_high(addr),
    {
        addr == 0xff46 || addr == 0xff4c || addr == 0xff4d || addr == 0xff4f || addr == 0xff50 || (0xff51
            <= addr && addr <= 0xff55) || addr == 0xff70 || addr == 0xff72 || addr == 0xff73 || addr
            == 0xff75 || (0xff80 <= addr && addr <= 0xfffe)
    }

    fn write_own_high(&mut self, ctx: &mut InnerContext1, addr: u16, data: u8)
        requires
            old(self).wf(old(ctx)),
            Self::own_high(addr),
        ensures
            final(self).wf(final(ctx)),
            old(self).write_post(old(ctx), final(self), final(ctx), addr, data),
    {
        proof {
            lemma_page_offsets(addr);
            lemma_hdma_regs(self.hdma.source, self.hdma.dest, data);
        }
        let cgb = ctx.inner.model.is_cgb();
        if addr == 0xff46 {
            self.dma = Dma { source: data, pos: 0, enabled: false, delay: 2 };
        } else if addr == 0xff50 {
            self.map_boot_rom = data & 1 == 0;
        } else if addr == 0xff4c {
            if cgb {
                let m = (data >> 2u8) & 3;
                let mode = if m == 0 {
                    RunningMode::Cgb
                } else if m == 1 {
                    RunningMode::Dmg
                } else if m == 2 {
                    RunningMode::Pgb1
                } else {
                    RunningMode::Pgb2
                };
                ctx.inner.set_running_mode(mode);
            }
        } else if addr == 0xff4d {
            if cgb {
                self.prepare_speed_switch = data & 1;
            }
        } else if addr == 0xff4f {
            if cgb {
                self.vram_bank = data & 1;
            }
        } else if addr == 0xff51 {
            if cgb {
                self.hdma.source = (self.hdma.source & 0x00ff) | ((data as u16) << 8u16);
            }
        } else if addr == 0xff52 {
            if cgb {
                self.hdma.source = (self.hdma.source & 0xff00) | ((data & 0xf0) as u16);
            }
        } else if addr == 0xff53 {
            if cgb {
                self.hdma.dest = (self.hdma.dest & 0xe0ff) | (((data & 0x1f) as u16) << 8u16);
            }
        } else if addr == 0xff54 {
            if cgb {
                self.hdma.dest = (self.hdma.dest & 0xff00) | ((data & 0xf0) as u16);
            }
        } else if addr == 0xff55 {
            if cgb {
                self.write_hdma5(data);
            }
        } else if addr == 0xff70 {
            if cgb {
                let b = data & 7;
                self.ram_bank = if b == 0 {
                    1
                } else {
                    b
                };
            }
        } else if addr == 0xff72 {
            self.reg_ff72 = data;
        } else if addr == 0xff73 {
            self.reg_ff73 = data;
        } else if addr == 0xff75 {
            self.reg_ff75 = (self.reg_ff75 & 0x8f) | (data & 0x70);
        } else {
            self.hiram.set((addr & 0x7f) as usize, data);
        }
    }

    /// HDMA5: starts an HBlank or general-purpose transfer of `data` & $7F + 1 blocks,
    /// or stops a running HBlank transfer.
    fn write_hdma5(&mut self, data: u8)
        requires
            !(old(self).hdma.enabled_general_dma && old(self).hdma.enabled_hblank_dma),
        ensures
            !(final(self).hdma.enabled_general_dma && final(self).hdma.enabled_hblank_dma),
            old(self).high_write_post(true, final(self), 0xff55, data),
            final(self).parts_eq(old(self)),
            final(self).hdma.source == old(self).hdma.source,
            final(self).hdma.dest == old(self).hdma.dest,
    {
        if self.hdma.enabled_general_dma {
            self.fault = Some(BusFault::HdmaWriteDuringGeneralDma);
        } else if self.hdma.enabled_hblank_dma {
            if data & 0x80 != 0 {
                self.fault = Some(BusFault::DmaStartDuringHblankDma);
            } else {
                self.hdma.enabled_hblank_dma = false;
            }
        } else if data & 0x80 != 0 {
            self.hdma.enabled_hblank_dma = true;
            self.hdma.length = data & 0x7f;
        } else {
            self.hdma.enabled_general_dma = true;
            self.hdma.length = data & 0x7f;
        }
    }
}

/// OAM DMA after one machine cycle.
pub open spec fn dma_next(d: Dma) -> Dma {
    if d.delay > 0 {
        Dma { delay: (d.delay - 1) as usize, enabled: if d.delay == 1 { true } else { d.enabled }, ..d }
    } else if !d.enabled {
        d
    } else {
        Dma { pos: (d.pos + 1) as u8, enabled: d.pos + 1 != 0xA0, ..d }
    }
}

/// OAM DMA copies a byte in this cycle.
pub open spec fn dma_copies(d: Dma) -> bool {
    d.delay == 0 && d.enabled
}

/// The address OAM DMA reads from next.
pub open spec fn dma_addr(d: Dma) -> u16 {
    ((d.source as u16) << 8u16) | (d.pos as u16)
}

/// HDMA moves a block in this cycle: a general-purpose transfer always, an HBlank
/// transfer when the video unit has just entered HBlank.
pub open spec fn hdma_fires(h: Hdma, hblank: bool) -> bool {
    h.enabled_general_dma || (h.enabled_hblank_dma && !h.prev_hblank && hblank)
}

/// HDMA after one machine cycle, `hblank` telling whether the video unit is in HBlank.
pub open spec fn hdma_next(h: Hdma, hblank: bool) -> Hdma {
    if hdma_fires(h, hblank) {
        let d = h.dest + 16;
        Hdma {
            source: if h.source + 16 > 0xffff {
                (h.source + 16 - 0x10000) as u16
            } else {
                (h.source + 16) as u16
            },
            dest: if d >= 0x2000 {
                (d - 0x2000) as u16
            } else {
                d as u16
            },
            length: if h.length == 0 {
                0xff
            } else {
                (h.length - 1) as u8
            },
            enabled_general_dma: h.enabled_general_dma && h.length != 0,
            enabled_hblank_dma: h.enabled_hblank_dma && h.length != 0,
            prev_hblank: hblank,
        }
    } else {
        Hdma { prev_hblank: hblank, ..h }
    }
}

/// Addresses whose value depends on nothing but the cartridge and work RAM.
pub open spec fn plain_addr(a: int) -> bool {
    (0 <= a < 0x8000) || (0xA000 <= a <= 0xFDFF)
}

/// A read of a plain address gives the same on two buses and contexts that agree on
/// the cartridge, the boot ROM and work RAM.
proof fn lemma_read_plain(b1: Bus, c1: InnerContext1, b2: Bus, c2: InnerContext1, a: u16)
    requires
        plain_addr(a as int),
        b1.mbc == b2.mbc,
        b1.boot_rom == b2.boot_rom,
        b1.map_boot_rom == b2.map_boot_rom,
        b1.ram == b2.ram,
        b1.ram_bank == b2.ram_bank,
        c1.rom == c2.rom,
        c1.inner.external_ram == c2.inner.external_ram,
    ensures
        b1.read_value(&c1, a) == b2.read_value(&c2, a),
{
}

impl Bus {
    /// A bus with cleared memories; the boot ROM, if given, is mapped in.
    pub fn new(model: Model, mbc: Mbc, boot_rom: &Option<Vec<u8>>, io: Io) -> (r: Bus)
        requires
            model != Model::Auto,
            boot_rom matches Some(b) ==> b@.len() == boot_rom_size(model),
        ensures
            r.ram@ == Seq::new(wram_size(model), |i: int| 0u8),
            r.hiram@ == Seq::new(0x7F, |i: int| 0u8),
            r.ram_bank == 1,
            r.vram_bank == 0,
            r.map_boot_rom == boot_rom is Some,
            r.boot_rom is Some == boot_rom is Some,
            boot_rom matches Some(b) ==> r.boot_rom->Some_0@ == b@,
            r.current_speed == 0,
            r.prepare_speed_switch == 0,
            r.switch_delay == 0,
            r.mbc == mbc,
            r.io == io,
            r.dma == (Dma { source: 0, pos: 0, enabled: false, delay: 0 }),
            r.hdma == (Hdma {
                source: 0,
                dest: 0,
                length: 0,
                enabled_general_dma: false,
                enabled_hblank_dma: false,
                prev_hblank: false,
            }),
            r.reg_ff72 == 0,
            r.reg_ff73 == 0,
            r.reg_ff75 == 0,
            r.fault is None,
    {
        let ram_size: usize = if model.is_cgb() {
            0x8000
        } else {
            0x2000
        };
        let boot = match boot_rom {
            Some(b) => Some(copy_bytes(b.as_slice())),
            None => None,
        };
        let ram = vec![0u8; ram_size];
        let hiram = vec![0u8; 0x7F];
        proof {
            assert(ram@ =~= Seq::new(wram_size(model), |i: int| 0u8));
            assert(hiram@ =~= Seq::new(0x7F, |i: int| 0u8));
        }
        Bus {
            ram,
            ram_bank: 1,
            hiram,
            map_boot_rom: boot.is_some(),
            boot_rom: boot,
            vram_bank: 0,
            current_speed: 0,
            prepare_speed_switch: 0,
            switch_delay: 0,
            mbc,
            io,
            dma: Dma { source: 0, pos: 0, enabled: false, delay: 0 },
            hdma: Hdma {
                source: 0,
                dest: 0,
                length: 0,
                enabled_general_dma: false,
                enabled_hblank_dma: false,
                prev_hblank: false,
            },
            reg_ff72: 0,
            reg_ff73: 0,
            reg_ff75: 0,
            fault: None,
        }
    }

    pub fn io(&mut self) -> (r: &mut Io)
        ensures
            *r == old(self).io,
            final(self).io == *final(r),
            final(self).regs_eq(old(self)),
            final(self).ram == old(self).ram,
            final(self).hiram == old(self).hiram,
            final(self).boot_rom == old(self).boot_rom,
            final(self).mbc == old(self).mbc,
    {
        &mut self.io
    }

    pub fn mbc(&self) -> (r: &Mbc)
        ensures
            *r == self.mbc,
    {
        &self.mbc
    }

    pub fn boot_rom(&self) -> (r: &Option<Vec<u8>>)
        ensures
            *r == self.boot_rom,
    {
        &self.boot_rom
    }

    pub fn current_speed(&self) -> (r: u8)
        ensures
            r == self.current_speed,
    {
        self.current_speed
    }

    /// STOP: with a speed switch prepared, starts the switch's delay of 2050 cycles.
    pub fn stop(&mut self)
        ensures
            final(self).switch_delay == if old(self).prepare_speed_switch != 0 {
                2050
            } else {
                old(self).switch_delay
            },
            final(self).regs_eq(&Bus { switch_delay: final(self).switch_delay, ..*old(self) }),
            final(self).parts_eq(old(self)),
    {
        if self.prepare_speed_switch != 0 {
            self.switch_delay = 2050;
        }
    }

    /// One cycle of OAM DMA.
    fn process_dma(&mut self, ctx: &mut InnerContext1)
        requires
            old(self).wf(old(ctx)),
        ensures
            final(self).wf(final(ctx)),
            final(self).dma == dma_next(old(self).dma),
            final(self).regs_eq(&Bus { dma: final(self).dma, ..*old(self) }),
            final(self).parts_eq(old(self)),
            final(ctx).rom == old(ctx).rom,
            final(ctx).ppu == old(ctx).ppu,
            final(ctx).apu == old(ctx).apu,
            final(ctx).inner.flags_eq(&old(ctx).inner),
            final(ctx).inner.running_mode == old(ctx).inner.running_mode,
            final(ctx).inner.vram == old(ctx).inner.vram,
            final(ctx).inner.external_ram == old(ctx).inner.external_ram,
            final(ctx).inner.oam@ == if dma_copies(old(self).dma) {
                old(ctx).inner.oam@.update(
                    old(self).dma.pos as int,
                    old(self).read_value(old(ctx), dma_addr(old(self).dma)),
                )
            } else {
                old(ctx).inner.oam@
            },
    {
        if self.dma.delay > 0 {
            self.dma.delay = self.dma.delay - 1;
            if self.dma.delay == 0 {
                self.dma.enabled = true;
            }
            return ;
        }
        if !self.dma.enabled {
            return ;
        }
        let data = self.read_(ctx, ((self.dma.source as u16) << 8u16) | (self.dma.pos as u16));
        ctx.inner.oam.set(self.dma.pos as usize, data);
        self.dma.pos = self.dma.pos + 1;
        if self.dma.pos == 0xA0 {
            self.dma.enabled = false;
        }
    }

    /// Copies one 16-byte block from the HDMA source to its destination in video RAM.
    fn hdma_block(&mut self, ctx: &mut InnerContext1)
        requires
            old(self).wf(old(ctx)),
        ensures
            *final(self) == *old(self),
            final(ctx).rom == old(ctx).rom,
            final(ctx).ppu == old(ctx).ppu,
            final(ctx).apu == old(ctx).apu,
            final(ctx).inner.flags_eq(&old(ctx).inner),
            final(ctx).inner.running_mode == old(ctx).inner.running_mode,
            final(ctx).inner.oam == old(ctx).inner.oam,
            final(ctx).inner.external_ram == old(ctx).inner.external_ram,
            final(ctx).inner.vram@.len() == old(ctx).inner.vram@.len(),
            forall|k: int|
                0 <= k < 16 && plain_addr(old(self).hdma.source + k) ==> #[trigger] final(ctx).inner.vram@[
                old(self).hdma.dest + old(self).vram_bank * 0x2000 + k] == old(self).read_value(
                    old(ctx),
                    (old(self).hdma.source + k) as u16,
                ),
            forall|j: int|
                0 <= j < old(ctx).inner.vram@.len() && !(old(self).hdma.dest + old(self).vram_bank
                    * 0x2000 <= j < old(self).hdma.dest + old(self).vram_bank * 0x2000 + 16)
                    ==> #[trigger] final(ctx).inner.vram@[j] == old(ctx).inner.vram@[j],
    {
        let src = self.hdma.source;
        let base = self.hdma.dest as usize + (self.vram_bank as usize) * 0x2000;
        let mut i: u16 = 0;
        while i < 16
            invariant
                0 <= i <= 16,
                *self == *old(self),
                self.wf(ctx),
                src == old(self).hdma.source,
                base == old(self).hdma.dest + old(self).vram_bank * 0x2000,
                ctx.rom == old(ctx).rom,
                ctx.ppu == old(ctx).ppu,
                ctx.apu == old(ctx).apu,
                ctx.inner.flags_eq(&old(ctx).inner),
                ctx.inner.running_mode == old(ctx).inner.running_mode,
                ctx.inner.oam == old(ctx).inner.oam,
                ctx.inner.external_ram == old(ctx).inner.external_ram,
                ctx.inner.vram@.len() == old(ctx).inner.vram@.len(),
                forall|k: int|
                    0 <= k < i && plain_addr(src + k) ==> #[trigger] ctx.inner.vram@[base + k]
                        == old(self).read_value(old(ctx), (src + k) as u16),
                forall|j: int|
                    0 <= j < old(ctx).inner.vram@.len() && !(base <= j < base + i) ==> #[trigger] ctx.inner.vram@[j]
                        == old(ctx).inner.vram@[j],
            decreases 16 - i,
        {
            let a: u16 = src + i;
            let dat = self.read_(ctx, a);
            proof {
                if plain_addr(a as int) {
                    lemma_read_plain(*self, *ctx, *old(self), *old(ctx), a);
                }
            }
            ctx.inner.vram.set(base + i as usize, dat);
            i = i + 1;
        }
    }

    /// One cycle of HDMA: on a block, also holds the CPU for 8 cycles (16 in double speed).
    fn process_hdma(&mut self, ctx: &mut InnerContext1)
        requires
            old(self).wf(old(ctx)),
        ensures
            final(self).wf(final(ctx)),
            final(self).hdma == hdma_next(old(self).hdma, old(ctx).ppu.regs.mode == Mode::Hblank),
            final(self).regs_eq(&Bus { hdma: final(self).hdma, ..*old(self) }),
            final(self).parts_eq(old(self)),
            final(ctx).rom == old(ctx).rom,
            final(ctx).ppu == old(ctx).ppu,
            final(ctx).apu == old(ctx).apu,
            final(ctx).inner.model == old(ctx).inner.model,
            final(ctx).inner.vram_lock == old(ctx).inner.vram_lock,
            final(ctx).inner.oam_lock == old(ctx).inner.oam_lock,
            final(ctx).inner.interrupt_enable == old(ctx).inner.interrupt_enable,
            final(ctx).inner.interrupt_flag == old(ctx).inner.interrupt_flag,
            final(ctx).inner.wake == old(ctx).inner.wake,
            final(ctx).inner.running_mode == old(ctx).inner.running_mode,
            final(ctx).inner.oam == old(ctx).inner.oam,
            final(ctx).inner.external_ram == old(ctx).inner.external_ram,
            final(ctx).inner.stall_cpu == if hdma_fires(
                old(self).hdma,
                old(ctx).ppu.regs.mode == Mode::Hblank,
            ) {
                old(ctx).inner.stall_cpu.saturating_add(if old(self).current_speed == 0 { 8 } else { 16 })
            } else {
                old(ctx).inner.stall_cpu
            },
            hdma_fires(old(self).hdma, old(ctx).ppu.regs.mode == Mode::Hblank) ==> forall|k: int|
                0 <= k < 16 && plain_addr(old(self).hdma.source + k) ==> #[trigger] final(ctx).inner.vram@[
                old(self).hdma.dest + old(self).vram_bank * 0x2000 + k] == old(self).read_value(
                    old(ctx),
                    (old(self).hdma.source + k) as u16,
                ),
            forall|j: int|
                0 <= j < old(ctx).inner.vram@.len() && !(hdma_fires(
                    old(self).hdma,
                    old(ctx).ppu.regs.mode == Mode::Hblank,
                ) && old(self).hdma.dest + old(self).vram_bank * 0x2000 <= j < old(self).hdma.dest
                    + old(self).vram_bank * 0x2000 + 16) ==> #[trigger] final(ctx).inner.vram@[j]
                    == old(ctx).inner.vram@[j],
    {
        let cur_hblank = same_mode(ctx.ppu.regs.mode, Mode::Hblank);
        let enter_hblank = !self.hdma.prev_hblank && cur_hblank;
        self.hdma.prev_hblank = cur_hblank;
        if self.hdma.enabled_general_dma || (self.hdma.enabled_hblank_dma && enter_hblank) {
            self.hdma_block(ctx);
            self.hdma.source = if self.hdma.source > 0xffff - 16 {
                self.hdma.source - (0x10000 - 16) as u16
            } else {
                self.hdma.source + 16
            };
            let d = self.hdma.dest + 16;
            self.hdma.dest = if d >= 0x2000 {
                d - 0x2000
            } else {
                d
            };
            if self.hdma.length == 0 {
                self.hdma.length = 0xff;
                self.hdma.enabled_general_dma = false;
                self.hdma.enabled_hblank_dma = false;
            } else {
                self.hdma.length = self.hdma.length - 1;
            }
            ctx.inner.stall_cpu(if self.current_speed == 0 {
                8
            } else {
                16
            });
        }
    }
}

impl Bus {
    /// What one machine cycle of `tick` leaves: the state `n`, `nc` after `o`, `oc`.
    pub open spec fn tick_post(o: &Bus, oc: &InnerContext1, n: &Bus, nc: &InnerContext1) -> bool {
        &&& (n.wf(nc))
        &&& (n.dma == dma_next(o.dma))
        &&& (n.hdma == hdma_next(o.hdma, oc.ppu.regs.mode == Mode::Hblank))
        &&& (n.regs_eq(
                    &Bus {
                        dma: n.dma,
                        hdma: n.hdma,
                        switch_delay: n.switch_delay,
                        current_speed: n.current_speed,
                        prepare_speed_switch: n.prepare_speed_switch,
                        fault: n.fault,
                        ..*o
                    },
                ))
        &&& (n.parts_eq(o))
        &&& (o.switch_delay == 0 ==> n.switch_delay == 0 && n.current_speed
                    == o.current_speed && n.prepare_speed_switch
                    == o.prepare_speed_switch && n.fault == o.fault
                    && nc.inner.wake == oc.inner.wake)
        &&& (o.switch_delay > 0 && o.prepare_speed_switch == 0 ==> n.fault
                    == Some(BusFault::SpeedSwitchNotPrepared) && n.switch_delay
                    == o.switch_delay && n.current_speed == o.current_speed
                    && n.prepare_speed_switch == 0 && nc.inner.wake == oc.inner.wake)
        &&& (o.switch_delay > 0 && o.prepare_speed_switch != 0 ==> n.fault
                    == o.fault && n.switch_delay == o.switch_delay - 1 && (if o.switch_delay == 1 {
                    n.current_speed == o.current_speed ^ 1
                        && n.prepare_speed_switch == 0 && nc.inner.wake
                } else {
                    n.current_speed == o.current_speed && n.prepare_speed_switch
                        == o.prepare_speed_switch && nc.inner.wake == oc.inner.wake
                }))
        &&& (nc.rom == oc.rom)
        &&& (nc.ppu == oc.ppu)
        &&& (nc.apu == oc.apu)
        &&& (nc.inner.model == oc.inner.model)
        &&& (nc.inner.vram_lock == oc.inner.vram_lock)
        &&& (nc.inner.oam_lock == oc.inner.oam_lock)
        &&& (nc.inner.interrupt_enable == oc.inner.interrupt_enable)
        &&& (nc.inner.interrupt_flag == oc.inner.interrupt_flag)
        &&& (nc.inner.running_mode == oc.inner.running_mode)
        &&& (nc.inner.external_ram == oc.inner.external_ram)
        &&& (nc.inner.oam@ == if dma_copies(o.dma) {
                    oc.inner.oam@.update(
                        o.dma.pos as int,
                        o.read_value(oc, dma_addr(o.dma)),
                    )
                } else {
                    oc.inner.oam@
                })
        &&& (nc.inner.stall_cpu == if hdma_fires(
                    o.hdma,
                    oc.ppu.regs.mode == Mode::Hblank,
                ) {
                    oc.inner.stall_cpu.saturating_add(if o.current_speed == 0 { 8 } else { 16 })
                } else {
                    oc.inner.stall_cpu
                })
        &&& (hdma_fires(o.hdma, oc.ppu.regs.mode == Mode::Hblank) ==> forall|k: int|
                    0 <= k < 16 && plain_addr(o.hdma.source + k) ==> #[trigger] nc.inner.vram@[
                    o.hdma.dest + o.vram_bank * 0x2000 + k] == o.read_value(
                        oc,
                        (o.hdma.source + k) as u16,
                    ))
        &&& (forall|j: int|
                    0 <= j < oc.inner.vram@.len() && !(hdma_fires(
                        o.hdma,
                        oc.ppu.regs.mode == Mode::Hblank,
                    ) && o.hdma.dest + o.vram_bank * 0x2000 <= j < o.hdma.dest
                        + o.vram_bank * 0x2000 + 16) ==> #[trigger] nc.inner.vram@[j]
                        == oc.inner.vram@[j])
    }

    /// One machine cycle of the bus: OAM DMA, HDMA, then the speed switch's delay, whose
    /// end toggles the speed, clears the request and wakes the CPU.
    pub fn tick(&mut self, ctx: &mut InnerContext1)
        requires
            old(self).wf(old(ctx)),
        ensures
            final(self).wf(final(ctx)),
            final(self).dma == dma_next(old(self).dma),
            final(self).hdma == hdma_next(old(self).hdma, old(ctx).ppu.regs.mode == Mode::Hblank),
            final(self).regs_eq(
                &Bus {
                    dma: final(self).dma,
                    hdma: final(self).hdma,
                    switch_delay: final(self).switch_delay,
                    current_speed: final(self).current_speed,
                    prepare_speed_switch: final(self).prepare_speed_switch,
                    fault: final(self).fault,
                    ..*old(self)
                },
            ),
            final(self).parts_eq(old(self)),
            old(self).switch_delay == 0 ==> final(self).switch_delay == 0 && final(self).current_speed
                == old(self).current_speed && final(self).prepare_speed_switch
                == old(self).prepare_speed_switch && final(self).fault == old(self).fault
                && final(ctx).inner.wake == old(ctx).inner.wake,
            old(self).switch_delay > 0 && old(self).prepare_speed_switch == 0 ==> final(self).fault
                == Some(BusFault::SpeedSwitchNotPrepared) && final(self).switch_delay
                == old(self).switch_delay && final(self).current_speed == old(self).current_speed
                && final(self).prepare_speed_switch == 0 && final(ctx).inner.wake == old(ctx).inner.wake,
            old(self).switch_delay > 0 && old(self).prepare_speed_switch != 0 ==> final(self).fault
                == old(self).fault && final(self).switch_delay == old(self).switch_delay - 1 && (if old(
                self).switch_delay == 1 {
                final(self).current_speed == old(self).current_speed ^ 1
                    && final(self).prepare_speed_switch == 0 && final(ctx).inner.wake
            } else {
                final(self).current_speed == old(self).current_speed && final(self).prepare_speed_switch
                    == old(self).prepare_speed_switch && final(ctx).inner.wake == old(ctx).inner.wake
            }),
            final(ctx).rom == old(ctx).rom,
            final(ctx).ppu == old(ctx).ppu,
            final(ctx).apu == old(ctx).apu,
            final(ctx).inner.model == old(ctx).inner.model,
            final(ctx).inner.vram_lock == old(ctx).inner.vram_lock,
            final(ctx).inner.oam_lock == old(ctx).inner.oam_lock,
            final(ctx).inner.interrupt_enable == old(ctx).inner.interrupt_enable,
            final(ctx).inner.interrupt_flag == old(ctx).inner.interrupt_flag,
            final(ctx).inner.running_mode == old(ctx).inner.running_mode,
            final(ctx).inner.external_ram == old(ctx).inner.external_ram,
            final(ctx).inner.oam@ == if dma_copies(old(self).dma) {
                old(ctx).inner.oam@.update(
                    old(self).dma.pos as int,
                    old(self).read_value(old(ctx), dma_addr(old(self).dma)),
                )
            } else {
                old(ctx).inner.oam@
            },
            final(ctx).inner.stall_cpu == if hdma_fires(
                old(self).hdma,
                old(ctx).ppu.regs.mode == Mode::Hblank,
            ) {
                old(ctx).inner.stall_cpu.saturating_add(if old(self).current_speed == 0 { 8 } else { 16 })
            } else {
                old(ctx).inner.stall_cpu
            },
            hdma_fires(old(self).hdma, old(ctx).ppu.regs.mode == Mode::Hblank) ==> forall|k: int|
                0 <= k < 16 && plain_addr(old(self).hdma.source + k) ==> #[trigger] final(ctx).inner.vram@[
                old(self).hdma.dest + old(self).vram_bank * 0x2000 + k] == old(self).read_value(
                    old(ctx),
                    (old(self).hdma.source + k) as u16,
                ),
            forall|j: int|
                0 <= j < old(ctx).inner.vram@.len() && !(hdma_fires(
                    old(self).hdma,
                    old(ctx).ppu.regs.mode == Mode::Hblank,
                ) && old(self).hdma.dest + old(self).vram_bank * 0x2000 <= j < old(self).hdma.dest
                    + old(self).vram_bank * 0x2000 + 16) ==> #[trigger] final(ctx).inner.vram@[j]
                    == old(ctx).inner.vram@[j],
    {
        let ghost b0 = *self;
        let ghost c0 = *ctx;
        self.process_dma(ctx);
        let ghost b1 = *self;
        let ghost c1 = *ctx;
        self.process_hdma(ctx);
        proof {
            assert forall|k: int|
                0 <= k < 16 && plain_addr(b0.hdma.source + k) implies #[trigger] b1.read_value(
                &c1,
                (b0.hdma.source + k) as u16,
            ) == b0.read_value(&c0, (b0.hdma.source + k) as u16) by {
                lemma_read_plain(b1, c1, b0, c0, (b0.hdma.source + k) as u16);
            }
        }
        if self.switch_delay > 0 {
            if self.prepare_speed_switch == 0 {
                self.fault = Some(BusFault::SpeedSwitchNotPrepared);
            } else {
                self.switch_delay = self.switch_delay - 1;
                if self.switch_delay == 0 {
                    self.current_speed = self.current_speed ^ 1;
                    self.prepare_speed_switch = 0;
                    ctx.inner.wake();
                }
            }
        }
    }
}

/// A read of a RAM cell (video RAM, work RAM, high RAM, or OAM when neither DMA nor the
/// video unit holds it) gives back what a write just put there.
pub proof fn lemma_bus_write_then_read(b: Bus, c: InnerContext1, n: Bus, nc: InnerContext1, addr: u16, data: u8)
    requires
        b.wf(&c),
        b.write_post(&c, &n, &nc, addr, data),
        (0x8000 <= addr <= 0x9FFF) || (0xC000 <= addr <= 0xFDFF) || (0xFF80 <= addr <= 0xFFFE) || (0xFE00
            <= addr <= 0xFE9F && !b.dma.enabled && !c.inner.oam_lock),
    ensures
        n.read_value(&nc, addr) == data,
{
    lemma_page_offsets(addr);
    if 0xFF00 <= addr {
        lemma_high_page(addr);
    }
    if 0xC000 <= addr <= 0xFDFF {
        lemma_wram_bits(addr);
    }
}

/// Work RAM ($C000-$DFFF) and high RAM ($FF80-$FFFE).
pub open spec fn plain_ram_addr(addr: u16) -> bool {
    (0xC000 <= addr <= 0xDFFF) || (0xFF80 <= addr <= 0xFFFE)
}

/// Each byte of work RAM and high RAM is a cell of its own: a write to one of them leaves
/// every other address of work RAM and high RAM reading as before.
pub proof fn lemma_bus_write_keeps_other_ram(
    b: Bus,
    c: InnerContext1,
    n: Bus,
    nc: InnerContext1,
    addr: u16,
    data: u8,
    other: u16,
)
    requires
        b.wf(&c),
        b.write_post(&c, &n, &nc, addr, data),
        plain_ram_addr(addr),
        plain_ram_addr(other),
        other != addr,
    ensures
        n.read_value(&nc, other) == b.read_value(&c, other),
{
    lemma_page_offsets(addr);
    lemma_page_offsets(other);
    if 0xFF00 <= addr {
        lemma_high_page(addr);
    }
    if 0xFF00 <= other {
        lemma_high_page(other);
    }
    if 0xC000 <= addr <= 0xDFFF {
        lemma_wram_bits(addr);
    }
    if 0xC000 <= other <= 0xDFFF {
        lemma_wram_bits(other);
    }
    if 0xC000 <= addr <= 0xDFFF && 0xC000 <= other <= 0xDFFF {
        lemma_wram_cells_distinct(addr, other, b.ram_bank);
    }
}

} // verus!
