use vstd::prelude::*;
use crate::rom::Rom;
use crate::mbc::{ram_byte, ram_store, read_ram, write_ram, cart_addr};

verus! {

broadcast use crate::bits::group_and_bounds;

/// The MBC1 controller: up to 2 MiB ROM or 32 KiB RAM, selected by a 5-bit bank
/// register and a 2-bit register that `banking_mode` routes to ROM or RAM.
pub struct Mbc1 {
    pub rom_bank: u8,
    pub high_bits: u8,
    pub rom_bank_mask: u8,
    pub ram_bank_mask: u8,
    pub ram_size_mask: u16,
    pub ram_enable: bool,
    pub banking_mode: bool,
}

impl Mbc1 {
    pub open spec fn wf(&self, rom: &Rom) -> bool {
        &&& rom.wf()
        &&& self.rom_bank_mask as int * 0x4000 + 0x4000 <= rom.data@.len()
        &&& self.high_bits <= 3
    }

    pub open spec fn is_initial(&self, rom: &Rom) -> bool {
        &&& self.rom_bank == 1
        &&& self.high_bits == 0
        &&& self.rom_bank_mask == ((rom.rom_size / 0x4000) - 1) as u8
        &&& self.ram_bank_mask == ((rom.ram_size / 0x2000) as u64).saturating_sub(1) as u8
        &&& self.ram_size_mask == rom.ram_size.saturating_sub(1) as u16
        &&& !self.ram_enable
        &&& !self.banking_mode
    }

    pub fn new(rom: &Rom) -> (r: Mbc1)
        requires
            rom.wf(),
        ensures
            r.is_initial(rom),
            r.wf(rom),
    {
        let rom_bank_num = rom.rom_size / 0x4000;
        let ram_bank_num = rom.ram_size / 0x2000;
        Mbc1 {
            rom_bank: 1,
            high_bits: 0,
            rom_bank_mask: rom_bank_num.saturating_sub(1) as u8,
            ram_bank_mask: ram_bank_num.saturating_sub(1) as u8,
            ram_size_mask: rom.ram_size.saturating_sub(1) as u16,
            ram_enable: false,
            banking_mode: false,
        }
    }

    /// The ROM offset that `addr` (below $8000) maps to.
    pub open spec fn rom_index(&self, addr: u16) -> int {
        if addr < 0x4000 {
            let bank: u8 = if !self.banking_mode {
                0
            } else {
                ((self.high_bits << 5u8) & self.rom_bank_mask) as u8
            };
            bank as int * 0x4000 + addr as int
        } else {
            let bank = (((self.high_bits << 5u8) | self.rom_bank) & self.rom_bank_mask) as u8;
            bank as int * 0x4000 + (addr & 0x3FFF) as int
        }
    }

    /// The external RAM offset that `addr` (in $A000..=$BFFF) maps to.
    pub open spec fn ram_index(&self, addr: u16) -> int {
        let bank: u8 = if !self.banking_mode {
            0
        } else {
            (self.high_bits & self.ram_bank_mask) as u8
        };
        bank as int * 0x2000 + (addr & 0x1FFF & self.ram_size_mask) as int
    }

    pub open spec fn read_spec(&self, rom: &Rom, ext: Seq<u8>, addr: u16) -> u8 {
        if addr < 0x8000 {
            rom.data@[self.rom_index(addr)]
        } else if self.ram_enable {
            ram_byte(ext, self.ram_index(addr))
        } else {
            0xFF
        }
    }

    pub fn read(&mut self, rom: &Rom, ext: &Vec<u8>, addr: u16) -> (r: u8)
        requires
            old(self).wf(rom),
            cart_addr(addr),
        ensures
            *final(self) == *old(self),
            r == old(self).read_spec(rom, ext@, addr),
    {
        if addr < 0x4000 {
            let rom_bank: u8 = if !self.banking_mode {
                0
            } else {
                (self.high_bits << 5u8) & self.rom_bank_mask
            };
            rom.data[rom_bank as usize * 0x4000 + addr as usize]
        } else if addr < 0x8000 {
            let rom_bank: u8 = ((self.high_bits << 5u8) | self.rom_bank) & self.rom_bank_mask;
            rom.data[rom_bank as usize * 0x4000 + (addr & 0x3FFF) as usize]
        } else {
            if self.ram_enable {
                let ram_bank: u8 = if !self.banking_mode {
                    0
                } else {
                    self.high_bits & self.ram_bank_mask
                };
                let a = addr & 0x1FFF & self.ram_size_mask;
                read_ram(ext, ram_bank as usize * 0x2000 + a as usize)
            } else {
                0xFF
            }
        }
    }

    /// The registers after a write of `data` to `addr`.
    pub open spec fn write_spec(&self, addr: u16, data: u8) -> Mbc1 {
        if addr < 0x2000 {
            Mbc1 { ram_enable: (data & 0x0F) == 0x0A, ..*self }
        } else if addr < 0x4000 {
            let low: u8 = if (data & 0x1F) == 0 { 1 } else { data & 0x1F };
            Mbc1 { rom_bank: ((self.rom_bank & 0xE0) | low) as u8, ..*self }
        } else if addr < 0x6000 {
            Mbc1 { high_bits: (data & 3) as u8, ..*self }
        } else if addr < 0x8000 {
            Mbc1 { banking_mode: (data & 1) != 0, ..*self }
        } else {
            *self
        }
    }

    /// The external RAM after a write of `data` to `addr`.
    pub open spec fn ram_after_write(&self, ext: Seq<u8>, addr: u16, data: u8) -> Seq<u8> {
        if addr >= 0xA000 && self.ram_enable {
            ram_store(ext, self.ram_index(addr), data)
        } else {
            ext
        }
    }

    pub fn write(&mut self, rom: &Rom, ext: &mut Vec<u8>, addr: u16, data: u8)
        requires
            old(self).wf(rom),
            cart_addr(addr),
        ensures
            *final(self) == old(self).write_spec(addr, data),
            final(self).wf(rom),
            final(ext)@ == old(self).ram_after_write(old(ext)@, addr, data),
    {
        if addr < 0x2000 {
            self.ram_enable = data & 0x0F == 0x0A;
        } else if addr < 0x4000 {
            let low: u8 = if data & 0x1F == 0 { 1 } else { data & 0x1F };
            self.rom_bank = (self.rom_bank & 0xE0) | low;
        } else if addr < 0x6000 {
            self.high_bits = data & 3;
        } else if addr < 0x8000 {
            self.banking_mode = data & 0x01 != 0;
        } else {
            if self.ram_enable {
                let ram_bank: u8 = if !self.banking_mode {
                    0
                } else {
                    self.high_bits & self.ram_bank_mask
                };
                let a = addr & 0x1FFF & self.ram_size_mask;
                write_ram(ext, ram_bank as usize * 0x2000 + a as usize, data);
            }
        }
    }
}

proof fn lemma_mbc1_bits(h: u8, rb: u8, low: u8, b: u8, addr: u16)
    by (bit_vector)
    requires
        h <= 3,
        rb < 32,
        1 <= low < 32,
        0x4000 <= addr < 0x8000,
    ensures
        b & 0x1F == b % 32,
        b & 3 == b % 4,
        ((h << 5u8) | ((rb & 0xE0) | low)) == h * 32 + low,
        ((rb & 0xE0) | low) < 32,
        addr & 0x3FFF == addr - 0x4000,
        (h << 5u8) == h * 32,
{
}

/// Writing u to $4000-$5FFF and b to $2000-$3FFF makes $4000-$7FFF show ROM bank
/// (u mod 4) * 32 + (b mod 32, with 0 counting as 1), cut down to the banks the
/// cartridge has: the two upper bank bits come from u.
pub proof fn lemma_mbc1_rom_bank(m: Mbc1, rom: Rom, ext: Seq<u8>, a1: u16, u: u8, a2: u16, b: u8, addr: u16)
    requires
        m.rom_bank < 32,
        0x4000 <= a1 < 0x6000,
        0x2000 <= a2 < 0x4000,
        0x4000 <= addr < 0x8000,
    ensures
        ({
            let n = m.write_spec(a1, u).write_spec(a2, b);
            let low: u8 = if b % 32 == 0 { 1u8 } else { (b % 32) as u8 };
            let bank: u8 = ((u % 4) * 32 + low) as u8;
            &&& n.read_spec(&rom, ext, addr) == rom.data@[((bank & m.rom_bank_mask) as int) * 0x4000 + (addr - 0x4000)]
            &&& n.rom_bank < 32
        }),
{
    let low: u8 = if b % 32 == 0 { 1u8 } else { (b % 32) as u8 };
    lemma_mbc1_bits(u % 4, m.rom_bank, low, b, addr);
    lemma_mbc1_bits(u % 4, m.rom_bank, low, u, addr);
}

/// In the second banking mode (a write with bit 0 set to $6000-$7FFF), the two bits
/// written to $4000-$5FFF also pick the ROM bank at $0000-$3FFF, (u mod 4) * 32 cut down
/// to the cartridge's banks, and the RAM bank, u mod 4 cut down to the RAM's banks; in
/// the first mode both are bank 0.
pub proof fn lemma_mbc1_mode(m: Mbc1, rom: Rom, ext: Seq<u8>, a1: u16, u: u8, a3: u16, mode: u8, addr: u16, raddr: u16)
    requires
        0x4000 <= a1 < 0x6000,
        0x6000 <= a3 < 0x8000,
        addr < 0x4000,
        0xA000 <= raddr < 0xC000,
    ensures
        ({
            let n = m.write_spec(a1, u).write_spec(a3, mode);
            let on = mode % 2 == 1;
            let rom_bank: u8 = if on { (((u % 4) * 32) as u8) & m.rom_bank_mask } else { 0 };
            let ram_bank: u8 = if on { ((u % 4) as u8) & m.ram_bank_mask } else { 0 };
            &&& n.read_spec(&rom, ext, addr) == rom.data@[rom_bank as int * 0x4000 + addr]
            &&& n.ram_enable ==> n.read_spec(&rom, ext, raddr) == ram_byte(
                ext,
                ram_bank as int * 0x2000 + (raddr & 0x1FFF & m.ram_size_mask) as int,
            )
        }),
{
    lemma_mbc1_bits(u % 4, 0, 1, u, 0x4000);
    lemma_mbc1_bits(u % 4, 0, 1, mode, 0x4000);
    assert((mode & 1 != 0) == (mode % 2 == 1)) by (bit_vector);
}

} // verus!
