use vstd::prelude::*;
use crate::rom::Rom;
use crate::mbc::{ram_byte, ram_store, read_ram, write_ram, cart_addr};

verus! {

broadcast use crate::bits::group_and_bounds;

/// The MBC5 controller: up to 8 MiB ROM selected by a 9-bit bank register (bank 0 may
/// be mapped at $4000) and up to 128 KiB RAM.
pub struct Mbc5 {
    pub rom_bank: u16,
    pub rom_bank_mask: u16,
    pub ram_bank: u8,
    pub ram_bank_mask: u8,
    pub ram_enable: bool,
}

impl Mbc5 {
    pub open spec fn wf(&self, rom: &Rom) -> bool {
        &&& rom.wf()
        &&& self.rom_bank_mask as int * 0x4000 + 0x4000 <= rom.data@.len()
    }

    pub open spec fn is_initial(&self, rom: &Rom) -> bool {
        &&& self.rom_bank == 1
        &&& self.rom_bank_mask == ((rom.rom_size / 0x4000) - 1) as u16
        &&& self.ram_bank == 0
        &&& self.ram_bank_mask == ((rom.ram_size / 0x2000) as u64).saturating_sub(1) as u8
        &&& !self.ram_enable
    }

    pub fn new(rom: &Rom) -> (r: Mbc5)
        requires
            rom.wf(),
        ensures
            r.is_initial(rom),
            r.wf(rom),
    {
        let rom_bank_num = rom.rom_size / 0x4000;
        let ram_bank_num = rom.ram_size / 0x2000;
        Mbc5 {
            rom_bank: 1,
            rom_bank_mask: rom_bank_num.saturating_sub(1) as u16,
            ram_bank: 0,
            ram_bank_mask: ram_bank_num.saturating_sub(1) as u8,
            ram_enable: false,
        }
    }

    pub open spec fn ram_index(&self, addr: u16) -> int {
        ((self.ram_bank & self.ram_bank_mask) as int) * 0x2000 + (addr & 0x1FFF) as int
    }

    pub open spec fn read_spec(&self, rom: &Rom, ext: Seq<u8>, addr: u16) -> u8 {
        if addr < 0x4000 {
            rom.data@[addr as int]
        } else if addr < 0x8000 {
            rom.data@[((self.rom_bank & self.rom_bank_mask) as int) * 0x4000 + (addr & 0x3FFF) as int]
        } else if self.ram_enable {
            ram_byte(ext, self.ram_index(addr))
        } else {
            0xFF
        }
    }

    pub fn read(&mut self, rom: &Rom, ext: &Vec<u8>, addr: u16) -> (r: u8)
        requires
            old(self).wf(rom),
            cart_addr(addr),
        ensures
            *final(self) == *old(self),
            r == old(self).read_spec(rom, ext@, addr),
    {
        if addr < 0x4000 {
            rom.data[addr as usize]
        } else if addr < 0x8000 {
            let offset = (self.rom_bank & self.rom_bank_mask) as usize * 0x4000;
            rom.data[offset + (addr & 0x3FFF) as usize]
        } else if self.ram_enable {
            let offset = (self.ram_bank & self.ram_bank_mask) as usize * 0x2000;
            read_ram(ext, offset + (addr & 0x1FFF) as usize)
        } else {
            0xFF
        }
    }

    /// The registers after a write: $2000..=$2FFF set the low eight bank bits,
    /// $3000..=$3FFF bank bit 8, $4000..=$5FFF the RAM bank (three bits on rumble
    /// cartridges, four otherwise).
    pub open spec fn write_spec(&self, rom: &Rom, addr: u16, data: u8) -> Mbc5 {
        if addr < 0x2000 {
            Mbc5 { ram_enable: (data & 0x0F) == 0x0A, ..*self }
        } else if addr < 0x3000 {
            Mbc5 { rom_bank: ((self.rom_bank & 0xFF00) | data as u16) as u16, ..*self }
        } else if addr < 0x4000 {
            Mbc5 { rom_bank: ((self.rom_bank & 0xFEFF) | (((data & 1) as u16) << 8u16)) as u16, ..*self }
        } else if addr < 0x6000 {
            Mbc5 {
                ram_bank: if rom.cartridge_type.has_rumble {
                    (data & 0x07) as u8
                } else {
                    (data & 0x0F) as u8
                },
                ..*self
            }
        } else {
            *self
        }
    }

    pub open spec fn ram_after_write(&self, ext: Seq<u8>, addr: u16, data: u8) -> Seq<u8> {
        if addr >= 0xA000 && self.ram_enable {
            ram_store(ext, self.ram_index(addr), data)
        } else {
            ext
        }
    }

    pub fn write(&mut self, rom: &Rom, ext: &mut Vec<u8>, addr: u16, data: u8)
        requires
            old(self).wf(rom),
            cart_addr(addr),
        ensures
            *final(self) == old(self).write_spec(rom, addr, data),
            final(self).wf(rom),
            final(ext)@ == old(self).ram_after_write(old(ext)@, addr, data),
    {
        if addr < 0x2000 {
            self.ram_enable = data & 0x0F == 0x0A;
        } else if addr < 0x3000 {
            self.rom_bank = (self.rom_bank & 0xFF00) | data as u16;
        } else if addr < 0x4000 {
            self.rom_bank = (self.rom_bank & 0xFEFF) | (((data & 1) as u16) << 8u16);
        } else if addr < 0x6000 {
            if rom.cartridge_type.has_rumble {
                self.ram_bank = data & 0x07;
            } else {
                self.ram_bank = data & 0x0F;
            }
        } else if addr >= 0xA000 {
            if self.ram_enable {
                let offset = (self.ram_bank & self.ram_bank_mask) as usize * 0x2000;
                write_ram(ext, offset + (addr & 0x1FFF) as usize, data);
            }
        }
    }
}

proof fn lemma_mbc5_bits(rb: u16, lo: u8, hi: u8, addr: u16)
    by (bit_vector)
    requires
        rb < 512,
        0x4000 <= addr < 0x8000,
    ensures
        ((((rb & 0xFF00) | lo as u16) & 0xFEFF) | (((hi & 1) as u16) << 8u16)) == (hi % 2) as u16 * 256 + lo as u16,
        addr & 0x3FFF == addr - 0x4000,
{
}

/// Writing lo to $2000-$2FFF and then hi to $3000-$3FFF makes $4000-$7FFF show ROM bank
/// (hi mod 2) * 256 + lo, cut down to the banks the cartridge has; bank 0 can be chosen.
pub proof fn lemma_mbc5_rom_bank(m: Mbc5, rom: Rom, ext: Seq<u8>, a1: u16, lo: u8, a2: u16, hi: u8, addr: u16)
    requires
        m.rom_bank < 512,
        0x2000 <= a1 < 0x3000,
        0x3000 <= a2 < 0x4000,
        0x4000 <= addr < 0x8000,
    ensures
        ({
            let n = m.write_spec(&rom, a1, lo).write_spec(&rom, a2, hi);
            let bank = ((hi % 2) * 256 + lo) as u16;
            n.read_spec(&rom, ext, addr) == rom.data@[((bank & m.rom_bank_mask) as int) * 0x4000 + (addr - 0x4000)]
        }),
{
    lemma_mbc5_bits(m.rom_bank, lo, hi, addr);
}

} // verus!
