use vstd::prelude::*;
use crate::rom::Rom;
use crate::mbc::cart_addr;

verus! {

broadcast use crate::bits::group_and_bounds;

/// The MBC2 controller: up to 256 KiB ROM and 512 four-bit RAM cells inside the chip.
/// Two cells share one byte of `ram`: even addresses the low nibble, odd the high.
pub struct Mbc2 {
    pub rom_bank: u8,
    pub rom_bank_mask: u8,
    pub ram: Vec<u8>,
    pub ram_enable: bool,
}

impl Mbc2 {
    pub open spec fn wf(&self, rom: &Rom) -> bool {
        &&& rom.wf()
        &&& self.rom_bank_mask as int * 0x4000 + 0x4000 <= rom.data@.len()
        &&& self.ram@.len() == 256
    }

    pub open spec fn is_initial(&self, rom: &Rom, internal_ram: Option<Vec<u8>>) -> bool {
        &&& self.rom_bank == 1
        &&& self.rom_bank_mask == ((rom.rom_size / 0x4000) - 1) as u8
        &&& !self.ram_enable
        &&& match internal_ram {
            Some(r) => self.ram@ == r@,
            None => self.ram@ == Seq::new(256, |i: int| 0u8),
        }
    }

    pub fn new(rom: &Rom, internal_ram: Option<Vec<u8>>) -> (r: Mbc2)
        requires
            rom.wf(),
            internal_ram is Some ==> internal_ram->Some_0@.len() == 256,
        ensures
            r.is_initial(rom, internal_ram),
            r.wf(rom),
    {
        let rom_bank_num = rom.rom_size / 0x4000;
        let ram = match internal_ram {
            Some(r) => r,
            None => vec![0u8; 0x100],
        };
        proof {
            if internal_ram is None {
                assert(ram@ =~= Seq::new(256, |i: int| 0u8));
            }
        }
        Mbc2 {
            rom_bank: 1,
            rom_bank_mask: rom_bank_num.saturating_sub(1) as u8,
            ram,
            ram_enable: false,
        }
    }

    /// The four-bit RAM cell that `addr` selects (its address modulo 512).
    pub open spec fn cell(&self, addr: u16) -> u8 {
        let a = (addr & 0x1FF) as int;
        let d = self.ram@[a / 2];
        if a % 2 == 0 {
            d & 0xF
        } else {
            d >> 4u8
        }
    }

    pub open spec fn read_spec(&self, rom: &Rom, addr: u16) -> u8 {
        if addr < 0x4000 {
            rom.data@[addr as int]
        } else if addr < 0x8000 {
            rom.data@[((self.rom_bank & self.rom_bank_mask) as int) * 0x4000 + (addr & 0x3FFF) as int]
        } else if self.ram_enable {
            self.cell(addr)
        } else {
            0xFF
        }
    }

    pub fn read(&mut self, rom: &Rom, addr: u16) -> (r: u8)
        requires
            old(self).wf(rom),
            cart_addr(addr),
        ensures
            *final(self) == *old(self),
            r == old(self).read_spec(rom, addr),
    {
        if addr < 0x4000 {
            rom.data[addr as usize]
        } else if addr < 0x8000 {
            let offset = (self.rom_bank & self.rom_bank_mask) as usize * 0x4000;
            rom.data[offset + (addr & 0x3FFF) as usize]
        } else {
            if self.ram_enable {
                let a = (addr & 0x1FF) as usize;
                proof {
                    assert(a < 512);
                }
                let data = self.ram[a / 2];
                if a % 2 == 0 {
                    data & 0xF
                } else {
                    data >> 4u8
                }
            } else {
                0xFF
            }
        }
    }

    /// The ROM bank register after a write of `data` to `addr`: in $0000..=$3FFF with
    /// address bit 8 set, the low four bits of `data`, where 0 selects bank 1.
    pub open spec fn rom_bank_after_write(&self, addr: u16, data: u8) -> u8 {
        if addr < 0x4000 && (addr & 0x100) != 0 {
            if (data & 0xF) == 0 { 1 } else { (data & 0xF) as u8 }
        } else {
            self.rom_bank
        }
    }

    /// RAM enable after a write: in $0000..=$3FFF with address bit 8 clear, enabled by $0A.
    pub open spec fn ram_enable_after_write(&self, addr: u16, data: u8) -> bool {
        if addr < 0x4000 && (addr & 0x100) == 0 {
            data == 0x0A
        } else {
            self.ram_enable
        }
    }

    /// RAM after a write: with RAM enabled, the low four bits of `data` go to the cell
    /// that `addr` selects.
    pub open spec fn ram_after_write(&self, addr: u16, data: u8) -> Seq<u8> {
        if addr >= 0xA000 && self.ram_enable {
            let a = (addr & 0x1FF) as int;
            let old_byte = self.ram@[a / 2];
            let new_byte: u8 = if a % 2 == 0 {
                ((old_byte & 0xF0) | (data & 0xF)) as u8
            } else {
                ((old_byte & 0x0F) | ((data & 0xF) << 4u8)) as u8
            };
            self.ram@.update(a / 2, new_byte)
        } else {
            self.ram@
        }
    }

    pub fn write(&mut self, rom: &Rom, addr: u16, data: u8)
        requires
            old(self).wf(rom),
            cart_addr(addr),
        ensures
            final(self).wf(rom),
            final(self).rom_bank == old(self).rom_bank_after_write(addr, data),
            final(self).rom_bank_mask == old(self).rom_bank_mask,
            final(self).ram_enable == old(self).ram_enable_after_write(addr, data),
            final(self).ram@ == old(self).ram_after_write(addr, data),
    {
        if addr < 0x4000 {
            if addr & 0x100 != 0 {
                self.rom_bank = if data & 0xF == 0 { 1 } else { data & 0xF };
            } else {
                self.ram_enable = data == 0x0A;
            }
        } else if addr >= 0xA000 {
            if self.ram_enable {
                let a = (addr & 0x1FF) as usize;
                proof {
                    assert(a < 512);
                }
                let old_byte = self.ram[a / 2];
                let new_byte: u8 = if a % 2 == 0 {
                    (old_byte & 0xF0) | (data & 0xF)
                } else {
                    (old_byte & 0x0F) | ((data & 0xF) << 4u8)
                };
                self.ram.set(a / 2, new_byte);
            }
        }
    }
}

} // verus!
