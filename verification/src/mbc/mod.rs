pub mod mbc1;
pub mod mbc2;
pub mod mbc3;
pub mod mbc5;

use vstd::prelude::*;
use crate::rom::{self, Rom};
use crate::mbc::mbc1::Mbc1;
use crate::mbc::mbc2::Mbc2;
use crate::mbc::mbc3::{Mbc3, ClockTime};
use crate::mbc::mbc5::Mbc5;

verus! {

broadcast use crate::bits::group_and_bounds;

/// The byte of external RAM at `i`; reads past the end of the RAM give $FF.
pub open spec fn ram_byte(ext: Seq<u8>, i: int) -> u8 {
    if 0 <= i < ext.len() {
        ext[i]
    } else {
        0xFF
    }
}

/// External RAM after storing `d` at `i`; stores past the end are dropped.
pub open spec fn ram_store(ext: Seq<u8>, i: int, d: u8) -> Seq<u8> {
    if 0 <= i < ext.len() {
        ext.update(i, d)
    } else {
        ext
    }
}

pub fn read_ram(ext: &Vec<u8>, i: usize) -> (r: u8)
    ensures
        r == ram_byte(ext@, i as int),
{
    if i < ext.len() {
        ext[i]
    } else {
        0xFF
    }
}

pub fn write_ram(ext: &mut Vec<u8>, i: usize, d: u8)
    ensures
        final(ext)@ == ram_store(old(ext)@, i as int, d),
{
    if i < ext.len() {
        ext.set(i, d);
    }
}

/// Addresses that the cartridge answers: ROM and external RAM.
pub open spec fn cart_addr(addr: u16) -> bool {
    addr < 0x8000 || (0xA000 <= addr < 0xC000)
}

/// The controller of a cartridge that holds only a 32 KiB ROM (and possibly plain RAM).
pub struct NullMbc {}

impl NullMbc {
    pub fn new(rom: &Rom) -> (r: NullMbc)
        requires
            rom.rom_size == 0x8000,
        ensures
            r == (NullMbc {  }),
    {
        NullMbc {  }
    }

    /// ROM is read directly; RAM at $A000 is read from offset 0.
    pub fn read(&mut self, rom: &Rom, ext: &Vec<u8>, addr: u16) -> (r: u8)
        requires
            rom.wf(),
            cart_addr(addr),
        ensures
            *final(self) == *old(self),
            addr < 0x8000 ==> r == rom.data@[addr as int],
            addr >= 0xA000 ==> r == ram_byte(ext@, addr - 0xA000),
    {
        if addr < 0x8000 {
            rom.data[addr as usize]
        } else {
            read_ram(ext, (addr - 0xA000) as usize)
        }
    }

    /// Only the RAM can be written.
    pub fn write(&mut self, ext: &mut Vec<u8>, addr: u16, data: u8)
        ensures
            *final(self) == *old(self),
            final(ext)@ == if 0xA000 <= addr < 0xC000 {
                ram_store(old(ext)@, addr - 0xA000, data)
            } else {
                old(ext)@
            },
    {
        if 0xA000 <= addr && addr < 0xC000 {
            write_ram(ext, (addr - 0xA000) as usize, data);
        }
    }

    /// This controller keeps no RAM of its own.
    pub fn backup_ram(&self) -> (r: Option<&[u8]>)
        ensures
            r is None,
    {
        None
    }
}

/// Reasons for which a cartridge's controller cannot be set up.
#[derive(Clone, Copy, PartialEq, Eq, Structural, Debug)]
pub enum MbcError {
    /// A cartridge without controller must hold exactly 32 KiB of ROM.
    RomOnlySize,
    /// RAM inside the controller was given for a controller that has none.
    UnexpectedInternalRam,
    /// The MBC1 cannot bank 1 MiB of ROM together with 32 KiB of RAM.
    Mbc1RomAndRamTooLarge,
    /// The MBC2's RAM holds 256 bytes.
    InvalidInternalRamSize,
    /// The MBC3 needs RAM.
    Mbc3WithoutRam,
    /// The controller is not emulated.
    Unsupported(rom::Mbc),
}

/// The cartridge's memory bank controller.
pub enum Mbc {
    NullMbc(NullMbc),
    Mbc1(Mbc1),
    Mbc2(Mbc2),
    Mbc3(Mbc3),
    Mbc5(Mbc5),
}

impl Mbc {
    pub open spec fn wf(&self, rom: &Rom) -> bool {
        &&& rom.wf()
        &&& match self {
            Mbc::NullMbc(_) => true,
            Mbc::Mbc1(m) => m.wf(rom),
            Mbc::Mbc2(m) => m.wf(rom),
            Mbc::Mbc3(m) => m.wf(rom),
            Mbc::Mbc5(m) => m.wf(rom),
        }
    }

    /// The value a read of `addr` gives.
    pub open spec fn read_spec(&self, rom: &Rom, ext: Seq<u8>, addr: u16) -> u8 {
        match self {
            Mbc::NullMbc(_) => if addr < 0x8000 {
                rom.data@[addr as int]
            } else {
                ram_byte(ext, addr - 0xA000)
            },
            Mbc::Mbc1(m) => m.read_spec(rom, ext, addr),
            Mbc::Mbc2(m) => m.read_spec(rom, addr),
            Mbc::Mbc3(m) => m.read_spec(rom, ext, addr),
            Mbc::Mbc5(m) => m.read_spec(rom, ext, addr),
        }
    }

    /// What a write of `data` to `addr` leaves: controller `new` and external RAM `new_ext`.
    pub open spec fn write_post(
        &self,
        rom: &Rom,
        new: Mbc,
        ext: Seq<u8>,
        new_ext: Seq<u8>,
        addr: u16,
        data: u8,
    ) -> bool {
        match *self {
            Mbc::NullMbc(m) => new == *self && new_ext == (if 0xA000 <= addr < 0xC000 {
                ram_store(ext, addr - 0xA000, data)
            } else {
                ext
            }),
            Mbc::Mbc1(m) => new is Mbc1 && new->Mbc1_0 == m.write_spec(addr, data) && new_ext
                == m.ram_after_write(ext, addr, data),
            Mbc::Mbc2(m) => new is Mbc2 && new->Mbc2_0.rom_bank == m.rom_bank_after_write(addr, data)
                && new->Mbc2_0.rom_bank_mask == m.rom_bank_mask && new->Mbc2_0.ram_enable
                == m.ram_enable_after_write(addr, data) && new->Mbc2_0.ram@ == m.ram_after_write(
                addr,
                data,
            ) && new_ext == ext,
            Mbc::Mbc3(m) => new is Mbc3 && m.write_post(new->Mbc3_0, addr, data) && new_ext
                == m.ram_after_write(ext, addr, data),
            Mbc::Mbc5(m) => new is Mbc5 && new->Mbc5_0 == m.write_spec(rom, addr, data) && new_ext
                == m.ram_after_write(ext, addr, data),
        }
    }

    /// The RAM window maps `addr` to a RAM cell that exists.
    pub open spec fn ram_mapped(&self, ext_len: nat, addr: u16) -> bool {
        match *self {
            Mbc::NullMbc(_) => (addr - 0xA000 < ext_len),
            Mbc::Mbc1(m) => m.ram_enable && (m.ram_index(addr) < ext_len),
            Mbc::Mbc2(m) => m.ram_enable,
            Mbc::Mbc3(m) => m.ram_and_timer_enable && m.ram_bank_or_timer is RamBank && ext_len > ((
            m.ram_bank_or_timer->RamBank_0 & m.ram_bank_mask) as int) * 0x2000 + (addr & 0x1FFF) as int,
            Mbc::Mbc5(m) => m.ram_enable && (m.ram_index(addr) < ext_len),
        }
    }

    pub fn read(&mut self, rom: &Rom, ext: &Vec<u8>, addr: u16) -> (r: u8)
        requires
            old(self).wf(rom),
            cart_addr(addr),
        ensures
            *final(self) == *old(self),
            r == old(self).read_spec(rom, ext@, addr),
    {
        match self {
            Mbc::NullMbc(m) => m.read(rom, ext, addr),
            Mbc::Mbc1(m) => m.read(rom, ext, addr),
            Mbc::Mbc2(m) => m.read(rom, addr),
            Mbc::Mbc3(m) => m.read(rom, ext, addr),
            Mbc::Mbc5(m) => m.read(rom, ext, addr),
        }
    }

    /// Writes a controller register or the cartridge RAM. The MBC3's clock latch reads
    /// the current time.
    pub fn write(&mut self, rom: &Rom, ext: &mut Vec<u8>, addr: u16, data: u8)
        requires
            old(self).wf(rom),
            cart_addr(addr),
        ensures
            final(self).wf(rom),
            old(self).write_post(rom, *final(self), old(ext)@, final(ext)@, addr, data),
            final(ext)@.len() == old(ext)@.len(),
    {
        match self {
            Mbc::NullMbc(m) => m.write(ext, addr, data),
            Mbc::Mbc1(m) => m.write(rom, ext, addr, data),
            Mbc::Mbc2(m) => m.write(rom, addr, data),
            Mbc::Mbc3(m) => m.write(rom, ext, addr, data),
            Mbc::Mbc5(m) => m.write(rom, ext, addr, data),
        }
    }

    /// RAM kept inside the controller chip (only the MBC2 has it).
    pub fn internal_ram(&self) -> (r: Option<&[u8]>)
        ensures
            match self {
                Mbc::Mbc2(m) => r is Some && r->Some_0@ == m.ram@,
                _ => r is None,
            },
    {
        match self {
            Mbc::Mbc2(m) => Some(m.ram.as_slice()),
            _ => None,
        }
    }

    /// The controller keeps backup RAM of its own only for the MBC2.
    pub fn backup_ram(&self) -> (r: Option<&[u8]>)
        ensures
            match self {
                Mbc::Mbc2(m) => r is Some && r->Some_0@ == m.ram@,
                _ => r is None,
            },
    {
        self.internal_ram()
    }
}

/// A byte written to cartridge RAM reads back unchanged (the MBC2 keeps its low four
/// bits), as long as the RAM window maps the address to RAM that exists.
pub proof fn lemma_ram_write_then_read(
    m: Mbc,
    rom: &Rom,
    ext: Seq<u8>,
    new: Mbc,
    new_ext: Seq<u8>,
    addr: u16,
    data: u8,
)
    requires
        m.wf(rom),
        0xA000 <= addr < 0xC000,
        m.ram_mapped(ext.len(), addr),
        m.write_post(rom, new, ext, new_ext, addr, data),
    ensures
        new.read_spec(rom, new_ext, addr) == if m is Mbc2 {
            data & 0xF
        } else {
            data
        },
{
    match m {
        Mbc::Mbc2(m2) => {
            let a = (addr & 0x1FF) as int;
            let old_byte = m2.ram@[a / 2];
            assert(((old_byte & 0xF0) | (data & 0xF)) & 0xF == data & 0xF
                && (((old_byte & 0x0F) | ((data & 0xF) << 4u8)) >> 4u8) == data & 0xF)
                by (bit_vector);
        },
        _ => {},
    }
}

/// Why no controller can be made for `rom`, given the length of the RAM handed in for
/// the controller chip, if any.
pub open spec fn mbc_error_of(rom: &Rom, internal_ram: Option<nat>) -> Option<MbcError> {
    match rom.cartridge_type.mbc {
        None => if rom.rom_size != 0x8000 {
            Some(MbcError::RomOnlySize)
        } else {
            None
        },
        Some(rom::Mbc::Mbc1) => if internal_ram is Some {
            Some(MbcError::UnexpectedInternalRam)
        } else if rom.rom_size >= 0x100000 && rom.ram_size >= 0x8000 {
            Some(MbcError::Mbc1RomAndRamTooLarge)
        } else {
            None
        },
        Some(rom::Mbc::Mbc2) => if internal_ram is Some && internal_ram->Some_0 != 256 {
            Some(MbcError::InvalidInternalRamSize)
        } else {
            None
        },
        Some(rom::Mbc::Mbc3) => if internal_ram is Some {
            Some(MbcError::UnexpectedInternalRam)
        } else if rom.ram_size == 0 {
            Some(MbcError::Mbc3WithoutRam)
        } else {
            None
        },
        Some(rom::Mbc::Mbc5) => if internal_ram is Some {
            Some(MbcError::UnexpectedInternalRam)
        } else {
            None
        },
        Some(m) => Some(MbcError::Unsupported(m)),
    }
}

/// The controller kind that `create_mbc` makes for the cartridge type.
pub open spec fn mbc_kind_matches(m: Mbc, kind: Option<rom::Mbc>) -> bool {
    match m {
        Mbc::NullMbc(_) => kind is None,
        Mbc::Mbc1(_) => kind == Some(rom::Mbc::Mbc1),
        Mbc::Mbc2(_) => kind == Some(rom::Mbc::Mbc2),
        Mbc::Mbc3(_) => kind == Some(rom::Mbc::Mbc3),
        Mbc::Mbc5(_) => kind == Some(rom::Mbc::Mbc5),
    }
}

pub open spec fn opt_len(v: Option<Vec<u8>>) -> Option<nat> {
    match v {
        Some(r) => Some(r@.len()),
        None => None,
    }
}

/// Makes the controller named by the cartridge type, in its power-on state. The MBC2
/// takes its RAM from `internal_ram` when given, else starts with zeroed RAM.
pub fn create_mbc(rom: &Rom, internal_ram: Option<Vec<u8>>) -> (r: Result<Mbc, MbcError>)
    requires
        rom.wf(),
    ensures
        match mbc_error_of(rom, opt_len(internal_ram)) {
            Some(e) => r == Err::<Mbc, MbcError>(e),
            None => r is Ok && r->Ok_0.wf(rom) && mbc_kind_matches(r->Ok_0, rom.cartridge_type.mbc)
                && (r->Ok_0 is Mbc1 ==> r->Ok_0->Mbc1_0.is_initial(rom))
                && (r->Ok_0 is Mbc2 ==> r->Ok_0->Mbc2_0.is_initial(rom, internal_ram))
                && (r->Ok_0 is Mbc3 ==> r->Ok_0->Mbc3_0.is_initial(rom))
                && (r->Ok_0 is Mbc5 ==> r->Ok_0->Mbc5_0.is_initial(rom)),
        },
{
    match rom.cartridge_type.mbc {
        None => {
            if rom.rom_size != 0x8000 {
                return Err(MbcError::RomOnlySize);
            }
            Ok(Mbc::NullMbc(NullMbc::new(rom)))
        },
        Some(rom::Mbc::Mbc1) => {
            if internal_ram.is_some() {
                return Err(MbcError::UnexpectedInternalRam);
            }
            if rom.rom_size >= 0x100000 && rom.ram_size >= 0x8000 {
                return Err(MbcError::Mbc1RomAndRamTooLarge);
            }
            Ok(Mbc::Mbc1(Mbc1::new(rom)))
        },
        Some(rom::Mbc::Mbc2) => {
            match &internal_ram {
                Some(ram) => {
                    if ram.len() != 256 {
                        return Err(MbcError::InvalidInternalRamSize);
                    }
                },
                None => {},
            }
            Ok(Mbc::Mbc2(Mbc2::new(rom, internal_ram)))
        },
        Some(rom::Mbc::Mbc3) => {
            if internal_ram.is_some() {
                return Err(MbcError::UnexpectedInternalRam);
            }
            if rom.ram_size == 0 {
                return Err(MbcError::Mbc3WithoutRam);
            }
            Ok(Mbc::Mbc3(Mbc3::new(rom)))
        },
        Some(rom::Mbc::Mbc5) => {
            if internal_ram.is_some() {
                return Err(MbcError::UnexpectedInternalRam);
            }
            Ok(Mbc::Mbc5(Mbc5::new(rom)))
        },
        Some(m) => Err(MbcError::Unsupported(m)),
    }
}

} // verus!
