use vstd::prelude::*;
use crate::rom::Rom;
use crate::mbc::{ram_byte, ram_store, read_ram, write_ram, cart_addr};

verus! {

broadcast use crate::bits::group_and_bounds;

/// A wall-clock reading, as the MBC3's real-time clock latches it.
#[derive(Clone, Copy, PartialEq, Eq, Structural, Debug)]
pub struct ClockTime {
    pub second: u32,
    pub minute: u32,
    pub hour: u32,
    /// Days since 0001-01-01 of the proleptic Gregorian calendar, that day being day 1.
    pub days_from_ce: i32,
}

#[verifier::external_type_specification]
#[verifier::external_body]
pub struct ExSystemTime(std::time::SystemTime);

/// `std::time::SystemTime::now`: the system clock. What it reads depends on the machine,
/// so nothing is claimed of it.
#[verifier::external_body]
fn system_now() -> std::time::SystemTime {
    std::time::SystemTime::now()
}

/// `SystemTime::duration_since(UNIX_EPOCH)`: the time since 1970; `None` where std
/// reports an error (a clock before 1970). It depends on the opaque time given, so
/// nothing more is claimed.
#[verifier::external_body]
fn duration_since_epoch(t: std::time::SystemTime) -> Option<std::time::Duration> {
    match t.duration_since(std::time::UNIX_EPOCH) {
        Ok(d) => Some(d),
        Err(_) => None,
    }
}

/// `Duration::as_secs`: the whole seconds of a duration. The duration is opaque here, so
/// nothing is claimed of the number.
#[verifier::external_body]
fn whole_seconds(d: std::time::Duration) -> u64 {
    d.as_secs()
}

/// `chrono::DateTime::from_timestamp(secs, 0)` taken apart into second, minute, hour and
/// `num_days_from_ce`. Claimed from chrono's source: when the timestamp is in range the
/// day is `secs / 86400` days after the epoch day 719163 and the time of day is
/// `secs % 86400` seconds; out of range it gives `None`, which is not stated further.
#[verifier::external_body]
fn clock_of_timestamp(secs: i64) -> (r: Option<ClockTime>)
    requires
        secs >= 0,
    ensures
        r matches Some(t) ==> {
            &&& t.second == secs % 60
            &&& t.minute == (secs / 60) % 60
            &&& t.hour == (secs / 3600) % 24
            &&& t.days_from_ce == secs / 86400 + 719163
        },
{
    match chrono::DateTime::from_timestamp(secs, 0) {
        Some(dt) => Some(
            ClockTime {
                second: chrono::Timelike::second(&dt),
                minute: chrono::Timelike::minute(&dt),
                hour: chrono::Timelike::hour(&dt),
                days_from_ce: chrono::Datelike::num_days_from_ce(&dt),
            },
        ),
        None => None,
    }
}

/// The current UTC time as the MBC3 latches it; a system clock before 1970, or beyond
/// what a date can hold, reads as the epoch, 1970-01-01 00:00:00 (day 719163).
pub(crate) fn current_time() -> (t: ClockTime)
    ensures
        t.second < 60,
        t.minute < 60,
        t.hour < 24,
{
    let now = system_now();
    let secs = match duration_since_epoch(now) {
        Some(d) => whole_seconds(d),
        None => {
            return ClockTime { second: 0, minute: 0, hour: 0, days_from_ce: 719163 };
        },
    };
    if secs > 0x7fff_ffff_ffff_ffff {
        return ClockTime { second: 0, minute: 0, hour: 0, days_from_ce: 719163 };
    }
    match clock_of_timestamp(secs as i64) {
        Some(t) => t,
        None => ClockTime { second: 0, minute: 0, hour: 0, days_from_ce: 719163 },
    }
}

/// What the $A000..=$BFFF window shows.
#[derive(Clone, Copy, PartialEq, Eq, Structural, Debug)]
pub enum RamBankOrTimer {
    RamBank(u8),
    Timer(u8),
    Invalid,
}

/// The MBC3 controller: up to 2 MiB ROM, 32 KiB RAM and a real-time clock whose
/// registers appear in the RAM window.
pub struct Mbc3 {
    pub rom_bank: u8,
    pub rom_bank_mask: u8,
    pub ram_bank_or_timer: RamBankOrTimer,
    pub ram_bank_mask: u8,
    pub ram_and_timer_enable: bool,
    pub clock_data_latch: ClockTime,
    pub clock_data_req: u8,
    pub day_counter_carry: bool,
}

/// The value of clock register `ix` ($08..=$0C) for a latched time.
pub open spec fn timer_register(t: ClockTime, carry: bool, ix: u8) -> u8 {
    if ix == 0x8 {
        t.second as u8
    } else if ix == 0x9 {
        t.minute as u8
    } else if ix == 0xA {
        t.hour as u8
    } else if ix == 0xB {
        (t.days_from_ce & 0xff) as u8
    } else {
        // bit 0: day counter bit 8; bits 1-5 read as 1; bit 6 (halt) 0; bit 7: carry
        ((((t.days_from_ce >> 8u32) & 1) as u8) | 0x3E | (if carry { 0x80u8 } else { 0u8 })) as u8
    }
}

impl Mbc3 {
    pub open spec fn wf(&self, rom: &Rom) -> bool {
        &&& rom.wf()
        &&& self.rom_bank_mask as int * 0x4000 + 0x4000 <= rom.data@.len()
        &&& match self.ram_bank_or_timer {
            RamBankOrTimer::Timer(ix) => 8 <= ix <= 0xC,
            _ => true,
        }
    }

    /// The power-on state, apart from the latched time.
    pub open spec fn is_initial(&self, rom: &Rom) -> bool {
        &&& self.rom_bank == 1
        &&& self.rom_bank_mask == ((rom.rom_size / 0x4000) - 1) as u8
        &&& self.ram_bank_or_timer == RamBankOrTimer::Invalid
        &&& self.ram_bank_mask == ((rom.ram_size / 0x2000) - 1) as u8
        &&& !self.ram_and_timer_enable
        &&& self.clock_data_req == 0xFF
        &&& !self.day_counter_carry
    }

    /// Starts with the clock latched to the current time.
    pub fn new(rom: &Rom) -> (r: Mbc3)
        requires
            rom.wf(),
            rom.ram_size > 0,
        ensures
            r.is_initial(rom),
            r.wf(rom),
    {
        let rom_bank_num = rom.rom_size / 0x4000;
        let ram_bank_num = rom.ram_size / 0x2000;
        Mbc3 {
            rom_bank: 1,
            rom_bank_mask: rom_bank_num.saturating_sub(1) as u8,
            ram_bank_or_timer: RamBankOrTimer::Invalid,
            ram_bank_mask: ram_bank_num.saturating_sub(1) as u8,
            ram_and_timer_enable: false,
            clock_data_latch: current_time(),
            clock_data_req: 0xFF,
            day_counter_carry: false,
        }
    }

    pub open spec fn read_spec(&self, rom: &Rom, ext: Seq<u8>, addr: u16) -> u8 {
        if addr < 0x4000 {
            rom.data@[addr as int]
        } else if addr < 0x8000 {
            rom.data@[((self.rom_bank & self.rom_bank_mask) as int) * 0x4000 + (addr & 0x3FFF) as int]
        } else if self.ram_and_timer_enable {
            match self.ram_bank_or_timer {
                RamBankOrTimer::RamBank(b) => ram_byte(
                    ext,
                    ((b & self.ram_bank_mask) as int) * 0x2000 + (addr & 0x1FFF) as int,
                ),
                RamBankOrTimer::Timer(ix) => timer_register(
                    self.clock_data_latch,
                    self.day_counter_carry,
                    ix,
                ),
                RamBankOrTimer::Invalid => 0xFF,
            }
        } else {
            0xFF
        }
    }

    pub fn read(&mut self, rom: &Rom, ext: &Vec<u8>, addr: u16) -> (r: u8)
        requires
            old(self).wf(rom),
            cart_addr(addr),
        ensures
            *final(self) == *old(self),
            r == old(self).read_spec(rom, ext@, addr),
    {
        if addr < 0x4000 {
            rom.data[addr as usize]
        } else if addr < 0x8000 {
            let offset = (self.rom_bank & self.rom_bank_mask) as usize * 0x4000;
            rom.data[offset + (addr & 0x3FFF) as usize]
        } else if self.ram_and_timer_enable {
            match self.ram_bank_or_timer {
                RamBankOrTimer::RamBank(ram_bank) => {
                    let offset = (ram_bank & self.ram_bank_mask) as usize * 0x2000;
                    read_ram(ext, offset + (addr & 0x1FFF) as usize)
                },
                RamBankOrTimer::Timer(ix) => {
                    let t = self.clock_data_latch;
                    if ix == 0x8 {
                        t.second as u8
                    } else if ix == 0x9 {
                        t.minute as u8
                    } else if ix == 0xA {
                        t.hour as u8
                    } else if ix == 0xB {
                        (t.days_from_ce & 0xff) as u8
                    } else {
                        let hi: u8 = ((t.days_from_ce >> 8u32) & 1) as u8;
                        hi | 0x3E | (if self.day_counter_carry { 0x80u8 } else { 0u8 })
                    }
                },
                RamBankOrTimer::Invalid => 0xFF,
            }
        } else {
            0xFF
        }
    }

    /// Latches time `now` into the clock registers. The day counter's carry is set when
    /// its nine bits went down since the last latch.
    pub fn latch_clock(&mut self, now: ClockTime)
        ensures
            *final(self) == (Mbc3 {
                clock_data_latch: now,
                day_counter_carry: old(self).day_counter_carry || (
                old(self).clock_data_latch.days_from_ce & 0x1FF) > (now.days_from_ce & 0x1FF),
                ..*old(self)
            }),
    {
        if self.clock_data_latch.days_from_ce & 0x1FF > now.days_from_ce & 0x1FF {
            self.day_counter_carry = true;
        }
        self.clock_data_latch = now;
    }

    /// What a write of `data` to `addr` leaves in `new`. A write of 1 after a write of 0
    /// to $6000..=$7FFF latches the current time, whatever it is.
    pub open spec fn write_post(&self, new: Mbc3, addr: u16, data: u8) -> bool {
        if addr < 0x2000 {
            new == Mbc3 { ram_and_timer_enable: (data & 0x0F) == 0x0A, ..*self }
        } else if addr < 0x4000 {
            new == Mbc3 {
                rom_bank: if (data & 0x7F) == 0 { 1 } else { (data & 0x7F) as u8 },
                ..*self
            }
        } else if addr < 0x6000 {
            new == Mbc3 {
                ram_bank_or_timer: if data <= 3 {
                    RamBankOrTimer::RamBank(data)
                } else if 8 <= data <= 0xC {
                    RamBankOrTimer::Timer(data)
                } else {
                    RamBankOrTimer::Invalid
                },
                ..*self
            }
        } else if addr < 0x8000 {
            if self.clock_data_req == 0 && data == 1 {
                new == Mbc3 {
                    clock_data_latch: new.clock_data_latch,
                    day_counter_carry: self.day_counter_carry || (self.clock_data_latch.days_from_ce
                        & 0x1FF) > (new.clock_data_latch.days_from_ce & 0x1FF),
                    clock_data_req: data,
                    ..*self
                }
            } else {
                new == Mbc3 { clock_data_req: data, ..*self }
            }
        } else {
            new == *self
        }
    }

    pub open spec fn ram_after_write(&self, ext: Seq<u8>, addr: u16, data: u8) -> Seq<u8> {
        if addr >= 0xA000 && self.ram_and_timer_enable && self.ram_bank_or_timer is RamBank {
            let b = self.ram_bank_or_timer->RamBank_0;
            ram_store(ext, ((b & self.ram_bank_mask) as int) * 0x2000 + (addr & 0x1FFF) as int, data)
        } else {
            ext
        }
    }

    pub fn write(&mut self, rom: &Rom, ext: &mut Vec<u8>, addr: u16, data: u8)
        requires
            old(self).wf(rom),
            cart_addr(addr),
        ensures
            final(self).wf(rom),
            old(self).write_post(*final(self), addr, data),
            final(ext)@ == old(self).ram_after_write(old(ext)@, addr, data),
    {
        if addr < 0x2000 {
            self.ram_and_timer_enable = data & 0x0F == 0x0A;
        } else if addr < 0x4000 {
            self.rom_bank = if data & 0x7F == 0 { 1 } else { data & 0x7F };
        } else if addr < 0x6000 {
            if data <= 3 {
                self.ram_bank_or_timer = RamBankOrTimer::RamBank(data);
            } else if 8 <= data && data <= 0xC {
                self.ram_bank_or_timer = RamBankOrTimer::Timer(data);
            } else {
                self.ram_bank_or_timer = RamBankOrTimer::Invalid;
            }
        } else if addr < 0x8000 {
            if self.clock_data_req == 0 && data == 1 {
                let now = current_time();
                self.latch_clock(now);
            }
            self.clock_data_req = data;
        } else if self.ram_and_timer_enable {
            match self.ram_bank_or_timer {
                RamBankOrTimer::RamBank(ram_bank) => {
                    let offset = (ram_bank & self.ram_bank_mask) as usize * 0x2000;
                    write_ram(ext, offset + (addr & 0x1FFF) as usize, data);
                },
                _ => {},
            }
        }
    }
}

/// A write to $2000..=$3FFF selects the ROM bank that $4000..=$7FFF shows: the low
/// seven bits of the byte (0 counting as 1), within the cartridge's banks.
pub proof fn lemma_mbc3_rom_bank(m: Mbc3, n: Mbc3, rom: Rom, ext: Seq<u8>, addr: u16, data: u8, a: u16)
    requires
        0x2000 <= addr < 0x4000,
        m.write_post(n, addr, data),
        0x4000 <= a < 0x8000,
    ensures
        n.read_spec(&rom, ext, a) == rom.data@[(((if data & 0x7F == 0 { 1u8 } else { data & 0x7F }) & m.rom_bank_mask)
            as int) * 0x4000 + (a & 0x3FFF) as int],
        data & 0x7F == 0 ==> n.rom_bank == 1,
{
}

} // verus!
