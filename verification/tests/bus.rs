use tgbr::bus::BusFault;
use tgbr::config::{palette_dmg, Model};
use tgbr::context::Context;
use tgbr::cpu::CpuContext;
use tgbr::rom::Rom;

/// A cartridge image whose 16 KiB banks each start with their bank number.
fn make_rom(cart_type: u8, rom_code: u8, ram_code: u8) -> Vec<u8> {
    let size = 0x8000usize << rom_code;
    let mut v = vec![0u8; size];
    for bank in 0..size / 0x4000 {
        v[bank * 0x4000] = bank as u8;
        v[bank * 0x4000 + 1] = 0xB0 | (bank as u8 & 0x0F);
    }
    v[0x147] = cart_type;
    v[0x148] = rom_code;
    v[0x149] = ram_code;
    v
}

fn machine_with(model: Model, cart_type: u8, rom_code: u8, ram_code: u8, boot: Option<Vec<u8>>) -> Context {
    let data = make_rom(cart_type, rom_code, ram_code);
    let rom = Rom::from_bytes(&data).unwrap();
    match Context::new(model, rom, &boot, None, &palette_dmg()) {
        Ok(c) => c,
        Err(e) => panic!("{:?}", e),
    }
}

fn machine(model: Model) -> Context {
    machine_with(model, 0x00, 0, 0, None)
}

fn wr(c: &mut Context, addr: u16, data: u8) {
    c.inner.bus.write(&mut c.inner.inner, addr, data);
}

fn rd(c: &mut Context, addr: u16) -> u8 {
    c.inner.bus.read(&mut c.inner.inner, addr)
}

fn bus_tick(c: &mut Context) {
    c.inner.bus.tick(&mut c.inner.inner);
}

#[test]
fn work_ram_reads_back_writes() {
    let mut c = machine(Model::Dmg);
    wr(&mut c, 0xC123, 0x5A);
    wr(&mut c, 0xD800, 0xA5);
    assert_eq!(rd(&mut c, 0xC123), 0x5A);
    assert_eq!(rd(&mut c, 0xD800), 0xA5);
    assert_eq!(rd(&mut c, 0xC124), 0x00);
}

#[test]
fn work_ram_bank_switch_on_cgb() {
    let mut c = machine(Model::Cgb);
    wr(&mut c, 0xFF70, 2);
    wr(&mut c, 0xD000, 0xAA);
    wr(&mut c, 0xFF70, 3);
    assert_eq!(rd(&mut c, 0xD000), 0x00);
    wr(&mut c, 0xFF70, 2);
    assert_eq!(rd(&mut c, 0xD000), 0xAA);
    // bank 0 selects bank 1
    wr(&mut c, 0xFF70, 0);
    assert_eq!(c.inner.bus.ram_bank, 1);
    assert_eq!(rd(&mut c, 0xFF70), 0xFF);
}

#[test]
fn high_ram_reads_back_writes() {
    let mut c = machine(Model::Dmg);
    wr(&mut c, 0xFF80, 1);
    wr(&mut c, 0xFFFE, 2);
    assert_eq!(rd(&mut c, 0xFF80), 1);
    assert_eq!(rd(&mut c, 0xFFFE), 2);
}

#[test]
fn video_ram_banks_on_cgb() {
    let mut c = machine(Model::Cgb);
    wr(&mut c, 0xFF4F, 1);
    wr(&mut c, 0x8000, 0x11);
    assert_eq!(rd(&mut c, 0xFF4F), 0xFF);
    wr(&mut c, 0xFF4F, 0);
    assert_eq!(rd(&mut c, 0x8000), 0x00);
    assert_eq!(rd(&mut c, 0xFF4F), 0xFE);
    wr(&mut c, 0xFF4F, 1);
    assert_eq!(rd(&mut c, 0x8000), 0x11);
    assert_eq!(c.inner.inner.inner.vram[0x2000], 0x11);
}

#[test]
fn cgb_registers_ignored_on_dmg() {
    let mut c = machine(Model::Dmg);
    wr(&mut c, 0xFF4F, 1);
    assert_eq!(rd(&mut c, 0xFF4F), 0xFF);
    assert_eq!(c.inner.bus.vram_bank, 0);
    assert_eq!(rd(&mut c, 0xFF55), 0xFF);
}

#[test]
fn undocumented_registers() {
    let mut c = machine(Model::Dmg);
    wr(&mut c, 0xFF72, 0x12);
    wr(&mut c, 0xFF73, 0x34);
    assert_eq!(rd(&mut c, 0xFF72), 0x12);
    assert_eq!(rd(&mut c, 0xFF73), 0x34);
    wr(&mut c, 0xFF75, 0xFF);
    assert_eq!(c.inner.bus.reg_ff75, 0x70);
    // bits 4-6 read back the register's low three bits
    assert_eq!(rd(&mut c, 0xFF75), 0x8F);
    assert_eq!(rd(&mut c, 0xFEA0), 0xFF);
}

#[test]
fn oam_dma_copies_160_bytes() {
    let mut c = machine(Model::Dmg);
    for i in 0..0xA0u16 {
        wr(&mut c, 0xC000 + i, i as u8 ^ 0x5A);
    }
    wr(&mut c, 0xFF46, 0xC0);
    assert_eq!(rd(&mut c, 0xFF46), 0xC0);
    bus_tick(&mut c);
    bus_tick(&mut c);
    assert!(c.inner.bus.dma.enabled);
    assert_eq!(rd(&mut c, 0xFE00), 0xFF);
    for _ in 0..0xA0 {
        bus_tick(&mut c);
    }
    assert!(!c.inner.bus.dma.enabled);
    for i in 0..0xA0u16 {
        assert_eq!(rd(&mut c, 0xFE00 + i), i as u8 ^ 0x5A);
    }
}

#[test]
fn general_hdma_copies_blocks_and_stalls() {
    let mut c = machine(Model::Cgb);
    for i in 0..0x20u16 {
        wr(&mut c, 0xC000 + i, 0x80 | i as u8);
    }
    wr(&mut c, 0xFF51, 0xC0);
    wr(&mut c, 0xFF52, 0x0F);
    wr(&mut c, 0xFF53, 0xE1);
    wr(&mut c, 0xFF54, 0x2F);
    assert_eq!(c.inner.bus.hdma.source, 0xC000);
    assert_eq!(c.inner.bus.hdma.dest, 0x0120);
    wr(&mut c, 0xFF55, 0x01);
    bus_tick(&mut c);
    bus_tick(&mut c);
    for i in 0..0x20u16 {
        assert_eq!(rd(&mut c, 0x8120 + i), 0x80 | i as u8);
    }
    assert!(!c.inner.bus.hdma.enabled_general_dma);
    assert_eq!(c.inner.inner.inner.stall_cpu, 16);
    assert_eq!(rd(&mut c, 0xFF55), 0xFF);
}

#[test]
fn hblank_dma_can_be_stopped() {
    let mut c = machine(Model::Cgb);
    wr(&mut c, 0xFF55, 0x83);
    assert!(c.inner.bus.hdma.enabled_hblank_dma);
    assert_eq!(rd(&mut c, 0xFF55), 0x03);
    wr(&mut c, 0xFF55, 0x00);
    assert!(!c.inner.bus.hdma.enabled_hblank_dma);
    assert_eq!(rd(&mut c, 0xFF55), 0x83);
    assert_eq!(c.inner.bus.fault, None);
}

#[test]
fn hdma_restart_during_hblank_dma_is_a_fault() {
    let mut c = machine(Model::Cgb);
    wr(&mut c, 0xFF55, 0x83);
    wr(&mut c, 0xFF55, 0x80);
    assert_eq!(c.inner.bus.fault, Some(BusFault::DmaStartDuringHblankDma));
}

#[test]
fn speed_switch_after_stop() {
    let mut c = machine(Model::Cgb);
    wr(&mut c, 0xFF4D, 1);
    c.inner.bus.stop();
    assert_eq!(c.inner.bus.switch_delay, 2050);
    for _ in 0..2049 {
        bus_tick(&mut c);
    }
    assert_eq!(c.inner.bus.current_speed(), 0);
    bus_tick(&mut c);
    assert_eq!(c.inner.bus.current_speed(), 1);
    assert_eq!(c.inner.bus.prepare_speed_switch, 0);
    assert!(c.inner.inner.inner.wake);
}

#[test]
fn stop_without_prepared_switch_does_nothing() {
    let mut c = machine(Model::Cgb);
    c.inner.bus.stop();
    assert_eq!(c.inner.bus.switch_delay, 0);
}

#[test]
fn cancelled_speed_switch_is_a_fault() {
    let mut c = machine(Model::Cgb);
    wr(&mut c, 0xFF4D, 1);
    c.inner.bus.stop();
    wr(&mut c, 0xFF4D, 0);
    bus_tick(&mut c);
    assert_eq!(c.inner.bus.fault, Some(BusFault::SpeedSwitchNotPrepared));
}

#[test]
fn boot_rom_overlays_until_disabled() {
    let boot = vec![0xABu8; 0x100];
    let mut c = machine_with(Model::Dmg, 0x00, 0, 0, Some(boot));
    assert_eq!(rd(&mut c, 0x0000), 0xAB);
    assert_eq!(rd(&mut c, 0x00FF), 0xAB);
    assert_eq!(rd(&mut c, 0x0100), 0x00);
    wr(&mut c, 0xFF50, 1);
    assert_eq!(rd(&mut c, 0x0000), 0x00);
    assert_eq!(rd(&mut c, 0x0001), 0xB0);
}

#[test]
fn read_immutable_skips_io() {
    let mut c = machine(Model::Dmg);
    wr(&mut c, 0xC000, 9);
    assert_eq!(c.inner.read_immutable(0xC000), Some(9));
    assert_eq!(c.inner.read_immutable(0xFF44), None);
    assert_eq!(c.inner.read_immutable(0xFFFF), None);
    assert_eq!(c.inner.read_immutable(0xFF80), Some(0));
}

#[test]
fn key0_selects_running_mode_on_cgb() {
    let mut c = machine(Model::Cgb);
    wr(&mut c, 0xFF4C, 0x04);
    assert_eq!(c.inner.inner.inner.running_mode, tgbr::context::RunningMode::Dmg);
}

#[test]
fn interrupt_registers() {
    let mut c = machine(Model::Dmg);
    wr(&mut c, 0xFF0F, 0xFF);
    assert_eq!(rd(&mut c, 0xFF0F), 0xFF);
    wr(&mut c, 0xFF0F, 0x01);
    assert_eq!(rd(&mut c, 0xFF0F), 0xE1);
    wr(&mut c, 0xFFFF, 0x15);
    assert_eq!(rd(&mut c, 0xFFFF), 0x15);
    assert_eq!(c.inner.pending_interrupts(), 0x01);
    c.inner.clear_interrupt_request(0);
    assert_eq!(rd(&mut c, 0xFF0F), 0xE0);
}

#[test]
fn divider_counts_machine_cycles() {
    let mut c = machine(Model::Dmg);
    wr(&mut c, 0xFF04, 0x77);
    assert_eq!(rd(&mut c, 0xFF04), 0);
    for _ in 0..64 {
        c.inner.bus_tick();
    }
    assert_eq!(rd(&mut c, 0xFF04), 1);
    assert_eq!(c.inner.bus.io.divider, 256);
}

#[test]
fn timer_control_reads_with_high_bits_set() {
    let mut c = machine(Model::Dmg);
    wr(&mut c, 0xFF07, 0x05);
    assert_eq!(rd(&mut c, 0xFF07), 0xFD);
    wr(&mut c, 0xFF06, 0x33);
    assert_eq!(rd(&mut c, 0xFF06), 0x33);
}

#[test]
fn timer_overflow_reloads_and_requests_interrupt() {
    let mut c = machine(Model::Dmg);
    wr(&mut c, 0xFF06, 0xF0);
    wr(&mut c, 0xFF05, 0xFF);
    // enabled, one count per 16 clocks (4 machine cycles)
    wr(&mut c, 0xFF07, 0x05);
    for _ in 0..10 {
        c.inner.bus_tick();
    }
    assert_eq!(rd(&mut c, 0xFF0F) & 0x04, 0x04);
    let tima = rd(&mut c, 0xFF05);
    assert!(tima >= 0xF0);
}

#[test]
fn serial_transfer_without_cable_reads_ff() {
    let mut c = machine(Model::Dmg);
    wr(&mut c, 0xFF01, 0x5A);
    assert_eq!(rd(&mut c, 0xFF01), 0x5A);
    wr(&mut c, 0xFF02, 0x81);
    assert_eq!(rd(&mut c, 0xFF02), 0xFF);
    for _ in 0..(8 * 128) {
        c.inner.bus_tick();
    }
    assert_eq!(rd(&mut c, 0xFF02), 0x7F);
    assert_eq!(rd(&mut c, 0xFF01), 0xFF);
    assert_eq!(rd(&mut c, 0xFF0F) & 0x08, 0x08);
}

#[test]
fn sound_registers_read_back() {
    let mut c = machine(Model::Dmg);
    wr(&mut c, 0xFF26, 0x80);
    wr(&mut c, 0xFF24, 0x77);
    wr(&mut c, 0xFF25, 0xF3);
    assert_eq!(rd(&mut c, 0xFF24), 0x77);
    assert_eq!(rd(&mut c, 0xFF25), 0xF3);
    assert_eq!(rd(&mut c, 0xFF26), 0xF0);
    wr(&mut c, 0xFF30, 0x12);
    assert_eq!(rd(&mut c, 0xFF30), 0x12);
}

#[test]
fn sound_power_off_reads_70() {
    let mut c = machine(Model::Dmg);
    assert_eq!(rd(&mut c, 0xFF26), 0x70);
}

#[test]
fn video_registers_read_back() {
    let mut c = machine(Model::Dmg);
    wr(&mut c, 0xFF43, 0x34);
    wr(&mut c, 0xFF42, 0x56);
    wr(&mut c, 0xFF45, 0x90);
    wr(&mut c, 0xFF47, 0xE4);
    assert_eq!(rd(&mut c, 0xFF43), 0x34);
    assert_eq!(rd(&mut c, 0xFF42), 0x56);
    assert_eq!(rd(&mut c, 0xFF45), 0x90);
    assert_eq!(rd(&mut c, 0xFF47), 0xE4);
}

#[test]
fn line_counter_advances_with_display_on() {
    let mut c = machine(Model::Dmg);
    wr(&mut c, 0xFF40, 0x91);
    assert_eq!(rd(&mut c, 0xFF44), 0);
    for _ in 0..114 {
        c.inner.bus_tick();
    }
    assert_eq!(rd(&mut c, 0xFF44), 1);
}

#[test]
fn mbc1_switches_rom_banks() {
    let mut c = machine_with(Model::Dmg, 0x01, 2, 0, None);
    assert_eq!(rd(&mut c, 0x4000), 1);
    wr(&mut c, 0x2000, 3);
    assert_eq!(rd(&mut c, 0x4000), 3);
    assert_eq!(rd(&mut c, 0x4001), 0xB3);
    wr(&mut c, 0x2000, 0);
    assert_eq!(rd(&mut c, 0x4000), 1);
    assert_eq!(rd(&mut c, 0x0000), 0);
}

#[test]
fn mbc1_ram_needs_enable() {
    let mut c = machine_with(Model::Dmg, 0x03, 0, 2, None);
    wr(&mut c, 0xA000, 0x99);
    assert_eq!(rd(&mut c, 0xA000), 0xFF);
    wr(&mut c, 0x0000, 0x0A);
    wr(&mut c, 0xA000, 0x99);
    assert_eq!(rd(&mut c, 0xA000), 0x99);
    wr(&mut c, 0x0000, 0x00);
    assert_eq!(rd(&mut c, 0xA000), 0xFF);
    assert_eq!(c.inner.inner.inner.external_ram[0], 0x99);
}

#[test]
fn mbc3_switches_rom_and_ram_banks() {
    let mut c = machine_with(Model::Dmg, 0x13, 2, 3, None);
    wr(&mut c, 0x2000, 2);
    assert_eq!(rd(&mut c, 0x4000), 2);
    wr(&mut c, 0x0000, 0x0A);
    wr(&mut c, 0x4000, 1);
    wr(&mut c, 0xA000, 0x42);
    wr(&mut c, 0x4000, 0);
    assert_eq!(rd(&mut c, 0xA000), 0x00);
    wr(&mut c, 0x4000, 1);
    assert_eq!(rd(&mut c, 0xA000), 0x42);
    assert_eq!(c.inner.inner.inner.external_ram[0x2000], 0x42);
}

#[test]
fn mbc5_can_map_bank_zero() {
    let mut c = machine_with(Model::Dmg, 0x19, 2, 0, None);
    wr(&mut c, 0x2000, 5);
    assert_eq!(rd(&mut c, 0x4000), 5);
    wr(&mut c, 0x2000, 0);
    assert_eq!(rd(&mut c, 0x4000), 0);
}

#[test]
fn mbc2_switches_rom_banks_with_address_bit_8() {
    let mut c = machine_with(Model::Dmg, 0x05, 2, 0, None);
    wr(&mut c, 0x2100, 3);
    assert_eq!(rd(&mut c, 0x4000), 3);
    assert!(c.inner.bus.mbc.internal_ram().is_some());
}

#[test]
fn mbc3_clock_registers_hold_a_time_of_day() {
    let mut c = machine_with(Model::Dmg, 0x10, 0, 2, None);
    wr(&mut c, 0x0000, 0x0A);
    wr(&mut c, 0x6000, 0x00);
    wr(&mut c, 0x6000, 0x01);
    wr(&mut c, 0x4000, 0x08);
    let s = rd(&mut c, 0xA000);
    wr(&mut c, 0x4000, 0x09);
    let m = rd(&mut c, 0xA000);
    wr(&mut c, 0x4000, 0x0A);
    let h = rd(&mut c, 0xA000);
    assert!(s < 60 && m < 60 && h < 24);
    wr(&mut c, 0x4000, 0x0C);
    assert_eq!(rd(&mut c, 0xA000) & 0x7E, 0x3E);
}

#[test]
fn serial_transfer_over_the_cable() {
    let mut c = machine(Model::Dmg);
    c.inner.bus.io.serial.set_link_cable(true);
    c.inner.bus.io.serial.rx_queue.push(0x42);
    wr(&mut c, 0xFF01, b'P');
    wr(&mut c, 0xFF02, 0x81);
    assert_eq!(c.inner.bus.io.serial.tx_queue, vec![b'P']);
    for _ in 0..(8 * 128) {
        c.inner.bus_tick();
    }
    assert_eq!(rd(&mut c, 0xFF01), 0x42);
    assert!(c.inner.bus.io.serial.rx_queue.is_empty());
    assert_eq!(rd(&mut c, 0xFF0F) & 0x08, 0x08);
}

#[test]
fn machine_cycles_keep_raised_interrupt_requests() {
    let mut c = machine(Model::Dmg);
    wr(&mut c, 0xFF0F, 0x1F);
    wr(&mut c, 0xFFFF, 0x0A);
    for _ in 0..1000 {
        c.inner.bus_tick();
    }
    assert_eq!(c.inner.inner.inner.interrupt_flag & 0x1F, 0x1F);
    assert_eq!(c.inner.inner.inner.interrupt_enable, 0x0A);
}

#[test]
fn work_ram_bytes_are_separate_cells_on_dmg() {
    let mut c = machine(Model::Dmg);
    wr(&mut c, 0xDFFF, 0x11);
    wr(&mut c, 0xC000, 0x22);
    assert_eq!(rd(&mut c, 0xDFFF), 0x11);
    assert_eq!(rd(&mut c, 0xC000), 0x22);
    wr(&mut c, 0xD000, 0x33);
    assert_eq!(rd(&mut c, 0xC000), 0x22);
    assert_eq!(rd(&mut c, 0xD000), 0x33);
    // echo RAM mirrors $C000-$DDFF
    assert_eq!(rd(&mut c, 0xE000), 0x22);
    assert_eq!(rd(&mut c, 0xF000), 0x33);
}

#[test]
fn work_ram_banks_on_cgb() {
    let mut c = machine(Model::Cgb);
    wr(&mut c, 0xFF70, 2);
    wr(&mut c, 0xD000, 0x44);
    wr(&mut c, 0xFF70, 3);
    wr(&mut c, 0xD000, 0x55);
    assert_eq!(rd(&mut c, 0xD000), 0x55);
    wr(&mut c, 0xFF70, 2);
    assert_eq!(rd(&mut c, 0xD000), 0x44);
    wr(&mut c, 0xC000, 0x66);
    assert_eq!(rd(&mut c, 0xD000), 0x44);
}

#[test]
fn display_enable_restarts_line_and_counts_frame() {
    let mut c = machine(Model::Dmg);
    wr(&mut c, 0xFF40, 0x91);
    for _ in 0..300 {
        c.inner.bus_tick();
    }
    assert!(rd(&mut c, 0xFF44) >= 2);
    // writing LCDC again while on leaves LY as it is
    let ly = rd(&mut c, 0xFF44);
    let frame = c.inner.inner.ppu.frame();
    wr(&mut c, 0xFF40, 0x93);
    assert_eq!(rd(&mut c, 0xFF44), ly);
    assert_eq!(c.inner.inner.ppu.frame(), frame);
    // off, then on again: LY restarts at 0 and a new frame is counted
    wr(&mut c, 0xFF40, 0x11);
    wr(&mut c, 0xFF40, 0x91);
    assert_eq!(rd(&mut c, 0xFF44), 0);
    assert_eq!(c.inner.inner.ppu.frame(), frame + 1);
}

#[test]
fn stat_reads_enables_coincidence_and_mode() {
    let mut c = machine(Model::Dmg);
    wr(&mut c, 0xFF40, 0x11);
    let ly = rd(&mut c, 0xFF44);
    wr(&mut c, 0xFF45, ly);
    wr(&mut c, 0xFF41, 0xFF);
    let s = rd(&mut c, 0xFF41);
    assert_eq!(s & 0xFC, 0x80 | 0x78 | 0x04);
    wr(&mut c, 0xFF41, 0x00);
    wr(&mut c, 0xFF45, ly.wrapping_add(1));
    let s = rd(&mut c, 0xFF41);
    assert_eq!(s & 0xFC, 0x80);
}

#[test]
fn high_ram_bytes_are_separate_cells() {
    let mut c = machine(Model::Dmg);
    wr(&mut c, 0xFF80, 0xA1);
    wr(&mut c, 0xFFFE, 0xB2);
    wr(&mut c, 0xC000, 0xC3);
    assert_eq!(rd(&mut c, 0xFF80), 0xA1);
    assert_eq!(rd(&mut c, 0xFFFE), 0xB2);
    assert_eq!(rd(&mut c, 0xC000), 0xC3);
}

#[test]
fn timer_control_and_interrupt_flag_read_with_fixed_bits() {
    let mut c = machine(Model::Dmg);
    wr(&mut c, 0xFF07, 0x05);
    assert_eq!(rd(&mut c, 0xFF07), 0xFD);
    wr(&mut c, 0xFF07, 0xFA);
    assert_eq!(rd(&mut c, 0xFF07), 0xFA);
    wr(&mut c, 0xFF0F, 0x13);
    assert_eq!(rd(&mut c, 0xFF0F), 0xF3);
    assert_eq!(rd(&mut c, 0xFF00) & 0xC0, 0xC0);
}

#[test]
fn mbc3_selects_rom_bank_with_zero_as_one() {
    let mut c = machine_with(Model::Dmg, 0x12, 2, 2, None);
    wr(&mut c, 0x2000, 0);
    assert_eq!(rd(&mut c, 0x4000), 1);
    wr(&mut c, 0x2000, 3);
    assert_eq!(rd(&mut c, 0x4000), 3);
    wr(&mut c, 0x2000, 0x85);
    assert_eq!(rd(&mut c, 0x4000), 5);
}
