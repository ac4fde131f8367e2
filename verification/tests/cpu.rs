use tgbr::config::{BootRoms, Config};
use tgbr::cpu::Flag;
use tgbr::gameboy::GameBoy;

/// A 32 KiB cartridge that jumps to $0150, turns the display on and runs `body`, then
/// spins; `vblank` is placed at the VBlank interrupt vector.
fn run(body: &[u8], vblank: &[u8], frames: usize) -> GameBoy {
    let mut v = vec![0u8; 0x8000];
    v[0x100] = 0x00;
    v[0x101] = 0xC3;
    v[0x102] = 0x50;
    v[0x103] = 0x01;
    for (i, b) in vblank.iter().enumerate() {
        v[0x40 + i] = *b;
    }
    let mut p = vec![0x3E, 0x91, 0xE0, 0x40];
    p.extend_from_slice(body);
    p.extend_from_slice(&[0x18, 0xFE]);
    for (i, b) in p.iter().enumerate() {
        v[0x150 + i] = *b;
    }
    let mut gb = match GameBoy::try_from_file(&v, None, &Config::default_config(), &BootRoms::new()) {
        Ok(g) => g,
        Err(e) => panic!("{:?}", e),
    };
    for _ in 0..frames {
        assert!(gb.exec_frame(false).is_ok());
    }
    gb
}

fn flags(gb: &GameBoy) -> u8 {
    gb.ctx.cpu.reg.f.pack()
}

#[test]
fn add_sets_half_carry() {
    let gb = run(&[0x3E, 0x0F, 0xC6, 0x01], &[], 2);
    assert_eq!(gb.ctx.cpu.reg.a, 0x10);
    assert_eq!(flags(&gb), 0x20);
}

#[test]
fn sub_borrows() {
    let gb = run(&[0x3E, 0x10, 0xD6, 0x20], &[], 2);
    assert_eq!(gb.ctx.cpu.reg.a, 0xF0);
    assert_eq!(flags(&gb), 0x50);
}

#[test]
fn xor_a_clears_and_sets_zero() {
    let gb = run(&[0x3E, 0x33, 0xAF], &[], 2);
    assert_eq!(gb.ctx.cpu.reg.a, 0x00);
    assert_eq!(flags(&gb), 0x80);
}

#[test]
fn daa_adjusts_bcd_sum() {
    let gb = run(&[0x3E, 0x15, 0xC6, 0x27, 0x27], &[], 2);
    assert_eq!(gb.ctx.cpu.reg.a, 0x42);
}

#[test]
fn call_and_return() {
    // LD SP,$DFFE; CALL $0170; LD C,$33 ... at $0170: LD B,7; RET
    let mut body = vec![0x31, 0xFE, 0xDF, 0xCD, 0x70, 0x01, 0x0E, 0x33];
    body.extend_from_slice(&[0x18, 0xFE]);
    let mut pad = body.clone();
    while pad.len() < 0x170 - 0x154 {
        pad.push(0x00);
    }
    pad.extend_from_slice(&[0x06, 0x07, 0xC9]);
    let gb = run(&pad, &[], 2);
    assert_eq!(gb.ctx.cpu.reg.b, 7);
    assert_eq!(gb.ctx.cpu.reg.c, 0x33);
    assert_eq!(gb.ctx.cpu.reg.sp, 0xDFFE);
}

#[test]
fn push_pop_moves_words() {
    // LD SP,$DFFE; LD BC,$1234; PUSH BC; POP DE
    let gb = run(&[0x31, 0xFE, 0xDF, 0x01, 0x34, 0x12, 0xC5, 0xD1], &[], 2);
    assert_eq!(gb.ctx.cpu.reg.d, 0x12);
    assert_eq!(gb.ctx.cpu.reg.e, 0x34);
    assert_eq!(gb.ctx.cpu.reg.sp, 0xDFFE);
}

#[test]
fn pop_af_keeps_low_flag_bits_clear() {
    // LD SP,$DFFE; LD BC,$12FF; PUSH BC; POP AF
    let gb = run(&[0x31, 0xFE, 0xDF, 0x01, 0xFF, 0x12, 0xC5, 0xF1], &[], 2);
    assert_eq!(gb.ctx.cpu.reg.a, 0x12);
    assert_eq!(flags(&gb), 0xF0);
}

#[test]
fn cb_prefix_shift_and_swap() {
    // LD A,$80; SRL A; SWAP A
    let gb = run(&[0x3E, 0x80, 0xCB, 0x3F, 0xCB, 0x37], &[], 2);
    assert_eq!(gb.ctx.cpu.reg.a, 0x04);
}

#[test]
fn indirect_store_through_hl() {
    // LD HL,$C010; LD (HL),$5C; INC (HL); LD A,(HL)
    let gb = run(&[0x21, 0x10, 0xC0, 0x36, 0x5C, 0x34, 0x7E], &[], 2);
    assert_eq!(gb.ctx.cpu.reg.a, 0x5D);
}

#[test]
fn vblank_interrupt_runs_handler() {
    // LD A,1; LDH ($FF),A; EI; then spin. Handler: LD B,$99; RETI
    let gb = run(&[0x3E, 0x01, 0xE0, 0xFF, 0xFB], &[0x06, 0x99, 0xD9], 3);
    assert_eq!(gb.ctx.cpu.reg.b, 0x99);
    assert!(gb.ctx.cpu.interrupt_master_enable);
}

#[test]
fn halt_waits_for_interrupt() {
    // LD A,1; LDH ($FF),A; EI; HALT; LD C,$77
    let gb = run(&[0x3E, 0x01, 0xE0, 0xFF, 0xFB, 0x76, 0x0E, 0x77], &[0x06, 0x55, 0xD9], 3);
    assert_eq!(gb.ctx.cpu.reg.b, 0x55);
    assert_eq!(gb.ctx.cpu.reg.c, 0x77);
}

#[test]
fn flag_pack_unpack_round_trip() {
    let mut f = Flag { z: false, n: false, h: false, c: false };
    f.unpack(0xB5);
    assert!(f.z && !f.n && f.h && f.c);
    assert_eq!(f.pack(), 0xB0);
    for v in 0..=255u8 {
        f.unpack(v);
        assert_eq!(f.pack(), v & 0xF0);
    }
}

#[test]
fn lower_interrupt_bit_is_served_first() {
    let mut v = vec![0u8; 0x8000];
    v[0x100] = 0x00;
    v[0x101] = 0xC3;
    v[0x102] = 0x50;
    v[0x103] = 0x01;
    // VBlank ($40): LD B,1; RETI. Timer ($50): LD C,B; RETI.
    v[0x40..0x43].copy_from_slice(&[0x06, 0x01, 0xD9]);
    v[0x50..0x52].copy_from_slice(&[0x48, 0xD9]);
    // at $0150: LD A,5; LDH ($FF),A; LDH ($0F),A; EI; JR -2
    v[0x150..0x159].copy_from_slice(&[0x3E, 0x05, 0xE0, 0xFF, 0xE0, 0x0F, 0xFB, 0x18, 0xFE]);
    let mut gb = match GameBoy::try_from_file(&v, None, &Config::default_config(), &BootRoms::new()) {
        Ok(g) => g,
        Err(e) => panic!("{:?}", e),
    };
    // the display stays off, so the frame never ends: run the CPU directly
    for _ in 0..200 {
        assert!(gb.ctx.cpu.step(&mut gb.ctx.inner).is_ok());
    }
    assert_eq!(gb.ctx.cpu.reg.b, 1);
    assert_eq!(gb.ctx.cpu.reg.c, 1);
    assert_eq!(gb.ctx.inner.inner.inner.interrupt_flag & 0x05, 0);
}

#[test]
fn add_then_daa_gives_decimal_sum() {
    // LD A,$99; LD B,$01; ADD A,B; DAA
    let gb = run(&[0x3E, 0x99, 0x06, 0x01, 0x80, 0x27], &[], 2);
    assert_eq!(gb.ctx.cpu.reg.a, 0x00);
    assert_eq!(flags(&gb), 0x90);
    // LD A,$15; LD B,$27; ADD A,B; DAA
    let gb = run(&[0x3E, 0x15, 0x06, 0x27, 0x80, 0x27], &[], 2);
    assert_eq!(gb.ctx.cpu.reg.a, 0x42);
    assert_eq!(flags(&gb), 0x00);
}

#[test]
fn pop_af_clears_low_flag_bits() {
    // LD SP,$DFFE; LD BC,$12FF; PUSH BC; POP AF; PUSH AF; POP DE
    let gb = run(&[0x31, 0xFE, 0xDF, 0x01, 0xFF, 0x12, 0xC5, 0xF1, 0xF5, 0xD1], &[], 2);
    assert_eq!(gb.ctx.cpu.reg.a, 0x12);
    assert_eq!(flags(&gb), 0xF0);
    assert_eq!(gb.ctx.cpu.reg.d, 0x12);
    assert_eq!(gb.ctx.cpu.reg.e, 0xF0);
    assert_eq!(gb.ctx.cpu.reg.sp, 0xDFFE);
}
