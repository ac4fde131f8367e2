use tgbr::bus::BusFault;
use tgbr::config::{BootRoms, Config, Model};
use tgbr::context::ContextError;
use tgbr::gameboy::{convert_frame_buffer, translate, Error, ExecError, GameBoy};
use tgbr::interface::{Color, FrameBuffer};
use tgbr::io::Input;
use tgbr::rom::RomError;

/// A cartridge image of `32 KiB << rom_code` bytes that jumps from $0100 to `program`
/// at $0150.
fn make_rom(cart_type: u8, rom_code: u8, ram_code: u8, cgb: u8, program: &[u8]) -> Vec<u8> {
    let size = 0x8000usize << rom_code;
    let mut v = vec![0u8; size];
    v[0x100] = 0x00;
    v[0x101] = 0xC3;
    v[0x102] = 0x50;
    v[0x103] = 0x01;
    v[0x143] = cgb;
    v[0x147] = cart_type;
    v[0x148] = rom_code;
    v[0x149] = ram_code;
    for (i, b) in program.iter().enumerate() {
        v[0x150 + i] = *b;
    }
    v
}

fn load(data: &[u8], backup: Option<&[u8]>, model: Model) -> Result<GameBoy, Error> {
    let mut config = Config::default_config();
    config.model = model;
    GameBoy::try_from_file(data, backup, &config, &BootRoms::new())
}

fn read(gb: &mut GameBoy, addr: u16) -> u8 {
    gb.ctx.inner.bus.read(&mut gb.ctx.inner.inner, addr)
}

#[test]
fn dmg_starts_in_post_boot_state() {
    let data = make_rom(0x00, 0, 0, 0x00, &[0x18, 0xFE]);
    let gb = match load(&data, None, Model::Auto) {
        Ok(g) => g,
        Err(e) => panic!("{:?}", e),
    };
    let r = gb.ctx.cpu.reg;
    assert_eq!(gb.ctx.inner.inner.inner.model, Model::Dmg);
    assert_eq!(r.a, 0x01);
    assert_eq!(r.f.pack(), 0xB0);
    assert_eq!((r.b, r.c, r.d, r.e, r.h, r.l), (0x00, 0x13, 0x00, 0xD8, 0x01, 0x4D));
    assert_eq!(r.sp, 0xFFFE);
    assert_eq!(r.pc, 0x0100);
}

#[test]
fn cgb_cartridge_starts_on_cgb() {
    let data = make_rom(0x00, 0, 0, 0x80, &[0x18, 0xFE]);
    let gb = match load(&data, None, Model::Auto) {
        Ok(g) => g,
        Err(e) => panic!("{:?}", e),
    };
    let r = gb.ctx.cpu.reg;
    assert_eq!(gb.ctx.inner.inner.inner.model, Model::Cgb);
    assert_eq!(r.a, 0x11);
    assert_eq!(r.f.pack(), 0x80);
    assert_eq!((r.b, r.c, r.d, r.e, r.h, r.l), (0x00, 0x00, 0xFF, 0x56, 0x00, 0x0D));
    assert_eq!(gb.frame_buffer().width, 160);
    assert_eq!(gb.frame_buffer().height, 144);
}

#[test]
fn cgb_only_cartridge_refuses_dmg() {
    let data = make_rom(0x00, 0, 0, 0xC0, &[0x18, 0xFE]);
    match load(&data, None, Model::Dmg) {
        Err(Error::DoesNotSupportCgb) => {}
        _ => panic!("expected DoesNotSupportCgb"),
    }
    match load(&data, None, Model::Auto) {
        Ok(gb) => assert_eq!(gb.ctx.inner.inner.inner.model, Model::Cgb),
        Err(e) => panic!("{:?}", e),
    }
}

#[test]
fn bad_header_is_refused() {
    let mut data = make_rom(0x00, 0, 0, 0x00, &[]);
    data[0x147] = 0x04;
    match load(&data, None, Model::Auto) {
        Err(Error::RomError(RomError::UnknownCartridgeType(0x04))) => {}
        _ => panic!("expected UnknownCartridgeType"),
    }
    let data = make_rom(0x00, 1, 0, 0x00, &[]);
    let short = &data[..0x8000];
    match load(short, None, Model::Auto) {
        Err(Error::RomError(RomError::RomSizeMismatch { expected: 0x10000, actual: 0x8000 })) => {}
        _ => panic!("expected RomSizeMismatch"),
    }
}

#[test]
fn rom_only_cartridge_must_be_32k() {
    let data = make_rom(0x00, 1, 0, 0x00, &[]);
    match load(&data, None, Model::Auto) {
        Err(Error::Context(ContextError::Mbc(_))) => {}
        _ => panic!("expected a controller error"),
    }
}

#[test]
fn backup_without_battery_is_refused() {
    let data = make_rom(0x02, 0, 2, 0x00, &[]);
    let backup = vec![0u8; 0x2000];
    match load(&data, Some(&backup), Model::Auto) {
        Err(Error::Context(ContextError::BackupRamWithoutBattery)) => {}
        _ => panic!("expected BackupRamWithoutBattery"),
    }
}

#[test]
fn backup_of_wrong_size_is_refused() {
    let data = make_rom(0x03, 0, 2, 0x00, &[]);
    let backup = vec![0u8; 0x1000];
    match load(&data, Some(&backup), Model::Auto) {
        Err(Error::Context(ContextError::BackupRamSizeMismatch)) => {}
        _ => panic!("expected BackupRamSizeMismatch"),
    }
}

#[test]
fn backup_ram_comes_back() {
    let data = make_rom(0x03, 0, 2, 0x00, &[0x18, 0xFE]);
    let mut backup = vec![0u8; 0x2000];
    backup[5] = 0x77;
    let gb = match load(&data, Some(&backup), Model::Auto) {
        Ok(g) => g,
        Err(e) => panic!("{:?}", e),
    };
    let saved = gb.backup().unwrap();
    assert_eq!(saved.len(), 0x2000);
    assert_eq!(saved[5], 0x77);
}

#[test]
fn cartridge_without_battery_has_no_backup() {
    let data = make_rom(0x01, 0, 0, 0x00, &[0x18, 0xFE]);
    let gb = match load(&data, None, Model::Auto) {
        Ok(g) => g,
        Err(e) => panic!("{:?}", e),
    };
    assert!(gb.backup().is_none());
}

#[test]
fn rom_hash_is_sha256_of_image() {
    let data = make_rom(0x00, 0, 0, 0x00, &[0x18, 0xFE]);
    let gb = match load(&data, None, Model::Auto) {
        Ok(g) => g,
        Err(e) => panic!("{:?}", e),
    };
    let hex: String = gb.rom_hash().iter().map(|b| format!("{:02x}", b)).collect();
    assert_eq!(hex, "defb4e9a9a88554cfa49b240c53f42c0c120d1e7f17eb1aad800d1e4c2bdf323");
}

/// Turns the display on, stores $42 at $C000, then counts B up from 5 once and spins.
const PROGRAM: [u8; 14] = [
    0x3E, 0x91, // LD A,$91
    0xE0, 0x40, // LDH ($40),A
    0x3E, 0x42, // LD A,$42
    0xEA, 0x00, 0xC0, // LD ($C000),A
    0x06, 0x05, // LD B,5
    0x04, // INC B
    0x18, 0xFE, // JR -2
];

#[test]
fn program_runs_frame_by_frame() {
    let data = make_rom(0x00, 0, 0, 0x00, &PROGRAM);
    let mut gb = match load(&data, None, Model::Auto) {
        Ok(g) => g,
        Err(e) => panic!("{:?}", e),
    };
    let f0 = gb.ctx.inner.inner.ppu.regs.frame;
    assert!(gb.exec_frame(true).is_ok());
    assert_ne!(gb.ctx.inner.inner.ppu.regs.frame, f0);
    assert!(gb.exec_frame(true).is_ok());
    assert_eq!(read(&mut gb, 0xC000), 0x42);
    assert_eq!(gb.ctx.cpu.reg.b, 6);
    assert_eq!(gb.ctx.cpu.reg.a, 0x42);
    assert_eq!(gb.audio_buffer().sample_rate, 48000);
    assert!(gb.audio_buffer().samples.len() > 0);
}

#[test]
fn reset_returns_to_post_boot_state() {
    let data = make_rom(0x00, 0, 0, 0x00, &PROGRAM);
    let mut gb = match load(&data, None, Model::Auto) {
        Ok(g) => g,
        Err(e) => panic!("{:?}", e),
    };
    assert!(gb.exec_frame(false).is_ok());
    assert!(gb.exec_frame(false).is_ok());
    assert_eq!(gb.ctx.cpu.reg.b, 6);
    gb.reset();
    assert_eq!(gb.ctx.cpu.reg.b, 0x00);
    assert_eq!(gb.ctx.cpu.reg.c, 0x13);
    assert_eq!(gb.ctx.cpu.reg.pc, 0x0100);
    assert_eq!(read(&mut gb, 0xC000), 0x00);
    assert_eq!(gb.ctx.inner.inner.rom.data.len(), 0x8000);
}

#[test]
fn unknown_opcode_stops_the_frame() {
    let data = make_rom(0x00, 0, 0, 0x00, &[0xD3]);
    let mut gb = match load(&data, None, Model::Auto) {
        Ok(g) => g,
        Err(e) => panic!("{:?}", e),
    };
    assert_eq!(gb.exec_frame(false), Err(ExecError::UnknownInstruction(0xD3)));
}

#[test]
fn bus_fault_stops_the_frame() {
    let data = make_rom(0x00, 0, 0, 0x80, &[0x18, 0xFE]);
    let mut gb = match load(&data, None, Model::Auto) {
        Ok(g) => g,
        Err(e) => panic!("{:?}", e),
    };
    gb.ctx.inner.bus.write(&mut gb.ctx.inner.inner, 0xFF55, 0x01);
    gb.ctx.inner.bus.write(&mut gb.ctx.inner.inner, 0xFF55, 0x01);
    assert_eq!(gb.ctx.inner.bus.fault, Some(BusFault::HdmaWriteDuringGeneralDma));
    assert_eq!(gb.exec_frame(false), Err(ExecError::BusFault(BusFault::HdmaWriteDuringGeneralDma)));
}

#[test]
fn pressing_a_selected_button_requests_joypad_interrupt() {
    let data = make_rom(0x00, 0, 0, 0x00, &[0x18, 0xFE]);
    let mut gb = match load(&data, None, Model::Auto) {
        Ok(g) => g,
        Err(e) => panic!("{:?}", e),
    };
    // select the action buttons (P15 low)
    gb.ctx.inner.bus.write(&mut gb.ctx.inner.inner, 0xFF00, 0x10);
    let mut input = Input::new();
    input.a = true;
    gb.set_input(&input);
    assert_eq!(gb.ctx.inner.inner.inner.interrupt_flag & 0x10, 0x10);
    assert_eq!(read(&mut gb, 0xFF00) & 0x0F, 0x0E);
}

#[test]
fn color_correction_formula() {
    assert_eq!(translate(false, Color::new(10, 20, 30)), Color::new(10, 20, 30));
    assert_eq!(translate(true, Color::new(255, 255, 255)), Color::new(240, 240, 240));
    assert_eq!(translate(true, Color::new(0, 0, 0)), Color::new(0, 0, 0));
    // r: (100*26 + 50*4 + 20*2) / 32 = 88, g: (50*24 + 20*8) / 32 = 42, b: (100*6 + 50*4 + 20*22) / 32 = 38
    assert_eq!(translate(true, Color::new(100, 50, 20)), Color::new(88, 42, 38));
    assert_eq!(translate(true, Color::new(255, 0, 0)), Color::new(207, 0, 47));
}

#[test]
fn convert_frame_buffer_copies_every_pixel() {
    let mut src = FrameBuffer::new(3, 2);
    src.set(2, 1, Color::new(255, 255, 255));
    src.set(0, 0, Color::new(100, 50, 20));
    let mut dest = FrameBuffer::new(1, 1);
    convert_frame_buffer(true, &mut dest, &src);
    assert_eq!((dest.width, dest.height), (3, 2));
    assert_eq!(dest.pixel(2, 1), Color::new(240, 240, 240));
    assert_eq!(dest.pixel(0, 0), Color::new(88, 42, 38));
    assert_eq!(dest.pixel(1, 0), Color::new(0, 0, 0));
}

#[test]
fn set_config_changes_palette() {
    let data = make_rom(0x00, 0, 0, 0x00, &[0x18, 0xFE]);
    let mut gb = match load(&data, None, Model::Auto) {
        Ok(g) => g,
        Err(e) => panic!("{:?}", e),
    };
    let mut config = Config::default_config();
    config.palette = tgbr::config::PaletteSelect::Dmg;
    gb.set_config(&config);
    assert_eq!(gb.ctx.inner.inner.ppu.dmg_palette, tgbr::config::palette_dmg());
}

#[test]
fn model_for_header_follows_flag() {
    assert_eq!(tgbr::gameboy::model_for_header(0x00, Model::Auto), Some(Model::Dmg));
    assert_eq!(tgbr::gameboy::model_for_header(0x80, Model::Auto), Some(Model::Cgb));
    assert_eq!(tgbr::gameboy::model_for_header(0x80, Model::Dmg), Some(Model::Dmg));
    assert_eq!(tgbr::gameboy::model_for_header(0xC0, Model::Dmg), None);
    assert_eq!(tgbr::gameboy::model_for_header(0xC0, Model::Sgb), Some(Model::Cgb));
}

#[test]
fn game_info_lists_header() {
    let mut data = make_rom(0x13, 0, 3, 0x80, &[0x18, 0xFE]);
    data[0x134] = b'T';
    data[0x135] = b'E';
    data[0x136] = b'S';
    data[0x137] = b'T';
    data[0x14b] = 0x33;
    data[0x14c] = 7;
    let gb = match load(&data, None, Model::Auto) {
        Ok(g) => g,
        Err(e) => panic!("{:?}", e),
    };
    let info = gb.game_info();
    assert_eq!(info.len(), 13);
    assert_eq!(info[0].0, "Title");
    assert!(info[0].1.starts_with("TEST"));
    assert_eq!(info[1], ("Manufacturer Code".to_string(), "00 00 00 00".to_string()));
    assert_eq!(info[2].1, "Support CGB");
    assert_eq!(info[4], ("Suport SGB".to_string(), "false".to_string()));
    assert_eq!(info[5].1, "13: MBC3+RAM+BATTERY");
    assert_eq!(info[6].1, "32.0 kiB");
    assert_eq!(info[7].1, "32.0 kiB");
    assert_eq!(info[8].1, "Japanese");
    assert_eq!(info[9].1, "51");
    assert_eq!(info[10].1, "7");
    assert!(info[11].1.ends_with(")"));
    assert_eq!(info[12].0, "Global Checksum");
}

#[test]
fn unselected_button_requests_no_interrupt() {
    let data = make_rom(0x00, 0, 0, 0x00, &[0x18, 0xFE]);
    let mut gb = match load(&data, None, Model::Auto) {
        Ok(g) => g,
        Err(e) => panic!("{:?}", e),
    };
    // select the direction keys only (P14 low)
    gb.ctx.inner.bus.write(&mut gb.ctx.inner.inner, 0xFF00, 0x20);
    gb.ctx.inner.inner.inner.interrupt_flag = 0x01;
    let mut input = Input::new();
    input.a = true;
    gb.set_input(&input);
    assert_eq!(gb.ctx.inner.inner.inner.interrupt_flag, 0x01);
    // releasing keeps the flag as it is, too
    gb.set_input(&Input::new());
    assert_eq!(gb.ctx.inner.inner.inner.interrupt_flag, 0x01);
    // a selected direction pressed sets only the joypad bit
    let mut input = Input::new();
    input.right = true;
    gb.set_input(&input);
    assert_eq!(gb.ctx.inner.inner.inner.interrupt_flag, 0x11);
}

#[test]
fn each_frame_starts_its_sound_afresh_and_draws_as_asked() {
    let data = make_rom(0x00, 0, 0, 0x00, &[0x18, 0xFE]);
    let mut gb = match load(&data, None, Model::Auto) {
        Ok(g) => g,
        Err(e) => panic!("{:?}", e),
    };
    assert!(gb.exec_frame(true).is_ok());
    assert!(gb.exec_frame(true).is_ok());
    assert!(gb.ctx.inner.inner.ppu.render_graphics);
    let n = gb.audio_buffer().samples.len();
    // 70224 cycles a frame give 800 samples, give or take the sampling phase
    assert!(n >= 799 && n <= 801);
    assert!(gb.exec_frame(false).is_ok());
    assert!(!gb.ctx.inner.inner.ppu.render_graphics);
    assert_eq!(gb.audio_buffer().sample_rate, 48000);
    let m = gb.audio_buffer().samples.len();
    assert!(m >= 799 && m <= 801);
}
