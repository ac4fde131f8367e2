use tgbr::mbc::{create_mbc, MbcError};
use tgbr::rom::{CartridgeType, CgbFlag, DestinationCode, Mbc, Rom, RomError};

fn header(cart_type: u8, rom_code: u8, ram_code: u8) -> Vec<u8> {
    let mut v = vec![0u8; 0x8000usize << rom_code.min(4)];
    v[0x147] = cart_type;
    v[0x148] = rom_code;
    v[0x149] = ram_code;
    v
}

fn rom_error(v: &[u8]) -> RomError {
    match Rom::from_bytes(v) {
        Err(e) => e,
        Ok(_) => panic!("expected an error"),
    }
}

#[test]
fn header_fields_are_decoded() {
    let mut v = header(0x1B, 1, 3);
    v[0x134..0x138].copy_from_slice(b"ABCD");
    v[0x13f..0x143].copy_from_slice(&[1, 2, 3, 4]);
    v[0x143] = 0xC0;
    v[0x144] = 0x30;
    v[0x145] = 0x31;
    v[0x146] = 0x03;
    v[0x14a] = 1;
    v[0x14b] = 0x33;
    v[0x14c] = 2;
    v[0x14e] = 0x12;
    v[0x14f] = 0x34;
    let rom = Rom::from_bytes(&v).unwrap();
    assert!(rom.title.starts_with("ABCD"));
    assert_eq!(rom.manufacturer_code, [1, 2, 3, 4]);
    assert_eq!(rom.cgb_flag, CgbFlag::OnlyCgb);
    assert_eq!(rom.new_licensee_code, [0x30, 0x31]);
    assert!(rom.sgb_flag);
    assert_eq!(rom.cartridge_type.mbc, Some(Mbc::Mbc5));
    assert!(rom.cartridge_type.has_ram && rom.cartridge_type.has_battery);
    assert_eq!(rom.rom_size, 0x10000);
    assert_eq!(rom.ram_size, 0x8000);
    assert_eq!(rom.destination_code, DestinationCode::NonJapanese);
    assert_eq!(rom.old_licensee_code, 0x33);
    assert_eq!(rom.mask_rom_version, 2);
    assert_eq!(rom.global_checksum, 0x1234);
    assert_eq!(rom.data.len(), 0x10000);
}

#[test]
fn header_checksum_is_checked() {
    let mut v = header(0x00, 0, 0);
    // x = x - b - 1 over $0134-$014C, all zero: 25 times minus one
    v[0x14d] = 0u8.wrapping_sub(25);
    let rom = Rom::from_bytes(&v).unwrap();
    assert!(rom.header_checksum_ok);
    v[0x14d] = 0;
    let rom = Rom::from_bytes(&v).unwrap();
    assert!(!rom.header_checksum_ok);
}

#[test]
fn invalid_rom_size_code() {
    let mut v = header(0x00, 0, 0);
    v[0x148] = 9;
    assert_eq!(rom_error(&v), RomError::InvalidRomSize(9));
}

#[test]
fn invalid_ram_size_code() {
    let v = header(0x00, 0, 1);
    assert_eq!(rom_error(&v), RomError::InvalidRamSize(1));
}

#[test]
fn invalid_destination_code() {
    let mut v = header(0x00, 0, 0);
    v[0x14a] = 2;
    assert_eq!(rom_error(&v), RomError::InvalidDestinationCode(2));
}

#[test]
fn cartridge_type_codes() {
    let t = CartridgeType::from_code(0x13).unwrap();
    assert_eq!(t.mbc, Some(Mbc::Mbc3));
    assert!(t.has_ram && t.has_battery && !t.has_timer);
    assert!(!t.has_internal_ram());
    assert!(CartridgeType::from_code(0x06).unwrap().has_internal_ram());
    assert_eq!(CartridgeType::from_code(0x04), Err(RomError::UnknownCartridgeType(0x04)));
    assert_eq!(CartridgeType::from_code(0x13).unwrap().name(), "13: MBC3+RAM+BATTERY");
    assert_eq!(CartridgeType::from_code(0x00).unwrap().name(), "00: ROM");
    assert_eq!(CgbFlag::SupportCgb.name(), "Support CGB");
    assert_eq!(DestinationCode::NonJapanese.name(), "Non-Japanese");
    assert_eq!(Mbc::HuC1.name(), "HuC1");
}

#[test]
fn controller_errors() {
    let rom = Rom::from_bytes(&header(0x11, 0, 0)).unwrap();
    assert_eq!(create_mbc(&rom, None).err(), Some(MbcError::Mbc3WithoutRam));
    let rom = Rom::from_bytes(&header(0x01, 0, 0)).unwrap();
    assert_eq!(create_mbc(&rom, Some(vec![0; 256])).err(), Some(MbcError::UnexpectedInternalRam));
    let rom = Rom::from_bytes(&header(0x05, 0, 0)).unwrap();
    assert_eq!(create_mbc(&rom, Some(vec![0; 100])).err(), Some(MbcError::InvalidInternalRamSize));
    assert!(create_mbc(&rom, Some(vec![0; 256])).is_ok());
    let rom = Rom::from_bytes(&header(0x20, 0, 0)).unwrap();
    assert_eq!(create_mbc(&rom, None).err(), Some(MbcError::Unsupported(Mbc::Mbc6)));
    let rom = Rom::from_bytes(&header(0x00, 1, 0)).unwrap();
    assert_eq!(create_mbc(&rom, None).err(), Some(MbcError::RomOnlySize));
}

#[test]
fn mbc1_refuses_large_rom_with_large_ram() {
    let mut v = vec![0u8; 0x100000];
    v[0x147] = 0x03;
    v[0x148] = 5;
    v[0x149] = 3;
    let rom = Rom::from_bytes(&v).unwrap();
    assert_eq!(create_mbc(&rom, None).err(), Some(MbcError::Mbc1RomAndRamTooLarge));
}
