use tgbr::disasm::disasm;

fn d(pc: u16, opc: u8, o1: Option<u8>, o2: Option<u8>) -> (String, usize) {
    disasm(pc, opc, o1, o2)
}

#[test]
fn disasm_plain_and_immediate_forms() {
    assert_eq!(d(0x100, 0x00, None, None), ("NOP".to_string(), 1));
    assert_eq!(d(0x100, 0x3E, Some(0x42), None), ("LD A, $42".to_string(), 2));
    assert_eq!(d(0x100, 0xC3, Some(0x50), Some(0x01)), ("JP $0150".to_string(), 3));
    assert_eq!(d(0x100, 0x01, None, None), ("LD BC, $????".to_string(), 3));
    assert_eq!(d(0x100, 0x08, Some(0x34), Some(0x12)), ("LD ($1234), SP".to_string(), 3));
    assert_eq!(d(0x100, 0xEA, Some(0x00), Some(0xC0)), ("LD ($C000), A".to_string(), 3));
    assert_eq!(d(0x100, 0xE0, Some(0x44), None), ("LDH ($44), A".to_string(), 2));
    assert_eq!(d(0x100, 0x22, None, None), ("LD (HL+), A".to_string(), 1));
    assert_eq!(d(0x100, 0x76, None, None), ("HALT".to_string(), 1));
    assert_eq!(d(0x100, 0x7E, None, None), ("LD A, (HL)".to_string(), 1));
}

#[test]
fn disasm_arithmetic_and_control() {
    assert_eq!(d(0, 0x80, None, None), ("ADD A, B".to_string(), 1));
    assert_eq!(d(0, 0x90, None, None), ("SUB B".to_string(), 1));
    assert_eq!(d(0, 0xD6, Some(1), None), ("SUB $01".to_string(), 2));
    assert_eq!(d(0, 0xFF, None, None), ("RST 38H".to_string(), 1));
    assert_eq!(d(0, 0xD3, None, None), ("UNK".to_string(), 1));
    assert_eq!(d(0, 0xC9, None, None), ("RET".to_string(), 1));
    assert_eq!(d(0, 0xC2, Some(0x00), Some(0x40)), ("JP NZ, $4000".to_string(), 3));
    assert_eq!(d(0, 0xE9, None, None), ("JP (HL)".to_string(), 1));
}

#[test]
fn disasm_relative_and_signed_offsets() {
    assert_eq!(d(0x150, 0x18, Some(0xFE), None), ("JR $0150".to_string(), 2));
    assert_eq!(d(0xFFFF, 0x20, Some(0x01), None), ("JR NZ, $0002".to_string(), 2));
    assert_eq!(d(0, 0xF8, Some(0xFB), None), ("LD HL, SP-5".to_string(), 2));
    assert_eq!(d(0, 0xF8, Some(0x05), None), ("LD HL, SP+5".to_string(), 2));
    assert_eq!(d(0, 0xF8, Some(0x80), None), ("LD HL, SP-128".to_string(), 2));
    assert_eq!(d(0, 0xE8, Some(0xFB), None), ("ADD SP, $FB".to_string(), 2));
}

#[test]
fn disasm_cb_page() {
    assert_eq!(d(0, 0xCB, Some(0x7C), None), ("BIT 7, H".to_string(), 2));
    assert_eq!(d(0, 0xCB, Some(0x37), None), ("SWAP A".to_string(), 2));
    assert_eq!(d(0, 0xCB, Some(0xC6), None), ("SET 0, (HL)".to_string(), 2));
    assert_eq!(d(0, 0xCB, None, None), ("???".to_string(), 2));
}
