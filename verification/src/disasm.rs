//! Instruction text for traces: an opcode and the bytes after it as assembly, and how
//! many bytes the instruction takes.
use vstd::prelude::*;
use vstd::string::*;
use crate::info::{dec, dec_string, hex2, hex4, push_hex2, push_hex4};
use crate::cpu::{Cpu, Flag, Register};
use crate::cpu::isa::{add16, alu, cond, instr_spec, lemma_instr_x0, r8, rot};

verus! {

broadcast use crate::bits::group_and_bounds;

/// 8-bit register operand by its number: B, C, D, E, H, L, (HL), A.
pub open spec fn r8_name(i: u8) -> Seq<char> {
    if i == 0 {
        "B"@
    } else if i == 1 {
        "C"@
    } else if i == 2 {
        "D"@
    } else if i == 3 {
        "E"@
    } else if i == 4 {
        "H"@
    } else if i == 5 {
        "L"@
    } else if i == 6 {
        "(HL)"@
    } else {
        "A"@
    }
}

/// Register pair by its number: BC, DE, HL, SP (or AF in PUSH and POP).
pub open spec fn rp_name(p: u8, af: bool) -> Seq<char> {
    if p == 0 {
        "BC"@
    } else if p == 1 {
        "DE"@
    } else if p == 2 {
        "HL"@
    } else if af {
        "AF"@
    } else {
        "SP"@
    }
}

/// Branch condition by its number: NZ, Z, NC, C.
pub open spec fn cc_name(c: u8) -> Seq<char> {
    if c == 0 {
        "NZ"@
    } else if c == 1 {
        "Z"@
    } else if c == 2 {
        "NC"@
    } else {
        "C"@
    }
}

/// The arithmetic and logic instructions with their first operand.
pub open spec fn alu_name(y: u8) -> Seq<char> {
    if y == 0 {
        "ADD A,"@
    } else if y == 1 {
        "ADC A,"@
    } else if y == 2 {
        "SUB"@
    } else if y == 3 {
        "SBC A,"@
    } else if y == 4 {
        "AND"@
    } else if y == 5 {
        "XOR"@
    } else if y == 6 {
        "OR"@
    } else {
        "CP"@
    }
}

/// The rotate and shift instructions of the $CB page.
pub open spec fn rot_name(y: u8) -> Seq<char> {
    if y == 0 {
        "RLC"@
    } else if y == 1 {
        "RRC"@
    } else if y == 2 {
        "RL"@
    } else if y == 3 {
        "RR"@
    } else if y == 4 {
        "SLA"@
    } else if y == 5 {
        "SRA"@
    } else if y == 6 {
        "SWAP"@
    } else {
        "SRL"@
    }
}

/// Opcodes $07, $0F, ... $3F.
pub open spec fn acc_name(y: u8) -> Seq<char> {
    if y == 0 {
        "RLCA"@
    } else if y == 1 {
        "RRCA"@
    } else if y == 2 {
        "RLA"@
    } else if y == 3 {
        "RRA"@
    } else if y == 4 {
        "DAA"@
    } else if y == 5 {
        "CPL"@
    } else if y == 6 {
        "SCF"@
    } else {
        "CCF"@
    }
}

/// An instruction with one operand: mnemonic, space, operand.
pub open spec fn one(m: Seq<char>, a: Seq<char>) -> Seq<char> {
    m + " "@ + a
}

/// An instruction with two operands: mnemonic, space, operand, comma, space, operand.
pub open spec fn two(m: Seq<char>, a: Seq<char>, b: Seq<char>) -> Seq<char> {
    m + " "@ + a + ", "@ + b
}

/// An immediate byte `$XX`.
pub open spec fn imm8(o: Option<u8>) -> Seq<char> {
    match o {
        None => "$??"@,
        Some(v) => "$"@ + hex2(v),
    }
}

/// A high-page address `($XX)`.
pub open spec fn ind8(o: Option<u8>) -> Seq<char> {
    match o {
        None => "($??)"@,
        Some(v) => "($"@ + hex2(v) + ")"@,
    }
}

/// The target of a relative jump at `pc`: two bytes on plus the signed offset.
pub open spec fn rel(pc: u16, o: Option<u8>) -> Seq<char> {
    match o {
        None => "$????"@,
        Some(v) => "$"@ + hex4(
            ((pc as int + 2 + (if v < 128 { v as int } else { v as int + 0xFF00 })) % 0x10000) as u16,
        ),
    }
}

/// An immediate word `$XXXX`, high byte first.
pub open spec fn imm16(o1: Option<u8>, o2: Option<u8>) -> Seq<char> {
    match (o1, o2) {
        (Some(lo), Some(hi)) => "$"@ + hex2(hi) + hex2(lo),
        _ => "$????"@,
    }
}

/// An address `($XXXX)`, high byte first.
pub open spec fn ind16(o1: Option<u8>, o2: Option<u8>) -> Seq<char> {
    match (o1, o2) {
        (Some(lo), Some(hi)) => "($"@ + hex2(hi) + hex2(lo) + ")"@,
        _ => "($????)"@,
    }
}

/// SP plus a signed offset, the sign always shown.
pub open spec fn sp_offset(o: Option<u8>) -> Seq<char> {
    match o {
        None => "SP+??"@,
        Some(v) => if v < 128 {
            "SP+"@ + dec(v)
        } else {
            "SP-"@ + dec((256 - v) as u8)
        },
    }
}

/// A decimal digit 0 to 7.
pub open spec fn digit(y: u8) -> Seq<char> {
    dec(y)
}

/// The $CB-page instruction whose second byte is `o`.
pub open spec fn cb_text(o: Option<u8>) -> Seq<char> {
    match o {
        None => "???"@,
        Some(op) => {
            let x = op / 64;
            let y = (op / 8) % 8;
            let z = op % 8;
            if x == 0 {
                one(rot_name(y), r8_name(z))
            } else if x == 1 {
                two("BIT"@, digit(y), r8_name(z))
            } else if x == 2 {
                two("RES"@, digit(y), r8_name(z))
            } else {
                two("SET"@, digit(y), r8_name(z))
            }
        },
    }
}

/// Opcodes $00-$3F as text.
pub open spec fn text_x0(pc: u16, y: u8, z: u8, o1: Option<u8>, o2: Option<u8>) -> Seq<char> {
    let p = y / 2;
    let q = y % 2;
    if z == 0 {
        if y == 0 {
            "NOP"@
        } else if y == 1 {
            two("LD"@, ind16(o1, o2), "SP"@)
        } else if y == 2 {
            "STOP"@
        } else if y == 3 {
            one("JR"@, rel(pc, o1))
        } else {
            two("JR"@, cc_name((y - 4) as u8), rel(pc, o1))
        }
    } else if z == 1 {
        if q == 0 {
            two("LD"@, rp_name(p, false), imm16(o1, o2))
        } else {
            two("ADD"@, "HL"@, rp_name(p, false))
        }
    } else if z == 2 {
        let m = if p == 0 {
            "(BC)"@
        } else if p == 1 {
            "(DE)"@
        } else if p == 2 {
            "(HL+)"@
        } else {
            "(HL-)"@
        };
        if q == 0 {
            two("LD"@, m, "A"@)
        } else {
            two("LD"@, "A"@, m)
        }
    } else if z == 3 {
        one(if q == 0 { "INC"@ } else { "DEC"@ }, rp_name(p, false))
    } else if z == 4 {
        one("INC"@, r8_name(y))
    } else if z == 5 {
        one("DEC"@, r8_name(y))
    } else if z == 6 {
        two("LD"@, r8_name(y), imm8(o1))
    } else {
        acc_name(y)
    }
}

/// Opcodes $C0-$FF as text.
pub open spec fn text_x3(pc: u16, y: u8, z: u8, o1: Option<u8>, o2: Option<u8>) -> Seq<char> {
    let p = y / 2;
    let q = y % 2;
    if z == 0 {
        if y < 4 {
            one("RET"@, cc_name(y))
        } else if y == 4 {
            two("LDH"@, ind8(o1), "A"@)
        } else if y == 5 {
            two("ADD"@, "SP"@, imm8(o1))
        } else if y == 6 {
            two("LDH"@, "A"@, ind8(o1))
        } else {
            two("LD"@, "HL"@, sp_offset(o1))
        }
    } else if z == 1 {
        if q == 0 {
            one("POP"@, rp_name(p, true))
        } else if p == 0 {
            "RET"@
        } else if p == 1 {
            "RETI"@
        } else if p == 2 {
            one("JP"@, "(HL)"@)
        } else {
            two("LD"@, "SP"@, "HL"@)
        }
    } else if z == 2 {
        if y < 4 {
            two("JP"@, cc_name(y), imm16(o1, o2))
        } else if y == 4 {
            two("LD"@, "(C)"@, "A"@)
        } else if y == 5 {
            two("LD"@, ind16(o1, o2), "A"@)
        } else if y == 6 {
            two("LD"@, "A"@, "(C)"@)
        } else {
            two("LD"@, "A"@, ind16(o1, o2))
        }
    } else if z == 3 {
        if y == 0 {
            one("JP"@, imm16(o1, o2))
        } else if y == 1 {
            cb_text(o1)
        } else if y == 6 {
            "DI"@
        } else if y == 7 {
            "EI"@
        } else {
            "UNK"@
        }
    } else if z == 4 {
        if y < 4 {
            two("CALL"@, cc_name(y), imm16(o1, o2))
        } else {
            "UNK"@
        }
    } else if z == 5 {
        if q == 0 {
            one("PUSH"@, rp_name(p, true))
        } else if p == 0 {
            one("CALL"@, imm16(o1, o2))
        } else {
            "UNK"@
        }
    } else if z == 6 {
        one(alu_name(y), imm8(o1))
    } else {
        one("RST"@, hex2((y * 8) as u8) + "H"@)
    }
}

/// The assembly text of the instruction with opcode `opc` at `pc`, whose next two bytes
/// are `opr1` and `opr2` where they can be read.
pub open spec fn disasm_text(pc: u16, opc: u8, opr1: Option<u8>, opr2: Option<u8>) -> Seq<char> {
    let x = opc / 64;
    let y = (opc / 8) % 8;
    let z = opc % 8;
    if x == 0 {
        text_x0(pc, y, z, opr1, opr2)
    } else if x == 1 {
        if opc == 0x76 {
            "HALT"@
        } else {
            two("LD"@, r8_name(y), r8_name(z))
        }
    } else if x == 2 {
        one(alu_name(y), r8_name(z))
    } else {
        text_x3(pc, y, z, opr1, opr2)
    }
}

/// How many bytes the instruction with opcode `opc` takes (an unknown opcode counts one).
pub open spec fn instr_len(opc: u8) -> usize {
    let x = opc / 64;
    let y = (opc / 8) % 8;
    let z = opc % 8;
    if x == 0 {
        if (z == 0 && (y == 1)) || (z == 1 && y % 2 == 0) {
            3
        } else if (z == 0 && y >= 3) || z == 6 {
            2
        } else {
            1
        }
    } else if x == 1 || x == 2 {
        1
    } else if z == 0 {
        if y >= 4 { 2 } else { 1 }
    } else if z == 2 {
        if y < 4 || y == 5 || y == 7 { 3 } else { 1 }
    } else if z == 3 {
        if y == 0 { 3 } else if y == 1 { 2 } else { 1 }
    } else if z == 4 {
        if y < 4 { 3 } else { 1 }
    } else if z == 5 {
        if y == 1 { 3 } else { 1 }
    } else if z == 6 {
        2
    } else {
        1
    }
}

fn owned(l: &str) -> (r: String)
    ensures
        r@ == l@,
{
    l.to_owned()
}

fn join1(m: String, a: String) -> (r: String)
    ensures
        r@ == one(m@, a@),
{
    let mut r = m;
    r.append(" ");
    r.append(a.as_str());
    r
}

fn join2(m: String, a: String, b: String) -> (r: String)
    ensures
        r@ == two(m@, a@, b@),
{
    let mut r = m;
    r.append(" ");
    r.append(a.as_str());
    r.append(", ");
    r.append(b.as_str());
    r
}

fn r8_str(i: u8) -> (r: String)
    ensures
        r@ == r8_name(i),
{
    owned(
        if i == 0 {
            "B"
        } else if i == 1 {
            "C"
        } else if i == 2 {
            "D"
        } else if i == 3 {
            "E"
        } else if i == 4 {
            "H"
        } else if i == 5 {
            "L"
        } else if i == 6 {
            "(HL)"
        } else {
            "A"
        },
    )
}

fn rp_str(p: u8, af: bool) -> (r: String)
    ensures
        r@ == rp_name(p, af),
{
    owned(
        if p == 0 {
            "BC"
        } else if p == 1 {
            "DE"
        } else if p == 2 {
            "HL"
        } else if af {
            "AF"
        } else {
            "SP"
        },
    )
}

fn cc_str(c: u8) -> (r: String)
    ensures
        r@ == cc_name(c),
{
    owned(
        if c == 0 {
            "NZ"
        } else if c == 1 {
            "Z"
        } else if c == 2 {
            "NC"
        } else {
            "C"
        },
    )
}

fn alu_str(y: u8) -> (r: String)
    ensures
        r@ == alu_name(y),
{
    owned(
        if y == 0 {
            "ADD A,"
        } else if y == 1 {
            "ADC A,"
        } else if y == 2 {
            "SUB"
        } else if y == 3 {
            "SBC A,"
        } else if y == 4 {
            "AND"
        } else if y == 5 {
            "XOR"
        } else if y == 6 {
            "OR"
        } else {
            "CP"
        },
    )
}

fn rot_str(y: u8) -> (r: String)
    ensures
        r@ == rot_name(y),
{
    owned(
        if y == 0 {
            "RLC"
        } else if y == 1 {
            "RRC"
        } else if y == 2 {
            "RL"
        } else if y == 3 {
            "RR"
        } else if y == 4 {
            "SLA"
        } else if y == 5 {
            "SRA"
        } else if y == 6 {
            "SWAP"
        } else {
            "SRL"
        },
    )
}

fn acc_str(y: u8) -> (r: String)
    ensures
        r@ == acc_name(y),
{
    owned(
        if y == 0 {
            "RLCA"
        } else if y == 1 {
            "RRCA"
        } else if y == 2 {
            "RLA"
        } else if y == 3 {
            "RRA"
        } else if y == 4 {
            "DAA"
        } else if y == 5 {
            "CPL"
        } else if y == 6 {
            "SCF"
        } else {
            "CCF"
        },
    )
}

fn imm8_str(o: Option<u8>) -> (r: String)
    ensures
        r@ == imm8(o),
{
    match o {
        None => owned("$??"),
        Some(v) => {
            let mut s = owned("$");
            push_hex2(&mut s, v);
            s
        },
    }
}

fn ind8_str(o: Option<u8>) -> (r: String)
    ensures
        r@ == ind8(o),
{
    match o {
        None => owned("($??)"),
        Some(v) => {
            let mut s = owned("($");
            push_hex2(&mut s, v);
            s.append(")");
            s
        },
    }
}

fn rel_str(pc: u16, o: Option<u8>) -> (r: String)
    ensures
        r@ == rel(pc, o),
{
    match o {
        None => owned("$????"),
        Some(v) => {
            let off: u16 = if v < 128 { v as u16 } else { v as u16 + 0xFF00 };
            let t = pc.wrapping_add(2).wrapping_add(off);
            assert(t == ((pc as int + 2 + (if v < 128 { v as int } else { v as int + 0xFF00 })) % 0x10000) as u16);
            let mut s = owned("$");
            push_hex4(&mut s, t);
            s
        },
    }
}

fn imm16_str(o1: Option<u8>, o2: Option<u8>) -> (r: String)
    ensures
        r@ == imm16(o1, o2),
{
    match (o1, o2) {
        (Some(lo), Some(hi)) => {
            let mut s = owned("$");
            push_hex2(&mut s, hi);
            push_hex2(&mut s, lo);
            s
        },
        _ => owned("$????"),
    }
}

fn ind16_str(o1: Option<u8>, o2: Option<u8>) -> (r: String)
    ensures
        r@ == ind16(o1, o2),
{
    match (o1, o2) {
        (Some(lo), Some(hi)) => {
            let mut s = owned("($");
            push_hex2(&mut s, hi);
            push_hex2(&mut s, lo);
            s.append(")");
            s
        },
        _ => owned("($????)"),
    }
}

fn sp_offset_str(o: Option<u8>) -> (r: String)
    ensures
        r@ == sp_offset(o),
{
    match o {
        None => owned("SP+??"),
        Some(v) => {
            if v < 128 {
                let mut s = owned("SP+");
                let d = dec_string(v);
                s.append(d.as_str());
                s
            } else {
                let mut s = owned("SP-");
                let d = dec_string((256u16 - v as u16) as u8);
                s.append(d.as_str());
                s
            }
        },
    }
}

fn cb_str(o: Option<u8>) -> (r: String)
    ensures
        r@ == cb_text(o),
{
    match o {
        None => owned("???"),
        Some(op) => {
            let x = op / 64;
            let y = (op / 8) % 8;
            let z = op % 8;
            if x == 0 {
                join1(rot_str(y), r8_str(z))
            } else if x == 1 {
                join2(owned("BIT"), dec_string(y), r8_str(z))
            } else if x == 2 {
                join2(owned("RES"), dec_string(y), r8_str(z))
            } else {
                join2(owned("SET"), dec_string(y), r8_str(z))
            }
        },
    }
}

fn x0_str(pc: u16, y: u8, z: u8, o1: Option<u8>, o2: Option<u8>) -> (r: String)
    requires
        y < 8,
        z < 8,
    ensures
        r@ == text_x0(pc, y, z, o1, o2),
{
    let p = y / 2;
    let q = y % 2;
    if z == 0 {
        if y == 0 {
            owned("NOP")
        } else if y == 1 {
            join2(owned("LD"), ind16_str(o1, o2), owned("SP"))
        } else if y == 2 {
            owned("STOP")
        } else if y == 3 {
            join1(owned("JR"), rel_str(pc, o1))
        } else {
            join2(owned("JR"), cc_str(y - 4), rel_str(pc, o1))
        }
    } else if z == 1 {
        if q == 0 {
            join2(owned("LD"), rp_str(p, false), imm16_str(o1, o2))
        } else {
            join2(owned("ADD"), owned("HL"), rp_str(p, false))
        }
    } else if z == 2 {
        let m = owned(
            if p == 0 {
                "(BC)"
            } else if p == 1 {
                "(DE)"
            } else if p == 2 {
                "(HL+)"
            } else {
                "(HL-)"
            },
        );
        if q == 0 {
            join2(owned("LD"), m, owned("A"))
        } else {
            join2(owned("LD"), owned("A"), m)
        }
    } else if z == 3 {
        join1(owned(if q == 0 { "INC" } else { "DEC" }), rp_str(p, false))
    } else if z == 4 {
        join1(owned("INC"), r8_str(y))
    } else if z == 5 {
        join1(owned("DEC"), r8_str(y))
    } else if z == 6 {
        join2(owned("LD"), r8_str(y), imm8_str(o1))
    } else {
        acc_str(y)
    }
}

fn x3_str(pc: u16, y: u8, z: u8, o1: Option<u8>, o2: Option<u8>) -> (r: String)
    requires
        y < 8,
        z < 8,
    ensures
        r@ == text_x3(pc, y, z, o1, o2),
{
    let p = y / 2;
    let q = y % 2;
    if z == 0 {
        if y < 4 {
            join1(owned("RET"), cc_str(y))
        } else if y == 4 {
            join2(owned("LDH"), ind8_str(o1), owned("A"))
        } else if y == 5 {
            join2(owned("ADD"), owned("SP"), imm8_str(o1))
        } else if y == 6 {
            join2(owned("LDH"), owned("A"), ind8_str(o1))
        } else {
            join2(owned("LD"), owned("HL"), sp_offset_str(o1))
        }
    } else if z == 1 {
        if q == 0 {
            join1(owned("POP"), rp_str(p, true))
        } else if p == 0 {
            owned("RET")
        } else if p == 1 {
            owned("RETI")
        } else if p == 2 {
            join1(owned("JP"), owned("(HL)"))
        } else {
            join2(owned("LD"), owned("SP"), owned("HL"))
        }
    } else if z == 2 {
        if y < 4 {
            join2(owned("JP"), cc_str(y), imm16_str(o1, o2))
        } else if y == 4 {
            join2(owned("LD"), owned("(C)"), owned("A"))
        } else if y == 5 {
            join2(owned("LD"), ind16_str(o1, o2), owned("A"))
        } else if y == 6 {
            join2(owned("LD"), owned("A"), owned("(C)"))
        } else {
            join2(owned("LD"), owned("A"), ind16_str(o1, o2))
        }
    } else if z == 3 {
        if y == 0 {
            join1(owned("JP"), imm16_str(o1, o2))
        } else if y == 1 {
            cb_str(o1)
        } else if y == 6 {
            owned("DI")
        } else if y == 7 {
            owned("EI")
        } else {
            owned("UNK")
        }
    } else if z == 4 {
        if y < 4 {
            join2(owned("CALL"), cc_str(y), imm16_str(o1, o2))
        } else {
            owned("UNK")
        }
    } else if z == 5 {
        if q == 0 {
            join1(owned("PUSH"), rp_str(p, true))
        } else if p == 0 {
            join1(owned("CALL"), imm16_str(o1, o2))
        } else {
            owned("UNK")
        }
    } else if z == 6 {
        join1(alu_str(y), imm8_str(o1))
    } else {
        let mut n = String::new();
        push_hex2(&mut n, y * 8);
        n.append("H");
        join1(owned("RST"), n)
    }
}

fn len_of(opc: u8) -> (r: usize)
    ensures
        r == instr_len(opc),
{
    let x = opc / 64;
    let y = (opc / 8) % 8;
    let z = opc % 8;
    if x == 0 {
        if (z == 0 && (y == 1)) || (z == 1 && y % 2 == 0) {
            3
        } else if (z == 0 && y >= 3) || z == 6 {
            2
        } else {
            1
        }
    } else if x == 1 || x == 2 {
        1
    } else if z == 0 {
        if y >= 4 { 2 } else { 1 }
    } else if z == 2 {
        if y < 4 || y == 5 || y == 7 { 3 } else { 1 }
    } else if z == 3 {
        if y == 0 { 3 } else if y == 1 { 2 } else { 1 }
    } else if z == 4 {
        if y < 4 { 3 } else { 1 }
    } else if z == 5 {
        if y == 1 { 3 } else { 1 }
    } else if z == 6 {
        2
    } else {
        1
    }
}

/// The instruction with opcode `opc` at `pc`, whose next two bytes are `opr1` and
/// `opr2` where they could be read, as assembly text, and its length in bytes.
/// Unreadable operand bytes show as `?`; undefined opcodes as `UNK`.
pub fn disasm(pc: u16, opc: u8, opr1: Option<u8>, opr2: Option<u8>) -> (r: (String, usize))
    ensures
        r.0@ == disasm_text(pc, opc, opr1, opr2),
        r.1 == instr_len(opc),
{
    let x = opc / 64;
    let y = (opc / 8) % 8;
    let z = opc % 8;
    let t = if x == 0 {
        x0_str(pc, y, z, opr1, opr2)
    } else if x == 1 {
        if opc == 0x76 {
            owned("HALT")
        } else {
            join2(owned("LD"), r8_str(y), r8_str(z))
        }
    } else if x == 2 {
        join1(alu_str(y), r8_str(z))
    } else {
        x3_str(pc, y, z, opr1, opr2)
    };
    (t, len_of(opc))
}

/// The condition named in a conditional jump, call or return is the one the CPU tests:
/// NZ branches when Z is clear, Z when it is set, NC when the carry is clear, C when it is
/// set.
pub proof fn lemma_cc_name_is_condition(f: Flag, c: u8)
    requires
        c < 4,
    ensures
        cc_name(c) == "NZ"@ || cc_name(c) == "Z"@ || cc_name(c) == "NC"@ || cc_name(c) == "C"@,
        cc_name(c) == "NZ"@ ==> cond(f, c) == !f.z,
        cc_name(c) == "Z"@ ==> cond(f, c) == f.z,
        cc_name(c) == "NC"@ ==> cond(f, c) == !f.c,
        cc_name(c) == "C"@ ==> cond(f, c) == f.c,
{
    reveal_strlit("NZ");
    assert("NZ"@.len() == 2 && "NZ"@[0] == 'N' && "NZ"@[1] == 'Z');
    reveal_strlit("Z");
    assert("Z"@.len() == 1 && "Z"@[0] == 'Z');
    reveal_strlit("NC");
    assert("NC"@.len() == 2 && "NC"@[0] == 'N' && "NC"@[1] == 'C');
    reveal_strlit("C");
    assert("C"@.len() == 1 && "C"@[0] == 'C');
}

/// The register named as an 8-bit operand is the one the CPU uses: B, C, D, E, H, L and
/// A for codes 0-5 and 7, and (HL), the memory operand, for code 6.
pub proof fn lemma_r8_name_is_register(r: Register, i: u8)
    requires
        i < 8,
    ensures
        r8_name(i) == "B"@ ==> r8(r, i) == r.b,
        r8_name(i) == "C"@ ==> r8(r, i) == r.c,
        r8_name(i) == "D"@ ==> r8(r, i) == r.d,
        r8_name(i) == "E"@ ==> r8(r, i) == r.e,
        r8_name(i) == "H"@ ==> r8(r, i) == r.h,
        r8_name(i) == "L"@ ==> r8(r, i) == r.l,
        r8_name(i) == "A"@ ==> r8(r, i) == r.a && i != 6,
        r8_name(i) == "(HL)"@ <==> i == 6,
{
    reveal_strlit("B");
    assert("B"@.len() == 1 && "B"@[0] == 'B');
    reveal_strlit("C");
    assert("C"@.len() == 1 && "C"@[0] == 'C');
    reveal_strlit("D");
    assert("D"@.len() == 1 && "D"@[0] == 'D');
    reveal_strlit("E");
    assert("E"@.len() == 1 && "E"@[0] == 'E');
    reveal_strlit("H");
    assert("H"@.len() == 1 && "H"@[0] == 'H');
    reveal_strlit("L");
    assert("L"@.len() == 1 && "L"@[0] == 'L');
    reveal_strlit("A");
    assert("A"@.len() == 1 && "A"@[0] == 'A');
    reveal_strlit("(HL)");
    assert("(HL)"@.len() == 4 && "(HL)"@[0] == '(' && "(HL)"@[1] == 'H' && "(HL)"@[2] == 'L' && "(HL)"@[3] == ')');
}

/// The register pair named is the one the CPU uses: BC, DE, HL, then SP (or AF in PUSH
/// and POP).
pub proof fn lemma_rp_name_is_pair(r: Register, p: u8, af: bool)
    requires
        p < 4,
    ensures
        rp_name(p, af) == "BC"@ <==> p == 0,
        rp_name(p, af) == "DE"@ <==> p == 1,
        rp_name(p, af) == "HL"@ <==> p == 2,
        rp_name(p, af) == "SP"@ <==> p == 3 && !af,
        rp_name(p, af) == "AF"@ <==> p == 3 && af,
{
    reveal_strlit("BC");
    assert("BC"@.len() == 2 && "BC"@[0] == 'B' && "BC"@[1] == 'C');
    reveal_strlit("DE");
    assert("DE"@.len() == 2 && "DE"@[0] == 'D' && "DE"@[1] == 'E');
    reveal_strlit("HL");
    assert("HL"@.len() == 2 && "HL"@[0] == 'H' && "HL"@[1] == 'L');
    reveal_strlit("SP");
    assert("SP"@.len() == 2 && "SP"@[0] == 'S' && "SP"@[1] == 'P');
    reveal_strlit("AF");
    assert("AF"@.len() == 2 && "AF"@[0] == 'A' && "AF"@[1] == 'F');
}

/// The arithmetic instruction named is the one the CPU performs: ADD, ADC, SUB, SBC, AND,
/// XOR, OR and CP for codes 0-7 (see `lemma_alu_arith` for what they compute).
pub proof fn lemma_alu_name_is_operation(f: Flag, a: u8, x: u8, y: u8)
    requires
        y < 8,
    ensures
        alu_name(y) == "ADD A,"@ ==> alu(f, a, y, x) == alu(f, a, 0, x) && y == 0,
        alu_name(y) == "ADC A,"@ ==> alu(f, a, y, x) == alu(f, a, 1, x) && y == 1,
        alu_name(y) == "SUB"@ ==> alu(f, a, y, x) == alu(f, a, 2, x) && y == 2,
        alu_name(y) == "SBC A,"@ ==> alu(f, a, y, x) == alu(f, a, 3, x) && y == 3,
        alu_name(y) == "AND"@ ==> alu(f, a, y, x).0 == a & x && y == 4,
        alu_name(y) == "XOR"@ ==> alu(f, a, y, x).0 == a ^ x && y == 5,
        alu_name(y) == "OR"@ ==> alu(f, a, y, x).0 == a | x && y == 6,
        alu_name(y) == "CP"@ ==> alu(f, a, y, x) == alu(f, a, 7, x) && y == 7,
{
    reveal_strlit("ADD A,");
    assert("ADD A,"@.len() == 6 && "ADD A,"@[0] == 'A' && "ADD A,"@[1] == 'D' && "ADD A,"@[2] == 'D' && "ADD A,"@[3] == ' ' && "ADD A,"@[4] == 'A' && "ADD A,"@[5] == ',');
    reveal_strlit("ADC A,");
    assert("ADC A,"@.len() == 6 && "ADC A,"@[0] == 'A' && "ADC A,"@[1] == 'D' && "ADC A,"@[2] == 'C' && "ADC A,"@[3] == ' ' && "ADC A,"@[4] == 'A' && "ADC A,"@[5] == ',');
    reveal_strlit("SUB");
    assert("SUB"@.len() == 3 && "SUB"@[0] == 'S' && "SUB"@[1] == 'U' && "SUB"@[2] == 'B');
    reveal_strlit("SBC A,");
    assert("SBC A,"@.len() == 6 && "SBC A,"@[0] == 'S' && "SBC A,"@[1] == 'B' && "SBC A,"@[2] == 'C' && "SBC A,"@[3] == ' ' && "SBC A,"@[4] == 'A' && "SBC A,"@[5] == ',');
    reveal_strlit("AND");
    assert("AND"@.len() == 3 && "AND"@[0] == 'A' && "AND"@[1] == 'N' && "AND"@[2] == 'D');
    reveal_strlit("XOR");
    assert("XOR"@.len() == 3 && "XOR"@[0] == 'X' && "XOR"@[1] == 'O' && "XOR"@[2] == 'R');
    reveal_strlit("OR");
    assert("OR"@.len() == 2 && "OR"@[0] == 'O' && "OR"@[1] == 'R');
    reveal_strlit("CP");
    assert("CP"@.len() == 2 && "CP"@[0] == 'C' && "CP"@[1] == 'P');
}

/// The rotate or shift named on the $CB page is the one the CPU performs: RLC, RRC, RL,
/// RR, SLA, SRA, SWAP, SRL for codes 0-7.
pub proof fn lemma_rot_name_is_operation(f: Flag, x: u8, y: u8)
    requires
        y < 8,
    ensures
        rot_name(y) == "RLC"@ <==> y == 0,
        rot_name(y) == "RRC"@ <==> y == 1,
        rot_name(y) == "RL"@ <==> y == 2,
        rot_name(y) == "RR"@ <==> y == 3,
        rot_name(y) == "SLA"@ <==> y == 4,
        rot_name(y) == "SRA"@ <==> y == 5,
        rot_name(y) == "SWAP"@ <==> y == 6,
        rot_name(y) == "SRL"@ <==> y == 7,
        rot_name(y) == "SWAP"@ ==> rot(f, y, x).0 as int == (x % 16) * 16 + x / 16,
        rot_name(y) == "SRL"@ ==> rot(f, y, x).0 as int == x / 2 && rot(f, y, x).1.c == (x % 2 == 1),
        rot_name(y) == "SLA"@ ==> rot(f, y, x).0 as int == (x * 2) % 256 && rot(f, y, x).1.c == (x >= 128),
{
    reveal_strlit("RLC");
    assert("RLC"@.len() == 3 && "RLC"@[0] == 'R' && "RLC"@[1] == 'L' && "RLC"@[2] == 'C');
    reveal_strlit("RRC");
    assert("RRC"@.len() == 3 && "RRC"@[0] == 'R' && "RRC"@[1] == 'R' && "RRC"@[2] == 'C');
    reveal_strlit("RL");
    assert("RL"@.len() == 2 && "RL"@[0] == 'R' && "RL"@[1] == 'L');
    reveal_strlit("RR");
    assert("RR"@.len() == 2 && "RR"@[0] == 'R' && "RR"@[1] == 'R');
    reveal_strlit("SLA");
    assert("SLA"@.len() == 3 && "SLA"@[0] == 'S' && "SLA"@[1] == 'L' && "SLA"@[2] == 'A');
    reveal_strlit("SRA");
    assert("SRA"@.len() == 3 && "SRA"@[0] == 'S' && "SRA"@[1] == 'R' && "SRA"@[2] == 'A');
    reveal_strlit("SWAP");
    assert("SWAP"@.len() == 4 && "SWAP"@[0] == 'S' && "SWAP"@[1] == 'W' && "SWAP"@[2] == 'A' && "SWAP"@[3] == 'P');
    reveal_strlit("SRL");
    assert("SRL"@.len() == 3 && "SRL"@[0] == 'S' && "SRL"@[1] == 'R' && "SRL"@[2] == 'L');
}

/// The target shown for JR at `pc` is where the CPU jumps: run from the opcode's address
/// (PC one past it once fetched) with offset byte `v`, JR leaves PC at the shown address.
pub proof fn lemma_jr_target(c: Cpu, pc: u16, v: u8)
    requires
        c.reg.pc == add16(pc, 1),
    ensures
        rel(pc, Some(v)) == "$"@ + hex4(instr_spec(c, 0x18, seq![v]).0.reg.pc),
{
    lemma_instr_x0(c, 0x18, seq![v]);
}

} // verus!
