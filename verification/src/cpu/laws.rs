//! Laws of the instruction set: what the arithmetic computes, and what one instruction
//! undoes or completes of another.
use vstd::prelude::*;
use super::{Cpu, Flag, Register, bit_if, hi_byte, lo_byte, word, lemma_flag_pack_unpack, lemma_split_word, lemma_word_split};
use super::isa::{add16, add_hl, add_sp, alu, incdec, rot, instr_spec, lemma_instr_x0, lemma_instr_x2, lemma_instr_x3, rd, rp2, tk, wr};

verus! {

/// A byte holding two decimal digits, one per nibble.
pub open spec fn is_bcd(x: u8) -> bool {
    x % 16 <= 9 && x / 16 <= 9
}

/// The number that a packed-BCD byte stands for.
pub open spec fn bcd_value(x: u8) -> int {
    (x / 16) * 10 + x % 16
}

/// The packed-BCD byte of a number below 100.
pub open spec fn bcd_byte(n: int) -> u8 {
    ((n / 10) * 16 + n % 10) as u8
}

proof fn lemma_push(c: Cpu, p: u8, v: Seq<u8>)
    requires
        p < 4,
    ensures
        instr_spec(c, (0xC5 + 16 * p) as u8, v) == (
            Cpu { reg: Register { sp: add16(c.reg.sp, -2), ..c.reg }, ..c },
            tk() + wr(add16(c.reg.sp, -1), hi_byte(rp2(c.reg, p))) + wr(add16(c.reg.sp, -2), lo_byte(rp2(c.reg, p))),
        ),
{
    lemma_instr_x3(c, (0xC5 + 16 * p) as u8, v);
}

proof fn lemma_pop(c: Cpu, p: u8, lo: u8, hi: u8)
    requires
        p < 4,
    ensures
        instr_spec(c, (0xC1 + 16 * p) as u8, seq![lo, hi]) == (
            Cpu { reg: super::isa::set_rp2(Register { sp: add16(c.reg.sp, 2), ..c.reg }, p, word(hi, lo)), ..c },
            rd(c.reg.sp, lo) + rd(add16(c.reg.sp, 1), hi),
        ),
{
    lemma_instr_x3(c, (0xC1 + 16 * p) as u8, seq![lo, hi]);
}

/// PUSH rr then POP rr, with the two stack bytes read back as the push wrote them,
/// restores the CPU exactly (the pair and SP included; for AF the low nibble of F is
/// always zero). The pop reads the very addresses that the push wrote.
pub proof fn lemma_push_then_pop(c: Cpu, p: u8, v: Seq<u8>)
    requires
        p < 4,
    ensures
        ({
            let val = rp2(c.reg, p);
            let sp = c.reg.sp;
            let (c1, ev1) = instr_spec(c, (0xC5 + 16 * p) as u8, v);
            let (c2, ev2) = instr_spec(c1, (0xC1 + 16 * p) as u8, seq![lo_byte(val), hi_byte(val)]);
            &&& ev1 == tk() + wr(add16(sp, -1), hi_byte(val)) + wr(add16(sp, -2), lo_byte(val))
            &&& ev2 == rd(add16(sp, -2), lo_byte(val)) + rd(add16(sp, -1), hi_byte(val))
            &&& c1.reg == Register { sp: add16(sp, -2), ..c.reg }
            &&& c2 == c
        }),
{
    let val = rp2(c.reg, p);
    lemma_push(c, p, v);
    let c1 = instr_spec(c, (0xC5 + 16 * p) as u8, v).0;
    lemma_pop(c1, p, lo_byte(val), hi_byte(val));
    lemma_word_split(val);
    let r = c.reg;
    lemma_split_word(r.a, super::flag_byte(r.f));
    lemma_split_word(r.b, r.c);
    lemma_split_word(r.d, r.e);
    lemma_split_word(r.h, r.l);
    lemma_flag_pack_unpack(r.f);
    let c2 = instr_spec(c1, (0xC1 + 16 * p) as u8, seq![lo_byte(val), hi_byte(val)]).0;
    assert(c2.reg == c.reg);
}

/// CALL nn, and later RET while SP is where the call left it and the two stack bytes
/// read back as the call wrote them: execution resumes after the three bytes of the CALL
/// (the opcode fetch has already moved PC past $CD) with SP as it was before the call.
#[verifier::spinoff_prover]
pub proof fn lemma_call_then_ret(c: Cpu, lo: u8, hi: u8, d: Cpu)
    requires
        d.reg.sp == add16(c.reg.sp, -2),
    ensures
        ({
            let ret = add16(c.reg.pc, 2);
            let sp = c.reg.sp;
            let (c1, ev1) = instr_spec(c, 0xCD, seq![lo, hi]);
            let (d2, ev2) = instr_spec(d, 0xC9, seq![lo_byte(ret), hi_byte(ret)]);
            &&& c1.reg == Register { pc: word(hi, lo), sp: add16(sp, -2), ..c.reg }
            &&& ev1 == rd(c.reg.pc, lo) + rd(add16(c.reg.pc, 1), hi) + tk() + wr(add16(sp, -1), hi_byte(ret))
                + wr(add16(sp, -2), lo_byte(ret))
            &&& ev2 == rd(add16(sp, -2), lo_byte(ret)) + rd(add16(sp, -1), hi_byte(ret)) + tk()
            &&& d2.reg == Register { pc: ret, sp, ..d.reg }
        }),
{
    lemma_instr_x3(c, 0xCD, seq![lo, hi]);
    let ret = add16(c.reg.pc, 2);
    lemma_instr_x3(d, 0xC9, seq![lo_byte(ret), hi_byte(ret)]);
    lemma_word_split(ret);
    let (c1, ev1) = instr_spec(c, 0xCD, seq![lo, hi]);
    assert(ev1 =~= rd(c.reg.pc, lo) + rd(add16(c.reg.pc, 1), hi) + tk() + wr(add16(c.reg.sp, -1), hi_byte(ret))
        + wr(add16(c.reg.sp, -2), lo_byte(ret)));
}

/// The flags that ADD A,B leaves.
pub open spec fn add_flags(a: u8, b: u8) -> Flag {
    let r1 = ((a + b) % 256) as u8;
    Flag { z: r1 == 0, n: false, h: (a ^ b ^ r1) & 0x10 != 0, c: a + b > 255 }
}

/// The correction that DAA adds after an addition.
pub open spec fn daa_add_adjust(f: Flag, r: u8) -> u8 {
    bit_if(f.c, 0x60) | bit_if(f.h, 0x06) | bit_if(r & 0x0f > 9, 0x06) | bit_if(r > 0x99, 0x60)
}

proof fn lemma_add_b(c: Cpu, v: Seq<u8>)
    ensures
        instr_spec(c, 0x80, v) == (
            Cpu {
                reg: Register { a: ((c.reg.a + c.reg.b) % 256) as u8, f: add_flags(c.reg.a, c.reg.b), ..c.reg },
                ..c
            },
            Seq::<super::BusEvent>::empty(),
        ),
{
    lemma_instr_x2(c, 0x80, v);
}

proof fn lemma_daa_after_add(c: Cpu, w: Seq<u8>)
    requires
        !c.reg.f.n,
    ensures
        ({
            let adj = daa_add_adjust(c.reg.f, c.reg.a);
            let r2 = ((c.reg.a + adj) % 256) as u8;
            instr_spec(c, 0x27, w) == (
                Cpu {
                    reg: Register { a: r2, f: Flag { z: r2 == 0, n: false, h: false, c: adj >= 0x60 }, ..c.reg },
                    ..c
                },
                Seq::<super::BusEvent>::empty(),
            )
        }),
{
    lemma_instr_x0(c, 0x27, w);
}

proof fn lemma_bcd_adjust(a: u8, b: u8)
    requires
        is_bcd(a),
        is_bcd(b),
    ensures
        ({
            let r1 = ((a + b) % 256) as u8;
            let adj = daa_add_adjust(add_flags(a, b), r1);
            let s = bcd_value(a) + bcd_value(b);
            &&& ((r1 + adj) % 256) as u8 == (s % 100) / 10 * 16 + (s % 100) % 10
            &&& (adj >= 0x60) == (s >= 100)
        }),
{
    let r1: u8 = ((a + b) % 256) as u8;
    let adj: u8 = daa_add_adjust(add_flags(a, b), r1);
    let r2: u8 = ((r1 + adj) % 256) as u8;
    assert(r2 == ((((a / 16) * 10 + a % 16 + (b / 16) * 10 + b % 16) % 100) / 10 * 16 + (((a / 16) * 10 + a
        % 16 + (b / 16) * 10 + b % 16) % 100) % 10) && (adj >= 0x60) == ((a / 16) * 10 + a % 16 + (b / 16) * 10
        + b % 16 >= 100)) by (bit_vector)
        requires
            a % 16 <= 9,
            a / 16 <= 9,
            b % 16 <= 9,
            b / 16 <= 9,
            r1 == ((a + b) % 256) as u8,
            adj == (bit_if(a + b > 255, 0x60) | bit_if((a ^ b ^ r1) & 0x10 != 0, 0x06) | bit_if(r1 & 0x0f > 9, 0x06)
                | bit_if(r1 > 0x99, 0x60)),
            r2 == ((r1 + adj) % 256) as u8,
    ;
}

/// ADD A,B then DAA on two packed-BCD bytes: A holds the decimal digits of their sum
/// modulo 100, carry is set exactly when the sum reaches 100, Z when A is zero, N and H
/// are clear. Neither instruction touches the bus.
pub proof fn lemma_add_then_daa(c: Cpu, v: Seq<u8>, w: Seq<u8>)
    requires
        is_bcd(c.reg.a),
        is_bcd(c.reg.b),
    ensures
        ({
            let s = bcd_value(c.reg.a) + bcd_value(c.reg.b);
            let (c1, ev1) = instr_spec(c, 0x80, v);
            let (c2, ev2) = instr_spec(c1, 0x27, w);
            &&& c2.reg.a == bcd_byte(s % 100)
            &&& c2.reg.f == Flag { z: c2.reg.a == 0, n: false, h: false, c: s >= 100 }
            &&& ev1 == Seq::<super::BusEvent>::empty() && ev2 == Seq::<super::BusEvent>::empty()
            &&& c2.reg == Register { a: c2.reg.a, f: c2.reg.f, ..c.reg }
        }),
{
    lemma_add_b(c, v);
    let c1 = instr_spec(c, 0x80, v).0;
    lemma_daa_after_add(c1, w);
    lemma_bcd_adjust(c.reg.a, c.reg.b);
}

/// The half-carry of an 8-bit addition is the carry out of the low nibbles, and the
/// half-borrow of a subtraction the borrow from the high nibble.
proof fn lemma_half_carry(a: u8, x: u8, c: u8, r: u8, s: u8)
    by (bit_vector)
    requires
        c <= 1,
        r == ((a as u16 + x as u16 + c as u16) % 256) as u8,
        s == ((a as u16 + 512 - x as u16 - c as u16) % 256) as u8,
    ensures
        (((a ^ x ^ r) & 0x10) != 0) == ((a % 16) + (x % 16) + c >= 16),
        (((a ^ x ^ s) & 0x10) != 0) == ((a % 16) < (x % 16) + c),
{
}

/// The arithmetic of A: ADD, ADC, SUB, SBC and CP give the sum or difference modulo 256
/// (ADC and SBC take the carry in), carry out exactly when the true sum passes 255 or the
/// difference goes below 0, half-carry exactly when the low nibbles carry or borrow, and
/// Z when the 8-bit result is zero; CP leaves A as it was.
#[verifier::spinoff_prover]
#[verifier::rlimit(60)]
pub proof fn lemma_alu_arith(f: Flag, a: u8, x: u8)
    ensures
        ({
            let cin: int = if f.c { 1 } else { 0 };
            let (add, fa) = alu(f, a, 0, x);
            let (adc, fc) = alu(f, a, 1, x);
            let (sub, fs) = alu(f, a, 2, x);
            let (sbc, fb) = alu(f, a, 3, x);
            let (cp, fp) = alu(f, a, 7, x);
            &&& add as int == (a + x) % 256 && fa.c == (a + x > 255) && fa.z == (add == 0) && !fa.n
            &&& fa.h == (a % 16 + x % 16 >= 16)
            &&& adc as int == (a + x + cin) % 256 && fc.c == (a + x + cin > 255) && fc.z == (adc == 0) && !fc.n
            &&& fc.h == (a % 16 + x % 16 + cin >= 16)
            &&& sub as int == (a - x + 256) % 256 && fs.c == (a < x) && fs.z == (sub == 0) && fs.n
            &&& fs.h == (a % 16 < x % 16)
            &&& sbc as int == (a - x - cin + 512) % 256 && fb.c == (a < x + cin) && fb.z == (sbc == 0) && fb.n
            &&& fb.h == (a % 16 < x % 16 + cin)
            &&& cp == a && fp.c == (a < x) && fp.z == (a == x) && fp.n && fp.h == (a % 16 < x % 16)
        }),
{
    let c: u8 = if f.c { 1 } else { 0 };
    lemma_half_carry(a, x, 0, ((a as u16 + x as u16) % 256) as u8, ((a as u16 + 512 - x as u16) % 256) as u8);
    lemma_half_carry(
        a,
        x,
        c,
        ((a as u16 + x as u16 + c as u16) % 256) as u8,
        ((a as u16 + 512 - x as u16 - c as u16) % 256) as u8,
    );
}

proof fn lemma_carry8(x: u8, ri: u8, rd: u8)
    by (bit_vector)
    requires
        ri == ((x as u16 + 1) % 256) as u8,
        rd == ((x as u16 + 255) % 256) as u8,
    ensures
        (((x ^ ri) & 0x10) != 0) == (x % 16 == 15),
        (((x ^ rd) & 0x10) != 0) == (x % 16 == 0),
{
}

proof fn lemma_carry16(hl: u16, w: u16, rw: u16)
    by (bit_vector)
    requires
        rw == ((hl + w) % 65536) as u16,
    ensures
        (((w ^ hl ^ rw) & 0x1000) != 0) == (hl % 4096 + w % 4096 >= 4096),
{
}

proof fn lemma_carry_sp(sp: u16, v: u8, opr: u16, rs: u16)
    by (bit_vector)
    requires
        opr == (if v < 128 { v as u16 } else { (v as u16 + 0xFF00) as u16 }),
        rs == ((sp + opr) % 65536) as u16,
    ensures
        (((opr ^ sp ^ rs) & 0x10) != 0) == (sp % 16 + v % 16 >= 16),
        (((opr ^ sp ^ rs) & 0x100) != 0) == (sp % 256 + v >= 256),
{
}

/// INC and DEC of a byte: the result is one more or one less modulo 256, Z when it is
/// zero, N only for DEC, half-carry when the low nibble wraps (from $F up, from 0 down),
/// and the carry flag untouched.
pub proof fn lemma_incdec(f: Flag, x: u8)
    ensures
        ({
            let (i, fi) = incdec(f, x, false);
            let (d, fd) = incdec(f, x, true);
            &&& i as int == (x + 1) % 256 && fi.z == (i == 0) && !fi.n && fi.h == (x % 16 == 15) && fi.c == f.c
            &&& d as int == (x + 255) % 256 && fd.z == (d == 0) && fd.n && fd.h == (x % 16 == 0) && fd.c == f.c
        }),
{
    lemma_carry8(x, ((x as u16 + 1) % 256) as u8, ((x as u16 + 255) % 256) as u8);
}

/// ADD HL,rr: HL becomes HL + rr modulo 65536, N clear, half-carry out of bit 11, carry
/// out of bit 15, Z untouched.
pub proof fn lemma_add_hl(r: Register, w: u16)
    ensures
        ({
            let hl = r.hl_spec();
            let n = add_hl(r, w);
            &&& n.hl_spec() as int == (hl + w) % 65536
            &&& !n.f.n && n.f.h == (hl % 4096 + w % 4096 >= 4096) && n.f.c == (hl + w > 0xFFFF) && n.f.z == r.f.z
        }),
{
    let hl = r.hl_spec();
    let rw = ((hl + w) % 65536) as u16;
    lemma_carry16(hl, w, rw);
    super::lemma_split_word(super::hi_byte(rw), super::lo_byte(rw));
    super::lemma_word_split(rw);
}

/// ADD SP,e and LD HL,SP+e: SP plus the signed byte e modulo 65536; Z and N clear, H and
/// C the carries out of bits 3 and 7 when the byte is added to SP's low byte unsigned.
pub proof fn lemma_add_sp(sp: u16, v: u8)
    ensures
        ({
            let (res, f) = add_sp(sp, v);
            let e: int = if v < 128 { v as int } else { v as int - 256 };
            &&& res as int == (sp + e + 65536) % 65536
            &&& !f.z && !f.n && f.h == (sp % 16 + v % 16 >= 16) && f.c == (sp % 256 + v >= 256)
        }),
{
    let opr: u16 = if v < 128 { v as u16 } else { (v as u16 + 0xFF00) as u16 };
    let rs = ((sp + opr) % 65536) as u16;
    lemma_carry_sp(sp, v, opr, rs);
}

/// The rotates and shifts of the $CB page (and RLCA, RRCA, RLA, RRA): each moves the bits
/// by one place, the bit shifted out goes to the carry, and what comes in is the bit
/// shifted out (RLC, RRC), the old carry (RL, RR), zero (SLA, SRL) or the old top bit
/// (SRA); SWAP exchanges the nibbles and clears the carry. Z when the result is zero; N
/// and H clear.
pub proof fn lemma_rot(f: Flag, x: u8)
    ensures
        ({
            let cin: int = if f.c { 1 } else { 0 };
            let top: int = (x / 128) as int;
            let bot: int = (x % 2) as int;
            &&& rot(f, 0, x).0 as int == (x * 2) % 256 + top && rot(f, 0, x).1.c == (top == 1)
            &&& rot(f, 1, x).0 as int == x / 2 + bot * 128 && rot(f, 1, x).1.c == (bot == 1)
            &&& rot(f, 2, x).0 as int == (x * 2) % 256 + cin && rot(f, 2, x).1.c == (top == 1)
            &&& rot(f, 3, x).0 as int == x / 2 + cin * 128 && rot(f, 3, x).1.c == (bot == 1)
            &&& rot(f, 4, x).0 as int == (x * 2) % 256 && rot(f, 4, x).1.c == (top == 1)
            &&& rot(f, 5, x).0 as int == x / 2 + top * 128 && rot(f, 5, x).1.c == (bot == 1)
            &&& rot(f, 6, x).0 as int == (x % 16) * 16 + x / 16 && !rot(f, 6, x).1.c
            &&& rot(f, 7, x).0 as int == x / 2 && rot(f, 7, x).1.c == (bot == 1)
            &&& forall|op: u8| op < 8 ==> {
                let (res, g) = #[trigger] rot(f, op, x);
                g.z == (res == 0) && !g.n && !g.h
            }
        }),
{
}

} // verus!
