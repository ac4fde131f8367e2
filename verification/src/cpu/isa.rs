//! The instruction set: what each opcode does to the registers and which bus accesses it
//! makes, given the bytes that its reads return.
use vstd::prelude::*;
use super::{BusEvent, Cpu, Flag, Register, bit_if, flag_of, flag_byte, hi_byte, lo_byte, word};

verus! {

/// `a + b` modulo 256, for `b` within one turn either way.
pub open spec fn add8(a: u8, b: int) -> u8 {
    let s = a as int + b;
    if s < 0 {
        (s + 256) as u8
    } else if s >= 256 {
        (s - 256) as u8
    } else {
        s as u8
    }
}

/// `a + b` modulo 65536, for `b` within one turn either way.
pub open spec fn add16(a: u16, b: int) -> u16 {
    let s = a as int + b;
    if s < 0 {
        (s + 0x10000) as u16
    } else if s >= 0x10000 {
        (s - 0x10000) as u16
    } else {
        s as u16
    }
}

/// A byte read as a signed offset.
pub open spec fn sext(v: u8) -> int {
    if v < 128 {
        v as int
    } else {
        v as int - 256
    }
}

/// A read: the access, then one machine cycle.
pub open spec fn rd(addr: u16, data: u8) -> Seq<BusEvent> {
    seq![BusEvent::Read { addr, data }, BusEvent::Tick]
}

/// A write: the access, then one machine cycle.
pub open spec fn wr(addr: u16, data: u8) -> Seq<BusEvent> {
    seq![BusEvent::Write { addr, data }, BusEvent::Tick]
}

/// An internal machine cycle.
pub open spec fn tk() -> Seq<BusEvent> {
    seq![BusEvent::Tick]
}

/// Machine cycles in a run of bus events.
pub open spec fn ticks(ev: Seq<BusEvent>) -> nat
    decreases ev.len(),
{
    if ev.len() == 0 {
        0
    } else {
        ticks(ev.drop_last()) + if ev.last() == BusEvent::Tick { 1nat } else { 0nat }
    }
}

/// A cycle counter after `n` more cycles; it stops at its limit.
pub open spec fn cycle_after(c: u64, n: nat) -> u64 {
    if c + n > u64::MAX {
        u64::MAX
    } else {
        (c + n) as u64
    }
}

/// The machine cycles of two event runs add up.
pub broadcast proof fn lemma_ticks_concat(a: Seq<BusEvent>, b: Seq<BusEvent>)
    ensures
        #[trigger] ticks(a + b) == ticks(a) + ticks(b),
    decreases b.len(),
{
    if b.len() == 0 {
        assert(a + b =~= a);
    } else {
        lemma_ticks_concat(a, b.drop_last());
        assert((a + b).drop_last() =~= a + b.drop_last());
    }
}

/// A read takes one machine cycle.
pub broadcast proof fn lemma_ticks_rd(addr: u16, v: u8)
    ensures
        #[trigger] ticks(rd(addr, v)) == 1,
{
    reveal_with_fuel(ticks, 3);
    assert(rd(addr, v).drop_last() =~= seq![BusEvent::Read { addr, data: v }]);
    assert(seq![BusEvent::Read { addr, data: v }].drop_last() =~= Seq::<BusEvent>::empty());
}

/// A write takes one machine cycle.
pub broadcast proof fn lemma_ticks_wr(addr: u16, v: u8)
    ensures
        #[trigger] ticks(wr(addr, v)) == 1,
{
    reveal_with_fuel(ticks, 3);
    assert(wr(addr, v).drop_last() =~= seq![BusEvent::Write { addr, data: v }]);
    assert(seq![BusEvent::Write { addr, data: v }].drop_last() =~= Seq::<BusEvent>::empty());
}

/// An internal cycle is one machine cycle.
pub proof fn lemma_ticks_tk()
    ensures
        ticks(tk()) == 1,
{
    reveal_with_fuel(ticks, 2);
    assert(tk().drop_last() =~= Seq::<BusEvent>::empty());
}

/// 8-bit register by its number in an opcode: B, C, D, E, H, L, (HL), A.
pub open spec fn r8(r: Register, i: u8) -> u8 {
    if i == 0 {
        r.b
    } else if i == 1 {
        r.c
    } else if i == 2 {
        r.d
    } else if i == 3 {
        r.e
    } else if i == 4 {
        r.h
    } else if i == 5 {
        r.l
    } else {
        r.a
    }
}

pub open spec fn set_r8(r: Register, i: u8, v: u8) -> Register {
    if i == 0 {
        Register { b: v, ..r }
    } else if i == 1 {
        Register { c: v, ..r }
    } else if i == 2 {
        Register { d: v, ..r }
    } else if i == 3 {
        Register { e: v, ..r }
    } else if i == 4 {
        Register { h: v, ..r }
    } else if i == 5 {
        Register { l: v, ..r }
    } else {
        Register { a: v, ..r }
    }
}

pub open spec fn set_hl(r: Register, v: u16) -> Register {
    Register { h: hi_byte(v), l: lo_byte(v), ..r }
}

/// Register pair by its number in an opcode: BC, DE, HL, SP.
pub open spec fn rp(r: Register, p: u8) -> u16 {
    if p == 0 {
        r.bc_spec()
    } else if p == 1 {
        r.de_spec()
    } else if p == 2 {
        r.hl_spec()
    } else {
        r.sp
    }
}

pub open spec fn set_rp(r: Register, p: u8, v: u16) -> Register {
    if p == 0 {
        Register { b: hi_byte(v), c: lo_byte(v), ..r }
    } else if p == 1 {
        Register { d: hi_byte(v), e: lo_byte(v), ..r }
    } else if p == 2 {
        set_hl(r, v)
    } else {
        Register { sp: v, ..r }
    }
}

/// Register pair for PUSH and POP: BC, DE, HL, AF.
pub open spec fn rp2(r: Register, p: u8) -> u16 {
    if p == 3 {
        r.af_spec()
    } else {
        rp(r, p)
    }
}

pub open spec fn set_rp2(r: Register, p: u8, v: u16) -> Register {
    if p == 3 {
        Register { a: hi_byte(v), f: flag_of(lo_byte(v)), ..r }
    } else {
        set_rp(r, p, v)
    }
}

/// Branch condition by its number in an opcode: NZ, Z, NC, C.
pub open spec fn cond(f: Flag, cc: u8) -> bool {
    if cc == 0 {
        !f.z
    } else if cc == 1 {
        f.z
    } else if cc == 2 {
        !f.c
    } else {
        f.c
    }
}

/// Arithmetic and logic on A: ADD, ADC, SUB, SBC, AND, XOR, OR, CP. Returns the new A
/// and flags.
pub open spec fn alu(f: Flag, a: u8, op: u8, x: u8) -> (u8, Flag) {
    let cin: int = if f.c { 1 } else { 0 };
    if op == 0 {
        let res = add8(a, x as int);
        (res, Flag { z: res == 0, n: false, h: (a ^ x ^ res) & 0x10 != 0, c: a + x > 255 })
    } else if op == 1 {
        let res = add8(a, x + cin);
        (res, Flag { z: res == 0, n: false, h: (a ^ x ^ res) & 0x10 != 0, c: a + x + cin > 255 })
    } else if op == 2 {
        let res = add8(a, -x);
        (res, Flag { z: res == 0, n: true, h: (a ^ x ^ res) & 0x10 != 0, c: a < x })
    } else if op == 3 {
        let res = add8(a, -(x + cin));
        (res, Flag { z: res == 0, n: true, h: (a ^ x ^ res) & 0x10 != 0, c: a < x + cin })
    } else if op == 4 {
        let res = a & x;
        (res, Flag { z: res == 0, n: false, h: true, c: false })
    } else if op == 5 {
        let res = a ^ x;
        (res, Flag { z: res == 0, n: false, h: false, c: false })
    } else if op == 6 {
        let res = a | x;
        (res, Flag { z: res == 0, n: false, h: false, c: false })
    } else {
        let res = add8(a, -x);
        (a, Flag { z: res == 0, n: true, h: (a ^ x ^ res) & 0x10 != 0, c: a < x })
    }
}

/// Rotates and shifts: RLC, RRC, RL, RR, SLA, SRA, SWAP, SRL.
pub open spec fn rot(f: Flag, op: u8, x: u8) -> (u8, Flag) {
    let cin: int = if f.c { 1 } else { 0 };
    let res: u8 = if op == 0 {
        ((x * 2) % 256 + x / 128) as u8
    } else if op == 1 {
        (x / 2 + (x % 2) * 128) as u8
    } else if op == 2 {
        ((x * 2) % 256 + cin) as u8
    } else if op == 3 {
        (x / 2 + cin * 128) as u8
    } else if op == 4 {
        ((x * 2) % 256) as u8
    } else if op == 5 {
        (x / 2 + (x / 128) * 128) as u8
    } else if op == 6 {
        ((x % 16) * 16 + x / 16) as u8
    } else {
        x / 2
    };
    let c = if op == 0 || op == 2 || op == 4 {
        x >= 128
    } else if op == 6 {
        false
    } else {
        x % 2 == 1
    };
    (res, Flag { z: res == 0, n: false, h: false, c })
}

/// Decimal adjustment of A after a BCD addition or subtraction.
pub open spec fn daa(f: Flag, a: u8) -> (u8, Flag) {
    let adj0 = bit_if(f.c, 0x60) | bit_if(f.h, 0x06);
    if !f.n {
        let adj = adj0 | bit_if(a & 0x0f > 9, 0x06) | bit_if(a > 0x99, 0x60);
        let res = add8(a, adj as int);
        (res, Flag { z: res == 0, n: f.n, h: false, c: adj >= 0x60 })
    } else {
        let res = add8(a, -adj0);
        (res, Flag { z: res == 0, n: f.n, h: false, c: adj0 >= 0x60 })
    }
}

/// ADD HL,x.
pub open spec fn add_hl(r: Register, x: u16) -> Register {
    let hl = r.hl_spec();
    let res = add16(hl, x as int);
    set_hl(Register { f: Flag { n: false, h: (x ^ hl ^ res) & 0x1000 != 0, c: hl + x > 0xFFFF, ..r.f }, ..r }, res)
}

/// SP plus a signed offset, with the flags of ADD SP,n and LD HL,SP+n.
pub open spec fn add_sp(sp: u16, v: u8) -> (u16, Flag) {
    let opr = add16(0, sext(v));
    let res = add16(sp, sext(v));
    (res, Flag { z: false, n: false, h: (opr ^ sp ^ res) & 0x10 != 0, c: (opr ^ sp ^ res) & 0x100 != 0 })
}

/// INC or DEC of a byte.
pub open spec fn incdec(f: Flag, x: u8, dec: bool) -> (u8, Flag) {
    let res = if dec { add8(x, -1) } else { add8(x, 1) };
    (res, Flag { z: res == 0, n: dec, h: (x ^ res) & 0x10 != 0, c: f.c })
}

pub open spec fn with_reg(c: Cpu, r: Register) -> Cpu {
    Cpu { reg: r, ..c }
}

pub open spec fn with_sp(r: Register, sp: u16) -> Register {
    Register { sp, ..r }
}

pub open spec fn at_pc(r: Register, n: int) -> Register {
    Register { pc: add16(r.pc, n), ..r }
}

/// Pushes a word: the high byte to SP-1, the low byte to SP-2.
pub open spec fn push_ev(sp: u16, v: u16) -> Seq<BusEvent> {
    wr(add16(sp, -1), hi_byte(v)) + wr(add16(sp, -2), lo_byte(v))
}

/// Opcodes $00-$3F.
pub open spec fn x0_spec(c: Cpu, y: u8, z: u8, v: Seq<u8>) -> (Cpu, Seq<BusEvent>) {
    let r = c.reg;
    let p = y / 2;
    let q = y % 2;
    let hl = r.hl_spec();
    if z == 0 {
        if y == 0 {
            (c, seq![])
        } else if y == 1 {
            let nn = word(v[1], v[0]);
            (with_reg(c, at_pc(r, 2)), rd(r.pc, v[0]) + rd(add16(r.pc, 1), v[1]) + wr(nn, lo_byte(r.sp)) + wr(
                add16(nn, 1),
                hi_byte(r.sp),
            ))
        } else if y == 2 {
            (Cpu { halting: true, ..c }, seq![BusEvent::Stop])
        } else if y == 3 || cond(r.f, (y - 4) as u8) {
            (with_reg(c, at_pc(r, 1 + sext(v[0]))), rd(r.pc, v[0]) + tk())
        } else {
            (with_reg(c, at_pc(r, 1)), rd(r.pc, v[0]))
        }
    } else if z == 1 {
        if q == 0 {
            (with_reg(c, set_rp(at_pc(r, 2), p, word(v[1], v[0]))), rd(r.pc, v[0]) + rd(add16(r.pc, 1), v[1]))
        } else {
            (with_reg(c, add_hl(r, rp(r, p))), tk())
        }
    } else if z == 2 {
        let addr = if p == 0 {
            r.bc_spec()
        } else if p == 1 {
            r.de_spec()
        } else {
            hl
        };
        let r2 = if p == 2 {
            set_hl(r, add16(hl, 1))
        } else if p == 3 {
            set_hl(r, add16(hl, -1))
        } else {
            r
        };
        if q == 0 {
            (with_reg(c, r2), wr(addr, r.a))
        } else {
            (with_reg(c, Register { a: v[0], ..r2 }), rd(addr, v[0]))
        }
    } else if z == 3 {
        (with_reg(c, set_rp(r, p, add16(rp(r, p), if q == 0 { 1 } else { -1 }))), tk())
    } else if z == 4 || z == 5 {
        if y == 6 {
            let (res, f2) = incdec(r.f, v[0], z == 5);
            (with_reg(c, Register { f: f2, ..r }), rd(hl, v[0]) + wr(hl, res))
        } else {
            let (res, f2) = incdec(r.f, r8(r, y), z == 5);
            (with_reg(c, set_r8(Register { f: f2, ..r }, y, res)), seq![])
        }
    } else if z == 6 {
        if y == 6 {
            (with_reg(c, at_pc(r, 1)), rd(r.pc, v[0]) + wr(hl, v[0]))
        } else {
            (with_reg(c, set_r8(at_pc(r, 1), y, v[0])), rd(r.pc, v[0]))
        }
    } else {
        if y < 4 {
            let (res, f2) = rot(r.f, y, r.a);
            (with_reg(c, Register { a: res, f: Flag { z: false, ..f2 }, ..r }), seq![])
        } else if y == 4 {
            let (res, f2) = daa(r.f, r.a);
            (with_reg(c, Register { a: res, f: f2, ..r }), seq![])
        } else if y == 5 {
            (with_reg(c, Register { a: r.a ^ 0xff, f: Flag { n: true, h: true, ..r.f }, ..r }), seq![])
        } else if y == 6 {
            (with_reg(c, Register { f: Flag { n: false, h: false, c: true, ..r.f }, ..r }), seq![])
        } else {
            (with_reg(c, Register { f: Flag { n: false, h: false, c: !r.f.c, ..r.f }, ..r }), seq![])
        }
    }
}

/// Opcodes $40-$7F: register loads, and HALT.
pub open spec fn x1_spec(c: Cpu, y: u8, z: u8, v: Seq<u8>) -> (Cpu, Seq<BusEvent>) {
    let r = c.reg;
    let hl = r.hl_spec();
    if y == 6 && z == 6 {
        (Cpu { halting: true, ..c }, seq![])
    } else if z == 6 {
        (with_reg(c, set_r8(r, y, v[0])), rd(hl, v[0]))
    } else if y == 6 {
        (c, wr(hl, r8(r, z)))
    } else {
        (with_reg(c, set_r8(r, y, r8(r, z))), seq![])
    }
}

/// Opcodes $80-$BF: arithmetic and logic on A.
pub open spec fn x2_spec(c: Cpu, y: u8, z: u8, v: Seq<u8>) -> (Cpu, Seq<BusEvent>) {
    let r = c.reg;
    let x = if z == 6 { v[0] } else { r8(r, z) };
    let (a2, f2) = alu(r.f, r.a, y, x);
    (with_reg(c, Register { a: a2, f: f2, ..r }), if z == 6 { rd(r.hl_spec(), v[0]) } else { seq![] })
}

/// Calls: the return address is pushed after an internal cycle.
pub open spec fn call_spec(c: Cpu, target: u16, ret: u16) -> (Cpu, Seq<BusEvent>) {
    let r = c.reg;
    (with_reg(c, Register { pc: target, sp: add16(r.sp, -2), ..r }), tk() + push_ev(r.sp, ret))
}

/// Opcodes $C0-$FF, but the $CB prefix.
pub open spec fn x3_spec(c: Cpu, y: u8, z: u8, v: Seq<u8>) -> (Cpu, Seq<BusEvent>) {
    let r = c.reg;
    let p = y / 2;
    let q = y % 2;
    let hl = r.hl_spec();
    let n8 = v[0];
    let nn = word(v[1], v[0]);
    let imm16 = rd(r.pc, v[0]) + rd(add16(r.pc, 1), v[1]);
    let popped = word(v[1], v[0]);
    let pop_ev = rd(r.sp, v[0]) + rd(add16(r.sp, 1), v[1]);
    if z == 0 {
        if y < 4 {
            if cond(r.f, y) {
                (with_reg(c, Register { pc: popped, sp: add16(r.sp, 2), ..r }), tk() + pop_ev + tk())
            } else {
                (c, tk())
            }
        } else if y == 4 {
            (with_reg(c, at_pc(r, 1)), rd(r.pc, n8) + wr(add16(0xFF00, n8 as int), r.a))
        } else if y == 5 {
            let (res, f2) = add_sp(r.sp, n8);
            (with_reg(c, Register { sp: res, f: f2, ..at_pc(r, 1) }), rd(r.pc, n8) + tk() + tk())
        } else if y == 6 {
            (with_reg(c, Register { a: v[1], ..at_pc(r, 1) }), rd(r.pc, n8) + rd(add16(0xFF00, n8 as int), v[1]))
        } else {
            let (res, f2) = add_sp(r.sp, n8);
            (with_reg(c, set_hl(Register { f: f2, ..at_pc(r, 1) }, res)), rd(r.pc, n8) + tk())
        }
    } else if z == 1 {
        if q == 0 {
            (with_reg(c, set_rp2(Register { sp: add16(r.sp, 2), ..r }, p, popped)), pop_ev)
        } else if p == 0 {
            (with_reg(c, Register { pc: popped, sp: add16(r.sp, 2), ..r }), pop_ev + tk())
        } else if p == 1 {
            (Cpu { interrupt_master_enable: true, reg: Register { pc: popped, sp: add16(r.sp, 2), ..r }, ..c }, pop_ev + tk())
        } else if p == 2 {
            (with_reg(c, Register { pc: hl, ..r }), seq![])
        } else {
            (with_reg(c, Register { sp: hl, ..r }), tk())
        }
    } else if z == 2 {
        if y < 4 {
            if cond(r.f, y) {
                (with_reg(c, Register { pc: nn, ..r }), imm16 + tk())
            } else {
                (with_reg(c, at_pc(r, 2)), imm16)
            }
        } else if y == 4 {
            (c, wr(add16(0xFF00, r.c as int), r.a))
        } else if y == 5 {
            (with_reg(c, at_pc(r, 2)), imm16 + wr(nn, r.a))
        } else if y == 6 {
            (with_reg(c, Register { a: v[0], ..r }), rd(add16(0xFF00, r.c as int), v[0]))
        } else {
            (with_reg(c, Register { a: v[2], ..at_pc(r, 2) }), imm16 + rd(nn, v[2]))
        }
    } else if z == 3 {
        if y == 0 {
            (with_reg(c, Register { pc: nn, ..r }), imm16 + tk())
        } else if y == 6 {
            (Cpu { interrupt_master_enable: false, prev_interrupt_enable: false, ..c }, seq![])
        } else {
            (Cpu { interrupt_master_enable: true, ..c }, seq![])
        }
    } else if z == 4 {
        if cond(r.f, y) {
            let (c2, ev) = call_spec(c, nn, add16(r.pc, 2));
            (c2, imm16 + ev)
        } else {
            (with_reg(c, at_pc(r, 2)), imm16)
        }
    } else if z == 5 {
        if q == 0 {
            (with_reg(c, Register { sp: add16(r.sp, -2), ..r }), tk() + push_ev(r.sp, rp2(r, p)))
        } else {
            let (c2, ev) = call_spec(c, nn, add16(r.pc, 2));
            (c2, imm16 + ev)
        }
    } else if z == 6 {
        let (a2, f2) = alu(r.f, r.a, y, n8);
        (with_reg(c, Register { a: a2, f: f2, ..at_pc(r, 1) }), rd(r.pc, n8))
    } else {
        call_spec(c, (y * 8) as u16, r.pc)
    }
}

/// The $CB-prefixed opcodes: the second opcode byte is fetched, then the rotate, bit
/// test, reset or set works on a register or on (HL).
pub open spec fn cb_spec(c: Cpu, v: Seq<u8>) -> (Cpu, Seq<BusEvent>) {
    let r = c.reg;
    let op = v[0];
    let x = op / 64;
    let y = (op / 8) % 8;
    let z = op % 8;
    let r1 = at_pc(r, 1);
    let hl = r.hl_spec();
    let val = if z == 6 { v[1] } else { r8(r, z) };
    let ev_in = rd(r.pc, op) + if z == 6 { rd(hl, v[1]) } else { seq![] };
    if x == 1 {
        let f2 = Flag { z: val & (1u8 << y) == 0, n: false, h: true, c: r.f.c };
        (with_reg(c, Register { f: f2, ..r1 }), ev_in)
    } else {
        let (res, f2) = if x == 0 {
            rot(r.f, y, val)
        } else if x == 2 {
            (val & !(1u8 << y), r.f)
        } else {
            (val | (1u8 << y), r.f)
        };
        if z == 6 {
            (with_reg(c, Register { f: f2, ..r1 }), ev_in + wr(hl, res))
        } else {
            (with_reg(c, set_r8(Register { f: f2, ..r1 }, z, res)), ev_in)
        }
    }
}

/// The opcodes with no instruction: $D3, $DB, $DD, $E3, $E4, $EB, $EC, $ED, $F4, $FC, $FD.
pub open spec fn is_unknown(opc: u8) -> bool {
    opc == 0xD3 || opc == 0xDB || opc == 0xDD || opc == 0xE3 || opc == 0xE4 || opc == 0xEB || opc == 0xEC
        || opc == 0xED || opc == 0xF4 || opc == 0xFC || opc == 0xFD
}

/// Executing an opcode (already fetched): the new CPU state, with the cycle counter left
/// as it was, and the bus accesses, where `v` lists the bytes that the reads return.
#[verifier::opaque]
pub open spec fn instr_spec(c: Cpu, opc: u8, v: Seq<u8>) -> (Cpu, Seq<BusEvent>) {
    let x = opc / 64;
    let y = (opc / 8) % 8;
    let z = opc % 8;
    if x == 0 {
        x0_spec(c, y, z, v)
    } else if x == 1 {
        x1_spec(c, y, z, v)
    } else if x == 2 {
        x2_spec(c, y, z, v)
    } else if opc == 0xCB {
        cb_spec(c, v)
    } else {
        x3_spec(c, y, z, v)
    }
}

/// Opcodes $00-$3F decode to `x0_spec`.
pub proof fn lemma_instr_x0(c: Cpu, opc: u8, v: Seq<u8>)
    requires
        opc < 64,
    ensures
        instr_spec(c, opc, v) == x0_spec(c, (opc / 8) % 8, opc % 8, v),
{
    reveal(instr_spec);
}

/// Opcodes $40-$7F decode to `x1_spec`.
pub proof fn lemma_instr_x1(c: Cpu, opc: u8, v: Seq<u8>)
    requires
        64 <= opc < 128,
    ensures
        instr_spec(c, opc, v) == x1_spec(c, (opc / 8) % 8, opc % 8, v),
{
    reveal(instr_spec);
}

/// Opcodes $80-$BF decode to `x2_spec`.
pub proof fn lemma_instr_x2(c: Cpu, opc: u8, v: Seq<u8>)
    requires
        128 <= opc < 192,
    ensures
        instr_spec(c, opc, v) == x2_spec(c, (opc / 8) % 8, opc % 8, v),
{
    reveal(instr_spec);
}

/// $CB decodes to `cb_spec`.
pub proof fn lemma_instr_cb(c: Cpu, v: Seq<u8>)
    ensures
        instr_spec(c, 0xCB, v) == cb_spec(c, v),
{
    reveal(instr_spec);
}

/// The other opcodes from $C0 decode to `x3_spec`.
pub proof fn lemma_instr_x3(c: Cpu, opc: u8, v: Seq<u8>)
    requires
        192 <= opc,
        opc != 0xCB,
    ensures
        instr_spec(c, opc, v) == x3_spec(c, (opc / 8) % 8, opc % 8, v),
{
    reveal(instr_spec);
}

/// `fin` is `spec` with the cycle counter advanced by the cycles of `ev`.
pub open spec fn after(fin: Cpu, spec: (Cpu, Seq<BusEvent>), start_cycle: u64, ev: Seq<BusEvent>) -> bool {
    &&& ev == spec.1
    &&& fin.reg == spec.0.reg
    &&& fin.halting == spec.0.halting
    &&& fin.interrupt_master_enable == spec.0.interrupt_master_enable
    &&& fin.prev_interrupt_enable == spec.0.prev_interrupt_enable
    &&& fin.period == spec.0.period
    &&& fin.cycle == cycle_after(start_cycle, ticks(ev))
}

} // verus!
