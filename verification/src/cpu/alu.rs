//! The arithmetic of the instruction set, computed.
use vstd::prelude::*;
use super::{Flag, Register, bit_if};
use super::isa::{add8, add16, add_hl, add_sp, alu, cond, daa, incdec, rot, sext, r8, set_r8, rp, set_rp};

verus! {

/// A byte plus a byte and a carry, as the new byte and the carry out.
fn add_bytes(a: u8, x: u8, cin: u8) -> (r: (u8, bool))
    requires
        cin <= 1,
    ensures
        r.0 == add8(a, x + cin),
        r.1 == (a + x + cin > 255),
{
    let s: u16 = a as u16 + x as u16 + cin as u16;
    if s >= 256 {
        ((s - 256) as u8, true)
    } else {
        (s as u8, false)
    }
}

/// A byte minus a byte and a borrow, as the new byte and the borrow out.
fn sub_bytes(a: u8, x: u8, cin: u8) -> (r: (u8, bool))
    requires
        cin <= 1,
    ensures
        r.0 == add8(a, -(x + cin)),
        r.1 == (a < x + cin),
{
    let t: u16 = x as u16 + cin as u16;
    if (a as u16) < t {
        ((a as u16 + 256 - t) as u8, true)
    } else {
        ((a as u16 - t) as u8, false)
    }
}

pub fn alu_exec(f: Flag, a: u8, op: u8, x: u8) -> (r: (u8, Flag))
    requires
        op < 8,
    ensures
        r == alu(f, a, op, x),
{
    let cin: u8 = if f.c { 1 } else { 0 };
    if op == 0 {
        let (res, c) = add_bytes(a, x, 0);
        (res, Flag { z: res == 0, n: false, h: (a ^ x ^ res) & 0x10 != 0, c })
    } else if op == 1 {
        let (res, c) = add_bytes(a, x, cin);
        (res, Flag { z: res == 0, n: false, h: (a ^ x ^ res) & 0x10 != 0, c })
    } else if op == 2 {
        let (res, c) = sub_bytes(a, x, 0);
        (res, Flag { z: res == 0, n: true, h: (a ^ x ^ res) & 0x10 != 0, c })
    } else if op == 3 {
        let (res, c) = sub_bytes(a, x, cin);
        (res, Flag { z: res == 0, n: true, h: (a ^ x ^ res) & 0x10 != 0, c })
    } else if op == 4 {
        let res = a & x;
        (res, Flag { z: res == 0, n: false, h: true, c: false })
    } else if op == 5 {
        let res = a ^ x;
        (res, Flag { z: res == 0, n: false, h: false, c: false })
    } else if op == 6 {
        let res = a | x;
        (res, Flag { z: res == 0, n: false, h: false, c: false })
    } else {
        let (res, c) = sub_bytes(a, x, 0);
        (a, Flag { z: res == 0, n: true, h: (a ^ x ^ res) & 0x10 != 0, c })
    }
}

pub fn rot_exec(f: Flag, op: u8, x: u8) -> (r: (u8, Flag))
    requires
        op < 8,
    ensures
        r == rot(f, op, x),
{
    let cin: u16 = if f.c { 1 } else { 0 };
    let w = x as u16;
    let res: u8 = if op == 0 {
        ((w * 2) % 256 + w / 128) as u8
    } else if op == 1 {
        (w / 2 + (w % 2) * 128) as u8
    } else if op == 2 {
        ((w * 2) % 256 + cin) as u8
    } else if op == 3 {
        (w / 2 + cin * 128) as u8
    } else if op == 4 {
        ((w * 2) % 256) as u8
    } else if op == 5 {
        (w / 2 + (w / 128) * 128) as u8
    } else if op == 6 {
        ((w % 16) * 16 + w / 16) as u8
    } else {
        x / 2
    };
    let c = if op == 0 || op == 2 || op == 4 {
        x >= 128
    } else if op == 6 {
        false
    } else {
        x % 2 == 1
    };
    (res, Flag { z: res == 0, n: false, h: false, c })
}

pub fn daa_exec(f: Flag, a: u8) -> (r: (u8, Flag))
    ensures
        r == daa(f, a),
{
    let adj0: u8 = (if f.c { 0x60u8 } else { 0 }) | (if f.h { 0x06u8 } else { 0 });
    if !f.n {
        let adj = adj0 | (if a & 0x0f > 9 { 0x06u8 } else { 0 }) | (if a > 0x99 { 0x60u8 } else { 0 });
        let (res, _) = add_bytes(a, adj, 0);
        (res, Flag { z: res == 0, n: f.n, h: false, c: adj >= 0x60 })
    } else {
        let (res, _) = sub_bytes(a, adj0, 0);
        (res, Flag { z: res == 0, n: f.n, h: false, c: adj0 >= 0x60 })
    }
}

pub fn incdec_exec(f: Flag, x: u8, dec: bool) -> (r: (u8, Flag))
    ensures
        r == incdec(f, x, dec),
{
    let res = if dec {
        sub_bytes(x, 1, 0).0
    } else {
        add_bytes(x, 1, 0).0
    };
    (res, Flag { z: res == 0, n: dec, h: (x ^ res) & 0x10 != 0, c: f.c })
}

pub fn cond_exec(f: Flag, cc: u8) -> (r: bool)
    ensures
        r == cond(f, cc),
{
    if cc == 0 {
        !f.z
    } else if cc == 1 {
        f.z
    } else if cc == 2 {
        !f.c
    } else {
        f.c
    }
}

pub fn add16_exec(a: u16, b: u16) -> (r: u16)
    ensures
        r == add16(a, b as int),
{
    a.wrapping_add(b)
}

pub fn sub16_exec(a: u16, b: u16) -> (r: u16)
    ensures
        r == add16(a, -(b as int)),
{
    a.wrapping_sub(b)
}

/// A byte read as a signed offset, added to a word.
pub fn add_signed(a: u16, v: u8) -> (r: u16)
    ensures
        r == add16(a, sext(v)),
{
    if v < 128 {
        a.wrapping_add(v as u16)
    } else {
        a.wrapping_sub(256 - v as u16)
    }
}

/// SP plus a signed offset, with its flags.
pub fn add_sp_exec(sp: u16, v: u8) -> (r: (u16, Flag))
    ensures
        r == add_sp(sp, v),
{
    let opr = add_signed(0, v);
    let res = add_signed(sp, v);
    (res, Flag { z: false, n: false, h: (opr ^ sp ^ res) & 0x10 != 0, c: (opr ^ sp ^ res) & 0x100 != 0 })
}

impl Register {
    pub fn get_r8(&self, i: u8) -> (v: u8)
        ensures
            v == r8(*self, i),
    {
        if i == 0 {
            self.b
        } else if i == 1 {
            self.c
        } else if i == 2 {
            self.d
        } else if i == 3 {
            self.e
        } else if i == 4 {
            self.h
        } else if i == 5 {
            self.l
        } else {
            self.a
        }
    }

    pub fn put_r8(&mut self, i: u8, v: u8)
        ensures
            *final(self) == set_r8(*old(self), i, v),
    {
        if i == 0 {
            self.b = v;
        } else if i == 1 {
            self.c = v;
        } else if i == 2 {
            self.d = v;
        } else if i == 3 {
            self.e = v;
        } else if i == 4 {
            self.h = v;
        } else if i == 5 {
            self.l = v;
        } else {
            self.a = v;
        }
    }

    pub fn get_rp(&self, p: u8) -> (v: u16)
        ensures
            v == rp(*self, p),
    {
        if p == 0 {
            self.bc()
        } else if p == 1 {
            self.de()
        } else if p == 2 {
            self.hl()
        } else {
            self.sp
        }
    }

    pub fn put_rp(&mut self, p: u8, v: u16)
        ensures
            *final(self) == set_rp(*old(self), p, v),
    {
        if p == 0 {
            self.set_bc(v);
        } else if p == 1 {
            self.set_de(v);
        } else if p == 2 {
            self.set_hl(v);
        } else {
            self.sp = v;
        }
    }

    /// ADD HL,x.
    pub fn add_hl_exec(&mut self, x: u16)
        ensures
            *final(self) == add_hl(*old(self), x),
    {
        let hl = self.hl();
        let res = add16_exec(hl, x);
        self.f.n = false;
        self.f.h = (x ^ hl ^ res) & 0x1000 != 0;
        self.f.c = hl as u32 + x as u32 > 0xFFFF;
        self.set_hl(res);
    }
}

} // verus!
