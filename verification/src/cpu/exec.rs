//! Executing one instruction against the bus.
use vstd::prelude::*;
use super::{BusEvent, Cpu, CpuContext, Flag, Register, hi_byte, lo_byte, make_word, split_word, word};
use super::isa::{
    add16, at_pc, with_sp, cycle_after, push_ev, rd, sext, ticks, tk, wr, x0_spec, x1_spec, x2_spec, x3_spec,
    cb_spec, call_spec, instr_spec, is_unknown, lemma_instr_x0, lemma_instr_x1, lemma_instr_x2, lemma_instr_x3, lemma_instr_cb, r8, set_r8, rp, set_rp, rp2, set_rp2, set_hl, alu, rot, daa,
    incdec, cond, add_hl, add_sp, lemma_ticks_rd, lemma_ticks_wr, lemma_ticks_tk, lemma_ticks_concat,
};
use super::alu::{alu_exec, rot_exec, daa_exec, incdec_exec, cond_exec, add16_exec, sub16_exec, add_signed, add_sp_exec};

verus! {

/// `c1`, with bus log `e1`, is `spec` reached from `c0` with log `e0`: the bus accesses
/// were appended, the registers and flags are as the spec says, and the cycle counter
/// advanced by the machine cycles of the accesses.
pub open spec fn stepped(c0: Cpu, c1: Cpu, e0: Seq<BusEvent>, e1: Seq<BusEvent>, spec: (Cpu, Seq<BusEvent>)) -> bool {
    &&& e1 == e0 + spec.1
    &&& c1.reg == spec.0.reg
    &&& c1.halting == spec.0.halting
    &&& c1.interrupt_master_enable == spec.0.interrupt_master_enable
    &&& c1.prev_interrupt_enable == spec.0.prev_interrupt_enable
    &&& c1.period == c0.period
    &&& c1.cycle == cycle_after(c0.cycle, ticks(spec.1))
}



/// `c1` is `c0` with registers `reg` and `n` more machine cycles.
pub open spec fn cpu_moved(c0: Cpu, c1: Cpu, reg: Register, n: nat) -> bool {
    &&& c1.reg == reg
    &&& c1.cycle == cycle_after(c0.cycle, n)
    &&& c1.halting == c0.halting
    &&& c1.interrupt_master_enable == c0.interrupt_master_enable
    &&& c1.prev_interrupt_enable == c0.prev_interrupt_enable
    &&& c1.period == c0.period
}

impl Cpu {
    /// One internal machine cycle.
    pub(crate) fn tick<C: CpuContext>(&mut self, ctx: &mut C)
        requires
            old(ctx).ctx_wf(),
        ensures
            final(ctx).anchor() == old(ctx).anchor(),
            final(ctx).ctx_wf(),
            final(ctx).events() == old(ctx).events() + tk(),
            cpu_moved(*old(self), *final(self), old(self).reg, 1),
    {
        self.cycle = self.cycle.saturating_add(1);
        ctx.bus_tick();
        proof {
            assert(old(ctx).events().push(BusEvent::Tick) =~= old(ctx).events() + tk());
        }
    }

    fn read<C: CpuContext>(&mut self, ctx: &mut C, addr: u16) -> (data: u8)
        requires
            old(ctx).ctx_wf(),
        ensures
            final(ctx).anchor() == old(ctx).anchor(),
            final(ctx).ctx_wf(),
            final(ctx).events() == old(ctx).events() + rd(addr, data),
            cpu_moved(*old(self), *final(self), old(self).reg, 1),
    {
        let data = ctx.bus_read(addr);
        self.tick(ctx);
        proof {
            assert(old(ctx).events().push(BusEvent::Read { addr, data }) + tk() =~= old(ctx).events() + rd(addr, data));
        }
        data
    }

    fn write<C: CpuContext>(&mut self, ctx: &mut C, addr: u16, data: u8)
        requires
            old(ctx).ctx_wf(),
        ensures
            final(ctx).anchor() == old(ctx).anchor(),
            final(ctx).ctx_wf(),
            final(ctx).events() == old(ctx).events() + wr(addr, data),
            cpu_moved(*old(self), *final(self), old(self).reg, 1),
    {
        ctx.bus_write(addr, data);
        self.tick(ctx);
        proof {
            assert(old(ctx).events().push(BusEvent::Write { addr, data }) + tk() =~= old(ctx).events() + wr(addr, data));
        }
    }

}

impl Cpu {
    /// Reads the byte at PC and steps PC.
    pub(crate) fn fetch<C: CpuContext>(&mut self, ctx: &mut C) -> (data: u8)
        requires
            old(ctx).ctx_wf(),
        ensures
            final(ctx).anchor() == old(ctx).anchor(),
            final(ctx).ctx_wf(),
            final(ctx).events() == old(ctx).events() + rd(old(self).reg.pc, data),
            cpu_moved(*old(self), *final(self), at_pc(old(self).reg, 1), 1),
    {
        let pc = self.reg.pc;
        let data = self.read(ctx, pc);
        self.reg.pc = pc.wrapping_add(1);
        data
    }

}

impl Cpu {
    /// Reads a little-endian word at PC and steps PC twice.
    fn fetch_u16<C: CpuContext>(&mut self, ctx: &mut C) -> (r: u16)
        requires
            old(ctx).ctx_wf(),
        ensures
            final(ctx).anchor() == old(ctx).anchor(),
            final(ctx).ctx_wf(),
            final(ctx).events() == old(ctx).events() + rd(old(self).reg.pc, lo_byte(r)) + rd(
                add16(old(self).reg.pc, 1),
                hi_byte(r),
            ),
            cpu_moved(*old(self), *final(self), at_pc(old(self).reg, 2), 2),
    {
        let lo = self.fetch(ctx);
        let hi = self.fetch(ctx);
        make_word(hi, lo)
    }

    fn write_u16<C: CpuContext>(&mut self, ctx: &mut C, addr: u16, data: u16)
        requires
            old(ctx).ctx_wf(),
        ensures
            final(ctx).anchor() == old(ctx).anchor(),
            final(ctx).ctx_wf(),
            final(ctx).events() == old(ctx).events() + wr(addr, lo_byte(data)) + wr(add16(addr, 1), hi_byte(data)),
            cpu_moved(*old(self), *final(self), old(self).reg, 2),
    {
        let (hi, lo) = split_word(data);
        self.write(ctx, addr, lo);
        self.write(ctx, addr.wrapping_add(1), hi);
    }

    pub(crate) fn push<C: CpuContext>(&mut self, ctx: &mut C, data: u8)
        requires
            old(ctx).ctx_wf(),
        ensures
            final(ctx).anchor() == old(ctx).anchor(),
            final(ctx).ctx_wf(),
            final(ctx).events() == old(ctx).events() + wr(add16(old(self).reg.sp, -1), data),
            cpu_moved(*old(self), *final(self), with_sp(old(self).reg, add16(old(self).reg.sp, -1)), 1),
    {
        self.reg.sp = self.reg.sp.wrapping_sub(1);
        let sp = self.reg.sp;
        self.write(ctx, sp, data);
    }

    /// Pushes a word, high byte first.
    pub(crate) fn push_u16<C: CpuContext>(&mut self, ctx: &mut C, data: u16)
        requires
            old(ctx).ctx_wf(),
        ensures
            final(ctx).anchor() == old(ctx).anchor(),
            final(ctx).ctx_wf(),
            final(ctx).events() == old(ctx).events() + push_ev(old(self).reg.sp, data),
            cpu_moved(*old(self), *final(self), with_sp(old(self).reg, add16(old(self).reg.sp, -2)), 2),
    {
        let (hi, lo) = split_word(data);
        self.push(ctx, hi);
        self.push(ctx, lo);
        proof {
            assert(add16(add16(old(self).reg.sp, -1), -1) == add16(old(self).reg.sp, -2));
        }
    }

    fn pop<C: CpuContext>(&mut self, ctx: &mut C) -> (data: u8)
        requires
            old(ctx).ctx_wf(),
        ensures
            final(ctx).anchor() == old(ctx).anchor(),
            final(ctx).ctx_wf(),
            final(ctx).events() == old(ctx).events() + rd(old(self).reg.sp, data),
            cpu_moved(*old(self), *final(self), with_sp(old(self).reg, add16(old(self).reg.sp, 1)), 1),
    {
        let sp = self.reg.sp;
        let data = self.read(ctx, sp);
        self.reg.sp = sp.wrapping_add(1);
        data
    }

    /// Pops a word, low byte first.
    fn pop_u16<C: CpuContext>(&mut self, ctx: &mut C) -> (r: u16)
        requires
            old(ctx).ctx_wf(),
        ensures
            final(ctx).anchor() == old(ctx).anchor(),
            final(ctx).ctx_wf(),
            final(ctx).events() == old(ctx).events() + rd(old(self).reg.sp, lo_byte(r)) + rd(
                add16(old(self).reg.sp, 1),
                hi_byte(r),
            ),
            cpu_moved(*old(self), *final(self), with_sp(old(self).reg, add16(old(self).reg.sp, 2)), 2),
    {
        let lo = self.pop(ctx);
        let hi = self.pop(ctx);
        make_word(hi, lo)
    }
}

impl Cpu {
    /// LD r,r', LD r,(HL), LD (HL),r, and HALT.
    fn exec_x1<C: CpuContext>(&mut self, ctx: &mut C, y: u8, z: u8)
        requires
            old(ctx).ctx_wf(),
            y < 8,
            z < 8,
        ensures
            final(ctx).anchor() == old(ctx).anchor(),
            final(ctx).ctx_wf(),
            exists|v: Seq<u8>|
                #[trigger] stepped(*old(self), *final(self), old(ctx).events(), final(ctx).events(), x1_spec(*old(self), y, z, v)),
    {
        let ghost c0 = *self;
        let ghost e0 = ctx.events();
        if y == 6 && z == 6 {
            self.halting = true;
            proof {
                assert(e0 + seq![] =~= e0);
                assert(stepped(c0, *self, e0, ctx.events(), x1_spec(c0, y, z, seq![])));
            }
        } else if z == 6 {
            let hl = self.reg.hl();
            let v = self.read(ctx, hl);
            self.reg.put_r8(y, v);
            proof {
                lemma_ticks_rd(hl, v);
                assert(stepped(c0, *self, e0, ctx.events(), x1_spec(c0, y, z, seq![v])));
            }
        } else if y == 6 {
            let hl = self.reg.hl();
            let d = self.reg.get_r8(z);
            self.write(ctx, hl, d);
            proof {
                lemma_ticks_wr(hl, d);
                assert(stepped(c0, *self, e0, ctx.events(), x1_spec(c0, y, z, seq![])));
            }
        } else {
            let d = self.reg.get_r8(z);
            self.reg.put_r8(y, d);
            proof {
                assert(e0 + seq![] =~= e0);
                assert(stepped(c0, *self, e0, ctx.events(), x1_spec(c0, y, z, seq![])));
            }
        }
    }

    /// ADD, ADC, SUB, SBC, AND, XOR, OR, CP on A with a register or (HL).
    fn exec_x2<C: CpuContext>(&mut self, ctx: &mut C, y: u8, z: u8)
        requires
            old(ctx).ctx_wf(),
            y < 8,
            z < 8,
        ensures
            final(ctx).anchor() == old(ctx).anchor(),
            final(ctx).ctx_wf(),
            exists|v: Seq<u8>|
                #[trigger] stepped(*old(self), *final(self), old(ctx).events(), final(ctx).events(), x2_spec(*old(self), y, z, v)),
    {
        let ghost c0 = *self;
        let ghost e0 = ctx.events();
        let x = if z == 6 {
            let hl = self.reg.hl();
            self.read(ctx, hl)
        } else {
            self.reg.get_r8(z)
        };
        let (a2, f2) = alu_exec(self.reg.f, self.reg.a, y, x);
        self.reg.a = a2;
        self.reg.f = f2;
        proof {
            if z == 6 {
                lemma_ticks_rd(c0.reg.hl_spec(), x);
                assert(stepped(c0, *self, e0, ctx.events(), x2_spec(c0, y, z, seq![x])));
            } else {
                assert(e0 + seq![] =~= e0);
                assert(stepped(c0, *self, e0, ctx.events(), x2_spec(c0, y, z, seq![x])));
            }
        }
    }
}

impl Cpu {
    /// NOP, LD (nn),SP, STOP, JR and JR cc.
    fn exec_x0_z0<C: CpuContext>(&mut self, ctx: &mut C, y: u8)
        requires
            old(ctx).ctx_wf(),
            y < 8,
        ensures
            final(ctx).anchor() == old(ctx).anchor(),
            final(ctx).ctx_wf(),
            exists|v: Seq<u8>|
                #[trigger] stepped(*old(self), *final(self), old(ctx).events(), final(ctx).events(), x0_spec(*old(self), y, 0, v)),
    {
        let ghost c0 = *self;
        let ghost e0 = ctx.events();
        if y == 0 {
            proof {
                assert(e0 + seq![] =~= e0);
                assert(stepped(c0, *self, e0, ctx.events(), x0_spec(c0, y, 0, seq![])));
            }
        } else if y == 1 {
            let nn = self.fetch_u16(ctx);
            let sp = self.reg.sp;
            self.write_u16(ctx, nn, sp);
            proof {
                let v = seq![lo_byte(nn), hi_byte(nn)];
                super::lemma_word_split(nn);
                let ev = rd(c0.reg.pc, v[0]) + rd(add16(c0.reg.pc, 1), v[1]) + wr(nn, lo_byte(sp)) + wr(add16(nn, 1), hi_byte(sp));
                lemma_ticks_rd(c0.reg.pc, v[0]);
                lemma_ticks_rd(add16(c0.reg.pc, 1), v[1]);
                lemma_ticks_wr(nn, lo_byte(sp));
                lemma_ticks_wr(add16(nn, 1), hi_byte(sp));
                lemma_ticks_concat(rd(c0.reg.pc, v[0]), rd(add16(c0.reg.pc, 1), v[1]));
                lemma_ticks_concat(rd(c0.reg.pc, v[0]) + rd(add16(c0.reg.pc, 1), v[1]), wr(nn, lo_byte(sp)));
                lemma_ticks_concat(rd(c0.reg.pc, v[0]) + rd(add16(c0.reg.pc, 1), v[1]) + wr(nn, lo_byte(sp)), wr(add16(nn, 1), hi_byte(sp)));
                assert(ctx.events() =~= e0 + ev);
                assert(stepped(c0, *self, e0, ctx.events(), x0_spec(c0, y, 0, v)));
            }
        } else if y == 2 {
            self.halting = true;
            ctx.bus_stop();
            proof {
                reveal_with_fuel(ticks, 2);
                assert(e0.push(BusEvent::Stop) =~= e0 + seq![BusEvent::Stop]);
                assert(seq![BusEvent::Stop].drop_last() =~= Seq::<BusEvent>::empty());
                assert(stepped(c0, *self, e0, ctx.events(), x0_spec(c0, y, 0, seq![])));
            }
        } else {
            let d = self.fetch(ctx);
            let take = y == 3 || cond_exec(self.reg.f, y - 4);
            if take {
                self.reg.pc = add_signed(self.reg.pc, d);
                self.tick(ctx);
                proof {
                    lemma_ticks_rd(c0.reg.pc, d);
                    lemma_ticks_tk();
                    lemma_ticks_concat(rd(c0.reg.pc, d), tk());
                    assert(ctx.events() =~= e0 + (rd(c0.reg.pc, d) + tk()));
                    assert(add16(add16(c0.reg.pc, 1), sext(d)) == add16(c0.reg.pc, 1 + sext(d)));
                    assert(stepped(c0, *self, e0, ctx.events(), x0_spec(c0, y, 0, seq![d])));
                }
            } else {
                proof {
                    lemma_ticks_rd(c0.reg.pc, d);
                    assert(stepped(c0, *self, e0, ctx.events(), x0_spec(c0, y, 0, seq![d])));
                }
            }
        }
    }

    /// LD rp,nn and ADD HL,rp.
    fn exec_x0_z1<C: CpuContext>(&mut self, ctx: &mut C, y: u8)
        requires
            old(ctx).ctx_wf(),
            y < 8,
        ensures
            final(ctx).anchor() == old(ctx).anchor(),
            final(ctx).ctx_wf(),
            exists|v: Seq<u8>|
                #[trigger] stepped(*old(self), *final(self), old(ctx).events(), final(ctx).events(), x0_spec(*old(self), y, 1, v)),
    {
        let ghost c0 = *self;
        let ghost e0 = ctx.events();
        let p = y / 2;
        if y % 2 == 0 {
            let nn = self.fetch_u16(ctx);
            self.reg.put_rp(p, nn);
            proof {
                let v = seq![lo_byte(nn), hi_byte(nn)];
                super::lemma_word_split(nn);
                lemma_ticks_rd(c0.reg.pc, v[0]);
                lemma_ticks_rd(add16(c0.reg.pc, 1), v[1]);
                lemma_ticks_concat(rd(c0.reg.pc, v[0]), rd(add16(c0.reg.pc, 1), v[1]));
                assert(ctx.events() =~= e0 + (rd(c0.reg.pc, v[0]) + rd(add16(c0.reg.pc, 1), v[1])));
                assert(stepped(c0, *self, e0, ctx.events(), x0_spec(c0, y, 1, v)));
            }
        } else {
            let x = self.reg.get_rp(p);
            self.tick(ctx);
            self.reg.add_hl_exec(x);
            proof {
                lemma_ticks_tk();
                assert(stepped(c0, *self, e0, ctx.events(), x0_spec(c0, y, 1, seq![])));
            }
        }
    }

    /// LD (BC),A, LD (DE),A, LD (HL+),A, LD (HL-),A and the loads the other way.
    fn exec_x0_z2<C: CpuContext>(&mut self, ctx: &mut C, y: u8)
        requires
            old(ctx).ctx_wf(),
            y < 8,
        ensures
            final(ctx).anchor() == old(ctx).anchor(),
            final(ctx).ctx_wf(),
            exists|v: Seq<u8>|
                #[trigger] stepped(*old(self), *final(self), old(ctx).events(), final(ctx).events(), x0_spec(*old(self), y, 2, v)),
    {
        let ghost c0 = *self;
        let ghost e0 = ctx.events();
        let p = y / 2;
        let hl = self.reg.hl();
        let addr = if p == 0 {
            self.reg.bc()
        } else if p == 1 {
            self.reg.de()
        } else {
            hl
        };
        if p == 2 {
            self.reg.set_hl(add16_exec(hl, 1));
        } else if p == 3 {
            self.reg.set_hl(sub16_exec(hl, 1));
        }
        if y % 2 == 0 {
            let a = self.reg.a;
            self.write(ctx, addr, a);
            proof {
                lemma_ticks_wr(addr, a);
                assert(stepped(c0, *self, e0, ctx.events(), x0_spec(c0, y, 2, seq![])));
            }
        } else {
            let d = self.read(ctx, addr);
            self.reg.a = d;
            proof {
                lemma_ticks_rd(addr, d);
                assert(stepped(c0, *self, e0, ctx.events(), x0_spec(c0, y, 2, seq![d])));
            }
        }
    }

    /// INC rp and DEC rp.
    fn exec_x0_z3<C: CpuContext>(&mut self, ctx: &mut C, y: u8)
        requires
            old(ctx).ctx_wf(),
            y < 8,
        ensures
            final(ctx).anchor() == old(ctx).anchor(),
            final(ctx).ctx_wf(),
            exists|v: Seq<u8>|
                #[trigger] stepped(*old(self), *final(self), old(ctx).events(), final(ctx).events(), x0_spec(*old(self), y, 3, v)),
    {
        let ghost c0 = *self;
        let ghost e0 = ctx.events();
        let p = y / 2;
        let x = self.reg.get_rp(p);
        self.tick(ctx);
        let res = if y % 2 == 0 {
            add16_exec(x, 1)
        } else {
            sub16_exec(x, 1)
        };
        self.reg.put_rp(p, res);
        proof {
            lemma_ticks_tk();
            assert(stepped(c0, *self, e0, ctx.events(), x0_spec(c0, y, 3, seq![])));
        }
    }

    /// INC r, DEC r, INC (HL), DEC (HL).
    fn exec_x0_incdec<C: CpuContext>(&mut self, ctx: &mut C, y: u8, z: u8)
        requires
            old(ctx).ctx_wf(),
            y < 8,
            z == 4 || z == 5,
        ensures
            final(ctx).anchor() == old(ctx).anchor(),
            final(ctx).ctx_wf(),
            exists|v: Seq<u8>|
                #[trigger] stepped(*old(self), *final(self), old(ctx).events(), final(ctx).events(), x0_spec(*old(self), y, z, v)),
    {
        let ghost c0 = *self;
        let ghost e0 = ctx.events();
        if y == 6 {
            let hl = self.reg.hl();
            let x = self.read(ctx, hl);
            let (res, f2) = incdec_exec(self.reg.f, x, z == 5);
            self.reg.f = f2;
            self.write(ctx, hl, res);
            proof {
                lemma_ticks_rd(hl, x);
                lemma_ticks_wr(hl, res);
                lemma_ticks_concat(rd(hl, x), wr(hl, res));
                assert(ctx.events() =~= e0 + (rd(hl, x) + wr(hl, res)));
                assert(stepped(c0, *self, e0, ctx.events(), x0_spec(c0, y, z, seq![x])));
            }
        } else {
            let x = self.reg.get_r8(y);
            let (res, f2) = incdec_exec(self.reg.f, x, z == 5);
            self.reg.f = f2;
            self.reg.put_r8(y, res);
            proof {
                assert(e0 + seq![] =~= e0);
                assert(stepped(c0, *self, e0, ctx.events(), x0_spec(c0, y, z, seq![])));
            }
        }
    }

    /// LD r,n and LD (HL),n.
    fn exec_x0_z6<C: CpuContext>(&mut self, ctx: &mut C, y: u8)
        requires
            old(ctx).ctx_wf(),
            y < 8,
        ensures
            final(ctx).anchor() == old(ctx).anchor(),
            final(ctx).ctx_wf(),
            exists|v: Seq<u8>|
                #[trigger] stepped(*old(self), *final(self), old(ctx).events(), final(ctx).events(), x0_spec(*old(self), y, 6, v)),
    {
        let ghost c0 = *self;
        let ghost e0 = ctx.events();
        let d = self.fetch(ctx);
        if y == 6 {
            let hl = self.reg.hl();
            self.write(ctx, hl, d);
            proof {
                lemma_ticks_rd(c0.reg.pc, d);
                lemma_ticks_wr(hl, d);
                lemma_ticks_concat(rd(c0.reg.pc, d), wr(hl, d));
                assert(ctx.events() =~= e0 + (rd(c0.reg.pc, d) + wr(hl, d)));
                assert(stepped(c0, *self, e0, ctx.events(), x0_spec(c0, y, 6, seq![d])));
            }
        } else {
            self.reg.put_r8(y, d);
            proof {
                lemma_ticks_rd(c0.reg.pc, d);
                assert(stepped(c0, *self, e0, ctx.events(), x0_spec(c0, y, 6, seq![d])));
            }
        }
    }

    /// RLCA, RRCA, RLA, RRA, DAA, CPL, SCF, CCF.
    fn exec_x0_z7(&mut self, y: u8)
        requires
            y < 8,
        ensures
            forall|e: Seq<BusEvent>|
                #[trigger] stepped(*old(self), *final(self), e, e, x0_spec(*old(self), y, 7, seq![])),
    {
        let ghost c0 = *self;
        let f = self.reg.f;
        let a = self.reg.a;
        if y < 4 {
            let (res, f2) = rot_exec(f, y, a);
            self.reg.a = res;
            self.reg.f = Flag { z: false, ..f2 };
        } else if y == 4 {
            let (res, f2) = daa_exec(f, a);
            self.reg.a = res;
            self.reg.f = f2;
        } else if y == 5 {
            self.reg.a = a ^ 0xff;
            self.reg.f.n = true;
            self.reg.f.h = true;
        } else if y == 6 {
            self.reg.f.n = false;
            self.reg.f.h = false;
            self.reg.f.c = true;
        } else {
            self.reg.f.n = false;
            self.reg.f.h = false;
            self.reg.f.c = !f.c;
        }
        proof {
            assert forall|e: Seq<BusEvent>| #[trigger] stepped(c0, *self, e, e, x0_spec(c0, y, 7, seq![])) by {
                assert(e + seq![] =~= e);
            }
        }
    }
}

impl Cpu {
    /// An internal cycle, then the return address is pushed and PC jumps.
    fn call_to<C: CpuContext>(&mut self, ctx: &mut C, target: u16, ret: u16)
        requires
            old(ctx).ctx_wf(),
        ensures
            final(ctx).anchor() == old(ctx).anchor(),
            final(ctx).ctx_wf(),
            stepped(*old(self), *final(self), old(ctx).events(), final(ctx).events(), call_spec(*old(self), target, ret)),
    {
        let ghost c0 = *self;
        let ghost e0 = ctx.events();
        self.tick(ctx);
        self.push_u16(ctx, ret);
        self.reg.pc = target;
        proof {
            lemma_ticks_tk();
            lemma_ticks_wr(add16(c0.reg.sp, -1), hi_byte(ret));
            lemma_ticks_wr(add16(c0.reg.sp, -2), lo_byte(ret));
            lemma_ticks_concat(wr(add16(c0.reg.sp, -1), hi_byte(ret)), wr(add16(c0.reg.sp, -2), lo_byte(ret)));
            lemma_ticks_concat(tk(), push_ev(c0.reg.sp, ret));
            assert(ctx.events() =~= e0 + (tk() + push_ev(c0.reg.sp, ret)));
        }
    }

    /// RET cc, LDH (n),A, ADD SP,n, LDH A,(n), LD HL,SP+n.
    fn exec_x3_z0<C: CpuContext>(&mut self, ctx: &mut C, y: u8)
        requires
            old(ctx).ctx_wf(),
            y < 8,
        ensures
            final(ctx).anchor() == old(ctx).anchor(),
            final(ctx).ctx_wf(),
            exists|v: Seq<u8>|
                #[trigger] stepped(*old(self), *final(self), old(ctx).events(), final(ctx).events(), x3_spec(*old(self), y, 0, v)),
    {
        let ghost c0 = *self;
        let ghost e0 = ctx.events();
        let pc = self.reg.pc;
        if y < 4 {
            self.tick(ctx);
            if cond_exec(self.reg.f, y) {
                let ret = self.pop_u16(ctx);
                self.reg.pc = ret;
                self.tick(ctx);
                proof {
                    let v = seq![lo_byte(ret), hi_byte(ret)];
                    super::lemma_word_split(ret);
                    let pe = rd(c0.reg.sp, v[0]) + rd(add16(c0.reg.sp, 1), v[1]);
                    lemma_ticks_tk();
                    lemma_ticks_rd(c0.reg.sp, v[0]);
                    lemma_ticks_rd(add16(c0.reg.sp, 1), v[1]);
                    lemma_ticks_concat(rd(c0.reg.sp, v[0]), rd(add16(c0.reg.sp, 1), v[1]));
                    lemma_ticks_concat(tk(), pe);
                    lemma_ticks_concat(tk() + pe, tk());
                    assert(ctx.events() =~= e0 + (tk() + pe + tk()));
                    assert(stepped(c0, *self, e0, ctx.events(), x3_spec(c0, y, 0, v)));
                }
            } else {
                proof {
                    lemma_ticks_tk();
                    assert(stepped(c0, *self, e0, ctx.events(), x3_spec(c0, y, 0, seq![0u8, 0u8])));
                }
            }
        } else if y == 4 {
            let n = self.fetch(ctx);
            let a = self.reg.a;
            let addr = 0xFF00u16 + n as u16;
            self.write(ctx, addr, a);
            proof {
                lemma_ticks_rd(pc, n);
                lemma_ticks_wr(addr, a);
                lemma_ticks_concat(rd(pc, n), wr(addr, a));
                assert(ctx.events() =~= e0 + (rd(pc, n) + wr(addr, a)));
                assert(stepped(c0, *self, e0, ctx.events(), x3_spec(c0, y, 0, seq![n, 0u8])));
            }
        } else if y == 5 {
            let n = self.fetch(ctx);
            self.tick(ctx);
            self.tick(ctx);
            let (res, f2) = add_sp_exec(self.reg.sp, n);
            self.reg.sp = res;
            self.reg.f = f2;
            proof {
                lemma_ticks_rd(pc, n);
                lemma_ticks_tk();
                lemma_ticks_concat(rd(pc, n), tk());
                lemma_ticks_concat(rd(pc, n) + tk(), tk());
                assert(ctx.events() =~= e0 + (rd(pc, n) + tk() + tk()));
                assert(stepped(c0, *self, e0, ctx.events(), x3_spec(c0, y, 0, seq![n, 0u8])));
            }
        } else if y == 6 {
            let n = self.fetch(ctx);
            let addr = 0xFF00u16 + n as u16;
            let d = self.read(ctx, addr);
            self.reg.a = d;
            proof {
                lemma_ticks_rd(pc, n);
                lemma_ticks_rd(addr, d);
                lemma_ticks_concat(rd(pc, n), rd(addr, d));
                assert(ctx.events() =~= e0 + (rd(pc, n) + rd(addr, d)));
                assert(stepped(c0, *self, e0, ctx.events(), x3_spec(c0, y, 0, seq![n, d])));
            }
        } else {
            let n = self.fetch(ctx);
            let (res, f2) = add_sp_exec(self.reg.sp, n);
            self.reg.f = f2;
            self.tick(ctx);
            self.reg.set_hl(res);
            proof {
                lemma_ticks_rd(pc, n);
                lemma_ticks_tk();
                lemma_ticks_concat(rd(pc, n), tk());
                assert(ctx.events() =~= e0 + (rd(pc, n) + tk()));
                assert(stepped(c0, *self, e0, ctx.events(), x3_spec(c0, y, 0, seq![n, 0u8])));
            }
        }
    }

    /// POP rr, RET, RETI, JP (HL), LD SP,HL.
    fn exec_x3_z1<C: CpuContext>(&mut self, ctx: &mut C, y: u8)
        requires
            old(ctx).ctx_wf(),
            y < 8,
        ensures
            final(ctx).anchor() == old(ctx).anchor(),
            final(ctx).ctx_wf(),
            exists|v: Seq<u8>|
                #[trigger] stepped(*old(self), *final(self), old(ctx).events(), final(ctx).events(), x3_spec(*old(self), y, 1, v)),
    {
        let ghost c0 = *self;
        let ghost e0 = ctx.events();
        let p = y / 2;
        if y % 2 == 0 || p < 2 {
            let w = self.pop_u16(ctx);
            proof {
                super::lemma_word_split(w);
                lemma_ticks_rd(c0.reg.sp, lo_byte(w));
                lemma_ticks_rd(add16(c0.reg.sp, 1), hi_byte(w));
                lemma_ticks_concat(rd(c0.reg.sp, lo_byte(w)), rd(add16(c0.reg.sp, 1), hi_byte(w)));
            }
            if y % 2 == 0 {
                if p == 3 {
                    self.reg.set_af(w);
                } else {
                    self.reg.put_rp(p, w);
                }
                proof {
                    assert(ctx.events() =~= e0 + (rd(c0.reg.sp, lo_byte(w)) + rd(add16(c0.reg.sp, 1), hi_byte(w))));
                    assert(stepped(c0, *self, e0, ctx.events(), x3_spec(c0, y, 1, seq![lo_byte(w), hi_byte(w)])));
                }
            } else {
                self.reg.pc = w;
                self.tick(ctx);
                if p == 1 {
                    self.interrupt_master_enable = true;
                }
                proof {
                    let pe = rd(c0.reg.sp, lo_byte(w)) + rd(add16(c0.reg.sp, 1), hi_byte(w));
                    lemma_ticks_tk();
                    lemma_ticks_concat(pe, tk());
                    assert(ctx.events() =~= e0 + (pe + tk()));
                    assert(stepped(c0, *self, e0, ctx.events(), x3_spec(c0, y, 1, seq![lo_byte(w), hi_byte(w)])));
                }
            }
        } else if p == 2 {
            self.reg.pc = self.reg.hl();
            proof {
                assert(e0 + seq![] =~= e0);
                assert(stepped(c0, *self, e0, ctx.events(), x3_spec(c0, y, 1, seq![0u8, 0u8])));
            }
        } else {
            self.reg.sp = self.reg.hl();
            self.tick(ctx);
            proof {
                lemma_ticks_tk();
                assert(stepped(c0, *self, e0, ctx.events(), x3_spec(c0, y, 1, seq![0u8, 0u8])));
            }
        }
    }
}

impl Cpu {
    /// JP cc,nn, LD (C),A, LD (nn),A, LD A,(C), LD A,(nn).
    fn exec_x3_z2<C: CpuContext>(&mut self, ctx: &mut C, y: u8)
        requires
            old(ctx).ctx_wf(),
            y < 8,
        ensures
            final(ctx).anchor() == old(ctx).anchor(),
            final(ctx).ctx_wf(),
            exists|v: Seq<u8>|
                #[trigger] stepped(*old(self), *final(self), old(ctx).events(), final(ctx).events(), x3_spec(*old(self), y, 2, v)),
    {
        let ghost c0 = *self;
        let ghost e0 = ctx.events();
        let pc = self.reg.pc;
        if y == 4 || y == 6 {
            let addr = 0xFF00u16 + self.reg.c as u16;
            if y == 4 {
                let a = self.reg.a;
                self.write(ctx, addr, a);
                proof {
                    lemma_ticks_wr(addr, a);
                    assert(stepped(c0, *self, e0, ctx.events(), x3_spec(c0, y, 2, seq![0u8, 0u8])));
                }
            } else {
                let d = self.read(ctx, addr);
                self.reg.a = d;
                proof {
                    lemma_ticks_rd(addr, d);
                    assert(stepped(c0, *self, e0, ctx.events(), x3_spec(c0, y, 2, seq![d, 0u8])));
                }
            }
        } else {
            let nn = self.fetch_u16(ctx);
            let ghost imm = rd(pc, lo_byte(nn)) + rd(add16(pc, 1), hi_byte(nn));
            proof {
                super::lemma_word_split(nn);
                lemma_ticks_rd(pc, lo_byte(nn));
                lemma_ticks_rd(add16(pc, 1), hi_byte(nn));
                lemma_ticks_concat(rd(pc, lo_byte(nn)), rd(add16(pc, 1), hi_byte(nn)));
                assert(ctx.events() =~= e0 + imm);
            }
            if y < 4 {
                if cond_exec(self.reg.f, y) {
                    self.reg.pc = nn;
                    self.tick(ctx);
                    proof {
                        lemma_ticks_tk();
                        lemma_ticks_concat(imm, tk());
                        assert(ctx.events() =~= e0 + (imm + tk()));
                    }
                }
                proof {
                    assert(stepped(c0, *self, e0, ctx.events(), x3_spec(c0, y, 2, seq![lo_byte(nn), hi_byte(nn)])));
                }
            } else if y == 5 {
                let a = self.reg.a;
                self.write(ctx, nn, a);
                proof {
                    lemma_ticks_wr(nn, a);
                    lemma_ticks_concat(imm, wr(nn, a));
                    assert(ctx.events() =~= e0 + (imm + wr(nn, a)));
                    assert(stepped(c0, *self, e0, ctx.events(), x3_spec(c0, y, 2, seq![lo_byte(nn), hi_byte(nn)])));
                }
            } else {
                let d = self.read(ctx, nn);
                self.reg.a = d;
                proof {
                    lemma_ticks_rd(nn, d);
                    lemma_ticks_concat(imm, rd(nn, d));
                    assert(ctx.events() =~= e0 + (imm + rd(nn, d)));
                    assert(stepped(c0, *self, e0, ctx.events(), x3_spec(c0, y, 2, seq![lo_byte(nn), hi_byte(nn), d])));
                }
            }
        }
    }

    /// JP nn, CALL cc,nn, CALL nn: the target is fetched, then the jump or call.
    fn exec_x3_jump<C: CpuContext>(&mut self, ctx: &mut C, y: u8, z: u8)
        requires
            old(ctx).ctx_wf(),
            y < 8,
            (z == 3 && y == 0) || (z == 4 && y < 4) || (z == 5 && y == 1),
        ensures
            final(ctx).anchor() == old(ctx).anchor(),
            final(ctx).ctx_wf(),
            exists|v: Seq<u8>|
                #[trigger] stepped(*old(self), *final(self), old(ctx).events(), final(ctx).events(), x3_spec(*old(self), y, z, v)),
    {
        let ghost c0 = *self;
        let ghost e0 = ctx.events();
        let pc = self.reg.pc;
        let nn = self.fetch_u16(ctx);
        let ghost imm = rd(pc, lo_byte(nn)) + rd(add16(pc, 1), hi_byte(nn));
        let ghost v = seq![lo_byte(nn), hi_byte(nn)];
        proof {
            super::lemma_word_split(nn);
            lemma_ticks_rd(pc, lo_byte(nn));
            lemma_ticks_rd(add16(pc, 1), hi_byte(nn));
            lemma_ticks_concat(rd(pc, lo_byte(nn)), rd(add16(pc, 1), hi_byte(nn)));
            assert(ctx.events() =~= e0 + imm);
        }
        if z == 3 {
            self.reg.pc = nn;
            self.tick(ctx);
            proof {
                lemma_ticks_tk();
                lemma_ticks_concat(imm, tk());
                assert(ctx.events() =~= e0 + (imm + tk()));
                assert(stepped(c0, *self, e0, ctx.events(), x3_spec(c0, y, z, v)));
            }
        } else if z == 5 || cond_exec(self.reg.f, y) {
            let ret = self.reg.pc;
            let ghost c1 = *self;
            let ghost e1 = ctx.events();
            self.call_to(ctx, nn, ret);
            proof {
                let cs = call_spec(c0, nn, add16(c0.reg.pc, 2));
                assert(call_spec(c1, nn, ret).1 == cs.1);
                lemma_ticks_concat(imm, cs.1);
                assert(ctx.events() =~= e0 + (imm + cs.1));
                assert(stepped(c0, *self, e0, ctx.events(), x3_spec(c0, y, z, v)));
            }
        } else {
            proof {
                assert(stepped(c0, *self, e0, ctx.events(), x3_spec(c0, y, z, v)));
            }
        }
    }

    /// PUSH rr.
    fn exec_push<C: CpuContext>(&mut self, ctx: &mut C, y: u8)
        requires
            old(ctx).ctx_wf(),
            y < 8,
            y % 2 == 0,
        ensures
            final(ctx).anchor() == old(ctx).anchor(),
            final(ctx).ctx_wf(),
            exists|v: Seq<u8>|
                #[trigger] stepped(*old(self), *final(self), old(ctx).events(), final(ctx).events(), x3_spec(*old(self), y, 5, v)),
    {
        let ghost c0 = *self;
        let ghost e0 = ctx.events();
        let p = y / 2;
        let val = if p == 3 {
            self.reg.af()
        } else {
            self.reg.get_rp(p)
        };
        self.tick(ctx);
        self.push_u16(ctx, val);
        proof {
            let sp = c0.reg.sp;
            lemma_ticks_tk();
            lemma_ticks_wr(add16(sp, -1), hi_byte(val));
            lemma_ticks_wr(add16(sp, -2), lo_byte(val));
            lemma_ticks_concat(wr(add16(sp, -1), hi_byte(val)), wr(add16(sp, -2), lo_byte(val)));
            lemma_ticks_concat(tk(), push_ev(sp, val));
            assert(ctx.events() =~= e0 + (tk() + push_ev(sp, val)));
            assert(stepped(c0, *self, e0, ctx.events(), x3_spec(c0, y, 5, seq![0u8, 0u8])));
        }
    }

    /// ALU operations with an immediate byte.
    fn exec_x3_z6<C: CpuContext>(&mut self, ctx: &mut C, y: u8)
        requires
            old(ctx).ctx_wf(),
            y < 8,
        ensures
            final(ctx).anchor() == old(ctx).anchor(),
            final(ctx).ctx_wf(),
            exists|v: Seq<u8>|
                #[trigger] stepped(*old(self), *final(self), old(ctx).events(), final(ctx).events(), x3_spec(*old(self), y, 6, v)),
    {
        let ghost c0 = *self;
        let ghost e0 = ctx.events();
        let n = self.fetch(ctx);
        let (a2, f2) = alu_exec(self.reg.f, self.reg.a, y, n);
        self.reg.a = a2;
        self.reg.f = f2;
        proof {
            lemma_ticks_rd(c0.reg.pc, n);
            assert(stepped(c0, *self, e0, ctx.events(), x3_spec(c0, y, 6, seq![n, 0u8])));
        }
    }

    /// RST n.
    fn exec_rst<C: CpuContext>(&mut self, ctx: &mut C, y: u8)
        requires
            old(ctx).ctx_wf(),
            y < 8,
        ensures
            final(ctx).anchor() == old(ctx).anchor(),
            final(ctx).ctx_wf(),
            exists|v: Seq<u8>|
                #[trigger] stepped(*old(self), *final(self), old(ctx).events(), final(ctx).events(), x3_spec(*old(self), y, 7, v)),
    {
        let ghost c0 = *self;
        let pc = self.reg.pc;
        self.call_to(ctx, y as u16 * 8, pc);
        proof {
            assert(stepped(c0, *self, old(ctx).events(), ctx.events(), x3_spec(c0, y, 7, seq![0u8, 0u8])));
        }
    }

    /// The $CB-prefixed instructions.
    #[verifier::rlimit(40)]
    fn exec_cb<C: CpuContext>(&mut self, ctx: &mut C)
        requires
            old(ctx).ctx_wf(),
        ensures
            final(ctx).anchor() == old(ctx).anchor(),
            final(ctx).ctx_wf(),
            exists|v: Seq<u8>|
                #[trigger] stepped(*old(self), *final(self), old(ctx).events(), final(ctx).events(), cb_spec(*old(self), v)),
    {
        let ghost c0 = *self;
        let ghost e0 = ctx.events();
        let pc = self.reg.pc;
        let op = self.fetch(ctx);
        let x = op / 64;
        let y = (op / 8) % 8;
        let z = op % 8;
        let hl = self.reg.hl();
        let val = if z == 6 {
            self.read(ctx, hl)
        } else {
            self.reg.get_r8(z)
        };
        let ghost v = seq![op, val];
        let ghost ev_in = rd(pc, op) + if z == 6 { rd(hl, val) } else { seq![] };
        proof {
            lemma_ticks_rd(pc, op);
            if z == 6 {
                lemma_ticks_rd(hl, val);
                lemma_ticks_concat(rd(pc, op), rd(hl, val));
            } else {
                assert(rd(pc, op) + seq![] =~= rd(pc, op));
            }
            assert(ctx.events() =~= e0 + ev_in);
        }
        if x == 1 {
            self.reg.f.z = val & (1u8 << y) == 0;
            self.reg.f.n = false;
            self.reg.f.h = true;
            proof {
                assert(stepped(c0, *self, e0, ctx.events(), cb_spec(c0, v)));
            }
        } else {
            let (res, f2) = if x == 0 {
                rot_exec(self.reg.f, y, val)
            } else if x == 2 {
                (val & !(1u8 << y), self.reg.f)
            } else {
                (val | (1u8 << y), self.reg.f)
            };
            self.reg.f = f2;
            if z == 6 {
                self.write(ctx, hl, res);
                proof {
                    lemma_ticks_wr(hl, res);
                    lemma_ticks_concat(ev_in, wr(hl, res));
                    assert(ctx.events() =~= e0 + (ev_in + wr(hl, res)));
                    assert(stepped(c0, *self, e0, ctx.events(), cb_spec(c0, v)));
                }
            } else {
                self.reg.put_r8(z, res);
                proof {
                    assert(stepped(c0, *self, e0, ctx.events(), cb_spec(c0, v)));
                }
            }
        }
    }
}

impl Cpu {
    /// Opcodes $00-$3F.
    fn exec_x0<C: CpuContext>(&mut self, ctx: &mut C, opc: u8)
        requires
            old(ctx).ctx_wf(),
            opc < 64,
        ensures
            final(ctx).anchor() == old(ctx).anchor(),
            final(ctx).ctx_wf(),
            exists|v: Seq<u8>|
                #[trigger] stepped(*old(self), *final(self), old(ctx).events(), final(ctx).events(), instr_spec(*old(self), opc, v)),
    {
        let ghost c0 = *self;
        let ghost e0 = ctx.events();
        let y = (opc / 8) % 8;
        let z = opc % 8;
        if z == 0 {
            self.exec_x0_z0(ctx, y);
        } else if z == 1 {
            self.exec_x0_z1(ctx, y);
        } else if z == 2 {
            self.exec_x0_z2(ctx, y);
        } else if z == 3 {
            self.exec_x0_z3(ctx, y);
        } else if z == 4 || z == 5 {
            self.exec_x0_incdec(ctx, y, z);
        } else if z == 6 {
            self.exec_x0_z6(ctx, y);
        } else {
            self.exec_x0_z7(y);
            proof {
                assert(stepped(c0, *self, e0, ctx.events(), x0_spec(c0, y, 7, seq![])));
            }
        }
        proof {
            let v = choose|v: Seq<u8>| #[trigger] stepped(c0, *self, e0, ctx.events(), x0_spec(c0, y, z, v));
            lemma_instr_x0(c0, opc, v);
            assert(stepped(c0, *self, e0, ctx.events(), instr_spec(c0, opc, v)));
        }
    }

    /// Opcodes from $C0 but $CB, with an instruction.
    fn exec_x3<C: CpuContext>(&mut self, ctx: &mut C, opc: u8)
        requires
            old(ctx).ctx_wf(),
            192 <= opc,
            opc != 0xCB,
            !is_unknown(opc),
        ensures
            final(ctx).anchor() == old(ctx).anchor(),
            final(ctx).ctx_wf(),
            exists|v: Seq<u8>|
                #[trigger] stepped(*old(self), *final(self), old(ctx).events(), final(ctx).events(), instr_spec(*old(self), opc, v)),
    {
        let ghost c0 = *self;
        let ghost e0 = ctx.events();
        let y = (opc / 8) % 8;
        let z = opc % 8;
        if z == 0 {
            self.exec_x3_z0(ctx, y);
        } else if z == 1 {
            self.exec_x3_z1(ctx, y);
        } else if z == 2 {
            self.exec_x3_z2(ctx, y);
        } else if z == 3 && y == 6 {
            self.interrupt_master_enable = false;
            self.prev_interrupt_enable = false;
            proof {
                assert(e0 + seq![] =~= e0);
                assert(stepped(c0, *self, e0, ctx.events(), x3_spec(c0, y, z, seq![0u8, 0u8])));
            }
        } else if z == 3 && y == 7 {
            self.interrupt_master_enable = true;
            proof {
                assert(e0 + seq![] =~= e0);
                assert(stepped(c0, *self, e0, ctx.events(), x3_spec(c0, y, z, seq![0u8, 0u8])));
            }
        } else if z == 3 || z == 4 || (z == 5 && y % 2 == 1) {
            self.exec_x3_jump(ctx, y, z);
        } else if z == 5 {
            self.exec_push(ctx, y);
        } else if z == 6 {
            self.exec_x3_z6(ctx, y);
        } else {
            self.exec_rst(ctx, y);
        }
        proof {
            let v = choose|v: Seq<u8>| #[trigger] stepped(c0, *self, e0, ctx.events(), x3_spec(c0, y, z, v));
            lemma_instr_x3(c0, opc, v);
            assert(stepped(c0, *self, e0, ctx.events(), instr_spec(c0, opc, v)));
        }
    }

    /// Executes an instruction whose opcode was fetched; the opcode must be one that has
    /// an instruction (see `unknown_opcode`).
    pub fn exec_instr<C: CpuContext>(&mut self, ctx: &mut C, opc: u8)
        requires
            old(ctx).ctx_wf(),
            !is_unknown(opc),
        ensures
            final(ctx).anchor() == old(ctx).anchor(),
            final(ctx).ctx_wf(),
            exists|v: Seq<u8>|
                #[trigger] stepped(*old(self), *final(self), old(ctx).events(), final(ctx).events(), instr_spec(*old(self), opc, v)),
    {
        let ghost c0 = *self;
        let ghost e0 = ctx.events();
        if opc < 64 {
            self.exec_x0(ctx, opc);
        } else if opc < 128 {
            self.exec_x1(ctx, (opc / 8) % 8, opc % 8);
            proof {
                let v = choose|v: Seq<u8>| #[trigger] stepped(c0, *self, e0, ctx.events(), x1_spec(c0, (opc / 8) % 8, opc % 8, v));
                lemma_instr_x1(c0, opc, v);
                assert(stepped(c0, *self, e0, ctx.events(), instr_spec(c0, opc, v)));
            }
        } else if opc < 192 {
            self.exec_x2(ctx, (opc / 8) % 8, opc % 8);
            proof {
                let v = choose|v: Seq<u8>| #[trigger] stepped(c0, *self, e0, ctx.events(), x2_spec(c0, (opc / 8) % 8, opc % 8, v));
                lemma_instr_x2(c0, opc, v);
                assert(stepped(c0, *self, e0, ctx.events(), instr_spec(c0, opc, v)));
            }
        } else if opc == 0xCB {
            self.exec_cb(ctx);
            proof {
                let v = choose|v: Seq<u8>| #[trigger] stepped(c0, *self, e0, ctx.events(), cb_spec(c0, v));
                lemma_instr_cb(c0, v);
                assert(stepped(c0, *self, e0, ctx.events(), instr_spec(c0, opc, v)));
            }
        } else {
            self.exec_x3(ctx, opc);
        }
    }
}

/// Whether an opcode has no instruction.
pub fn unknown_opcode(opc: u8) -> (r: bool)
    ensures
        r == is_unknown(opc),
{
    opc == 0xD3 || opc == 0xDB || opc == 0xDD || opc == 0xE3 || opc == 0xE4 || opc == 0xEB || opc == 0xEC
        || opc == 0xED || opc == 0xF4 || opc == 0xFC || opc == 0xFD
}

} // verus!
