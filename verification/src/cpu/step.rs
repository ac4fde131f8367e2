//! Running the CPU: stalls, HALT, interrupts and instructions, one machine step at a time.
use vstd::prelude::*;
use super::{BusEvent, Cpu, CpuContext, Register, hi_byte, lo_byte, split_word};
use super::isa::{
    add16, at_pc, cycle_after, instr_spec, is_unknown, rd, ticks, tk, wr, lemma_ticks_concat, lemma_ticks_rd,
    lemma_ticks_tk, lemma_ticks_wr,
};
use super::exec::stepped;

verus! {

/// The number of the lowest set bit of a nonzero byte.
pub open spec fn lowest_bit(b: u8) -> u8 {
    if b & 1 != 0 {
        0
    } else if b & 2 != 0 {
        1
    } else if b & 4 != 0 {
        2
    } else if b & 8 != 0 {
        3
    } else if b & 16 != 0 {
        4
    } else if b & 32 != 0 {
        5
    } else if b & 64 != 0 {
        6
    } else {
        7
    }
}

/// The interrupt taken is the pending one of highest priority: its bit is set and every
/// lower bit is clear.
pub proof fn lemma_lowest_bit_first(p: u8)
    requires
        p != 0,
    ensures
        p & (1u8 << lowest_bit(p)) != 0,
        forall|i: u8| i < lowest_bit(p) ==> #[trigger] (p & (1u8 << i)) == 0,
{
    let l = lowest_bit(p);
    assert(p != 0 ==> p & (1u8 << lowest_bit(p)) != 0) by (bit_vector);
    assert forall|i: u8| i < l implies #[trigger] (p & (1u8 << i)) == 0 by {
        assert(i < lowest_bit(p) ==> (p & (1u8 << i)) == 0) by (bit_vector);
    }
}

fn lowest_bit_exec(b: u8) -> (r: u8)
    ensures
        r == lowest_bit(b),
        r < 8,
{
    if b & 1 != 0 {
        0
    } else if b & 2 != 0 {
        1
    } else if b & 4 != 0 {
        2
    } else if b & 8 != 0 {
        3
    } else if b & 16 != 0 {
        4
    } else if b & 32 != 0 {
        5
    } else if b & 64 != 0 {
        6
    } else {
        7
    }
}

/// The interrupt vector for the pending interrupts `p`: $40 plus eight times the lowest
/// pending bit, or 0 when nothing is pending any more.
pub open spec fn vector(p: u8) -> u16 {
    if p == 0 {
        0
    } else {
        (0x40 + 8 * lowest_bit(p)) as u16
    }
}

/// Taking an interrupt: the high byte of the return address is pushed, the pending
/// interrupts are looked at again (`p`) and the lowest is acknowledged, the low byte is
/// pushed, and three internal cycles pass.
pub open spec fn interrupt_spec(c: Cpu, ret: u16, p: u8) -> (Cpu, Seq<BusEvent>) {
    let r = c.reg;
    (
        Cpu {
            interrupt_master_enable: false,
            prev_interrupt_enable: false,
            reg: Register { pc: vector(p), sp: add16(r.sp, -2), ..r },
            ..c
        },
        wr(add16(r.sp, -1), hi_byte(ret)) + seq![BusEvent::Pending(p)] + (if p != 0 {
            seq![BusEvent::Ack(lowest_bit(p))]
        } else {
            seq![]
        }) + wr(add16(r.sp, -2), lo_byte(ret)) + tk() + tk() + tk(),
    )
}

/// The interrupt check after an opcode fetch: the previous master enable decides whether
/// the pending interrupts `p0` are looked at; if any, the interrupt is taken (`p1` being
/// what the dispatch sees). The master enable is remembered for the next check.
pub open spec fn irq_spec(c: Cpu, ret: u16, p0: u8, p1: u8) -> (Cpu, Seq<BusEvent>) {
    let c1 = Cpu { prev_interrupt_enable: c.interrupt_master_enable, ..c };
    if !c.prev_interrupt_enable {
        (c1, seq![])
    } else if p0 == 0 {
        (c1, seq![BusEvent::Pending(p0)])
    } else {
        let (c2, ev) = interrupt_spec(c1, ret, p1);
        (c2, seq![BusEvent::Pending(p0)] + ev)
    }
}

/// A halted CPU: it wakes on a wake request or a pending interrupt, and one cycle passes.
pub open spec fn halt_spec(c: Cpu, wake: bool, p: u8) -> (Cpu, Seq<BusEvent>) {
    (
        Cpu { halting: !(wake || p != 0), prev_interrupt_enable: c.interrupt_master_enable, ..c },
        seq![BusEvent::Pending(p)] + tk(),
    )
}

/// A running CPU: the opcode is fetched, an interrupt may be taken in its place, else the
/// instruction runs (unless the opcode has none).
pub open spec fn run_spec(c: Cpu, opc: u8, p0: u8, p1: u8, v: Seq<u8>) -> (Cpu, Seq<BusEvent>) {
    let cf = Cpu { reg: at_pc(c.reg, 1), cycle: cycle_after(c.cycle, 1), ..c };
    let (ci, evi) = irq_spec(cf, c.reg.pc, p0, p1);
    let head = rd(c.reg.pc, opc) + evi;
    if (c.prev_interrupt_enable && p0 != 0) || is_unknown(opc) {
        (ci, head)
    } else {
        let (c2, ev) = instr_spec(ci, opc, v);
        (c2, head + ev)
    }
}

/// The opcode was refused: no interrupt came in its place and it has no instruction.
pub open spec fn run_refused(c: Cpu, opc: u8, p0: u8) -> bool {
    !(c.prev_interrupt_enable && p0 != 0) && is_unknown(opc)
}

/// One step of the CPU from `c0` (bus log `e0`) to `c1` (log `e1`): a stalled cycle, a
/// cycle of HALT, or an opcode fetch with its interrupt check and instruction.
pub open spec fn cpu_step(c0: Cpu, c1: Cpu, e0: Seq<BusEvent>, e1: Seq<BusEvent>) -> bool {
    ||| stepped(c0, c1, e0, e1, (c0, tk()))
    ||| (c0.halting && exists|w: bool, p: u8| #[trigger] stepped(c0, c1, e0, e1, halt_spec(c0, w, p)))
    ||| (!c0.halting && exists|opc: u8, p0: u8, p1: u8, v: Seq<u8>|
        #[trigger] stepped(c0, c1, e0, e1, run_spec(c0, opc, p0, p1, v)) && !run_refused(c0, opc, p0))
}

/// `c` with its clock target set to `period`.
pub open spec fn with_period(c: Cpu, period: u64) -> Cpu {
    Cpu { period, ..c }
}

/// `n` CPU steps lead from `c0` (log `e0`) to `c1` (log `e1`).
pub open spec fn cpu_steps(c0: Cpu, c1: Cpu, e0: Seq<BusEvent>, e1: Seq<BusEvent>, n: nat) -> bool
    decreases n,
{
    if n == 0 {
        c1 == c0 && e1 == e0
    } else {
        exists|cm: Cpu, em: Seq<BusEvent>|
            cpu_steps(c0, cm, e0, em, (n - 1) as nat) && #[trigger] cpu_step(cm, c1, em, e1)
    }
}

/// A call of `Cpu::step` from `c0` (log `e0`) that ended at `c1` (log `e1`) refused
/// opcode `opc`: CPU steps ran up to a state `cm` whose opcode fetch found `opc`, with
/// no interrupt taken in its place and no instruction for it.
pub open spec fn step_refused(c0: Cpu, c1: Cpu, e0: Seq<BusEvent>, e1: Seq<BusEvent>, opc: u8) -> bool {
    exists|n: nat, cm: Cpu, em: Seq<BusEvent>, p0: u8, p1: u8|
        #![trigger cpu_steps(with_period(c0, c1.period), cm, e0, em, n), run_spec(cm, opc, p0, p1, seq![])]
        cpu_steps(with_period(c0, c1.period), cm, e0, em, n) && stepped(cm, c1, em, e1, run_spec(cm, opc, p0, p1, seq![]))
            && run_refused(cm, opc, p0)
}

/// `k` calls of `Cpu::step` lead from `c0` (log `e0`) to `c1` (log `e1`): each moves the
/// clock target on by one and runs CPU steps up to it.
pub open spec fn cpu_runs(c0: Cpu, c1: Cpu, e0: Seq<BusEvent>, e1: Seq<BusEvent>, k: nat) -> bool
    decreases k,
{
    if k == 0 {
        c1 == c0 && e1 == e0
    } else {
        exists|cm: Cpu, em: Seq<BusEvent>, n: nat|
            cpu_runs(c0, cm, e0, em, (k - 1) as nat) && c1.period == cycle_after(cm.period, 1)
                && #[trigger] cpu_steps(with_period(cm, c1.period), c1, em, e1, n)
    }
}

/// One more call of `Cpu::step` after `k` makes `k + 1`.
pub proof fn lemma_runs_extend(
    c0: Cpu,
    cm: Cpu,
    c1: Cpu,
    e0: Seq<BusEvent>,
    em: Seq<BusEvent>,
    e1: Seq<BusEvent>,
    k: nat,
    n: nat,
)
    requires
        cpu_runs(c0, cm, e0, em, k),
        c1.period == cycle_after(cm.period, 1),
        cpu_steps(with_period(cm, c1.period), c1, em, e1, n),
    ensures
        cpu_runs(c0, c1, e0, e1, k + 1),
{
    assert(cpu_runs(c0, cm, e0, em, k) && c1.period == cycle_after(cm.period, 1) && cpu_steps(
        with_period(cm, c1.period),
        c1,
        em,
        e1,
        n,
    ));
}

/// One more step after `n` steps makes `n + 1` steps.
proof fn lemma_steps_extend(
    c0: Cpu,
    cm: Cpu,
    c1: Cpu,
    e0: Seq<BusEvent>,
    em: Seq<BusEvent>,
    e1: Seq<BusEvent>,
    n: nat,
)
    requires
        cpu_steps(c0, cm, e0, em, n),
        cpu_step(cm, c1, em, e1),
    ensures
        cpu_steps(c0, c1, e0, e1, n + 1),
{
    reveal_with_fuel(cpu_steps, 2);
    assert(cpu_steps(c0, cm, e0, em, n) && cpu_step(cm, c1, em, e1));
}

/// Two steps one after the other make one step.
pub proof fn lemma_stepped_trans(
    c0: Cpu,
    c1: Cpu,
    c2: Cpu,
    e0: Seq<BusEvent>,
    e1: Seq<BusEvent>,
    e2: Seq<BusEvent>,
    s1: (Cpu, Seq<BusEvent>),
    s2: (Cpu, Seq<BusEvent>),
)
    requires
        stepped(c0, c1, e0, e1, s1),
        stepped(c1, c2, e1, e2, s2),
    ensures
        stepped(c0, c2, e0, e2, (s2.0, s1.1 + s2.1)),
{
    lemma_ticks_concat(s1.1, s2.1);
    assert(e2 =~= e0 + (s1.1 + s2.1));
}

impl Cpu {
    /// The interrupt check after an opcode fetch; `true` when an interrupt was taken.
    fn process_interrupt<C: CpuContext>(&mut self, ctx: &mut C, ret: u16) -> (taken: bool)
        requires
            old(ctx).ctx_wf(),
        ensures
            final(ctx).anchor() == old(ctx).anchor(),
            final(ctx).ctx_wf(),
            exists|p0: u8, p1: u8|
                #[trigger] stepped(*old(self), *final(self), old(ctx).events(), final(ctx).events(), irq_spec(*old(self), ret, p0, p1))
                && taken == (old(self).prev_interrupt_enable && p0 != 0),
    {
        let ghost c0 = *self;
        let ghost e0 = ctx.events();
        let prev = self.prev_interrupt_enable;
        self.prev_interrupt_enable = self.interrupt_master_enable;
        if !prev {
            proof {
                assert(e0 + seq![] =~= e0);
                assert(stepped(c0, *self, e0, ctx.events(), irq_spec(c0, ret, 0, 0)));
            }
            return false;
        }
        let p0 = ctx.pending_interrupts();
        if p0 == 0 {
            proof {
                reveal_with_fuel(ticks, 2);
                assert(e0.push(BusEvent::Pending(p0)) =~= e0 + seq![BusEvent::Pending(p0)]);
                assert(seq![BusEvent::Pending(p0)].drop_last() =~= Seq::<BusEvent>::empty());
                assert(stepped(c0, *self, e0, ctx.events(), irq_spec(c0, ret, p0, 0)));
            }
            return false;
        }
        self.interrupt_master_enable = false;
        self.prev_interrupt_enable = false;
        let ghost e1 = ctx.events();
        let ghost sp0 = self.reg.sp;
        let (hi, lo) = split_word(ret);
        self.push(ctx, hi);
        let p1 = ctx.pending_interrupts();
        let addr = if p1 == 0 {
            0u16
        } else {
            let pos = lowest_bit_exec(p1);
            ctx.clear_interrupt_request(pos);
            0x40 + pos as u16 * 8
        };
        let ghost e2 = ctx.events();
        self.push(ctx, lo);
        self.reg.pc = addr;
        self.tick(ctx);
        self.tick(ctx);
        self.tick(ctx);
        proof {
            let ack = if p1 != 0 { seq![BusEvent::Ack(lowest_bit(p1))] } else { seq![] };
            let ev = wr(add16(sp0, -1), hi_byte(ret)) + seq![BusEvent::Pending(p1)] + ack + wr(add16(sp0, -2), lo_byte(ret)) + tk() + tk() + tk();
            assert(ctx.events() =~= e0 + (seq![BusEvent::Pending(p0)] + ev));
            reveal_with_fuel(ticks, 2);
            assert(seq![BusEvent::Pending(p0)].drop_last() =~= Seq::<BusEvent>::empty());
            assert(seq![BusEvent::Pending(p1)].drop_last() =~= Seq::<BusEvent>::empty());
            lemma_ticks_wr(add16(sp0, -1), hi_byte(ret));
            lemma_ticks_wr(add16(sp0, -2), lo_byte(ret));
            lemma_ticks_tk();
            if p1 != 0 {
                assert(ack.drop_last() =~= Seq::<BusEvent>::empty());
            }
            let w1 = wr(add16(sp0, -1), hi_byte(ret));
            let s1 = w1 + seq![BusEvent::Pending(p1)];
            let s2 = s1 + ack;
            let s3 = s2 + wr(add16(sp0, -2), lo_byte(ret));
            lemma_ticks_concat(w1, seq![BusEvent::Pending(p1)]);
            lemma_ticks_concat(s1, ack);
            lemma_ticks_concat(s2, wr(add16(sp0, -2), lo_byte(ret)));
            lemma_ticks_concat(s3, tk());
            lemma_ticks_concat(s3 + tk(), tk());
            lemma_ticks_concat(s3 + tk() + tk(), tk());
            lemma_ticks_concat(seq![BusEvent::Pending(p0)], ev);
            assert(addr == vector(p1));
            assert(stepped(c0, *self, e0, ctx.events(), irq_spec(c0, ret, p0, p1)));
        }
        true
    }

    /// One step of the CPU: a stalled cycle, a cycle of HALT, an interrupt, or an
    /// instruction. An opcode with no instruction is refused with `Err`.
    pub fn step_once<C: CpuContext>(&mut self, ctx: &mut C) -> (r: Result<(), u8>)
        requires
            old(ctx).ctx_wf(),
        ensures
            final(ctx).anchor() == old(ctx).anchor(),
            final(ctx).ctx_wf(),
            final(self).period == old(self).period,
            old(self).cycle < u64::MAX ==> final(self).cycle > old(self).cycle,
            r matches Err(opc) ==> is_unknown(opc),
            old(ctx).stall_spec() > 0 ==> r is Ok && stepped(
                *old(self),
                *final(self),
                old(ctx).events(),
                final(ctx).events(),
                (*old(self), tk()),
            ),
            old(ctx).stall_spec() == 0 && old(self).halting ==> r is Ok && stepped(
                *old(self),
                *final(self),
                old(ctx).events(),
                final(ctx).events(),
                halt_spec(*old(self), old(ctx).wake_spec(), old(ctx).ie_spec() & old(ctx).if_spec()),
            ),
            old(ctx).stall_spec() == 0 && !old(self).halting ==> exists|opc: u8, p0: u8, p1: u8, v: Seq<u8>|
                #[trigger] stepped(*old(self), *final(self), old(ctx).events(), final(ctx).events(), run_spec(*old(self), opc, p0, p1, v))
                && r == (if run_refused(*old(self), opc, p0) { Err(opc) } else { Ok(()) }),
    {
        let ghost c0 = *self;
        let ghost e0 = ctx.events();
        if ctx.take_stall() {
            self.tick(ctx);
            proof {
                lemma_ticks_tk();
            }
            return Ok(());
        }
        let wake = ctx.take_wake();
        if self.halting {
            let p = ctx.pending_interrupts();
            if wake || p != 0 {
                self.halting = false;
            }
            self.tick(ctx);
            self.prev_interrupt_enable = self.interrupt_master_enable;
            proof {
                lemma_ticks_tk();
                reveal_with_fuel(ticks, 2);
                assert(seq![BusEvent::Pending(p)].drop_last() =~= Seq::<BusEvent>::empty());
                lemma_ticks_concat(seq![BusEvent::Pending(p)], tk());
                assert(ctx.events() =~= e0 + (seq![BusEvent::Pending(p)] + tk()));
            }
            return Ok(());
        }
        let pc = self.reg.pc;
        let opc = self.fetch(ctx);
        let ghost c1 = *self;
        let ghost e1 = ctx.events();
        proof {
            lemma_ticks_rd(pc, opc);
            assert(stepped(c0, c1, e0, e1, (Cpu { reg: at_pc(c0.reg, 1), ..c0 }, rd(pc, opc))));
        }
        let taken = self.process_interrupt(ctx, pc);
        let ghost c2 = *self;
        assert(c2.cycle >= c1.cycle);
        let ghost e2 = ctx.events();
        proof {
            let (p0, p1) = choose|p0: u8, p1: u8|
                #[trigger] stepped(c1, c2, e1, e2, irq_spec(c1, pc, p0, p1)) && taken == (c1.prev_interrupt_enable && p0 != 0);
            lemma_stepped_trans(c0, c1, c2, e0, e1, e2, (c1, rd(pc, opc)), irq_spec(c1, pc, p0, p1));
        }
        if taken {
            proof {
                let (p0, p1) = choose|p0: u8, p1: u8|
                    #[trigger] stepped(c1, c2, e1, e2, irq_spec(c1, pc, p0, p1)) && taken == (c1.prev_interrupt_enable && p0 != 0);
                assert(stepped(c0, *self, e0, ctx.events(), run_spec(c0, opc, p0, p1, seq![])));
            }
            return Ok(());
        }
        let ok = !super::exec::unknown_opcode(opc);
        if ok {
            self.exec_instr(ctx, opc);
        }
        proof {
            let (p0, p1) = choose|p0: u8, p1: u8|
                #[trigger] stepped(c1, c2, e1, e2, irq_spec(c1, pc, p0, p1)) && taken == (c1.prev_interrupt_enable && p0 != 0);
            let head = rd(pc, opc) + irq_spec(c1, pc, p0, p1).1;
            if ok {
                let v = choose|v: Seq<u8>| #[trigger] stepped(c2, *self, e2, ctx.events(), instr_spec(c2, opc, v));
                let cf = Cpu { reg: at_pc(c0.reg, 1), cycle: cycle_after(c0.cycle, 1), ..c0 };
                assert(cf == c1);
                reveal_with_fuel(ticks, 2);
                assert(seq![BusEvent::Pending(p0)].drop_last() =~= Seq::<BusEvent>::empty());
                assert(ticks(irq_spec(c1, pc, p0, p1).1) == 0);
                assert(irq_spec(cf, pc, p0, p1).0 == c2);
                lemma_stepped_trans(c0, c2, *self, e0, e2, ctx.events(), (c2, head), instr_spec(c2, opc, v));
                assert(stepped(c0, *self, e0, ctx.events(), run_spec(c0, opc, p0, p1, v)));
            } else {
                lemma_stepped_trans(c0, c2, *self, e0, e2, ctx.events(), (c2, head), (c2, seq![]));
                assert(head + seq![] =~= head);
                assert(stepped(c0, *self, e0, ctx.events(), run_spec(c0, opc, p0, p1, seq![])));
            }
        }
        assert(self.cycle >= c2.cycle);
        if ok {
            Ok(())
        } else {
            Err(opc)
        }
    }

    /// Runs the CPU for one more machine cycle of the machine's clock: steps until its own
    /// cycle counter has caught up. Stops at an opcode with no instruction.
    pub fn step<C: CpuContext>(&mut self, ctx: &mut C) -> (r: Result<(), u8>)
        requires
            old(ctx).ctx_wf(),
        ensures
            final(ctx).anchor() == old(ctx).anchor(),
            final(ctx).ctx_wf(),
            final(self).period == cycle_after(old(self).period, 1),
            r is Ok ==> final(self).cycle >= final(self).period,
            r matches Err(opc) ==> is_unknown(opc),
            old(self).cycle >= cycle_after(old(self).period, 1) ==> r is Ok && *final(self) == with_period(
                *old(self),
                final(self).period,
            ) && final(ctx).events() == old(ctx).events(),
            r is Ok ==> exists|n: nat|
                #[trigger] cpu_steps(
                    with_period(*old(self), final(self).period),
                    *final(self),
                    old(ctx).events(),
                    final(ctx).events(),
                    n,
                ),
            r matches Err(opc) ==> step_refused(*old(self), *final(self), old(ctx).events(), final(ctx).events(), opc),
    {
        self.period = self.period.saturating_add(1);
        let ghost start = *self;
        let ghost e0 = ctx.events();
        let ghost mut k: nat = 0;
        proof {
            assert(cpu_steps(start, *self, e0, ctx.events(), 0));
        }
        while self.cycle < self.period
            invariant
                ctx.anchor() == old(ctx).anchor(),
                ctx.ctx_wf(),
                self.period == cycle_after(old(self).period, 1),
                start == with_period(*old(self), self.period),
                e0 == old(ctx).events(),
                cpu_steps(start, *self, e0, ctx.events(), k),
                k == 0 ==> *self == start && ctx.events() == e0,
                self.cycle >= old(self).cycle,
                k > 0 ==> old(self).cycle < self.period,
            decreases u64::MAX - self.cycle,
        {
            let ghost cm = *self;
            let ghost em = ctx.events();
            let ghost w = ctx.wake_spec();
            let ghost p = (ctx.ie_spec() & ctx.if_spec()) as u8;
            let r = self.step_once(ctx);
            assert(self.cycle > cm.cycle);
            if let Err(opc) = r {
                proof {
                    let (opc2, p0, p1, v) = choose|opc2: u8, p0: u8, p1: u8, v: Seq<u8>|
                        #[trigger] stepped(cm, *self, em, ctx.events(), run_spec(cm, opc2, p0, p1, v)) && r == (if run_refused(
                            cm,
                            opc2,
                            p0,
                        ) {
                            Err(opc2)
                        } else {
                            Ok(())
                        });
                    assert(run_spec(cm, opc2, p0, p1, v) == run_spec(cm, opc2, p0, p1, seq![]));
                    assert(cpu_steps(start, cm, e0, em, k));
                }
                return Err(opc);
            }
            proof {
                assert(cpu_steps(start, cm, e0, em, k));
                if cm.halting && !stepped(cm, *self, em, ctx.events(), (cm, tk())) {
                    assert(stepped(cm, *self, em, ctx.events(), halt_spec(cm, w, p)));
                }
                assert(cpu_step(cm, *self, em, ctx.events()));
                lemma_steps_extend(start, cm, *self, e0, em, ctx.events(), k);
                k = k + 1;
            }
        }
        Ok(())
    }
}

} // verus!
