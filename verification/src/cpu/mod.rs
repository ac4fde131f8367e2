use vstd::prelude::*;

pub mod isa;
pub mod alu;
pub mod exec;
pub mod step;
pub mod laws;

verus! {

/// One dealing of the CPU with the rest of the machine, in the order it happens.
#[derive(Clone, Copy, PartialEq, Eq, Structural, Debug)]
pub enum BusEvent {
    /// One machine cycle passes.
    Tick,
    /// A byte was read from an address.
    Read { addr: u16, data: u8 },
    /// A byte was written to an address.
    Write { addr: u16, data: u8 },
    /// The STOP instruction reached the bus.
    Stop,
    /// The CPU looked at the pending interrupts (IE and IF) and saw this.
    Pending(u8),
    /// The CPU took the interrupt request of this bit.
    Ack(u8),
}

/// What the CPU needs of the machine around it: bus accesses that are recorded in
/// order, and the interrupt lines. A bus access may change the interrupt lines and the
/// stall and wake requests (an I/O register, a DMA, a timer running on).
pub trait CpuContext: Sized {
    /// The bus accesses made so far.
    spec fn events(&self) -> Seq<BusEvent>;

    /// The context's own invariant.
    spec fn ctx_wf(&self) -> bool;

    /// Interrupt enable register (IE).
    spec fn ie_spec(&self) -> u8;

    /// Interrupt request register (IF).
    spec fn if_spec(&self) -> u8;

    /// Machine cycles the CPU still has to wait.
    spec fn stall_spec(&self) -> usize;

    /// A pending wake-up request.
    spec fn wake_spec(&self) -> bool;

    /// What the bus operations leave alone: a context's own record of where it stands
    /// (for a whole machine, the state at which its log of device steps starts).
    spec fn anchor(&self) -> Self;

    fn bus_tick(&mut self)
        requires
            old(self).ctx_wf(),
        ensures
            final(self).anchor() == old(self).anchor(),
            final(self).ctx_wf(),
            final(self).events() == old(self).events().push(BusEvent::Tick),
    ;

    fn bus_stop(&mut self)
        requires
            old(self).ctx_wf(),
        ensures
            final(self).anchor() == old(self).anchor(),
            final(self).ctx_wf(),
            final(self).events() == old(self).events().push(BusEvent::Stop),
    ;

    fn bus_read(&mut self, addr: u16) -> (data: u8)
        requires
            old(self).ctx_wf(),
        ensures
            final(self).anchor() == old(self).anchor(),
            final(self).ctx_wf(),
            final(self).events() == old(self).events().push(BusEvent::Read { addr, data }),
    ;

    fn bus_write(&mut self, addr: u16, data: u8)
        requires
            old(self).ctx_wf(),
        ensures
            final(self).anchor() == old(self).anchor(),
            final(self).ctx_wf(),
            final(self).events() == old(self).events().push(BusEvent::Write { addr, data }),
    ;

    /// The interrupts that are both requested and enabled (IF and IE).
    fn pending_interrupts(&mut self) -> (r: u8)
        requires
            old(self).ctx_wf(),
        ensures
            final(self).anchor() == old(self).anchor(),
            final(self).ctx_wf(),
            r == old(self).ie_spec() & old(self).if_spec(),
            final(self).events() == old(self).events().push(BusEvent::Pending(r)),
            final(self).ie_spec() == old(self).ie_spec(),
            final(self).if_spec() == old(self).if_spec(),
            final(self).stall_spec() == old(self).stall_spec(),
            final(self).wake_spec() == old(self).wake_spec(),
    ;

    /// Clears request `bit` of IF.
    fn clear_interrupt_request(&mut self, bit: u8)
        requires
            old(self).ctx_wf(),
            bit < 8,
        ensures
            final(self).anchor() == old(self).anchor(),
            final(self).ctx_wf(),
            final(self).events() == old(self).events().push(BusEvent::Ack(bit)),
            final(self).ie_spec() == old(self).ie_spec(),
            final(self).if_spec() == old(self).if_spec() & !(1u8 << bit),
            final(self).stall_spec() == old(self).stall_spec(),
            final(self).wake_spec() == old(self).wake_spec(),
    ;

    /// Consumes one stalled cycle, if any.
    fn take_stall(&mut self) -> (r: bool)
        requires
            old(self).ctx_wf(),
        ensures
            final(self).anchor() == old(self).anchor(),
            final(self).ctx_wf(),
            r == (old(self).stall_spec() > 0),
            final(self).stall_spec() == if r { (old(self).stall_spec() - 1) as usize } else { 0 },
            final(self).events() == old(self).events(),
            final(self).ie_spec() == old(self).ie_spec(),
            final(self).if_spec() == old(self).if_spec(),
            final(self).wake_spec() == old(self).wake_spec(),
    ;

    /// Returns and clears the wake-up request.
    fn take_wake(&mut self) -> (r: bool)
        requires
            old(self).ctx_wf(),
        ensures
            final(self).anchor() == old(self).anchor(),
            final(self).ctx_wf(),
            r == old(self).wake_spec(),
            !final(self).wake_spec(),
            final(self).events() == old(self).events(),
            final(self).ie_spec() == old(self).ie_spec(),
            final(self).if_spec() == old(self).if_spec(),
            final(self).stall_spec() == old(self).stall_spec(),
    ;
}

/// The flag register's four flags.
#[derive(Clone, Copy, PartialEq, Eq, Structural, Debug)]
pub struct Flag {
    pub z: bool,
    pub n: bool,
    pub h: bool,
    pub c: bool,
}

pub open spec fn bit_if(c: bool, v: u8) -> u8 {
    if c {
        v
    } else {
        0
    }
}

/// The flags as the F register holds them: Z, N, H, C in bits 7 to 4, the low bits zero.
pub open spec fn flag_byte(f: Flag) -> u8 {
    (bit_if(f.z, 0x80) | bit_if(f.n, 0x40) | bit_if(f.h, 0x20) | bit_if(f.c, 0x10)) as u8
}

/// The flags read from a byte: bits 7 to 4.
pub open spec fn flag_of(d: u8) -> Flag {
    Flag { z: d & 0x80 != 0, n: d & 0x40 != 0, h: d & 0x20 != 0, c: d & 0x10 != 0 }
}

impl Flag {
    pub fn pack(&self) -> (r: u8)
        ensures
            r == flag_byte(*self),
    {
        (if self.z { 0x80u8 } else { 0 }) | (if self.n { 0x40u8 } else { 0 }) | (if self.h { 0x20u8 } else { 0 }) | (if self.c {
            0x10u8
        } else {
            0
        })
    }

    pub fn unpack(&mut self, data: u8)
        ensures
            *final(self) == flag_of(data),
    {
        self.z = data & 0x80 != 0;
        self.n = data & 0x40 != 0;
        self.h = data & 0x20 != 0;
        self.c = data & 0x10 != 0;
    }
}

/// The CPU registers.
#[derive(Clone, Copy, PartialEq, Eq, Structural, Debug)]
pub struct Register {
    pub a: u8,
    pub f: Flag,
    pub b: u8,
    pub c: u8,
    pub d: u8,
    pub e: u8,
    pub h: u8,
    pub l: u8,
    pub sp: u16,
    pub pc: u16,
}

/// A 16-bit value from its high and low bytes.
#[verifier::opaque]
pub open spec fn word(hi: u8, lo: u8) -> u16 {
    ((hi as u16) << 8u16) | (lo as u16)
}

#[verifier::opaque]
pub open spec fn hi_byte(v: u16) -> u8 {
    (v >> 8u16) as u8
}

#[verifier::opaque]
pub open spec fn lo_byte(v: u16) -> u8 {
    (v & 0xff) as u8
}

pub fn make_word(hi: u8, lo: u8) -> (r: u16)
    ensures
        r == word(hi, lo),
        hi_byte(r) == hi,
        lo_byte(r) == lo,
{
    proof {
        lemma_split_word(hi, lo);
        reveal(word);
    }
    ((hi as u16) << 8u16) | (lo as u16)
}

pub fn split_word(v: u16) -> (r: (u8, u8))
    ensures
        r.0 == hi_byte(v),
        r.1 == lo_byte(v),
        word(r.0, r.1) == v,
{
    proof {
        lemma_word_split(v);
        reveal(hi_byte);
        reveal(lo_byte);
    }
    ((v >> 8u16) as u8, (v & 0xff) as u8)
}

/// Reading the flags from a byte and packing them again gives the byte's high nibble.
pub proof fn lemma_flag_unpack_pack(d: u8)
    ensures
        flag_byte(flag_of(d)) == d & 0xF0,
{
    assert(((if d & 0x80 != 0 { 0x80u8 } else { 0u8 }) | (if d & 0x40 != 0 { 0x40u8 } else { 0u8 }) | (if d
        & 0x20 != 0 {
        0x20u8
    } else {
        0u8
    }) | (if d & 0x10 != 0 { 0x10u8 } else { 0u8 })) == d & 0xF0) by (bit_vector);
}

/// Packing the flags and reading them back gives the same flags.
pub proof fn lemma_flag_pack_unpack(f: Flag)
    ensures
        flag_of(flag_byte(f)) == f,
{
    let z = f.z;
    let n = f.n;
    let h = f.h;
    let c = f.c;
    let b = (bit_if(z, 0x80) | bit_if(n, 0x40) | bit_if(h, 0x20) | bit_if(c, 0x10)) as u8;
    assert((b & 0x80 != 0 <==> z) && (b & 0x40 != 0 <==> n) && (b & 0x20 != 0 <==> h) && (b & 0x10 != 0
        <==> c)) by (bit_vector)
        requires
            b == (bit_if(z, 0x80) | bit_if(n, 0x40) | bit_if(h, 0x20) | bit_if(c, 0x10)) as u8,
    ;
}

/// Joining the two bytes of a word gives the word back.
pub proof fn lemma_word_split(v: u16)
    ensures
        word(hi_byte(v), lo_byte(v)) == v,
{
    reveal(word);
    reveal(hi_byte);
    reveal(lo_byte);
    assert((((((v >> 8u16) as u8) as u16) << 8u16) | (((v & 0xff) as u8) as u16)) == v) by (bit_vector);
}

/// Splitting the word made of two bytes gives the same bytes.
pub proof fn lemma_split_word(hi: u8, lo: u8)
    ensures
        hi_byte(word(hi, lo)) == hi,
        lo_byte(word(hi, lo)) == lo,
{
    reveal(word);
    reveal(hi_byte);
    reveal(lo_byte);
    assert(((((hi as u16) << 8u16) | (lo as u16)) >> 8u16) as u8 == hi && ((((hi as u16) << 8u16) | (lo as u16))
        & 0xff) as u8 == lo) by (bit_vector);
}

/// All registers and flags zero.
pub open spec fn zero_regs() -> Register {
    Register {
        a: 0,
        f: Flag { z: false, n: false, h: false, c: false },
        b: 0,
        c: 0,
        d: 0,
        e: 0,
        h: 0,
        l: 0,
        sp: 0,
        pc: 0,
    }
}

impl Register {
    pub open spec fn af_spec(&self) -> u16 {
        word(self.a, flag_byte(self.f))
    }

    pub open spec fn bc_spec(&self) -> u16 {
        word(self.b, self.c)
    }

    pub open spec fn de_spec(&self) -> u16 {
        word(self.d, self.e)
    }

    pub open spec fn hl_spec(&self) -> u16 {
        word(self.h, self.l)
    }

    pub fn new() -> (r: Register)
        ensures
            r == zero_regs(),
    {
        Register {
            a: 0,
            f: Flag { z: false, n: false, h: false, c: false },
            b: 0,
            c: 0,
            d: 0,
            e: 0,
            h: 0,
            l: 0,
            sp: 0,
            pc: 0,
        }
    }

    #[verifier::when_used_as_spec(af_spec)]
    pub fn af(&self) -> (r: u16)
        ensures
            r == self.af_spec(),
    {
        make_word(self.a, self.f.pack())
    }

    pub fn set_af(&mut self, v: u16)
        ensures
            *final(self) == (Register { a: hi_byte(v), f: flag_of(lo_byte(v)), ..*old(self) }),
    {
        let (hi, lo) = split_word(v);
        self.a = hi;
        self.f.unpack(lo);
    }

    #[verifier::when_used_as_spec(bc_spec)]
    pub fn bc(&self) -> (r: u16)
        ensures
            r == self.bc_spec(),
    {
        make_word(self.b, self.c)
    }

    pub fn set_bc(&mut self, v: u16)
        ensures
            *final(self) == (Register { b: hi_byte(v), c: lo_byte(v), ..*old(self) }),
    {
        let (hi, lo) = split_word(v);
        self.b = hi;
        self.c = lo;
    }

    #[verifier::when_used_as_spec(de_spec)]
    pub fn de(&self) -> (r: u16)
        ensures
            r == self.de_spec(),
    {
        make_word(self.d, self.e)
    }

    pub fn set_de(&mut self, v: u16)
        ensures
            *final(self) == (Register { d: hi_byte(v), e: lo_byte(v), ..*old(self) }),
    {
        let (hi, lo) = split_word(v);
        self.d = hi;
        self.e = lo;
    }

    #[verifier::when_used_as_spec(hl_spec)]
    pub fn hl(&self) -> (r: u16)
        ensures
            r == self.hl_spec(),
    {
        make_word(self.h, self.l)
    }

    pub fn set_hl(&mut self, v: u16)
        ensures
            *final(self) == (Register { h: hi_byte(v), l: lo_byte(v), ..*old(self) }),
    {
        let (hi, lo) = split_word(v);
        self.h = hi;
        self.l = lo;
    }
}

/// The CPU: registers, the halt state, the interrupt master enable and its value at the
/// previous instruction, and the machine-cycle counters.
#[derive(Clone, Copy, Debug)]
pub struct Cpu {
    pub halting: bool,
    pub interrupt_master_enable: bool,
    pub prev_interrupt_enable: bool,
    pub reg: Register,
    pub cycle: u64,
    pub period: u64,
}

impl Cpu {
    pub fn new() -> (r: Cpu)
        ensures
            !r.halting,
            !r.interrupt_master_enable,
            !r.prev_interrupt_enable,
            r.reg == zero_regs(),
            r.cycle == 0,
            r.period == 0,
    {
        Cpu {
            halting: false,
            interrupt_master_enable: false,
            prev_interrupt_enable: false,
            reg: Register::new(),
            cycle: 0,
            period: 0,
        }
    }

    pub fn register(&mut self) -> (r: &mut Register)
        ensures
            *r == old(self).reg,
            *final(self) == (Cpu { reg: *final(r), ..*old(self) }),
    {
        &mut self.reg
    }
}

} // verus!
