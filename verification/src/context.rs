use vstd::prelude::*;
use crate::config::Model;
use crate::rom::Rom;
use crate::ppu::Ppu;
use crate::apu::Apu;
use crate::bus::{Bus, boot_rom_size};
use crate::cpu::Cpu;
use crate::interface::Color;
use crate::io::Io;
use crate::serial::SerialTransfer;
use crate::mbc::{MbcError, create_mbc, mbc_error_of, mbc_kind_matches, opt_len};
use crate::rom::copy_bytes;
use crate::cpu::{BusEvent, CpuContext};
use crate::line::regs_after_line;
use crate::ppu::Mode;
use crate::scan::{counters_after_dot, flag_if, lcd_int_line, mode_at, with_mode};

verus! {

/// Compatibility mode in which a Game Boy Color runs a cartridge.
#[derive(Clone, Copy, PartialEq, Eq, Structural, Debug)]
pub enum RunningMode {
    Cgb,
    Dmg,
    Pgb1,
    Pgb2,
}

impl RunningMode {
    pub open spec fn spec_is_cgb(&self) -> bool {
        *self == RunningMode::Cgb
    }

    #[verifier::when_used_as_spec(spec_is_cgb)]
    pub fn is_cgb(&self) -> (r: bool)
        ensures
            r == self.spec_is_cgb(),
    {
        match self {
            RunningMode::Cgb => true,
            _ => false,
        }
    }
}

/// Memories and interrupt lines shared by the CPU, the bus and the video unit.
pub struct InnerContext2 {
    pub model: Model,
    pub running_mode: RunningMode,
    pub vram: Vec<u8>,
    pub vram_lock: bool,
    pub oam: Vec<u8>,
    pub oam_lock: bool,
    pub external_ram: Vec<u8>,
    pub interrupt_enable: u8,
    pub interrupt_flag: u8,
    pub stall_cpu: usize,
    pub wake: bool,
}

/// Size of video RAM: two banks on the Game Boy Color, one otherwise.
pub open spec fn vram_size(model: Model) -> nat {
    if model.spec_is_cgb() {
        0x4000
    } else {
        0x2000
    }
}

impl InnerContext2 {
    pub open spec fn wf(&self) -> bool {
        &&& self.model != Model::Auto
        &&& self.vram@.len() == vram_size(self.model)
        &&& self.oam@.len() == 0xA0
        &&& (self.running_mode == RunningMode::Cgb ==> self.model.spec_is_cgb())
    }

    /// The flags and registers other than the compatibility mode are those of `o`.
    pub open spec fn flags_eq(&self, o: &InnerContext2) -> bool {
        &&& self.model == o.model
        &&& self.vram_lock == o.vram_lock
        &&& self.oam_lock == o.oam_lock
        &&& self.interrupt_enable == o.interrupt_enable
        &&& self.interrupt_flag == o.interrupt_flag
        &&& self.stall_cpu == o.stall_cpu
        &&& self.wake == o.wake
    }

    pub fn interrupt_enable(&self) -> (r: u8)
        ensures
            r == self.interrupt_enable,
    {
        self.interrupt_enable
    }

    pub fn set_interrupt_enable(&mut self, data: u8)
        ensures
            *final(self) == (InnerContext2 { interrupt_enable: data, ..*old(self) }),
    {
        self.interrupt_enable = data;
    }

    pub fn interrupt_flag(&self) -> (r: u8)
        ensures
            r == self.interrupt_flag,
    {
        self.interrupt_flag
    }

    pub fn set_interrupt_flag(&mut self, data: u8)
        ensures
            *final(self) == (InnerContext2 { interrupt_flag: data, ..*old(self) }),
    {
        self.interrupt_flag = data;
    }

    /// Raises interrupt request `bit`.
    pub fn set_interrupt_flag_bit(&mut self, bit: usize)
        requires
            bit < 8,
        ensures
            *final(self) == (InnerContext2 {
                interrupt_flag: (old(self).interrupt_flag | (1u8 << bit as u8)) as u8,
                ..*old(self)
            }),
    {
        self.interrupt_flag = self.interrupt_flag | (1u8 << bit as u8);
    }

    /// Clears interrupt request `bit`.
    pub fn clear_interrupt_flag_bit(&mut self, bit: usize)
        requires
            bit < 8,
        ensures
            *final(self) == (InnerContext2 {
                interrupt_flag: (old(self).interrupt_flag & !(1u8 << bit as u8)) as u8,
                ..*old(self)
            }),
    {
        self.interrupt_flag = self.interrupt_flag & !(1u8 << bit as u8);
    }

    /// Holds the CPU for `cycle` more cycles (saturating at the counter's limit).
    pub fn stall_cpu(&mut self, cycle: usize)
        ensures
            *final(self) == (InnerContext2 {
                stall_cpu: old(self).stall_cpu.saturating_add(cycle),
                ..*old(self)
            }),
    {
        self.stall_cpu = self.stall_cpu.saturating_add(cycle);
    }

    /// Consumes one stalled cycle, if any.
    pub fn check_stall_cpu(&mut self) -> (r: bool)
        ensures
            r == (old(self).stall_cpu > 0),
            *final(self) == (InnerContext2 {
                stall_cpu: if r { (old(self).stall_cpu - 1) as usize } else { 0 },
                ..*old(self)
            }),
    {
        if self.stall_cpu > 0 {
            self.stall_cpu = self.stall_cpu - 1;
            true
        } else {
            false
        }
    }

    pub fn wake(&mut self)
        ensures
            *final(self) == (InnerContext2 { wake: true, ..*old(self) }),
    {
        self.wake = true;
    }

    /// Returns and clears the wake request.
    pub fn check_wake(&mut self) -> (r: bool)
        ensures
            r == old(self).wake,
            *final(self) == (InnerContext2 { wake: false, ..*old(self) }),
    {
        let ret = self.wake;
        self.wake = false;
        ret
    }

    pub fn vram_lock(&self) -> (r: bool)
        ensures
            r == self.vram_lock,
    {
        self.vram_lock
    }

    pub fn set_vram_lock(&mut self, lock: bool)
        ensures
            *final(self) == (InnerContext2 { vram_lock: lock, ..*old(self) }),
    {
        self.vram_lock = lock;
    }

    pub fn oam_lock(&self) -> (r: bool)
        ensures
            r == self.oam_lock,
    {
        self.oam_lock
    }

    pub fn set_oam_lock(&mut self, lock: bool)
        ensures
            *final(self) == (InnerContext2 { oam_lock: lock, ..*old(self) }),
    {
        self.oam_lock = lock;
    }

    pub fn model(&self) -> (r: Model)
        ensures
            r == self.model,
    {
        self.model
    }

    pub fn running_mode(&self) -> (r: RunningMode)
        ensures
            r == self.running_mode,
    {
        self.running_mode
    }

    pub fn set_running_mode(&mut self, mode: RunningMode)
        ensures
            *final(self) == (InnerContext2 { running_mode: mode, ..*old(self) }),
    {
        self.running_mode = mode;
    }
}

/// The cartridge, the video and sound units, and the shared memories.
pub struct InnerContext1 {
    pub rom: Rom,
    pub ppu: Ppu,
    pub apu: Apu,
    pub inner: InnerContext2,
}

impl InnerContext1 {
    pub open spec fn wf(&self) -> bool {
        &&& self.rom.wf()
        &&& self.ppu.wf()
        &&& self.apu.wf()
        &&& self.inner.wf()
        &&& self.inner.external_ram@.len() == self.rom.ram_size
    }
}

/// Raising requests keeps those already raised: bits within `f1` stay within `f1` with
/// more bits set.
proof fn lemma_flags_kept(f0: u8, f1: u8, x: u8, y: u8)
    requires
        f0 & f1 == f0,
    ensures
        f0 & ((f1 | x | y) as u8) == f0,
        f0 & ((f1 | x) as u8) == f0,
{
    assert(f0 & f1 == f0 ==> f0 & ((f1 | x | y) as u8) == f0 && f0 & ((f1 | x) as u8) == f0) by (bit_vector);
}

/// The bus and everything behind it: what the CPU deals with.
pub struct InnerContext0 {
    pub bus: Bus,
    pub inner: InnerContext1,
    /// The CPU's dealings with the bus so far.
    pub events: Ghost<Seq<BusEvent>>,
    /// The states of the bus and the devices since the log was last started, each a
    /// `device_step` from the one before.
    pub log: Ghost<Seq<(Bus, InnerContext1)>>,
}

/// `k` dots of the video unit, each followed by one cycle of the sound unit, lead from
/// (`p0`, `c0`, `a0`) to (`p1`, `c1`, `a1`).
pub open spec fn dots_post(p0: Ppu, c0: InnerContext2, a0: Apu, p1: Ppu, c1: InnerContext2, a1: Apu, k: nat) -> bool
    decreases k,
{
    if k == 0 {
        p1 == p0 && c1 == c0 && a1 == a0
    } else {
        exists|pm: Ppu, cm: InnerContext2, am: Apu|
            #![trigger Ppu::tick_post(&pm, &cm, &p1, &c1), Apu::tick_post(&am, &a1)]
            dots_post(p0, c0, a0, pm, cm, am, (k - 1) as nat) && Ppu::tick_post(&pm, &cm, &p1, &c1)
                && Apu::tick_post(&am, &a1)
    }
}

/// One more dot, with its sound cycle, after `k` makes `k + 1`.
proof fn lemma_dots_extend(
    p0: Ppu,
    c0: InnerContext2,
    a0: Apu,
    pm: Ppu,
    cm: InnerContext2,
    am: Apu,
    p1: Ppu,
    c1: InnerContext2,
    a1: Apu,
    k: nat,
)
    requires
        dots_post(p0, c0, a0, pm, cm, am, k),
        Ppu::tick_post(&pm, &cm, &p1, &c1),
        Apu::tick_post(&am, &a1),
    ensures
        dots_post(p0, c0, a0, p1, c1, a1, k + 1),
{
    assert(dots_post(p0, c0, a0, pm, cm, am, ((k + 1) - 1) as nat));
}

/// The parts of a machine cycle make one.
proof fn lemma_cycle(
    s: InnerContext0,
    b1: Bus,
    c1: InnerContext1,
    p2: Ppu,
    i2: InnerContext2,
    a2: Apu,
    sr: SerialTransfer,
    i3: InnerContext2,
    t: InnerContext0,
)
    requires
        Bus::tick_post(&s.bus, &s.inner, &b1, &c1),
        dots_post(c1.ppu, c1.inner, c1.apu, p2, i2, a2, dots_per_cycle(b1.current_speed)),
        SerialTransfer::tick_post(&b1.io.serial, &i2, &sr, &i3),
        Io::tick_post(&(Io { serial: sr, ..b1.io }), &i3, &t.bus.io, &t.inner.inner),
        t.bus == (Bus { io: t.bus.io, ..b1 }),
        t.inner == (InnerContext1 { ppu: p2, apu: a2, inner: t.inner.inner, ..c1 }),
    ensures
        cycle_post(s, t),
{
}

/// Dots of the video unit per machine cycle: four at normal speed, two at double speed.
pub open spec fn dots_per_cycle(speed: u8) -> nat {
    if speed == 0 {
        4
    } else {
        2
    }
}

/// One machine cycle of everything but the CPU, from `s` to `t` (the event log aside):
/// the bus cycle with its DMAs, then four dots of the video unit each with a cycle of the
/// sound unit (two of each in double speed), then the serial port, then the timer.
pub open spec fn cycle_post(s: InnerContext0, t: InnerContext0) -> bool {
    cycle_step(s.bus, s.inner, t.bus, t.inner)
}

/// `cycle_post` on the bus and the devices behind it: from (`b0`, `c0`) to (`bt`, `ct`).
pub open spec fn cycle_step(b0: Bus, c0: InnerContext1, bt: Bus, ct: InnerContext1) -> bool {
    exists|b1: Bus, c1: InnerContext1, p2: Ppu, i2: InnerContext2, a2: Apu, sr: SerialTransfer, i3: InnerContext2|
        #![trigger Bus::tick_post(&b0, &c0, &b1, &c1), dots_post(c1.ppu, c1.inner, c1.apu, p2, i2, a2, dots_per_cycle(b1.current_speed)), SerialTransfer::tick_post(&b1.io.serial, &i2, &sr, &i3)]
        {
            &&& Bus::tick_post(&b0, &c0, &b1, &c1)
            &&& dots_post(c1.ppu, c1.inner, c1.apu, p2, i2, a2, dots_per_cycle(b1.current_speed))
            &&& SerialTransfer::tick_post(&b1.io.serial, &i2, &sr, &i3)
            &&& Io::tick_post(&Io { serial: sr, ..b1.io }, &i3, &bt.io, &ct.inner)
            &&& bt == Bus { io: bt.io, ..b1 }
            &&& ct == InnerContext1 { ppu: p2, apu: a2, inner: ct.inner, ..c1 }
        }
}

/// What the bus's STOP leaves: a prepared speed switch starts its delay; nothing else
/// changes.
pub open spec fn stop_step(b0: Bus, b1: Bus) -> bool {
    &&& b1.switch_delay == (if b0.prepare_speed_switch != 0 { 2050 } else { b0.switch_delay })
    &&& b1.regs_eq(&Bus { switch_delay: b1.switch_delay, ..b0 })
    &&& b1.parts_eq(&b0)
}

/// One step of the machine but the CPU, from (`b0`, `c0`) to (`b1`, `c1`), as the CPU's
/// dealings with the bus make them: a machine cycle, a bus write, a STOP, an interrupt
/// acknowledged, a stalled cycle taken or a wake-up taken. (Reads and looks at the
/// interrupt registers change nothing.)
pub open spec fn device_step(b0: Bus, c0: InnerContext1, b1: Bus, c1: InnerContext1) -> bool {
    ||| cycle_step(b0, c0, b1, c1)
    ||| exists|addr: u16, data: u8| #[trigger] b0.write_post(&c0, &b1, &c1, addr, data)
    ||| c1 == c0 && stop_step(b0, b1)
    ||| b1 == b0 && exists|bit: u8|
        bit < 8 && #[trigger] ack_inner(c0, bit) == c1
    ||| b1 == b0 && c1 == InnerContext1 {
        inner: InnerContext2 {
            stall_cpu: if c0.inner.stall_cpu > 0 { (c0.inner.stall_cpu - 1) as usize } else { 0 },
            ..c0.inner
        },
        ..c0
    }
    ||| b1 == b0 && c1 == InnerContext1 { inner: InnerContext2 { wake: false, ..c0.inner }, ..c0 }
}

/// The devices after interrupt request `bit` is acknowledged.
pub open spec fn ack_inner(c0: InnerContext1, bit: u8) -> InnerContext1 {
    InnerContext1 {
        inner: InnerContext2 { interrupt_flag: (c0.inner.interrupt_flag & !(1u8 << bit)) as u8, ..c0.inner },
        ..c0
    }
}

/// Step `i` of a run of machine states is a `device_step`.
pub open spec fn device_step_at(h: Seq<(Bus, InnerContext1)>, i: int) -> bool {
    device_step(h[i].0, h[i].1, h[i + 1].0, h[i + 1].1)
}

/// A run of machine states, each a `device_step` from the one before.
pub open spec fn run_ok(h: Seq<(Bus, InnerContext1)>) -> bool {
    forall|i: int| 0 <= i < h.len() - 1 ==> #[trigger] device_step_at(h, i)
}

/// A run extended by one more step is a run.
proof fn lemma_run_extend(h: Seq<(Bus, InnerContext1)>, b: Bus, c: InnerContext1)
    requires
        h.len() >= 1,
        run_ok(h),
        device_step(h.last().0, h.last().1, b, c),
    ensures
        run_ok(h.push((b, c))),
{
    let g = h.push((b, c));
    assert forall|i: int| 0 <= i < g.len() - 1 implies #[trigger] device_step_at(g, i) by {
        if i < h.len() - 1 {
            assert(device_step_at(h, i));
            assert(g[i] == h[i] && g[i + 1] == h[i + 1]);
        } else {
            assert(g[i] == h.last() && g[i + 1] == (b, c));
        }
    }
}

/// Dots of the video unit and cycles of the sound unit keep whether the video unit
/// draws and the sample rate.
proof fn lemma_dots_keep(p0: Ppu, c0: InnerContext2, a0: Apu, p1: Ppu, c1: InnerContext2, a1: Apu, k: nat)
    requires
        dots_post(p0, c0, a0, p1, c1, a1, k),
    ensures
        p1.render_graphics == p0.render_graphics,
        a1.audio_buffer.sample_rate == a0.audio_buffer.sample_rate,
    decreases k,
{
    if k > 0 {
        let (pm, cm, am) = choose|pm: Ppu, cm: InnerContext2, am: Apu|
            dots_post(p0, c0, a0, pm, cm, am, (k - 1) as nat) && Ppu::tick_post(&pm, &cm, &p1, &c1)
                && Apu::tick_post(&am, &a1);
        lemma_dots_keep(p0, c0, a0, pm, cm, am, (k - 1) as nat);
    }
}

/// Every step of the machine keeps whether the video unit draws and the sample rate.
proof fn lemma_device_step_keeps(b0: Bus, c0: InnerContext1, b1: Bus, c1: InnerContext1)
    requires
        device_step(b0, c0, b1, c1),
    ensures
        c1.ppu.render_graphics == c0.ppu.render_graphics,
        c1.apu.audio_buffer.sample_rate == c0.apu.audio_buffer.sample_rate,
{
    if cycle_step(b0, c0, b1, c1) {
        let (bm, cm, p2, i2, a2, sr, i3) = choose|
            bm: Bus,
            cm: InnerContext1,
            p2: Ppu,
            i2: InnerContext2,
            a2: Apu,
            sr: SerialTransfer,
            i3: InnerContext2,
        |
            {
                &&& Bus::tick_post(&b0, &c0, &bm, &cm)
                &&& dots_post(cm.ppu, cm.inner, cm.apu, p2, i2, a2, dots_per_cycle(bm.current_speed))
                &&& SerialTransfer::tick_post(&bm.io.serial, &i2, &sr, &i3)
                &&& Io::tick_post(&Io { serial: sr, ..bm.io }, &i3, &b1.io, &c1.inner)
                &&& b1 == Bus { io: b1.io, ..bm }
                &&& c1 == InnerContext1 { ppu: p2, apu: a2, inner: c1.inner, ..cm }
            };
        lemma_dots_keep(cm.ppu, cm.inner, cm.apu, p2, i2, a2, dots_per_cycle(bm.current_speed));
    } else if exists|addr: u16, data: u8| #[trigger] b0.write_post(&c0, &b1, &c1, addr, data) {
        let (addr, data) = choose|addr: u16, data: u8| #[trigger] b0.write_post(&c0, &b1, &c1, addr, data);
        assert(b0.write_post(&c0, &b1, &c1, addr, data));
    }
}

/// Along a run, whether the video unit draws and the sample rate stay as they were.
pub proof fn lemma_run_keeps(h: Seq<(Bus, InnerContext1)>, j: int)
    requires
        h.len() >= 1,
        run_ok(h),
        0 <= j < h.len(),
    ensures
        h[j].1.ppu.render_graphics == h[0].1.ppu.render_graphics,
        h[j].1.apu.audio_buffer.sample_rate == h[0].1.apu.audio_buffer.sample_rate,
    decreases j,
{
    if j > 0 {
        lemma_run_keeps(h, j - 1);
        assert(device_step_at(h, j - 1));
        lemma_device_step_keeps(h[j - 1].0, h[j - 1].1, h[j].0, h[j].1);
    }
}

impl InnerContext0 {
    /// The bus is well formed, and its controller is the one the cartridge header names,
    /// which could be set up without controller RAM.
    pub open spec fn wf(&self) -> bool {
        &&& self.bus.wf(&self.inner)
        &&& mbc_kind_matches(self.bus.mbc, self.inner.rom.cartridge_type.mbc)
        &&& mbc_error_of(&self.inner.rom, None) is None
    }

    /// One machine cycle of the whole machine but the CPU: the bus with its DMAs, four
    /// dots of the video unit and four cycles of the sound unit (two of each in double
    /// speed), the serial port and the timer.
    #[verifier::rlimit(100)]
    #[verifier::spinoff_prover]
    fn step_devices(&mut self)
        requires
            old(self).wf(),
        ensures
            final(self).wf(),
            final(self).events == old(self).events,
            final(self).inner.rom == old(self).inner.rom,
            final(self).inner.inner.model == old(self).inner.inner.model,
            final(self).inner.inner.interrupt_enable == old(self).inner.inner.interrupt_enable,
            old(self).inner.inner.interrupt_flag & final(self).inner.inner.interrupt_flag
                == old(self).inner.inner.interrupt_flag,
            cycle_post(*old(self), *final(self)),
    {
        let ghost s0 = *self;
        let ghost f0 = self.inner.inner.interrupt_flag;
        proof {
            assert(f0 & f0 == f0) by (bit_vector);
        }
        self.bus.tick(&mut self.inner);
        let ghost b1 = self.bus;
        let ghost c1 = self.inner;
        assert(Bus::tick_post(&s0.bus, &s0.inner, &b1, &c1));
        let n: u8 = if self.bus.current_speed() == 0 {
            4
        } else {
            2
        };
        let mut k: u8 = 0;
        while k < n
            invariant
                self.wf(),
                self.events == old(self).events,
                self.inner.rom == old(self).inner.rom,
                self.inner.inner.model == old(self).inner.inner.model,
                self.inner.inner.interrupt_enable == old(self).inner.inner.interrupt_enable,
                f0 == old(self).inner.inner.interrupt_flag,
                f0 & self.inner.inner.interrupt_flag == f0,
                n == (if b1.current_speed == 0 { 4u8 } else { 2u8 }),
                k <= n,
                self.bus == b1,
                self.inner.rom == c1.rom,
                dots_post(c1.ppu, c1.inner, c1.apu, self.inner.ppu, self.inner.inner, self.inner.apu, k as nat),
            decreases n - k,
        {
            let ghost pm = self.inner.ppu;
            let ghost cm = self.inner.inner;
            let ghost am = self.inner.apu;
            let ghost f1 = self.inner.inner.interrupt_flag;
            let ghost p1 = self.inner.ppu;
            let ghost cgb = self.inner.inner.running_mode.spec_is_cgb();
            self.inner.ppu.tick(&mut self.inner.inner);
            proof {
                let r1 = counters_after_dot(p1.regs);
                let m = mode_at(r1);
                let enter = r1.mode != m;
                let draw = r1.ppu_enable && enter && m == Mode::Transfer;
                let r2 = if draw {
                    regs_after_line(with_mode(r1, m), p1.render_graphics, cgb)
                } else {
                    with_mode(r1, m)
                };
                lemma_flags_kept(
                    f0,
                    f1,
                    flag_if(enter && m == Mode::Vblank, 1),
                    flag_if(!r2.prev_lcd_interrupt && lcd_int_line(r2), 2),
                );
            }
            self.inner.apu.tick();
            proof {
                lemma_dots_extend(
                    c1.ppu,
                    c1.inner,
                    c1.apu,
                    pm,
                    cm,
                    am,
                    self.inner.ppu,
                    self.inner.inner,
                    self.inner.apu,
                    k as nat,
                );
            }
            k = k + 1;
        }
        let ghost p2 = self.inner.ppu;
        let ghost i2 = self.inner.inner;
        let ghost a2 = self.inner.apu;
        let ghost f2 = self.inner.inner.interrupt_flag;
        self.bus.io.serial.tick(&mut self.inner.inner);
        proof {
            lemma_flags_kept(f0, f2, 8, 0);
        }
        let ghost sr = self.bus.io.serial;
        let ghost i3 = self.inner.inner;
        let ghost f3 = self.inner.inner.interrupt_flag;
        let ghost reload = self.bus.io.timer_reload;
        assert(self.bus.io == Io { serial: sr, ..b1.io });
        self.bus.io.tick(&mut self.inner.inner);
        assert(self.bus == Bus { io: self.bus.io, ..b1 });
        assert(self.inner == InnerContext1 { ppu: p2, apu: a2, inner: self.inner.inner, ..c1 });
        proof {
            lemma_cycle(s0, b1, c1, p2, i2, a2, sr, i3, *self);
        }
        proof {
            lemma_flags_kept(
                f0,
                f3,
                if reload {
                    4u8
                } else {
                    0u8
                },
                0,
            );
        }
    }

    /// The log of machine states is a run that ends at the present state.
    pub open spec fn log_ok(&self) -> bool {
        &&& self.log@.len() >= 1
        &&& self.log@.last() == (self.bus, self.inner)
        &&& run_ok(self.log@)
    }

    /// Starts the log of machine states afresh at the present state.
    pub fn start_log(&mut self)
        ensures
            final(self).log_ok(),
            final(self).log@ == seq![(old(self).bus, old(self).inner)],
            final(self).bus == old(self).bus,
            final(self).inner == old(self).inner,
            final(self).events == old(self).events,
    {
        self.log = Ghost(Seq::empty().push((self.bus, self.inner)));
    }

    /// Reads `addr` for a debugger; see `Bus::read_immutable`.
    pub fn read_immutable(&mut self, addr: u16) -> (r: Option<u8>)
        requires
            old(self).wf(),
        ensures
            *final(self) == *old(self),
            r == (if (0xff00 <= addr <= 0xff7f) || addr == 0xffff {
                None
            } else {
                Some(old(self).bus.read_value(&old(self).inner, addr))
            }),
    {
        self.bus.read_immutable(&mut self.inner, addr)
    }
}

impl CpuContext for InnerContext0 {
    open spec fn events(&self) -> Seq<BusEvent> {
        self.events@
    }

    open spec fn ctx_wf(&self) -> bool {
        self.wf() && self.log_ok()
    }

    open spec fn ie_spec(&self) -> u8 {
        self.inner.inner.interrupt_enable
    }

    open spec fn if_spec(&self) -> u8 {
        self.inner.inner.interrupt_flag
    }

    open spec fn stall_spec(&self) -> usize {
        self.inner.inner.stall_cpu
    }

    open spec fn wake_spec(&self) -> bool {
        self.inner.inner.wake
    }

    /// The machine state at which the log of device steps starts.
    open spec fn anchor(&self) -> Self {
        InnerContext0 {
            bus: self.log@[0].0,
            inner: self.log@[0].1,
            events: Ghost(Seq::empty()),
            log: Ghost(Seq::empty()),
        }
    }

    /// One machine cycle of the devices (`cycle_post`): interrupt requests already
    /// raised stay raised, and the interrupt enable register and the cartridge are left
    /// alone.
    fn bus_tick(&mut self)
        ensures
            cycle_post(*old(self), *final(self)),
            final(self).inner.rom == old(self).inner.rom,
            final(self).inner.inner.interrupt_enable == old(self).inner.inner.interrupt_enable,
            old(self).inner.inner.interrupt_flag & final(self).inner.inner.interrupt_flag
                == old(self).inner.inner.interrupt_flag,
    {
        let ghost h = self.log@;
        self.step_devices();
        self.events = Ghost(self.events@.push(BusEvent::Tick));
        proof {
            lemma_run_extend(h, self.bus, self.inner);
        }
        self.log = Ghost(h.push((self.bus, self.inner)));
    }

    fn bus_stop(&mut self) {
        let ghost h = self.log@;
        self.bus.stop();
        self.events = Ghost(self.events@.push(BusEvent::Stop));
        proof {
            lemma_run_extend(h, self.bus, self.inner);
        }
        self.log = Ghost(h.push((self.bus, self.inner)));
    }

    fn bus_read(&mut self, addr: u16) -> (data: u8)
        ensures
            data == old(self).bus.read_value(&old(self).inner, addr),
    {
        let data = self.bus.read(&mut self.inner, addr);
        self.events = Ghost(self.events@.push(BusEvent::Read { addr, data }));
        data
    }

    fn bus_write(&mut self, addr: u16, data: u8)
        ensures
            old(self).bus.write_post(&old(self).inner, &final(self).bus, &final(self).inner, addr, data),
    {
        let ghost h = self.log@;
        let ghost b0 = self.bus;
        let ghost c0 = self.inner;
        self.bus.write(&mut self.inner, addr, data);
        self.events = Ghost(self.events@.push(BusEvent::Write { addr, data }));
        proof {
            assert(b0.write_post(&c0, &self.bus, &self.inner, addr, data));
            lemma_run_extend(h, self.bus, self.inner);
        }
        self.log = Ghost(h.push((self.bus, self.inner)));
    }

    fn pending_interrupts(&mut self) -> (r: u8) {
        let r = self.inner.inner.interrupt_enable() & self.inner.inner.interrupt_flag();
        self.events = Ghost(self.events@.push(BusEvent::Pending(r)));
        r
    }

    fn clear_interrupt_request(&mut self, bit: u8) {
        let ghost h = self.log@;
        let ghost c0 = self.inner;
        self.inner.inner.clear_interrupt_flag_bit(bit as usize);
        self.events = Ghost(self.events@.push(BusEvent::Ack(bit)));
        proof {
            assert(ack_inner(c0, bit) == self.inner);
            lemma_run_extend(h, self.bus, self.inner);
        }
        self.log = Ghost(h.push((self.bus, self.inner)));
    }

    fn take_stall(&mut self) -> (r: bool) {
        let ghost h = self.log@;
        let r = self.inner.inner.check_stall_cpu();
        proof {
            lemma_run_extend(h, self.bus, self.inner);
        }
        self.log = Ghost(h.push((self.bus, self.inner)));
        r
    }

    fn take_wake(&mut self) -> (r: bool) {
        let ghost h = self.log@;
        let r = self.inner.inner.check_wake();
        proof {
            lemma_run_extend(h, self.bus, self.inner);
        }
        self.log = Ghost(h.push((self.bus, self.inner)));
        r
    }
}

/// Reasons for which a machine cannot be put together.
#[derive(Clone, Copy, PartialEq, Eq, Structural, Debug)]
pub enum ContextError {
    /// The cartridge's controller cannot be set up.
    Mbc(MbcError),
    /// Backup RAM was given for a cartridge without a battery.
    BackupRamWithoutBattery,
    /// The backup RAM's size is not the RAM size in the cartridge header.
    BackupRamSizeMismatch,
}

/// Why a machine cannot be built from `rom` and backup RAM of `backup` bytes, if it
/// cannot. On a cartridge whose controller holds its RAM (the MBC2) the backup is that
/// RAM; otherwise it is the cartridge RAM.
pub open spec fn context_error_of(rom: &Rom, backup: Option<nat>) -> Option<ContextError> {
    let internal = rom.cartridge_type.mbc == Some(crate::rom::Mbc::Mbc2);
    match mbc_error_of(rom, if internal { backup } else { None }) {
        Some(e) => Some(ContextError::Mbc(e)),
        None => if !internal && backup is Some {
            if !rom.cartridge_type.has_battery {
                Some(ContextError::BackupRamWithoutBattery)
            } else if backup->Some_0 != rom.ram_size {
                Some(ContextError::BackupRamSizeMismatch)
            } else {
                None
            }
        } else {
            None
        },
    }
}

/// The whole machine: the CPU and what it deals with.
pub struct Context {
    pub cpu: Cpu,
    pub inner: InnerContext0,
}

impl Context {
    pub open spec fn wf(&self) -> bool {
        self.inner.wf()
    }

    /// A machine at power-on running `rom` on `model`, with the boot ROM mapped in when
    /// one is given. Backup RAM, when given, becomes the cartridge RAM (or the MBC2's
    /// RAM); otherwise the cartridge RAM is cleared. Backup RAM that does not fit the
    /// cartridge (one without a battery, or of another size than the header gives) is
    /// refused with an error rather than taken: it is read from a file at run time, so no
    /// caller could rule it out beforehand, and the front end stops on the error.
    pub fn new(
        model: Model,
        rom: Rom,
        boot_rom: &Option<Vec<u8>>,
        backup_ram: Option<Vec<u8>>,
        dmg_palette: &[Color; 4],
    ) -> (r: Result<Context, ContextError>)
        requires
            model != Model::Auto,
            rom.wf(),
            boot_rom matches Some(b) ==> b@.len() == boot_rom_size(model),
        ensures
            match context_error_of(&rom, opt_len(backup_ram)) {
                Some(e) => r == Err::<Context, ContextError>(e),
                None => r is Ok,
            },
            r matches Ok(c) ==> {
                let i1 = c.inner.inner;
                let i2 = c.inner.inner.inner;
                let external = rom.cartridge_type.mbc != Some(crate::rom::Mbc::Mbc2) && backup_ram is Some;
                &&& c.wf()
                &&& c.cpu.reg == crate::cpu::zero_regs()
                &&& !c.cpu.halting && !c.cpu.interrupt_master_enable
                &&& c.cpu.cycle == 0 && c.cpu.period == 0
                &&& c.inner.events@ == Seq::<BusEvent>::empty()
                &&& i1.rom == rom
                &&& i1.ppu.dmg_palette == *dmg_palette
                &&& !i1.ppu.regs.ppu_enable
                &&& i1.ppu.regs.frame == 0
                &&& !i1.apu.power_on
                &&& i1.apu.audio_buffer.samples@.len() == 0
                &&& i2.model == model
                &&& i2.running_mode == (if model.spec_is_cgb() { RunningMode::Cgb } else { RunningMode::Dmg })
                &&& i2.vram@ == Seq::new(vram_size(model), |i: int| 0u8)
                &&& i2.oam@ == Seq::new(0xA0, |i: int| 0u8)
                &&& i2.external_ram@ == (if external {
                    backup_ram->Some_0@
                } else {
                    Seq::new(rom.ram_size as nat, |i: int| 0u8)
                })
                &&& i2.interrupt_enable == 0 && i2.interrupt_flag == 0
                &&& i2.stall_cpu == 0 && !i2.wake && !i2.vram_lock && !i2.oam_lock
                &&& c.inner.bus.map_boot_rom == boot_rom is Some
                &&& c.inner.bus.boot_rom is Some == boot_rom is Some
                &&& (boot_rom matches Some(b) ==> c.inner.bus.boot_rom->Some_0@ == b@)
                &&& mbc_kind_matches(c.inner.bus.mbc, rom.cartridge_type.mbc)
                &&& c.inner.bus.fault is None
            },
    {
        let io = Io::new();
        let has_internal = rom.cartridge_type.has_internal_ram();
        let ghost backup_len = opt_len(backup_ram);
        let (internal_ram, backup_ram) = if has_internal {
            (backup_ram, None)
        } else {
            (None, backup_ram)
        };
        let mbc = match create_mbc(&rom, internal_ram) {
            Ok(m) => m,
            Err(e) => {
                return Err(ContextError::Mbc(e));
            },
        };
        let cgb = model.is_cgb();
        let bus = Bus::new(model, mbc, boot_rom, io);
        let vram_len: usize = if cgb {
            0x4000
        } else {
            0x2000
        };
        let running_mode = if cgb {
            RunningMode::Cgb
        } else {
            RunningMode::Dmg
        };
        let external_ram = match backup_ram {
            Some(ram) => {
                if !rom.cartridge_type.has_battery {
                    return Err(ContextError::BackupRamWithoutBattery);
                }
                if ram.len() as u64 != rom.ram_size {
                    return Err(ContextError::BackupRamSizeMismatch);
                }
                ram
            },
            None => {
                let z = vec![0u8; rom.ram_size as usize];
                proof {
                    assert(z@ =~= Seq::new(rom.ram_size as nat, |i: int| 0u8));
                }
                z
            },
        };
        let vram = vec![0u8; vram_len];
        let oam = vec![0u8; 0xA0];
        proof {
            assert(vram@ =~= Seq::new(vram_size(model), |i: int| 0u8));
            assert(oam@ =~= Seq::new(0xA0, |i: int| 0u8));
        }
        let inner2 = InnerContext2 {
            model,
            running_mode,
            vram,
            vram_lock: false,
            oam,
            oam_lock: false,
            external_ram,
            interrupt_enable: 0,
            interrupt_flag: 0,
            stall_cpu: 0,
            wake: false,
        };
        let inner1 = InnerContext1 { rom, ppu: Ppu::new(dmg_palette), apu: Apu::new(), inner: inner2 };
        Ok(Context { cpu: Cpu::new(), inner: InnerContext0 { bus, inner: inner1, events: Ghost(Seq::empty()), log: Ghost(Seq::empty()) } })
    }

    /// The cartridge RAM, when the cartridge keeps it with a battery.
    pub fn backup_ram(&self) -> (r: Option<Vec<u8>>)
        ensures
            r is Some == (self.inner.inner.rom.ram_size > 0 && self.inner.inner.rom.cartridge_type.has_battery),
            r matches Some(v) ==> v@ == self.inner.inner.inner.external_ram@,
    {
        if self.inner.inner.rom.ram_size > 0 && self.inner.inner.rom.cartridge_type.has_battery {
            Some(copy_bytes(self.inner.inner.inner.external_ram.as_slice()))
        } else {
            None
        }
    }
}

} // verus!
