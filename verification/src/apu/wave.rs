//! The wave channel (3) and the noise channel (4).
use vstd::prelude::*;

verus! {

broadcast use crate::bits::group_and_bounds;

/// The wave channel: plays 32 four-bit samples from wave RAM.
#[derive(Clone, Copy)]
pub struct Wave {
    pub enable: bool,
    pub length: u16,
    pub output_level: u8,
    pub frequency: u16,
    pub length_enable: bool,
    pub ram: [u8; 16],
    pub on: bool,
    pub frequency_timer: u16,
    pub sample_latch: u8,
    pub pos: u8,
    pub length_tick_in: bool,
    pub prev_length_tick: bool,
}

impl Wave {
    pub open spec fn wf(&self) -> bool {
        &&& self.length <= 256
        &&& self.output_level < 4
        &&& self.frequency < 2048
        &&& self.frequency_timer <= 4096
        &&& self.sample_latch < 16
        &&& self.pos < 32
    }

    /// The register at `regno` (0 to 4) as read back.
    pub open spec fn reg_value(&self, regno: usize) -> u8 {
        if regno == 0 {
            (0x7F | (if self.enable { 0x80u8 } else { 0 })) as u8
        } else if regno == 2 {
            (0x9F | (self.output_level << 5u8)) as u8
        } else if regno == 4 {
            (0xBF | (if self.length_enable { 0x40u8 } else { 0 })) as u8
        } else {
            0xFF
        }
    }

    pub fn new() -> (r: Wave)
        ensures
            r.wf(),
            !r.on,
            r.length == 0,
            forall|i: int| 0 <= i < 16 ==> r.ram[i] == 0,
    {
        Wave {
            enable: false,
            length: 0,
            output_level: 0,
            frequency: 0,
            length_enable: false,
            ram: [0; 16],
            on: false,
            frequency_timer: 0,
            sample_latch: 0,
            pos: 0,
            length_tick_in: false,
            prev_length_tick: false,
        }
    }

    /// Back to the power-on state, but wave RAM and the length counter are kept.
    pub fn reset(&mut self)
        ensures
            final(self).wf(),
            !final(self).on,
            final(self).ram == old(self).ram,
            old(self).length <= 256 ==> final(self).length == old(self).length,
    {
        let ram = self.ram;
        let length = if self.length <= 256 { self.length } else { 256 };
        *self = Wave::new();
        self.ram = ram;
        self.length = length;
    }

    pub fn read(&self, regno: usize) -> (r: u8)
        ensures
            r == self.reg_value(regno),
    {
        if regno == 0 {
            0x7F | (if self.enable { 0x80u8 } else { 0 })
        } else if regno == 2 {
            0x9F | (self.output_level << 5u8)
        } else if regno == 4 {
            0xBF | (if self.length_enable { 0x40u8 } else { 0 })
        } else {
            0xFF
        }
    }

    /// A length step: while enabled, the counter goes down (stopping at zero) and at
    /// zero the channel stops.
    pub open spec fn length_step(w: Wave) -> Wave {
        if w.length_enable {
            let l = if w.length > 0 { (w.length - 1) as u16 } else { 0u16 };
            Wave { length: l, on: w.on && l != 0, ..w }
        } else {
            w
        }
    }

    /// The length clock taken until steady: a rising edge, while the counter runs and is
    /// not zero, steps it; the remembered input is then the clock as it stands.
    #[verifier::opaque]
    pub open spec fn edges(w: Wave) -> Wave {
        let lt = w.length_tick_in && w.length_enable && w.length > 0;
        let w1 = if !w.prev_length_tick && lt { Self::length_step(w) } else { w };
        Wave { prev_length_tick: w1.length_tick_in && w1.length_enable && w1.length > 0, ..w1 }
    }

    /// One cycle with length clock `lt`: the timer counts down; at zero it restarts, the
    /// position moves on and the next sample is latched; then the clock is taken.
    #[verifier::opaque]
    pub open spec fn tick_spec(w: Wave, lt: bool) -> Wave {
        let t = if w.frequency_timer > 0 { (w.frequency_timer - 1) as u16 } else { 0u16 };
        let w1 = if t == 0 {
            let pos = ((w.pos + 1) % 32) as u8;
            let v = w.ram[(pos / 2) as int];
            Wave {
                frequency_timer: ((2048 - w.frequency) * 2) as u16,
                pos,
                sample_latch: if pos % 2 == 0 { (v >> 4u8) as u8 } else { (v & 0x0F) as u8 },
                ..w
            }
        } else {
            Wave { frequency_timer: t, ..w }
        };
        Self::edges(Wave { length_tick_in: lt, ..w1 })
    }

    fn length_tick(&mut self)
        requires
            old(self).wf(),
        ensures
            final(self).wf(),
            final(self).length == (if old(self).length_enable && old(self).length > 0 { old(self).length - 1 } else { old(self).length as int }),
            final(self).on == (old(self).on && !(old(self).length_enable && final(self).length == 0)),
            final(self).length_enable == old(self).length_enable,
            final(self).length_tick_in == old(self).length_tick_in,
            final(self).prev_length_tick == old(self).prev_length_tick,
            final(self).pos == old(self).pos,
            *final(self) == Self::length_step(*old(self)),
            final(self).ram == old(self).ram,
            final(self).enable == old(self).enable,
            final(self).output_level == old(self).output_level,
            final(self).frequency == old(self).frequency,
            final(self).sample_latch == old(self).sample_latch,
    {
        if self.length_enable {
            self.length = self.length.saturating_sub(1);
            if self.length == 0 {
                self.on = false;
            }
        }
    }

    /// Takes the length clock until it is steady: a rising edge of the clock, while the
    /// length counter runs and is not zero, steps the counter.
    fn update_tick(&mut self)
        requires
            old(self).wf(),
        ensures
            final(self).wf(),
            final(self).prev_length_tick == (final(self).length_tick_in && final(self).length_enable && final(self).length > 0),
            final(self).length_tick_in == old(self).length_tick_in,
            final(self).length_enable == old(self).length_enable,
            final(self).length <= old(self).length,
            final(self).on ==> old(self).on,
            final(self).pos == old(self).pos,
            final(self).ram == old(self).ram,
            final(self).enable == old(self).enable,
            final(self).output_level == old(self).output_level,
            final(self).frequency == old(self).frequency,
            final(self).sample_latch == old(self).sample_latch,
            *final(self) == Self::edges(*old(self)),
    {
        proof {
            reveal(Wave::edges);
        }
        let lt = self.length_tick_in && self.length_enable && self.length > 0;
        if !self.prev_length_tick && lt {
            self.length_tick();
        }
        self.prev_length_tick = self.length_tick_in && self.length_enable && self.length > 0;
    }

    /// Starts the channel: on if the DAC is on, the length reloads if it ran out, the
    /// timer restarts and the sample position goes back to the start.
    fn trigger(&mut self)
        requires
            old(self).wf(),
        ensures
            final(self).wf(),
            final(self).on == old(self).enable,
            final(self).length == (if old(self).length == 0 { 256 } else { old(self).length }),
            final(self).frequency_timer == (2048 - old(self).frequency) * 2,
            final(self).pos == 0,
            final(self).enable == old(self).enable,
            final(self).length_enable == old(self).length_enable,
            final(self).frequency == old(self).frequency,
            final(self).output_level == old(self).output_level,
            final(self).ram == old(self).ram,
            final(self).length_tick_in == old(self).length_tick_in,
            final(self).sample_latch == old(self).sample_latch,
    {
        self.on = self.enable;
        if self.length == 0 {
            self.length = 256;
        }
        self.frequency_timer = (2048 - self.frequency) * 2;
        self.pos = 0;
    }

    /// What a write of `data` to register `regno` leaves (`n`).
    pub open spec fn write_post(&self, n: &Wave, regno: usize, data: u8) -> bool {
        &&& !n.enable ==> !n.on
        &&& regno == 0 ==> n.enable == (data & 0x80 != 0)
        &&& regno == 1 ==> n.length <= 256 - data as int
        &&& regno == 2 ==> n.output_level == (data >> 5u8) & 3
        &&& regno == 3 ==> n.frequency == (self.frequency & 0x700) | data as u16
        &&& regno == 4 ==> n.frequency == (self.frequency & 0xFF) | (((data & 7) as u16) << 8u16) && n.length_enable == (data & 0x40 != 0)
        &&& regno != 0 ==> n.enable == self.enable
        &&& n.ram == self.ram
    }

    /// Writes register `regno` (0 to 4). With the DAC off the channel stops.
    pub fn write(&mut self, regno: usize, data: u8)
        requires
            old(self).wf(),
            regno < 5,
        ensures
            final(self).wf(),
            old(self).write_post(final(self), regno, data),
    {
        if regno == 0 {
            self.enable = data & 0x80 != 0;
        } else if regno == 1 {
            self.length = 256 - data as u16;
        } else if regno == 2 {
            self.output_level = (data >> 5u8) & 3;
        } else if regno == 3 {
            let f = self.frequency;
            self.frequency = (f & 0x700) | data as u16;
            proof {
                assert((f & 0x700) | (data as u16) < 2048) by (bit_vector);
            }
        } else {
            let f = self.frequency;
            self.frequency = (f & 0xFF) | (((data & 7) as u16) << 8u16);
            proof {
                assert((f & 0xFF) | (((data & 7) as u16) << 8u16) < 2048) by (bit_vector);
            }
            self.length_enable = data & 0x40 != 0;
            self.update_tick();
            if data & 0x80 != 0 {
                self.trigger();
            }
        }
        if !self.enable {
            self.on = false;
        }
        self.update_tick();
    }

    /// One cycle: the timer counts down; at zero it restarts, the position moves on
    /// and the next sample is latched; then the length clock is taken.
    pub fn tick(&mut self, length_tick: bool)
        requires
            old(self).wf(),
        ensures
            final(self).wf(),
            final(self).on ==> old(self).on,
            final(self).ram == old(self).ram,
            final(self).enable == old(self).enable,
            final(self).output_level == old(self).output_level,
            ({
                let t = if old(self).frequency_timer > 0 { old(self).frequency_timer - 1 } else { 0 };
                let pos = (old(self).pos + 1) % 32;
                let v = old(self).ram[pos / 2];
                &&& final(self).pos == (if t == 0 { pos } else { old(self).pos as int })
                &&& final(self).sample_latch == (if t != 0 {
                    old(self).sample_latch
                } else if pos % 2 == 0 {
                    v >> 4u8
                } else {
                    v & 0x0F
                })
            }),
            *final(self) == Self::tick_spec(*old(self), length_tick),
    {
        let ghost w0 = *self;
        self.frequency_timer = self.frequency_timer.saturating_sub(1);
        if self.frequency_timer == 0 {
            self.frequency_timer = (2048 - self.frequency) * 2;
            self.pos = (self.pos + 1) % 32;
            let v = self.ram[(self.pos / 2) as usize];
            self.sample_latch = if self.pos % 2 == 0 { v >> 4u8 } else { v & 0x0F };
            proof {
                crate::bits::lemma_u8_facts(v);
            }
        }
        self.length_tick_in = length_tick;
        let ghost mid = *self;
        self.update_tick();
        assert(*self == Self::tick_spec(w0, length_tick)) by {
            reveal(Wave::tick_spec);
            assert(*self == Self::edges(mid));
        }
    }

    /// While on: the latched sample shifted down by the output level (level 0 mutes).
    pub fn output(&self) -> (r: Option<u8>)
        requires
            self.wf(),
        ensures
            r == (if !self.on {
                None
            } else if self.output_level == 0 {
                Some(0u8)
            } else {
                Some((self.sample_latch >> (self.output_level - 1) as u8) as u8)
            }),
            r matches Some(v) ==> v < 16,
    {
        if self.on {
            if self.output_level == 0 {
                Some(0)
            } else {
                let s = self.sample_latch;
                let k = self.output_level - 1;
                proof {
                    assert(s < 16 ==> s >> k <= s) by (bit_vector);
                }
                Some(s >> k)
            }
        } else {
            None
        }
    }
}

/// Divisors of the noise channel by divisor code.
pub open spec fn divisor(code: u8) -> u8 {
    if code == 0 {
        8
    } else {
        (code * 16) as u8
    }
}

/// The noise channel: a linear-feedback shift register clocked by a divided timer.
#[derive(Clone, Copy)]
pub struct Noise {
    pub length: u8,
    pub initial_volume: u8,
    pub envelope_inc: bool,
    pub envelope_period: u8,
    pub clock_shift: u8,
    pub lsfr_width: bool,
    pub divisor_code: u8,
    pub length_enable: bool,
    pub on: bool,
    pub current_volume: u8,
    pub envelope_timer: u8,
    pub divisor_timer: u8,
    pub shift_clock_timer: u16,
    pub lsfr: u16,
    pub sample_acc: u64,
    pub sample_count: u64,
    pub length_tick_in: bool,
    pub prev_length_tick: bool,
    pub envelope_tick_in: bool,
    pub prev_envelope_tick: bool,
}

/// The shift clock period: 2 to the clock shift plus one, with the shift amount taken
/// modulo 16 as a wrapping shift does.
pub open spec fn shift_period(shift: u8) -> u16 {
    if shift + 1 < 16 {
        (1u16 << (shift + 1) as u16) as u16
    } else {
        1
    }
}

fn shift_period_exec(shift: u8) -> (r: u16)
    requires
        shift < 16,
    ensures
        r == shift_period(shift),
{
    if shift + 1 < 16 {
        1u16 << (shift + 1) as u16
    } else {
        1
    }
}

impl Noise {
    pub open spec fn wf(&self) -> bool {
        &&& self.length <= 64
        &&& self.initial_volume < 16
        &&& self.envelope_period < 8
        &&& self.clock_shift < 16
        &&& self.divisor_code < 8
        &&& self.current_volume < 16
        &&& self.sample_acc <= self.sample_count
    }

    pub open spec fn reg_value(&self, regno: usize) -> u8 {
        if regno == 1 {
            ((self.initial_volume << 4u8) | (if self.envelope_inc { 0x08u8 } else { 0 }) | self.envelope_period) as u8
        } else if regno == 2 {
            ((self.clock_shift << 4u8) | (if self.lsfr_width { 0x08u8 } else { 0 }) | self.divisor_code) as u8
        } else if regno == 3 {
            (0xBF | (if self.length_enable { 0x40u8 } else { 0 })) as u8
        } else {
            0xFF
        }
    }

    pub open spec fn dac_on(&self) -> bool {
        self.initial_volume > 0 || self.envelope_inc
    }

    /// The register settings and the shift register agree.
    pub open spec fn settings_eq(&self, o: &Noise) -> bool {
        &&& self.initial_volume == o.initial_volume
        &&& self.envelope_inc == o.envelope_inc
        &&& self.envelope_period == o.envelope_period
        &&& self.clock_shift == o.clock_shift
        &&& self.lsfr_width == o.lsfr_width
        &&& self.divisor_code == o.divisor_code
        &&& self.length_enable == o.length_enable
        &&& self.lsfr == o.lsfr
    }

    pub fn new() -> (r: Noise)
        ensures
            r.wf(),
            !r.on,
            r.length == 0,
    {
        Noise {
            length: 0,
            initial_volume: 0,
            envelope_inc: false,
            envelope_period: 0,
            clock_shift: 0,
            lsfr_width: false,
            divisor_code: 0,
            length_enable: false,
            on: false,
            current_volume: 0,
            envelope_timer: 0,
            divisor_timer: 0,
            shift_clock_timer: 0,
            lsfr: 0,
            sample_acc: 0,
            sample_count: 0,
            length_tick_in: false,
            prev_length_tick: false,
            envelope_tick_in: false,
            prev_envelope_tick: false,
        }
    }

    pub fn read(&self, regno: usize) -> (r: u8)
        ensures
            r == self.reg_value(regno),
    {
        if regno == 1 {
            (self.initial_volume << 4u8) | (if self.envelope_inc { 0x08u8 } else { 0 }) | self.envelope_period
        } else if regno == 2 {
            (self.clock_shift << 4u8) | (if self.lsfr_width { 0x08u8 } else { 0 }) | self.divisor_code
        } else if regno == 3 {
            0xBF | (if self.length_enable { 0x40u8 } else { 0 })
        } else {
            0xFF
        }
    }

    /// A length step: while enabled, the counter goes down (stopping at zero) and at
    /// zero the channel stops.
    pub open spec fn length_step(n: Noise) -> Noise {
        if n.length_enable {
            let l = if n.length > 0 { (n.length - 1) as u8 } else { 0u8 };
            Noise { length: l, on: n.on && l != 0, ..n }
        } else {
            n
        }
    }

    /// An envelope step: the timer counts down; when it is zero with a nonzero period it
    /// reloads and the volume moves one step towards 15 or 0.
    pub open spec fn envelope_step(n: Noise) -> Noise {
        let t = if n.envelope_timer > 0 { (n.envelope_timer - 1) as u8 } else { 0u8 };
        if t == 0 && n.envelope_period > 0 {
            let v = if n.envelope_inc {
                if n.current_volume < 15 { (n.current_volume + 1) as u8 } else { n.current_volume }
            } else if n.current_volume > 0 {
                (n.current_volume - 1) as u8
            } else {
                0u8
            };
            Noise { envelope_timer: n.envelope_period, current_volume: v, ..n }
        } else {
            Noise { envelope_timer: t, ..n }
        }
    }

    /// The length clock taken until steady (as for the wave channel), then the envelope
    /// clock's rising edge.
    #[verifier::opaque]
    pub open spec fn edges(n: Noise) -> Noise {
        let lt = n.length_tick_in && n.length_enable && n.length > 0;
        let n1 = if !n.prev_length_tick && lt { Self::length_step(n) } else { n };
        let n2 = Noise { prev_length_tick: n1.length_tick_in && n1.length_enable && n1.length > 0, ..n1 };
        let n3 = if !n2.prev_envelope_tick && n2.envelope_tick_in { Self::envelope_step(n2) } else { n2 };
        Noise { prev_envelope_tick: n2.envelope_tick_in, ..n3 }
    }

    /// One cycle with length clock `lt` and envelope clock `et`: the shift clock counts
    /// down; at zero it restarts and the divisor timer counts down; at zero that restarts
    /// too, the current sample is counted and the register shifts; then the clocks are
    /// taken.
    #[verifier::opaque]
    pub open spec fn tick_spec(n: Noise, lt: bool, et: bool) -> Noise {
        let sct = if n.shift_clock_timer > 0 { (n.shift_clock_timer - 1) as u16 } else { 0u16 };
        let n1 = if sct != 0 {
            Noise { shift_clock_timer: sct, ..n }
        } else {
            let dt = if n.divisor_timer > 0 { (n.divisor_timer - 1) as u8 } else { 0u8 };
            if dt != 0 {
                Noise { shift_clock_timer: shift_period(n.clock_shift), divisor_timer: dt, ..n }
            } else {
                let bit = ((n.lsfr & 1) ^ 1) as u64;
                Noise {
                    shift_clock_timer: shift_period(n.clock_shift),
                    divisor_timer: (divisor(n.divisor_code) / 2) as u8,
                    sample_acc: if n.sample_acc + bit > u64::MAX { u64::MAX } else { (n.sample_acc + bit) as u64 },
                    sample_count: if n.sample_count + 1 > u64::MAX { u64::MAX } else { (n.sample_count + 1) as u64 },
                    lsfr: Self::shifted(n.lsfr, n.lsfr_width),
                    ..n
                }
            }
        };
        Self::edges(Noise { length_tick_in: lt, envelope_tick_in: et, ..n1 })
    }

    fn length_tick(&mut self)
        requires
            old(self).wf(),
        ensures
            final(self).wf(),
            final(self).length == (if old(self).length_enable && old(self).length > 0 { old(self).length - 1 } else { old(self).length as int }),
            final(self).on == (old(self).on && !(old(self).length_enable && final(self).length == 0)),
            final(self).length_enable == old(self).length_enable,
            final(self).length_tick_in == old(self).length_tick_in,
            final(self).envelope_tick_in == old(self).envelope_tick_in,
            final(self).prev_envelope_tick == old(self).prev_envelope_tick,
            final(self).prev_length_tick == old(self).prev_length_tick,
            final(self).current_volume == old(self).current_volume,
            final(self).settings_eq(old(self)),
            *final(self) == Self::length_step(*old(self)),
    {
        if self.length_enable {
            self.length = self.length.saturating_sub(1);
            if self.length == 0 {
                self.on = false;
            }
        }
    }

    fn envelope_tick(&mut self)
        requires
            old(self).wf(),
        ensures
            final(self).wf(),
            final(self).on == old(self).on,
            final(self).length == old(self).length,
            final(self).length_enable == old(self).length_enable,
            final(self).length_tick_in == old(self).length_tick_in,
            final(self).prev_length_tick == old(self).prev_length_tick,
            final(self).envelope_tick_in == old(self).envelope_tick_in,
            final(self).settings_eq(old(self)),
            ({
                let t = if old(self).envelope_timer > 0 { old(self).envelope_timer - 1 } else { 0 };
                let fires = t == 0 && old(self).envelope_period > 0;
                final(self).current_volume == (if !fires {
                    old(self).current_volume
                } else if old(self).envelope_inc {
                    if old(self).current_volume < 15 { (old(self).current_volume + 1) as u8 } else { 15 }
                } else if old(self).current_volume > 0 {
                    (old(self).current_volume - 1) as u8
                } else {
                    0
                })
            }),
            *final(self) == Self::envelope_step(*old(self)),
    {
        self.envelope_timer = self.envelope_timer.saturating_sub(1);
        if self.envelope_timer == 0 && self.envelope_period > 0 {
            self.envelope_timer = self.envelope_period;
            if self.envelope_inc {
                if self.current_volume < 15 {
                    self.current_volume = self.current_volume + 1;
                }
            } else {
                self.current_volume = self.current_volume.saturating_sub(1);
            }
        }
    }

    /// Takes the length clock until it is steady, then the envelope clock's rising edge.
    fn update_tick(&mut self)
        requires
            old(self).wf(),
        ensures
            final(self).wf(),
            final(self).prev_length_tick == (final(self).length_tick_in && final(self).length_enable && final(self).length > 0),
            final(self).prev_envelope_tick == old(self).envelope_tick_in,
            final(self).length_tick_in == old(self).length_tick_in,
            final(self).envelope_tick_in == old(self).envelope_tick_in,
            final(self).length_enable == old(self).length_enable,
            final(self).length <= old(self).length,
            final(self).on ==> old(self).on,
            final(self).settings_eq(old(self)),
            *final(self) == Self::edges(*old(self)),
    {
        proof {
            reveal(Noise::edges);
        }
        let lt = self.length_tick_in && self.length_enable && self.length > 0;
        if !self.prev_length_tick && lt {
            self.length_tick();
        }
        self.prev_length_tick = self.length_tick_in && self.length_enable && self.length > 0;
        if !self.prev_envelope_tick && self.envelope_tick_in {
            self.envelope_tick();
        }
        self.prev_envelope_tick = self.envelope_tick_in;
    }

    /// Starts the channel: on if the DAC is on, the length reloads if it ran out, the
    /// volume restarts, the shift register fills with ones and the timers restart.
    fn trigger(&mut self)
        requires
            old(self).wf(),
        ensures
            final(self).wf(),
            final(self).on == old(self).dac_on(),
            final(self).length == (if old(self).length == 0 { 64 } else { old(self).length }),
            final(self).current_volume == old(self).initial_volume,
            final(self).lsfr == 0x7fff,
            final(self).divisor_timer == divisor(old(self).divisor_code) / 2,
            final(self).shift_clock_timer == shift_period(old(self).clock_shift),
            final(self).initial_volume == old(self).initial_volume,
            final(self).envelope_inc == old(self).envelope_inc,
            final(self).length_enable == old(self).length_enable,
            final(self).length_tick_in == old(self).length_tick_in,
            final(self).envelope_tick_in == old(self).envelope_tick_in,
            final(self).prev_envelope_tick == old(self).prev_envelope_tick,
    {
        self.on = self.initial_volume > 0 || self.envelope_inc;
        if self.length == 0 {
            self.length = 64;
        }
        self.current_volume = self.initial_volume;
        self.lsfr = 0x7fff;
        self.divisor_timer = (if self.divisor_code == 0 { 8 } else { self.divisor_code * 16 }) / 2;
        self.shift_clock_timer = shift_period_exec(self.clock_shift);
    }

    /// What a write of `data` to register `regno` leaves (`n`).
    pub open spec fn write_post(&self, n: &Noise, regno: usize, data: u8) -> bool {
        &&& !n.dac_on() ==> !n.on
        &&& regno == 1 ==> n.initial_volume == data >> 4u8 && n.envelope_inc == (data & 0x08 != 0) && n.envelope_period == data & 7
        &&& regno == 2 ==> n.clock_shift == data >> 4u8 && n.lsfr_width == (data & 0x08 != 0) && n.divisor_code == data & 7
        &&& regno == 3 ==> n.length_enable == (data & 0x40 != 0)
        &&& regno != 1 ==> n.initial_volume == self.initial_volume && n.envelope_inc == self.envelope_inc
    }

    /// Writes register `regno` (0 to 3). With the DAC off the channel stops.
    pub fn write(&mut self, regno: usize, data: u8)
        requires
            old(self).wf(),
            regno < 4,
        ensures
            final(self).wf(),
            old(self).write_post(final(self), regno, data),
    {
        if regno == 0 {
            self.length = 64 - (data & 0x3F);
        } else if regno == 1 {
            self.initial_volume = data >> 4u8;
            self.envelope_inc = data & 0x08 != 0;
            self.envelope_period = data & 7;
            proof {
                crate::bits::lemma_u8_facts(data);
            }
        } else if regno == 2 {
            self.clock_shift = data >> 4u8;
            self.lsfr_width = data & 0x08 != 0;
            self.divisor_code = data & 7;
            proof {
                crate::bits::lemma_u8_facts(data);
            }
        } else {
            self.length_enable = data & 0x40 != 0;
            self.update_tick();
            if data & 0x80 != 0 {
                self.trigger();
            }
        }
        if !(self.initial_volume > 0 || self.envelope_inc) {
            self.on = false;
        }
        self.update_tick();
    }

    /// One shift of the register: bit 0 XOR bit 1 comes in at bit 14, or at bit 6 in
    /// 7-bit mode.
    pub open spec fn shifted(lsfr: u16, width7: bool) -> u16 {
        let b = (lsfr & 1) ^ ((lsfr >> 1u16) & 1);
        if !width7 {
            ((lsfr >> 1u16) | (b << 14u16)) as u16
        } else {
            (((lsfr >> 1u16) & !(1u16 << 6u16)) | (b << 6u16)) as u16
        }
    }

    /// One cycle: the shift clock divides down to the divisor timer, which shifts the
    /// register and counts the sample; then the frame-sequencer clocks are taken.
    pub fn tick(&mut self, length_tick: bool, envelope_tick: bool)
        requires
            old(self).wf(),
        ensures
            final(self).wf(),
            final(self).on ==> old(self).on,
            final(self).initial_volume == old(self).initial_volume,
            final(self).envelope_inc == old(self).envelope_inc,
            ({
                let sct = if old(self).shift_clock_timer > 0 { old(self).shift_clock_timer - 1 } else { 0 };
                let dt = if old(self).divisor_timer > 0 { old(self).divisor_timer - 1 } else { 0 };
                let shifts = sct == 0 && dt == 0;
                final(self).lsfr == (if shifts { Self::shifted(old(self).lsfr, old(self).lsfr_width) } else { old(self).lsfr })
            }),
            *final(self) == Self::tick_spec(*old(self), length_tick, envelope_tick),
    {
        let ghost n0 = *self;
        self.shift_clock_timer = self.shift_clock_timer.saturating_sub(1);
        if self.shift_clock_timer == 0 {
            self.shift_clock_timer = shift_period_exec(self.clock_shift);
            self.divisor_timer = self.divisor_timer.saturating_sub(1);
            if self.divisor_timer == 0 {
                let bit = ((self.lsfr & 1) ^ 1) as u64;
                proof {
                    let l = self.lsfr;
                    assert((l & 1) ^ 1 <= 1) by (bit_vector);
                }
                self.sample_acc = self.sample_acc.saturating_add(bit);
                self.sample_count = self.sample_count.saturating_add(1);
                self.divisor_timer = (if self.divisor_code == 0 { 8 } else { self.divisor_code * 16 }) / 2;
                let l = self.lsfr;
                let b = (l & 1) ^ ((l >> 1u16) & 1);
                self.lsfr = if !self.lsfr_width {
                    (l >> 1u16) | (b << 14u16)
                } else {
                    ((l >> 1u16) & !(1u16 << 6u16)) | (b << 6u16)
                };
            }
        }
        self.length_tick_in = length_tick;
        self.envelope_tick_in = envelope_tick;
        let ghost mid = *self;
        self.update_tick();
        assert(*self == Self::tick_spec(n0, length_tick, envelope_tick)) by {
            reveal(Noise::tick_spec);
            assert(*self == Self::edges(mid));
        }
    }

    /// The mean level since the last output: the share of high samples (the current one
    /// included) times the volume; the counts start over.
    pub open spec fn level(&self) -> u8 {
        let acc = self.sample_acc + ((self.lsfr & 1) ^ 1);
        let cnt = self.sample_count + 1;
        (acc * self.current_volume / cnt) as u8
    }

    pub fn output(&mut self) -> (r: Option<u8>)
        requires
            old(self).wf(),
        ensures
            final(self).wf(),
            r == (if old(self).on { Some(old(self).level()) } else { None }),
            r matches Some(v) ==> v < 16,
            old(self).on ==> final(self).sample_acc == 0 && final(self).sample_count == 0,
            !old(self).on ==> final(self).sample_acc == old(self).sample_acc && final(self).sample_count == old(self).sample_count,
            final(self).on == old(self).on,
            final(self).lsfr == old(self).lsfr,
            final(self).current_volume == old(self).current_volume,
            final(self).initial_volume == old(self).initial_volume,
            final(self).envelope_inc == old(self).envelope_inc,
            *final(self) == (if old(self).on { Noise { sample_acc: 0, sample_count: 0, ..*old(self) } } else { *old(self) }),
    {
        if !self.on {
            None
        } else {
            let l = self.lsfr;
            let bit = ((l & 1) ^ 1) as u128;
            proof {
                assert((l & 1) ^ 1 <= 1) by (bit_vector);
            }
            let acc = self.sample_acc as u128 + bit;
            let cnt = self.sample_count as u128 + 1;
            let vol = self.current_volume as u128;
            proof {
                assert(acc * vol <= cnt * vol) by (nonlinear_arith)
                    requires
                        acc <= cnt,
                ;
                assert((acc * vol) as int / (cnt as int) <= vol) by (nonlinear_arith)
                    requires
                        acc * vol <= cnt * vol,
                        cnt > 0,
                ;
                assert(acc * vol <= 0xFFFF_FFFF_FFFF_FFFF_FFu128 * 16) by (nonlinear_arith)
                    requires
                        acc <= 0x1_0000_0000_0000_0000,
                        vol < 16,
                ;
            }
            let ret = (acc * vol / cnt) as u8;
            self.sample_acc = 0;
            self.sample_count = 0;
            Some(ret)
        }
    }
}

/// Every sample step of the wave channel lasts (2048 - frequency) * 2 cycles: when the
/// timer runs out in a tick it reloads to that, the position moves on by one (of 32) and
/// the sample there is latched, the high nibble of wave RAM byte position / 2 for even
/// positions and the low nibble for odd ones; otherwise the timer counts down by one and
/// position and sample stay.
pub proof fn lemma_wave_sample_step(w: Wave, lt: bool)
    requires
        w.wf(),
    ensures
        ({
            let n = Wave::tick_spec(w, lt);
            let pos = (w.pos + 1) % 32;
            let b = w.ram[pos / 2];
            &&& w.frequency_timer <= 1 ==> n.frequency_timer == (2048 - w.frequency) * 2 && n.pos == pos
                && n.sample_latch == (if pos % 2 == 0 { b / 16 } else { b % 16 })
            &&& w.frequency_timer > 1 ==> n.frequency_timer == w.frequency_timer - 1 && n.pos == w.pos
                && n.sample_latch == w.sample_latch
        }),
{
    reveal(Wave::tick_spec);
    reveal(Wave::edges);
    let pos = ((w.pos + 1) % 32) as u8;
    let b = w.ram[(pos / 2) as int];
    crate::bits::lemma_u8_facts(b);
    assert(b >> 4u8 == b / 16 && b & 0x0F == b % 16) by (bit_vector);
}

/// The noise channel's divisor timer reloads to half its divisor (8 for code 0, else 16
/// times the code) whenever the shift clock and the divisor both run out in a tick, the
/// moment the shift register takes a step; the shift clock itself reloads to
/// 2^(shift + 1) cycles (1 once the shift passes 14).
pub proof fn lemma_noise_timers(n0: Noise, lt: bool, et: bool)
    requires
        n0.wf(),
    ensures
        ({
            let n = Noise::tick_spec(n0, lt, et);
            let sct = if n0.shift_clock_timer > 0 { n0.shift_clock_timer - 1 } else { 0 };
            let dt = if n0.divisor_timer > 0 { n0.divisor_timer - 1 } else { 0 };
            &&& sct != 0 ==> n.shift_clock_timer == sct && n.divisor_timer == n0.divisor_timer && n.lsfr == n0.lsfr
            &&& sct == 0 ==> n.shift_clock_timer == (if n0.clock_shift + 1 < 16 {
                vstd::arithmetic::power2::pow2((n0.clock_shift + 1) as nat)
            } else {
                1
            })
            &&& sct == 0 && dt != 0 ==> n.divisor_timer == dt && n.lsfr == n0.lsfr
            &&& sct == 0 && dt == 0 ==> n.divisor_timer == (if n0.divisor_code == 0 { 4 } else { n0.divisor_code * 8 })
                && n.lsfr == Noise::shifted(n0.lsfr, n0.lsfr_width)
        }),
{
    reveal(Noise::tick_spec);
    reveal(Noise::edges);
    let k = (n0.clock_shift + 1) as u16;
    if n0.clock_shift + 1 < 16 {
        vstd::arithmetic::power2::lemma2_to64();
        assert(1u16 << k == vstd::arithmetic::power2::pow2(k as nat)) by {
            vstd::bits::lemma_u16_shl_is_mul(1u16, k);
        }
    }
}

} // verus!
