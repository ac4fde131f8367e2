//! Square-wave channels 1 and 2.
use vstd::prelude::*;

verus! {

broadcast use crate::bits::group_and_bounds;

/// A square-wave channel; channel 1 also has the frequency sweep.
#[derive(Clone, Copy)]
pub struct Pulse {
    pub has_sweep_unit: bool,
    pub sweep_period: u8,
    pub sweep_negate: bool,
    pub sweep_shift: u8,
    pub duty: u8,
    pub length: u8,
    pub initial_volume: u8,
    pub envelope_inc: bool,
    pub envelope_period: u8,
    pub frequency: u16,
    pub length_enable: bool,
    pub on: bool,
    pub current_volume: u8,
    pub envelope_timer: u8,
    pub sweep_enable: bool,
    pub freq_calculated_in_negate_mode: bool,
    pub current_frequency: u16,
    pub sweep_timer: u8,
    pub frequency_timer: u16,
    pub phase: u8,
    pub length_tick_in: bool,
    pub prev_length_tick: bool,
    pub envelope_tick_in: bool,
    pub prev_envelope_tick: bool,
    pub sweep_tick_in: bool,
    pub prev_sweep_tick: bool,
}

/// The duty waveforms, 12.5%, 25%, 50% and 75%, one bit per step.
pub open spec fn duty_bit(duty: u8, phase: u8) -> u8 {
    let pattern: u8 = if duty == 0 {
        0x80
    } else if duty == 1 {
        0x81
    } else if duty == 2 {
        0xE1
    } else {
        0x7E
    };
    (pattern >> (7 - phase) as u8) & 1
}

/// A timer period of 0 counts as 8.
pub open spec fn period_or_8(p: u8) -> u8 {
    if p == 0 {
        8
    } else {
        p
    }
}

impl Pulse {
    pub open spec fn wf(&self) -> bool {
        &&& self.sweep_period < 8
        &&& self.sweep_shift < 8
        &&& self.duty < 4
        &&& self.length <= 64
        &&& self.initial_volume < 16
        &&& self.envelope_period < 8
        &&& self.frequency < 2048
        &&& self.current_volume < 16
        &&& self.envelope_timer <= 8
        &&& self.current_frequency < 2048
        &&& self.sweep_timer <= 8
        &&& self.frequency_timer <= 8192
        &&& self.phase < 8
    }

    /// The register at `regno` (0 to 4) as read back; unreadable bits read as 1.
    pub open spec fn reg_value(&self, regno: usize) -> u8 {
        if regno == 0 {
            (0x80 | (self.sweep_period << 4u8) | (if self.sweep_negate { 0x08u8 } else { 0 }) | self.sweep_shift) as u8
        } else if regno == 1 {
            ((self.duty << 6u8) | 0x3F) as u8
        } else if regno == 2 {
            ((self.initial_volume << 4u8) | (if self.envelope_inc { 0x08u8 } else { 0 }) | self.envelope_period) as u8
        } else if regno == 3 {
            0xFF
        } else {
            (0xBF | (if self.length_enable { 0x40u8 } else { 0 })) as u8
        }
    }

    /// The register settings other than the frequency agree.
    pub open spec fn settings_eq(&self, o: &Pulse) -> bool {
        &&& self.has_sweep_unit == o.has_sweep_unit
        &&& self.sweep_period == o.sweep_period
        &&& self.sweep_negate == o.sweep_negate
        &&& self.sweep_shift == o.sweep_shift
        &&& self.duty == o.duty
        &&& self.initial_volume == o.initial_volume
        &&& self.envelope_inc == o.envelope_inc
        &&& self.envelope_period == o.envelope_period
        &&& self.length_enable == o.length_enable
    }

    /// Everything but the length counter and the on flag agrees.
    pub open spec fn same_but_length(&self, o: &Pulse) -> bool {
        &&& self.settings_eq(o)
        &&& self.frequency == o.frequency
        &&& self.current_volume == o.current_volume
        &&& self.envelope_timer == o.envelope_timer
        &&& self.sweep_enable == o.sweep_enable
        &&& self.freq_calculated_in_negate_mode == o.freq_calculated_in_negate_mode
        &&& self.current_frequency == o.current_frequency
        &&& self.sweep_timer == o.sweep_timer
        &&& self.frequency_timer == o.frequency_timer
        &&& self.phase == o.phase
        &&& self.length_tick_in == o.length_tick_in
        &&& self.prev_length_tick == o.prev_length_tick
        &&& self.envelope_tick_in == o.envelope_tick_in
        &&& self.prev_envelope_tick == o.prev_envelope_tick
        &&& self.sweep_tick_in == o.sweep_tick_in
        &&& self.prev_sweep_tick == o.prev_sweep_tick
    }

    /// The frequency timer, the duty step and the frame-sequencer inputs agree.
    pub open spec fn timing_eq(&self, o: &Pulse) -> bool {
        &&& self.frequency_timer == o.frequency_timer
        &&& self.phase == o.phase
        &&& self.length_tick_in == o.length_tick_in
        &&& self.prev_length_tick == o.prev_length_tick
        &&& self.envelope_tick_in == o.envelope_tick_in
        &&& self.prev_envelope_tick == o.prev_envelope_tick
        &&& self.sweep_tick_in == o.sweep_tick_in
        &&& self.prev_sweep_tick == o.prev_sweep_tick
    }

    pub open spec fn dac_on(&self) -> bool {
        self.initial_volume > 0 || self.envelope_inc
    }

    pub fn new(has_sweep_unit: bool) -> (r: Pulse)
        ensures
            r.wf(),
            r.has_sweep_unit == has_sweep_unit,
            !r.on,
            r.length == 0,
            r.frequency == 0,
            r.current_volume == 0,
    {
        Pulse {
            has_sweep_unit,
            sweep_period: 0,
            sweep_negate: false,
            sweep_shift: 0,
            duty: 0,
            length: 0,
            initial_volume: 0,
            envelope_inc: false,
            envelope_period: 0,
            frequency: 0,
            length_enable: false,
            on: false,
            current_volume: 0,
            envelope_timer: 0,
            sweep_enable: false,
            freq_calculated_in_negate_mode: false,
            current_frequency: 0,
            sweep_timer: 0,
            frequency_timer: 0,
            phase: 0,
            length_tick_in: false,
            prev_length_tick: false,
            envelope_tick_in: false,
            prev_envelope_tick: false,
            sweep_tick_in: false,
            prev_sweep_tick: false,
        }
    }

    pub fn read(&self, regno: usize) -> (r: u8)
        requires
            regno < 5,
        ensures
            r == self.reg_value(regno),
    {
        if regno == 0 {
            0x80 | (self.sweep_period << 4u8) | (if self.sweep_negate { 0x08u8 } else { 0 }) | self.sweep_shift
        } else if regno == 1 {
            (self.duty << 6u8) | 0x3F
        } else if regno == 2 {
            (self.initial_volume << 4u8) | (if self.envelope_inc { 0x08u8 } else { 0 }) | self.envelope_period
        } else if regno == 3 {
            0xFF
        } else {
            0xBF | (if self.length_enable { 0x40u8 } else { 0 })
        }
    }

    pub fn dac_enable(&self) -> (r: bool)
        ensures
            r == self.dac_on(),
    {
        self.initial_volume > 0 || self.envelope_inc
    }

    /// A length step: the counter goes down (stopping at zero), and at zero the channel
    /// stops.
    pub open spec fn length_step(p: Pulse) -> Pulse {
        let l = if p.length > 0 { (p.length - 1) as u8 } else { 0u8 };
        Pulse { length: l, on: p.on && l != 0, ..p }
    }

    /// An envelope step: a running timer counts down; when it reaches zero with a
    /// nonzero period it reloads and the volume moves one step towards 15 or 0.
    pub open spec fn envelope_step(p: Pulse) -> Pulse {
        if p.envelope_timer == 0 {
            p
        } else {
            let t = (p.envelope_timer - 1) as u8;
            if t == 0 && p.envelope_period > 0 {
                let v = if p.envelope_inc {
                    if p.current_volume < 15 { (p.current_volume + 1) as u8 } else { p.current_volume }
                } else if p.current_volume > 0 {
                    (p.current_volume - 1) as u8
                } else {
                    0u8
                };
                Pulse { envelope_timer: p.envelope_period, current_volume: v, ..p }
            } else {
                Pulse { envelope_timer: t, ..p }
            }
        }
    }

    /// The frame-sequencer clocks taken on their rising edges: length (while enabled),
    /// then envelope, then sweep; each input is remembered for the next edge.
    pub open spec fn edges(p: Pulse) -> Pulse {
        let p1 = if !p.prev_length_tick && p.length_tick_in && p.length_enable { Self::length_step(p) } else { p };
        let p2 = Pulse { prev_length_tick: p.length_tick_in, ..p1 };
        let p3 = if !p2.prev_envelope_tick && p2.envelope_tick_in { Self::envelope_step(p2) } else { p2 };
        let p4 = Pulse { prev_envelope_tick: p.envelope_tick_in, ..p3 };
        let p5 = if !p4.prev_sweep_tick && p4.sweep_tick_in { Self::sweep_step(p4) } else { p4 };
        Pulse { prev_sweep_tick: p.sweep_tick_in, ..p5 }
    }

    /// One cycle of the channel with the frame-sequencer clocks `lt` (length), `et`
    /// (envelope) and `st` (sweep): the frequency timer counts down and at zero restarts
    /// and moves the duty step on; then the clocks are taken.
    #[verifier::opaque]
    pub open spec fn tick_spec(p: Pulse, lt: bool, et: bool, st: bool) -> Pulse {
        let t = if p.frequency_timer > 0 { (p.frequency_timer - 1) as u16 } else { 0u16 };
        let p1 = if t == 0 {
            Pulse { frequency_timer: ((2048 - p.frequency) * 4) as u16, phase: ((p.phase + 1) % 8) as u8, ..p }
        } else {
            Pulse { frequency_timer: t, ..p }
        };
        Self::edges(Pulse { length_tick_in: lt, envelope_tick_in: et, sweep_tick_in: st, ..p1 })
    }

    /// One length step: the counter goes down, and at zero the channel stops.
    pub fn length_tick(&mut self)
        requires
            old(self).wf(),
        ensures
            final(self).wf(),
            final(self).length == (if old(self).length > 0 { old(self).length - 1 } else { 0 }),
            final(self).on == (old(self).on && final(self).length != 0),
            final(self).same_but_length(old(self)),
            *final(self) == Self::length_step(*old(self)),
    {
        self.length = self.length.saturating_sub(1);
        if self.length == 0 {
            self.on = false;
        }
    }

    /// One envelope step: when the timer runs out the volume moves one step towards 15
    /// or 0, and the timer restarts from the period.
    #[verifier::rlimit(100)]
    #[verifier::spinoff_prover]
    pub fn envelope_tick(&mut self)
        requires
            old(self).wf(),
        ensures
            final(self).wf(),
            final(self).on == old(self).on,
            final(self).length == old(self).length,
            final(self).frequency == old(self).frequency,
            final(self).settings_eq(old(self)),
            final(self).timing_eq(old(self)),
            ({
                let t = old(self).envelope_timer;
                let fires = t == 1 && old(self).envelope_period > 0;
                &&& final(self).envelope_timer == (if t == 0 { 0 } else if fires { old(self).envelope_period } else { (t - 1) as u8 })
                &&& final(self).current_volume == (if !fires {
                    old(self).current_volume
                } else if old(self).envelope_inc {
                    if old(self).current_volume < 15 { (old(self).current_volume + 1) as u8 } else { 15 }
                } else if old(self).current_volume > 0 {
                    (old(self).current_volume - 1) as u8
                } else {
                    0
                })
            }),
            *final(self) == Self::envelope_step(*old(self)),
    {
        if self.envelope_timer > 0 {
            self.envelope_timer = self.envelope_timer - 1;
            if self.envelope_timer == 0 && self.envelope_period > 0 {
                self.envelope_timer = self.envelope_period;
                if self.envelope_inc {
                    if self.current_volume < 15 {
                        self.current_volume = self.current_volume + 1;
                    }
                } else {
                    self.current_volume = self.current_volume.saturating_sub(1);
                }
            }
        }
    }

    /// The next sweep frequency: the current one plus or minus itself shifted right.
    pub open spec fn next_freq(&self) -> int {
        if self.sweep_negate {
            self.current_frequency - (self.current_frequency >> self.sweep_shift)
        } else {
            self.current_frequency + (self.current_frequency >> self.sweep_shift)
        }
    }

    fn new_freq(&self) -> (r: u16)
        requires
            self.wf(),
        ensures
            r == self.next_freq(),
            r < 4096,
    {
        let cf = self.current_frequency;
        let sh = self.sweep_shift;
        let d = cf >> sh;
        proof {
            assert(cf >> sh <= cf) by (bit_vector);
        }
        if self.sweep_negate {
            cf - d
        } else {
            cf + d
        }
    }

    /// Starts the channel: on if the DAC is on, the length reloads if it ran out, the
    /// timers and volume restart, and the sweep unit takes the frequency.
    pub fn trigger(&mut self)
        requires
            old(self).wf(),
        ensures
            final(self).wf(),
            final(self).frequency_timer == (2048 - old(self).frequency) * 4,
            final(self).envelope_timer == period_or_8(old(self).envelope_period),
            final(self).current_volume == old(self).initial_volume,
            final(self).sweep_timer == period_or_8(old(self).sweep_period),
            final(self).sweep_enable == (old(self).sweep_period != 0 || old(self).sweep_shift != 0),
            final(self).current_frequency == old(self).frequency,
            old(self).length != 0 ==> final(self).length == old(self).length,
            old(self).length == 0 && !(old(self).length_tick_in && old(self).length_enable) ==> final(self).length == 64,
            old(self).length == 0 && old(self).length_tick_in && old(self).length_enable ==> final(self).length == 63,
            final(self).on ==> old(self).dac_on(),
            final(self).frequency == old(self).frequency,
            final(self).settings_eq(old(self)),
    {
        self.on = self.dac_enable();
        self.freq_calculated_in_negate_mode = false;
        if self.length == 0 {
            self.length = 64;
            if self.length_tick_in && self.length_enable {
                self.length_tick();
            }
        }
        self.frequency_timer = (2048 - self.frequency) * 4;
        self.envelope_timer = if self.envelope_period == 0 { 8 } else { self.envelope_period };
        self.current_volume = self.initial_volume;
        self.sweep_timer = if self.sweep_period == 0 { 8 } else { self.sweep_period };
        self.sweep_enable = self.sweep_period != 0 || self.sweep_shift != 0;
        self.current_frequency = self.frequency;
        if self.sweep_shift != 0 {
            let nf = self.new_freq();
            if self.sweep_negate {
                self.freq_calculated_in_negate_mode = true;
            }
            if nf > 2047 {
                self.on = false;
            }
        }
    }

    /// What a write of `data` to register `regno` leaves (`n`).
    pub open spec fn write_post(&self, n: &Pulse, regno: usize, data: u8) -> bool {
        &&& !n.dac_on() ==> !n.on
        &&& n.on ==> self.on || (regno == 4 && data & 0x80 != 0)
        &&& regno == 0 ==> n.sweep_period == (data >> 4u8) & 7 && n.sweep_negate == (data & 0x08 != 0) && n.sweep_shift == data & 7
        &&& regno == 1 ==> n.duty == data >> 6u8 && n.length == 64 - (data & 0x3F)
        &&& regno == 2 ==> n.initial_volume == data >> 4u8 && n.envelope_inc == (data & 0x08 != 0) && n.envelope_period == data & 7
        &&& regno == 3 ==> n.frequency == (self.frequency & 0x700) | data as u16
        &&& regno == 4 ==> n.frequency == (self.frequency & 0xFF) | (((data & 7) as u16) << 8u16) && n.length_enable == (data & 0x40 != 0)
        &&& regno != 0 ==> n.sweep_period == self.sweep_period && n.sweep_shift == self.sweep_shift
        &&& regno != 2 ==> n.initial_volume == self.initial_volume && n.envelope_inc == self.envelope_inc && n.envelope_period == self.envelope_period
        &&& regno != 1 ==> n.duty == self.duty
        &&& regno != 4 ==> n.length_enable == self.length_enable
        &&& regno != 3 && regno != 4 ==> n.frequency == self.frequency
        &&& regno != 0 ==> n.sweep_negate == self.sweep_negate
        &&& (regno == 0 || regno == 2 || regno == 3) ==> n.length == self.length
    }

    /// Writes register `regno` (0 to 4). A write that leaves the DAC off stops the channel.
    #[verifier::rlimit(100)]
    #[verifier::spinoff_prover]
    pub fn write(&mut self, regno: usize, data: u8)
        requires
            old(self).wf(),
            regno < 5,
        ensures
            final(self).wf(),
            !final(self).dac_on() ==> !final(self).on,
            final(self).on ==> old(self).on || (regno == 4 && data & 0x80 != 0),
            regno == 0 ==> final(self).sweep_period == (data >> 4u8) & 7 && final(self).sweep_negate == (data & 0x08 != 0)
                && final(self).sweep_shift == data & 7,
            regno == 1 ==> final(self).duty == data >> 6u8 && final(self).length == 64 - (data & 0x3F),
            regno == 2 ==> final(self).initial_volume == data >> 4u8 && final(self).envelope_inc == (data & 0x08 != 0)
                && final(self).envelope_period == data & 7,
            regno == 3 ==> final(self).frequency == (old(self).frequency & 0x700) | data as u16,
            regno == 4 ==> final(self).frequency == (old(self).frequency & 0xFF) | (((data & 7) as u16) << 8u16)
                && final(self).length_enable == (data & 0x40 != 0),
            regno != 0 ==> final(self).sweep_period == old(self).sweep_period && final(self).sweep_shift == old(self).sweep_shift,
            regno != 2 ==> final(self).initial_volume == old(self).initial_volume && final(self).envelope_inc == old(self).envelope_inc
                && final(self).envelope_period == old(self).envelope_period,
            regno != 1 ==> final(self).duty == old(self).duty,
            regno != 4 ==> final(self).length_enable == old(self).length_enable,
            regno != 3 && regno != 4 ==> final(self).frequency == old(self).frequency,
            regno != 0 ==> final(self).sweep_negate == old(self).sweep_negate,
            (regno == 0 || regno == 2 || regno == 3) ==> final(self).length == old(self).length,
    {
        if regno == 0 {
            let prev_negate = self.sweep_negate;
            self.sweep_period = (data >> 4u8) & 7;
            self.sweep_negate = data & 0x08 != 0;
            self.sweep_shift = data & 7;
            if self.sweep_enable && self.freq_calculated_in_negate_mode && (prev_negate && !self.sweep_negate) {
                self.on = false;
                self.freq_calculated_in_negate_mode = false;
            }
        } else if regno == 1 {
            self.duty = data >> 6u8;
            self.length = 64 - (data & 0x3F);
            proof {
                crate::bits::lemma_u8_facts(data);
            }
        } else if regno == 2 {
            self.initial_volume = data >> 4u8;
            self.envelope_inc = data & 0x08 != 0;
            self.envelope_period = data & 7;
            proof {
                crate::bits::lemma_u8_facts(data);
            }
        } else if regno == 3 {
            let f = self.frequency;
            self.frequency = (f & 0x700) | data as u16;
            proof {
                assert((f & 0x700) | (data as u16) < 2048) by (bit_vector);
            }
        } else {
            let f = self.frequency;
            self.frequency = (f & 0xFF) | (((data & 7) as u16) << 8u16);
            proof {
                assert((f & 0xFF) | (((data & 7) as u16) << 8u16) < 2048) by (bit_vector);
            }
            let prev_length_enable = self.length_enable;
            self.length_enable = data & 0x40 != 0;
            if self.length_tick_in && !prev_length_enable && self.length_enable {
                self.length_tick();
            }
            if data & 0x80 != 0 {
                self.trigger();
            }
        }
        if !self.dac_enable() {
            self.on = false;
        }
    }

    /// The sweep unit's calculation on `p` (its timer already reloaded): the next
    /// frequency is computed (noting a subtraction); if it fits and the shift is not zero
    /// it becomes the frequency; then the channel stops when the following one overflows.
    #[verifier::opaque]
    pub open spec fn sweep_calc(p: Pulse) -> Pulse {
        let nf = p.next_freq();
        let p3 = if p.sweep_negate {
            Pulse { freq_calculated_in_negate_mode: true, ..p }
        } else {
            p
        };
        let p4 = if nf <= 2047 && p3.sweep_shift > 0 {
            Pulse { current_frequency: nf as u16, frequency: nf as u16, ..p3 }
        } else {
            p3
        };
        if p4.next_freq() > 2047 {
            Pulse { on: false, ..p4 }
        } else {
            p4
        }
    }

    /// One clock of the sweep unit: the timer counts down; when it runs out it reloads
    /// (0 counts as 8) and, with the sweep enabled and a nonzero period, the sweep
    /// calculation runs.
    #[verifier::opaque]
    pub open spec fn sweep_step(p: Pulse) -> Pulse {
        if p.sweep_timer != 1 {
            Pulse { sweep_timer: if p.sweep_timer == 0 { 0 } else { (p.sweep_timer - 1) as u8 }, ..p }
        } else {
            let p2 = Pulse { sweep_timer: period_or_8(p.sweep_period), ..p };
            if p2.sweep_enable && p2.sweep_period > 0 {
                Self::sweep_calc(p2)
            } else {
                p2
            }
        }
    }

    #[verifier::rlimit(100)]
    /// One sweep step: when the timer runs out, the sweep may move the frequency, and
    /// stops the channel when the next one would overflow.
    pub fn sweep_tick(&mut self)
        requires
            old(self).wf(),
        ensures
            final(self).wf(),
            final(self).on ==> old(self).on,
            final(self).length == old(self).length,
            final(self).current_volume == old(self).current_volume,
            final(self).settings_eq(old(self)),
            final(self).timing_eq(old(self)),
            *final(self) == Self::sweep_step(*old(self)),
    {
        proof {
            reveal(Pulse::sweep_step);
            reveal(Pulse::sweep_calc);
        }
        let mut p = *self;
        let prev_timer = p.sweep_timer;
        p.sweep_timer = prev_timer.saturating_sub(1);
        if prev_timer == 1 {
            p.sweep_timer = if p.sweep_period == 0 { 8 } else { p.sweep_period };
            if p.sweep_enable && p.sweep_period > 0 {
                let nf = p.new_freq();
                if p.sweep_negate {
                    p.freq_calculated_in_negate_mode = true;
                }
                if nf <= 2047 && p.sweep_shift > 0 {
                    p.current_frequency = nf;
                    p.frequency = nf;
                }
                let nf2 = p.new_freq();
                if nf2 > 2047 {
                    p.on = false;
                }
            }
        }
        *self = p;
    }

    /// Frame-sequencer clocks reach the units on their rising edges.
    #[verifier::rlimit(100)]
    #[verifier::spinoff_prover]
    fn update_tick(&mut self)
        requires
            old(self).wf(),
        ensures
            final(self).wf(),
            final(self).prev_length_tick == old(self).length_tick_in,
            final(self).prev_envelope_tick == old(self).envelope_tick_in,
            final(self).prev_sweep_tick == old(self).sweep_tick_in,
            final(self).on ==> old(self).on,
            final(self).settings_eq(old(self)),
            final(self).phase == old(self).phase,
            *final(self) == Self::edges(*old(self)),
    {
        proof {
            reveal(Pulse::edges);
        }
        let lt = self.length_tick_in;
        if !self.prev_length_tick && lt && self.length_enable {
            self.length_tick();
        }
        self.prev_length_tick = lt;
        let et = self.envelope_tick_in;
        if !self.prev_envelope_tick && et {
            self.envelope_tick();
        }
        self.prev_envelope_tick = et;
        let st = self.sweep_tick_in;
        if !self.prev_sweep_tick && st {
            self.sweep_tick();
        }
        self.prev_sweep_tick = st;
    }

    /// One cycle: the frequency timer counts down and at zero restarts and moves the duty
    /// step on; then the frame-sequencer clocks are taken.
    #[verifier::rlimit(100)]
    #[verifier::spinoff_prover]
    pub fn tick(&mut self, length_tick: bool, envelope_tick: bool, sweep_tick: bool)
        requires
            old(self).wf(),
        ensures
            final(self).wf(),
            final(self).on ==> old(self).on,
            final(self).settings_eq(old(self)),
            ({
                let t = if old(self).frequency_timer > 0 { old(self).frequency_timer - 1 } else { 0 };
                final(self).phase == (if t == 0 { (old(self).phase + 1) % 8 } else { old(self).phase as int })
            }),
            final(self).prev_length_tick == length_tick,
            final(self).prev_envelope_tick == envelope_tick,
            final(self).prev_sweep_tick == sweep_tick,
            *final(self) == Self::tick_spec(*old(self), length_tick, envelope_tick, sweep_tick),
    {
        let ghost p0 = *self;
        let ghost t = if p0.frequency_timer > 0 { (p0.frequency_timer - 1) as u16 } else { 0u16 };
        let ghost p1 = if t == 0 {
            Pulse { frequency_timer: ((2048 - p0.frequency) * 4) as u16, phase: ((p0.phase + 1) % 8) as u8, ..p0 }
        } else {
            Pulse { frequency_timer: t, ..p0 }
        };
        self.frequency_timer = self.frequency_timer.saturating_sub(1);
        if self.frequency_timer == 0 {
            self.frequency_timer = (2048 - self.frequency) * 4;
            self.phase = (self.phase + 1) % 8;
        }
        self.length_tick_in = length_tick;
        self.envelope_tick_in = envelope_tick;
        self.sweep_tick_in = sweep_tick;
        let ghost mid = *self;
        assert(mid == Pulse { length_tick_in: length_tick, envelope_tick_in: envelope_tick, sweep_tick_in: sweep_tick, ..p1 });
        self.update_tick();
        assert(*self == Self::tick_spec(p0, length_tick, envelope_tick, sweep_tick)) by {
            reveal(Pulse::tick_spec);
        }
    }

    /// The output level 0 to 15 while the channel is on: the duty bit times the volume.
    pub fn output(&self) -> (r: Option<u8>)
        requires
            self.wf(),
        ensures
            r == (if !self.on {
                None
            } else if duty_bit(self.duty, self.phase) == 1 {
                Some(self.current_volume)
            } else {
                Some(0u8)
            }),
            r matches Some(v) ==> v < 16,
    {
        if !self.on {
            None
        } else {
            let pattern: u8 = if self.duty == 0 {
                0x80
            } else if self.duty == 1 {
                0x81
            } else if self.duty == 2 {
                0xE1
            } else {
                0x7E
            };
            let ph = self.phase;
            let bit = (pattern >> (7 - ph)) & 1;
            proof {
                assert(((pattern >> (7 - ph) as u8) & 1) <= 1) by (bit_vector);
            }
            if bit == 1 {
                Some(self.current_volume)
            } else {
                Some(0)
            }
        }
    }
}

/// Every duty step of a square channel lasts (2048 - frequency) * 4 cycles, the period
/// a trigger starts with: when the frequency timer runs out in a tick it reloads to that
/// and the duty position moves on by one; otherwise the timer counts down by one and the
/// position stays. The frame-sequencer clocks taken in the same tick change neither.
pub proof fn lemma_pulse_duty_step(p: Pulse, lt: bool, et: bool, st: bool)
    requires
        p.wf(),
    ensures
        ({
            let n = Pulse::tick_spec(p, lt, et, st);
            &&& p.frequency_timer <= 1 ==> n.frequency_timer == (2048 - p.frequency) * 4 && n.phase == (p.phase + 1) % 8
            &&& p.frequency_timer > 1 ==> n.frequency_timer == p.frequency_timer - 1 && n.phase == p.phase
        }),
{
    reveal(Pulse::tick_spec);
    reveal(Pulse::edges);
    reveal(Pulse::sweep_step);
    reveal(Pulse::sweep_calc);
}

/// The frame-sequencer clocks act on their rising edges: a rising length clock, with the
/// length counter enabled, takes one off the counter (down to 0), and a counter at 0 stops
/// the channel; a rising envelope clock whose timer runs out (with a nonzero period) moves
/// the volume one step up towards 15 or down towards 0. Without the edge neither moves.
pub proof fn lemma_pulse_clocks(p: Pulse, lt: bool, et: bool, st: bool)
    requires
        p.wf(),
    ensures
        ({
            let n = Pulse::tick_spec(p, lt, et, st);
            let len_edge = !p.prev_length_tick && lt && p.length_enable;
            let env_fire = !p.prev_envelope_tick && et && p.envelope_timer == 1 && p.envelope_period > 0;
            let v = p.current_volume;
            &&& n.length == (if len_edge && p.length > 0 { p.length - 1 } else { p.length as int })
            &&& len_edge && n.length == 0 ==> !n.on
            &&& n.on ==> p.on
            &&& n.current_volume == (if !env_fire {
                v as int
            } else if p.envelope_inc {
                if v < 15 { v + 1 } else { 15 }
            } else if v > 0 {
                v - 1
            } else {
                0
            })
        }),
{
    reveal(Pulse::tick_spec);
    reveal(Pulse::edges);
    reveal(Pulse::sweep_step);
    reveal(Pulse::sweep_calc);
}

} // verus!
