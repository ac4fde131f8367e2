use vstd::prelude::*;
use crate::interface::{AudioBuffer, AudioSample};
use crate::util::ClockDivider;
use pulse::Pulse;
use wave::{Noise, Wave};

pub mod pulse;
pub mod wave;

verus! {

broadcast use crate::bits::group_and_bounds;

/// One output terminal: its volume, the VIN input switch and which channels it mixes.
#[derive(Clone, Copy)]
pub struct ChannelCtrl {
    pub vin_enable: bool,
    pub volume: u8,
    pub output_ch: [bool; 4],
}

impl ChannelCtrl {
    /// VIN off, volume 0, no channel routed.
    pub open spec fn new_spec() -> ChannelCtrl {
        ChannelCtrl { vin_enable: false, volume: 0, output_ch: [false, false, false, false] }
    }

    pub fn new() -> (r: ChannelCtrl)
        ensures
            r == ChannelCtrl::new_spec(),
            !r.vin_enable,
            r.volume == 0,
            forall|i: int| 0 <= i < 4 ==> !r.output_ch[i],
    {
        ChannelCtrl { vin_enable: false, volume: 0, output_ch: [false, false, false, false] }
    }
}

/// The sound unit: two square channels, the wave channel, the noise channel and the two
/// output terminals (SO1, the right one, and SO2, the left one).
pub struct Apu {
    pub pulse1: Pulse,
    pub pulse2: Pulse,
    pub wave: Wave,
    pub noise: Noise,
    pub ctrl_right: ChannelCtrl,
    pub ctrl_left: ChannelCtrl,
    pub power_on: bool,
    pub frame_sequencer_div: ClockDivider,
    pub frame_sequencer_step: u64,
    pub sampling_counter: u64,
    pub audio_buffer: AudioBuffer,
}

/// A channel level 0 to 15 as a signed amplitude around zero; a channel that is off
/// gives 0.
pub open spec fn dac_spec(o: Option<u8>) -> int {
    match o {
        None => 0,
        Some(v) => if v >= 8 {
            (v * 1000 - 7500) / 8
        } else {
            -((7500 - v * 1000) / 8)
        },
    }
}

fn dac(o: Option<u8>) -> (r: i32)
    requires
        o matches Some(v) ==> v < 16,
    ensures
        r == dac_spec(o),
        -937 <= r <= 937,
{
    match o {
        None => 0,
        Some(v) => if v >= 8 {
            (v as i32 * 1000 - 7500) / 8
        } else {
            -((7500 - v as i32 * 1000) / 8)
        },
    }
}

/// A terminal's mix: the sum of the channels it takes, times its volume plus one.
pub open spec fn terminal(c: ChannelCtrl, o: (int, int, int, int)) -> int {
    ((if c.output_ch[0] { o.0 } else { 0 }) + (if c.output_ch[1] { o.1 } else { 0 }) + (if c.output_ch[2] {
        o.2
    } else {
        0
    }) + (if c.output_ch[3] { o.3 } else { 0 })) * (c.volume + 1)
}

/// The sample mixed from four channel states and the two terminals: silence with power
/// off, else each terminal's sum of its routed channels' levels times its volume plus one
/// (SO1, the right terminal, gives the left value).
pub open spec fn mix(power_on: bool, p1: Pulse, p2: Pulse, w: Wave, n: Noise, ctrl_left: ChannelCtrl, ctrl_right: ChannelCtrl) -> AudioSample {
    if !power_on {
        AudioSample { left: 0, right: 0 }
    } else {
        let o = (
            dac_spec(Apu::pulse_out(p1)),
            dac_spec(Apu::pulse_out(p2)),
            dac_spec(Apu::wave_out(w)),
            dac_spec(if n.on { Some(n.level()) } else { None }),
        );
        AudioSample { left: terminal(ctrl_right, o) as i16, right: terminal(ctrl_left, o) as i16 }
    }
}

/// The noise channel once its mean level has been read: the counts start over while on.
pub open spec fn noise_read(n: Noise) -> Noise {
    if n.on {
        Noise { sample_acc: 0, sample_count: 0, ..n }
    } else {
        n
    }
}

fn terminal_exec(c: &ChannelCtrl, o: (i32, i32, i32, i32)) -> (r: i16)
    requires
        c.volume < 8,
        -937 <= o.0 <= 937,
        -937 <= o.1 <= 937,
        -937 <= o.2 <= 937,
        -937 <= o.3 <= 937,
    ensures
        r == terminal(*c, (o.0 as int, o.1 as int, o.2 as int, o.3 as int)),
{
    let mut sum: i32 = 0;
    if c.output_ch[0] {
        sum = sum + o.0;
    }
    if c.output_ch[1] {
        sum = sum + o.1;
    }
    if c.output_ch[2] {
        sum = sum + o.2;
    }
    if c.output_ch[3] {
        sum = sum + o.3;
    }
    let k = c.volume as i32 + 1;
    proof {
        assert(sum * k <= 3748 * 8) by (nonlinear_arith)
            requires
                -3748 <= sum <= 3748,
                1 <= k <= 8,
        ;
        assert(-3748 * 8 <= sum * k) by (nonlinear_arith)
            requires
                -3748 <= sum <= 3748,
                1 <= k <= 8,
        ;
    }
    (sum * k) as i16
}

pub open spec fn unwrap0(o: Option<u8>) -> u8 {
    match o {
        Some(v) => v,
        None => 0,
    }
}

impl Apu {
    pub open spec fn wf(&self) -> bool {
        &&& self.pulse1.wf()
        &&& self.pulse2.wf()
        &&& self.wave.wf()
        &&& self.noise.wf()
        &&& self.ctrl_right.volume < 8
        &&& self.ctrl_left.volume < 8
        &&& self.frame_sequencer_div.wf()
        &&& self.frame_sequencer_div.period() == 8192
        &&& self.sampling_counter < 70224
    }

    /// NR50: volumes and VIN switches of both terminals.
    pub open spec fn nr50(&self) -> u8 {
        ((if self.ctrl_left.vin_enable { 0x80u8 } else { 0 }) | (self.ctrl_left.volume << 4u8) | (if self.ctrl_right.vin_enable {
            0x08u8
        } else {
            0
        }) | self.ctrl_right.volume) as u8
    }

    pub open spec fn out_bits(c: ChannelCtrl) -> u8 {
        ((if c.output_ch[3] { 8u8 } else { 0 }) | (if c.output_ch[2] { 4u8 } else { 0 }) | (if c.output_ch[1] { 2u8 } else { 0 }) | (if c.output_ch[0] {
            1u8
        } else {
            0
        })) as u8
    }

    /// NR51: which channels each terminal takes, SO2 in the high nibble.
    pub open spec fn nr51(&self) -> u8 {
        ((Self::out_bits(self.ctrl_left) << 4u8) | Self::out_bits(self.ctrl_right)) as u8
    }

    /// NR52: power, and which channels are on.
    pub open spec fn nr52(&self) -> u8 {
        ((if self.power_on { 0x80u8 } else { 0 }) | 0x70u8 | (if self.noise.on { 8u8 } else { 0 }) | (if self.wave.on {
            4u8
        } else {
            0
        }) | (if self.pulse2.on { 2u8 } else { 0 }) | (if self.pulse1.on { 1u8 } else { 0 })) as u8
    }

    pub open spec fn noise_out(&self) -> Option<u8> {
        if self.noise.on {
            Some(self.noise.level())
        } else {
            None
        }
    }

    pub open spec fn pulse_out(p: Pulse) -> Option<u8> {
        if !p.on {
            None
        } else if pulse::duty_bit(p.duty, p.phase) == 1 {
            Some(p.current_volume)
        } else {
            Some(0u8)
        }
    }

    pub open spec fn wave_out(w: Wave) -> Option<u8> {
        if !w.on {
            None
        } else if w.output_level == 0 {
            Some(0u8)
        } else {
            Some((w.sample_latch >> (w.output_level - 1) as u8) as u8)
        }
    }

    /// The register at `addr` as read back.
    pub open spec fn reg_value(&self, addr: u16) -> u8 {
        if 0xFF10 <= addr <= 0xFF14 {
            self.pulse1.reg_value((addr - 0xFF10) as usize)
        } else if 0xFF16 <= addr <= 0xFF19 {
            self.pulse2.reg_value((addr - 0xFF15) as usize)
        } else if 0xFF1A <= addr <= 0xFF1E {
            self.wave.reg_value((addr - 0xFF1A) as usize)
        } else if 0xFF20 <= addr <= 0xFF23 {
            self.noise.reg_value((addr - 0xFF20) as usize)
        } else if addr == 0xFF24 {
            self.nr50()
        } else if addr == 0xFF25 {
            self.nr51()
        } else if addr == 0xFF26 {
            self.nr52()
        } else if 0xFF30 <= addr <= 0xFF3F {
            self.wave.ram[(addr & 0xf) as int]
        } else if addr == 0xFF76 {
            ((unwrap0(Self::pulse_out(self.pulse2)) << 4u8) | unwrap0(Self::pulse_out(self.pulse1))) as u8
        } else if addr == 0xFF77 {
            ((unwrap0(self.noise_out()) << 4u8) | unwrap0(Self::wave_out(self.wave))) as u8
        } else {
            0xFF
        }
    }

    /// The sample mixed from the current channel levels.
    pub open spec fn mixed(&self) -> AudioSample {
        mix(self.power_on, self.pulse1, self.pulse2, self.wave, self.noise, self.ctrl_left, self.ctrl_right)
    }

    /// The frame-sequencer step after one cycle: it moves on when powered and the divider
    /// fires (every 8192 cycles).
    pub open spec fn step_after(&self) -> u64 {
        if self.power_on && self.frame_sequencer_div.count() + 1 >= 8192 {
            vstd::wrapping::u64_specs::wrapping_add(self.frame_sequencer_step, 1)
        } else {
            self.frame_sequencer_step
        }
    }

    /// The four channels after one cycle: with power on each runs one tick with the clocks
    /// of the new frame-sequencer step (length on even steps, envelope on step 7 of 8,
    /// sweep, on channel 1 only, on steps 2 and 6); with power off they stay.
    pub open spec fn channels_after(&self) -> (Pulse, Pulse, Wave, Noise) {
        let st = self.step_after();
        let lt = st % 2 == 0;
        let et = st % 8 == 7;
        let sw = st % 4 == 2;
        if self.power_on {
            (
                Pulse::tick_spec(self.pulse1, lt, et, sw),
                Pulse::tick_spec(self.pulse2, lt, et, false),
                Wave::tick_spec(self.wave, lt),
                Noise::tick_spec(self.noise, lt, et),
            )
        } else {
            (self.pulse1, self.pulse2, self.wave, self.noise)
        }
    }

    /// The sound unit at power-on: powered off, all four channels off, both terminals
    /// silent with no channel routed, and the frame sequencer at its last step.
    pub fn new() -> (r: Apu)
        ensures
            r.wf(),
            !r.power_on,
            !r.pulse1.on && !r.pulse2.on && !r.wave.on && !r.noise.on,
            r.reg_value(0xFF26) == 0x70,
            r.ctrl_left == ChannelCtrl::new_spec(),
            r.ctrl_right == ChannelCtrl::new_spec(),
            r.pulse1.has_sweep_unit && !r.pulse2.has_sweep_unit,
            r.frame_sequencer_step == 7,
            r.frame_sequencer_div.count() == 0,
            r.sampling_counter == 0,
            r.audio_buffer.sample_rate == 0,
            r.audio_buffer.samples@.len() == 0,
    {
        proof {
            assert(((0u8 | 0x70u8 | 0u8 | 0u8 | 0u8 | 0u8) as u8) == 0x70u8) by (bit_vector);
        }
        Apu {
            pulse1: Pulse::new(true),
            pulse2: Pulse::new(false),
            wave: Wave::new(),
            noise: Noise::new(),
            ctrl_right: ChannelCtrl::new(),
            ctrl_left: ChannelCtrl::new(),
            power_on: false,
            frame_sequencer_div: ClockDivider::with_period(8192),
            frame_sequencer_step: 7,
            sampling_counter: 0,
            audio_buffer: AudioBuffer::new(),
        }
    }

    /// Powers the unit on or off. A change restarts the frame sequencer, clears the
    /// terminals and resets the channels, keeping their length counters.
    fn set_power(&mut self, on: bool)
        requires
            old(self).wf(),
        ensures
            final(self).wf(),
            final(self).power_on == on,
            old(self).power_on == on ==> *final(self) == *old(self),
            old(self).power_on != on ==> {
                &&& final(self).ctrl_left == ChannelCtrl::new_spec()
                &&& final(self).ctrl_right == ChannelCtrl::new_spec()
                &&& final(self).frame_sequencer_step == 7
                &&& final(self).frame_sequencer_div.count() == 0
                &&& final(self).pulse1.length == old(self).pulse1.length
                &&& final(self).pulse2.length == old(self).pulse2.length
                &&& final(self).wave.length == old(self).wave.length
                &&& final(self).noise.length == old(self).noise.length
                &&& !final(self).pulse1.on && !final(self).pulse2.on && !final(self).wave.on && !final(self).noise.on
                &&& final(self).ctrl_right.volume == 0 && final(self).ctrl_left.volume == 0
            },
            final(self).wave.ram == old(self).wave.ram,
            final(self).sampling_counter == old(self).sampling_counter,
            final(self).audio_buffer.samples@ == old(self).audio_buffer.samples@,
            final(self).audio_buffer.sample_rate == old(self).audio_buffer.sample_rate,
    {
        if self.power_on == on {
            return;
        }
        self.power_on = on;
        self.frame_sequencer_div.reset();
        self.frame_sequencer_step = 7;
        self.ctrl_right = ChannelCtrl::new();
        self.ctrl_left = ChannelCtrl::new();
        let l1 = self.pulse1.length;
        let l2 = self.pulse2.length;
        let l4 = self.noise.length;
        self.pulse1 = Pulse::new(self.pulse1.has_sweep_unit);
        self.pulse2 = Pulse::new(self.pulse2.has_sweep_unit);
        self.wave.reset();
        self.noise = Noise::new();
        self.pulse1.length = l1;
        self.pulse2.length = l2;
        self.noise.length = l4;
    }

    /// Mixes the channels into one sample; reading the noise level starts its mean over.
    fn mix_output(&mut self) -> (s: AudioSample)
        requires
            old(self).wf(),
        ensures
            final(self).wf(),
            s == old(self).mixed(),
            final(self).power_on == old(self).power_on,
            final(self).frame_sequencer_step == old(self).frame_sequencer_step,
            final(self).sampling_counter == old(self).sampling_counter,
            final(self).audio_buffer.samples@ == old(self).audio_buffer.samples@,
            final(self).audio_buffer.sample_rate == old(self).audio_buffer.sample_rate,
            final(self).pulse1 == old(self).pulse1,
            final(self).pulse2 == old(self).pulse2,
            final(self).wave == old(self).wave,
            final(self).noise == (if old(self).power_on { noise_read(old(self).noise) } else { old(self).noise }),
            final(self).ctrl_left == old(self).ctrl_left,
            final(self).ctrl_right == old(self).ctrl_right,
            final(self).frame_sequencer_div == old(self).frame_sequencer_div,
    {
        if !self.power_on {
            return AudioSample::new(0, 0);
        }
        let o0 = dac(self.pulse1.output());
        let o1 = dac(self.pulse2.output());
        let o2 = dac(self.wave.output());
        let o3 = dac(self.noise.output());
        let o = (o0, o1, o2, o3);
        let left = terminal_exec(&self.ctrl_right, o);
        let right = terminal_exec(&self.ctrl_left, o);
        AudioSample::new(left, right)
    }

    /// What one cycle of `tick` leaves: the state `n` after `o`.
    pub open spec fn tick_post(o: &Apu, n: &Apu) -> bool {
        &&& (n.wf())
        &&& (n.power_on == o.power_on)
        &&& (({
                    let fires = o.power_on && o.frame_sequencer_div.count() + 1 >= 8192;
                    n.frame_sequencer_step == (if fires {
                        vstd::wrapping::u64_specs::wrapping_add(o.frame_sequencer_step, 1)
                    } else {
                        o.frame_sequencer_step
                    })
                }))
        &&& (n.frame_sequencer_step == o.step_after())
        &&& (n.audio_buffer.sample_rate == o.audio_buffer.sample_rate)
        &&& (n.ctrl_left == o.ctrl_left)
        &&& (n.ctrl_right == o.ctrl_right)
        &&& (({
                    let ch = o.channels_after();
                    let c = o.sampling_counter + 800;
                    &&& n.pulse1 == ch.0
                    &&& n.pulse2 == ch.1
                    &&& n.wave == ch.2
                    &&& n.noise == (if c >= 70224 && o.power_on { noise_read(ch.3) } else { ch.3 })
                    &&& c >= 70224 ==> n.audio_buffer.samples@ == o.audio_buffer.samples@.push(
                        mix(o.power_on, ch.0, ch.1, ch.2, ch.3, o.ctrl_left, o.ctrl_right),
                    )
                }))
        &&& (({
                    let c = o.sampling_counter + 800;
                    &&& n.sampling_counter == (if c >= 70224 { c - 70224 } else { c })
                    &&& c < 70224 ==> n.audio_buffer.samples@ == o.audio_buffer.samples@
                    &&& c >= 70224 ==> n.audio_buffer.samples@.len() == o.audio_buffer.samples@.len() + 1
                        && n.audio_buffer.samples@.drop_last() == o.audio_buffer.samples@
                }))
    }

    /// One cycle of the sound unit: with power on, the frame sequencer steps every 8192
    /// cycles and clocks length (even steps), envelope (step 7 of 8) and sweep (steps 2
    /// and 6); the channels run. 800 samples are taken per 70224 cycles.
    pub fn tick(&mut self)
        requires
            old(self).wf(),
        ensures
            final(self).wf(),
            final(self).power_on == old(self).power_on,
            ({
                let fires = old(self).power_on && old(self).frame_sequencer_div.count() + 1 >= 8192;
                final(self).frame_sequencer_step == (if fires {
                    vstd::wrapping::u64_specs::wrapping_add(old(self).frame_sequencer_step, 1)
                } else {
                    old(self).frame_sequencer_step
                })
            }),
            final(self).frame_sequencer_step == old(self).step_after(),
            final(self).audio_buffer.sample_rate == old(self).audio_buffer.sample_rate,
            final(self).ctrl_left == old(self).ctrl_left,
            final(self).ctrl_right == old(self).ctrl_right,
            ({
                let ch = old(self).channels_after();
                let c = old(self).sampling_counter + 800;
                &&& final(self).pulse1 == ch.0
                &&& final(self).pulse2 == ch.1
                &&& final(self).wave == ch.2
                &&& final(self).noise == (if c >= 70224 && old(self).power_on { noise_read(ch.3) } else { ch.3 })
                &&& c >= 70224 ==> final(self).audio_buffer.samples@ == old(self).audio_buffer.samples@.push(
                    mix(old(self).power_on, ch.0, ch.1, ch.2, ch.3, old(self).ctrl_left, old(self).ctrl_right),
                )
            }),
            ({
                let c = old(self).sampling_counter + 800;
                &&& final(self).sampling_counter == (if c >= 70224 { c - 70224 } else { c })
                &&& c < 70224 ==> final(self).audio_buffer.samples@ == old(self).audio_buffer.samples@
                &&& c >= 70224 ==> final(self).audio_buffer.samples@.len() == old(self).audio_buffer.samples@.len() + 1
                    && final(self).audio_buffer.samples@.drop_last() == old(self).audio_buffer.samples@
            }),
            Self::tick_post(old(self), final(self)),
    {
        if self.power_on {
            if self.frame_sequencer_div.tick() {
                self.frame_sequencer_step = self.frame_sequencer_step.wrapping_add(1);
            }
            let step = self.frame_sequencer_step;
            let length_tick = step % 2 == 0;
            let envelope_tick = step % 8 == 7;
            let sweep_tick = step % 4 == 2;
            self.pulse1.tick(length_tick, envelope_tick, sweep_tick);
            self.pulse2.tick(length_tick, envelope_tick, false);
            self.wave.tick(length_tick);
            self.noise.tick(length_tick, envelope_tick);
        }
        self.sampling_counter = self.sampling_counter + 800;
        if self.sampling_counter >= 70224 {
            self.sampling_counter = self.sampling_counter - 70224;
            let sample = self.mix_output();
            self.audio_buffer.samples.push(sample);
            proof {
                assert(self.audio_buffer.samples@.drop_last() =~= old(self).audio_buffer.samples@);
            }
        }
    }

    /// Reads the register at `addr` ($FF10-$FF3F, or the PCM registers $FF76 and $FF77).
    /// Reading $FF77 starts the noise level's mean over.
    pub fn read(&mut self, addr: u16) -> (r: u8)
        requires
            old(self).wf(),
            (0xFF10 <= addr <= 0xFF3F) || addr == 0xFF76 || addr == 0xFF77,
        ensures
            final(self).wf(),
            r == old(self).reg_value(addr),
            final(self).pulse1 == old(self).pulse1,
            final(self).pulse2 == old(self).pulse2,
            final(self).wave == old(self).wave,
            final(self).power_on == old(self).power_on,
            addr != 0xFF77 ==> final(self).noise == old(self).noise,
            addr != 0xFF77 ==> *final(self) == *old(self),
            final(self).audio_buffer.samples@ == old(self).audio_buffer.samples@,
            final(self).audio_buffer.sample_rate == old(self).audio_buffer.sample_rate,
            final(self).sampling_counter == old(self).sampling_counter,
    {
        if 0xFF10 <= addr && addr <= 0xFF14 {
            self.pulse1.read((addr - 0xFF10) as usize)
        } else if 0xFF16 <= addr && addr <= 0xFF19 {
            self.pulse2.read((addr - 0xFF15) as usize)
        } else if 0xFF1A <= addr && addr <= 0xFF1E {
            self.wave.read((addr - 0xFF1A) as usize)
        } else if 0xFF20 <= addr && addr <= 0xFF23 {
            self.noise.read((addr - 0xFF20) as usize)
        } else if addr == 0xFF24 {
            (if self.ctrl_left.vin_enable { 0x80u8 } else { 0 }) | (self.ctrl_left.volume << 4u8) | (if self.ctrl_right.vin_enable {
                0x08u8
            } else {
                0
            }) | self.ctrl_right.volume
        } else if addr == 0xFF25 {
            (Self::out_bits_exec(&self.ctrl_left) << 4u8) | Self::out_bits_exec(&self.ctrl_right)
        } else if addr == 0xFF26 {
            (if self.power_on { 0x80u8 } else { 0 }) | 0x70u8 | (if self.noise.on { 8u8 } else { 0 }) | (if self.wave.on {
                4u8
            } else {
                0
            }) | (if self.pulse2.on { 2u8 } else { 0 }) | (if self.pulse1.on { 1u8 } else { 0 })
        } else if 0xFF30 <= addr && addr <= 0xFF3F {
            self.wave.ram[(addr & 0xf) as usize]
        } else if addr == 0xFF76 {
            let a = unwrap_or0(self.pulse2.output());
            let b = unwrap_or0(self.pulse1.output());
            (a << 4u8) | b
        } else if addr == 0xFF77 {
            let b = unwrap_or0(self.wave.output());
            let a = unwrap_or0(self.noise.output());
            (a << 4u8) | b
        } else {
            0xFF
        }
    }

    fn out_bits_exec(c: &ChannelCtrl) -> (r: u8)
        ensures
            r == Self::out_bits(*c),
    {
        (if c.output_ch[3] { 8u8 } else { 0 }) | (if c.output_ch[2] { 4u8 } else { 0 }) | (if c.output_ch[1] { 2u8 } else { 0 }) | (if c.output_ch[0] {
            1u8
        } else {
            0
        })
    }

    /// What a write of `data` to the register at `addr` leaves (`n`): the channel's own
    /// register write, the master volume and panning registers, power, or wave RAM.
    pub open spec fn write_post(&self, n: &Apu, addr: u16, data: u8) -> bool {
        &&& 0xFF10 <= addr <= 0xFF14 ==> self.pulse1.write_post(&n.pulse1, (addr - 0xFF10) as usize, data)
        &&& 0xFF16 <= addr <= 0xFF19 ==> self.pulse2.write_post(&n.pulse2, (addr - 0xFF15) as usize, data)
        &&& 0xFF1A <= addr <= 0xFF1E ==> self.wave.write_post(&n.wave, (addr - 0xFF1A) as usize, data)
        &&& 0xFF20 <= addr <= 0xFF23 ==> self.noise.write_post(&n.noise, (addr - 0xFF20) as usize, data)
        &&& addr == 0xFF24 ==> n.nr50() == data
        &&& addr == 0xFF25 ==> n.nr51() == data
        &&& n.audio_buffer.sample_rate == self.audio_buffer.sample_rate
        &&& n.audio_buffer.samples@ == self.audio_buffer.samples@
    }

    /// Writes the register at `addr` ($FF10-$FF3F, or the read-only PCM registers).
    pub fn write(&mut self, addr: u16, data: u8)
        requires
            old(self).wf(),
            (0xFF10 <= addr <= 0xFF3F) || addr == 0xFF76 || addr == 0xFF77,
        ensures
            final(self).wf(),
            old(self).write_post(final(self), addr, data),
            addr == 0xFF26 ==> final(self).power_on == (data & 0x80 != 0),
            addr != 0xFF26 ==> final(self).power_on == old(self).power_on,
            addr == 0xFF26 && old(self).power_on == (data & 0x80 != 0) ==> *final(self) == *old(self),
            addr == 0xFF26 && old(self).power_on != (data & 0x80 != 0) ==> {
                &&& !final(self).pulse1.on && !final(self).pulse2.on && !final(self).wave.on && !final(self).noise.on
                &&& final(self).ctrl_left == ChannelCtrl::new_spec()
                &&& final(self).ctrl_right == ChannelCtrl::new_spec()
                &&& final(self).frame_sequencer_step == 7
                &&& final(self).frame_sequencer_div.count() == 0
                &&& final(self).wave.ram == old(self).wave.ram
                &&& final(self).pulse1.length == old(self).pulse1.length
                &&& final(self).pulse2.length == old(self).pulse2.length
                &&& final(self).wave.length == old(self).wave.length
                &&& final(self).noise.length == old(self).noise.length
            },
            addr != 0xFF26 ==> {
                &&& final(self).frame_sequencer_step == old(self).frame_sequencer_step
                &&& final(self).frame_sequencer_div == old(self).frame_sequencer_div
                &&& !(0xFF10 <= addr <= 0xFF14) ==> final(self).pulse1 == old(self).pulse1
                &&& !(0xFF16 <= addr <= 0xFF19) ==> final(self).pulse2 == old(self).pulse2
                &&& !(0xFF1A <= addr <= 0xFF1E) && !(0xFF30 <= addr <= 0xFF3F) ==> final(self).wave == old(self).wave
                &&& !(0xFF20 <= addr <= 0xFF23) ==> final(self).noise == old(self).noise
                &&& addr != 0xFF24 && addr != 0xFF25 ==> final(self).ctrl_left == old(self).ctrl_left
                    && final(self).ctrl_right == old(self).ctrl_right
            },
            0xFF30 <= addr <= 0xFF3F ==> final(self).wave.ram[(addr & 0xf) as int] == data,
            final(self).audio_buffer.samples@ == old(self).audio_buffer.samples@,
            final(self).audio_buffer.sample_rate == old(self).audio_buffer.sample_rate,
            final(self).sampling_counter == old(self).sampling_counter,
    {
        if 0xFF10 <= addr && addr <= 0xFF14 {
            self.pulse1.write((addr - 0xFF10) as usize, data);
        } else if 0xFF16 <= addr && addr <= 0xFF19 {
            self.pulse2.write((addr - 0xFF15) as usize, data);
        } else if 0xFF1A <= addr && addr <= 0xFF1E {
            self.wave.write((addr - 0xFF1A) as usize, data);
        } else if 0xFF20 <= addr && addr <= 0xFF23 {
            self.noise.write((addr - 0xFF20) as usize, data);
        } else if addr == 0xFF24 {
            self.ctrl_left.vin_enable = data & 0x80 != 0;
            self.ctrl_left.volume = (data >> 4u8) & 7;
            self.ctrl_right.vin_enable = data & 0x08 != 0;
            self.ctrl_right.volume = data & 7;
            proof {
                assert(((if data & 0x80 != 0 { 0x80u8 } else { 0 }) | (((data >> 4u8) & 7) << 4u8) | (if data & 0x08 != 0 {
                    0x08u8
                } else {
                    0
                }) | (data & 7)) == data) by (bit_vector);
            }
        } else if addr == 0xFF25 {
            self.ctrl_left.output_ch = [data & 0x10 != 0, data & 0x20 != 0, data & 0x40 != 0, data & 0x80 != 0];
            self.ctrl_right.output_ch = [data & 0x01 != 0, data & 0x02 != 0, data & 0x04 != 0, data & 0x08 != 0];
            proof {
                assert(((((if data & 0x80 != 0 { 8u8 } else { 0 }) | (if data & 0x40 != 0 { 4u8 } else { 0 }) | (if data & 0x20 != 0 {
                    2u8
                } else {
                    0
                }) | (if data & 0x10 != 0 { 1u8 } else { 0 })) << 4u8) | ((if data & 0x08 != 0 { 8u8 } else { 0 }) | (if data
                    & 0x04 != 0 {
                    4u8
                } else {
                    0
                }) | (if data & 0x02 != 0 { 2u8 } else { 0 }) | (if data & 0x01 != 0 { 1u8 } else { 0 }))) == data) by (bit_vector);
            }
        } else if addr == 0xFF26 {
            self.set_power(data & 0x80 != 0);
        } else if 0xFF30 <= addr && addr <= 0xFF3F {
            self.wave.ram[(addr & 0xf) as usize] = data;
        }
    }
}

fn unwrap_or0(o: Option<u8>) -> (r: u8)
    ensures
        r == unwrap0(o),
{
    match o {
        Some(v) => v,
        None => 0,
    }
}

} // verus!
