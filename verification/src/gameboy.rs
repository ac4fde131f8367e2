//! The emulator as a whole: loading a cartridge, running frame by frame, input, reset,
//! backup RAM and the Game Boy Color's color correction.
use vstd::prelude::*;
use sha2::Digest;
use crate::bus::{BusFault, boot_rom_size};
use crate::config::{BootRoms, Config, Model};
use crate::context::{Context, ContextError, InnerContext1, InnerContext2, context_error_of, lemma_run_keeps, run_ok};
use crate::bus::Bus;
use crate::interface::AudioSample;
use crate::cpu::{Flag, Register, flag_of, zero_regs};
use crate::cpu::isa::{cycle_after, is_unknown};
use crate::cpu::step::{cpu_runs, cpu_steps, lemma_runs_extend, step_refused, with_period};
use crate::cpu::{BusEvent, Cpu, CpuContext};
use crate::interface::{AudioBuffer, Color, FrameBuffer};
use crate::io::Input;
use crate::mbc::{Mbc, opt_len};
use crate::rom::{CgbFlag, Rom, RomError, cgb_flag_of, copy_bytes, rom_decoded_from, rom_error_of};

verus! {

/// SHA-256 digest of a byte string.
pub uninterp spec fn sha256_digest(data: Seq<u8>) -> Seq<u8>;

/// `sha2::Sha256::digest`: the SHA-256 digest of `data`, which the contract only names.
#[verifier::external_body]
fn sha256(data: &[u8]) -> (r: [u8; 32])
    ensures
        r@ == sha256_digest(data@),
{
    sha2::Sha256::digest(data).into()
}

/// Reasons for which a cartridge cannot be loaded.
#[derive(Clone, Copy, PartialEq, Eq, Structural, Debug)]
pub enum Error {
    RomError(RomError),
    /// The cartridge runs only on a Game Boy Color, and a monochrome model was asked for.
    DoesNotSupportCgb,
    Context(ContextError),
}

/// Reasons for which a frame could not be run to its end.
#[derive(Clone, Copy, PartialEq, Eq, Structural, Debug)]
pub enum ExecError {
    /// The CPU met an opcode that has no instruction.
    UnknownInstruction(u8),
    /// The bus met a request it cannot carry out.
    BusFault(BusFault),
}

/// The model to emulate for a cartridge with flag `flag` when `m` is asked for: `Auto`
/// picks by the flag; a cartridge for the Game Boy Color only cannot run on a DMG.
pub open spec fn select_model(flag: CgbFlag, m: Model) -> Option<Model> {
    match flag {
        CgbFlag::NonCgb => Some(
            if m == Model::Auto {
                Model::Dmg
            } else {
                m
            },
        ),
        CgbFlag::SupportCgb => Some(
            if m == Model::Auto {
                Model::Cgb
            } else {
                m
            },
        ),
        CgbFlag::OnlyCgb => if m == Model::Dmg {
            None
        } else {
            Some(Model::Cgb)
        },
    }
}

/// Boot ROM images have the size their model takes.
pub open spec fn boot_roms_fit(b: &BootRoms) -> bool {
    forall|m: Model|
        m != Model::Auto && (#[trigger] b.image_for(m)) is Some ==> b.image_for(m)->Some_0@.len()
            == boot_rom_size(m)
}

/// The registers the boot ROM leaves on a DMG and on a Game Boy Color.
pub open spec fn post_boot_regs(m: Model) -> Register {
    if m == Model::Dmg {
        Register {
            a: 0x01,
            f: flag_of(0xB0),
            b: 0x00,
            c: 0x13,
            d: 0x00,
            e: 0xD8,
            h: 0x01,
            l: 0x4D,
            sp: 0xFFFE,
            pc: 0x0100,
        }
    } else {
        Register {
            a: 0x11,
            f: flag_of(0x80),
            b: 0x00,
            c: 0x00,
            d: 0xFF,
            e: 0x56,
            h: 0x00,
            l: 0x0D,
            sp: 0xFFFE,
            pc: 0x0100,
        }
    }
}

/// The Game Boy Color's screen shown on a computer display: channels mixed and capped at
/// 240.
pub open spec fn correct_color(c: Color) -> Color {
    let r = c.r as int;
    let g = c.g as int;
    let b = c.b as int;
    let cap = |v: int|
        if v < 240 {
            v as u8
        } else {
            240u8
        };
    Color { r: cap((r * 26 + g * 4 + b * 2) / 32), g: cap((g * 24 + b * 8) / 32), b: cap((r * 6 + g * 4 + b * 22) / 32) }
}

/// A pixel as shown, with or without color correction.
pub open spec fn shown_color(correct: bool, c: Color) -> Color {
    if correct {
        correct_color(c)
    } else {
        c
    }
}

/// Applies the color correction to one color.
pub fn translate(correct: bool, c: Color) -> (r: Color)
    ensures
        r == shown_color(correct, c),
{
    if !correct {
        return c;
    }
    let r = c.r as u16;
    let g = c.g as u16;
    let b = c.b as u16;
    let nr = (r * 26 + g * 4 + b * 2) / 32;
    let ng = (g * 24 + b * 8) / 32;
    let nb = (r * 6 + g * 4 + b * 22) / 32;
    Color::new(
        if nr < 240 {
            nr as u8
        } else {
            240
        },
        if ng < 240 {
            ng as u8
        } else {
            240
        },
        if nb < 240 {
            nb as u8
        } else {
            240
        },
    )
}

/// Copies `src` into `dest`, which takes its size, pixel by pixel through `translate`.
pub fn convert_frame_buffer(correct: bool, dest: &mut FrameBuffer, src: &FrameBuffer)
    requires
        src.wf(),
    ensures
        final(dest).wf(),
        final(dest).width == src.width,
        final(dest).height == src.height,
        forall|i: int|
            0 <= i < src.buffer@.len() ==> #[trigger] final(dest).buffer@[i] == shown_color(correct, src.buffer@[i]),
{
    dest.resize(src.width, src.height);
    let n = src.buffer.len();
    let mut i: usize = 0;
    while i < n
        invariant
            n == src.buffer@.len(),
            dest.wf(),
            dest.width == src.width,
            dest.height == src.height,
            dest.buffer@.len() == n,
            i <= n,
            forall|k: int| 0 <= k < i ==> #[trigger] dest.buffer@[k] == shown_color(correct, src.buffer@[k]),
        decreases n - i,
    {
        let c = translate(correct, src.buffer[i]);
        dest.buffer.set(i, c);
        i = i + 1;
    }
}

pub struct GameBoy {
    pub rom_hash: [u8; 32],
    pub config: Config,
    pub corrected_frame_buffer: FrameBuffer,
    pub ctx: Context,
}

impl GameBoy {
    pub open spec fn wf(&self) -> bool {
        &&& self.ctx.wf()
        &&& self.corrected_frame_buffer.wf()
    }

    pub open spec fn rom(&self) -> Rom {
        self.ctx.inner.inner.rom
    }

    pub open spec fn model(&self) -> Model {
        self.ctx.inner.inner.inner.model
    }

    /// Both the cartridge and the controller claim the backup RAM.
    pub open spec fn backup_conflict(&self) -> bool {
        &&& self.rom().ram_size > 0
        &&& self.rom().cartridge_type.has_battery
        &&& self.ctx.inner.bus.mbc is Mbc2
    }

    /// Sets the registers the boot ROM would have left.
    fn setup_initial_state(&mut self)
        requires
            old(self).model() == Model::Dmg || old(self).model() == Model::Cgb,
        ensures
            final(self).ctx.cpu == (crate::cpu::Cpu { reg: post_boot_regs(old(self).model()), ..old(self).ctx.cpu }),
            final(self).ctx.inner == old(self).ctx.inner,
            final(self).rom_hash == old(self).rom_hash,
            final(self).config == old(self).config,
            final(self).corrected_frame_buffer == old(self).corrected_frame_buffer,
    {
        let dmg = match self.ctx.inner.inner.inner.model {
            Model::Dmg => true,
            _ => false,
        };
        let reg = self.ctx.cpu.register();
        if dmg {
            reg.a = 0x01;
            reg.f.unpack(0xB0);
            reg.b = 0x00;
            reg.c = 0x13;
            reg.d = 0x00;
            reg.e = 0xD8;
            reg.h = 0x01;
            reg.l = 0x4D;
            reg.sp = 0xFFFE;
            reg.pc = 0x0100;
        } else {
            reg.a = 0x11;
            reg.f.unpack(0x80);
            reg.b = 0x00;
            reg.c = 0x00;
            reg.d = 0xFF;
            reg.e = 0x56;
            reg.h = 0x00;
            reg.l = 0x0D;
            reg.sp = 0xFFFE;
            reg.pc = 0x0100;
        }
    }
}

/// Length of an optional byte string.
pub open spec fn slice_len(v: Option<&[u8]>) -> Option<nat> {
    match v {
        Some(b) => Some(b@.len()),
        None => None,
    }
}

/// Clears the sound samples, sets the sample rate to 48 kHz, sizes the video unit's
/// frame to the screen and sets whether it is drawn.
fn prepare_frame(ctx: &mut crate::context::InnerContext1, render_graphics: bool)
    requires
        old(ctx).wf(),
    ensures
        final(ctx).wf(),
        final(ctx).rom == old(ctx).rom,
        final(ctx).inner == old(ctx).inner,
        final(ctx).ppu.regs == old(ctx).ppu.regs,
        final(ctx).ppu.render_graphics == render_graphics,
        final(ctx).apu.audio_buffer.samples@.len() == 0,
        final(ctx).apu.audio_buffer.sample_rate == 48000,
{
    ctx.apu.audio_buffer.samples.clear();
    ctx.apu.audio_buffer.sample_rate = 48000;
    ctx.ppu.frame_buffer.resize(160, 144);
    ctx.ppu.set_render_graphics(render_graphics);
}

/// The model `try_from_file` picks for a cartridge whose header byte $0143 is
/// `flag_byte`, when `m` is asked for.
pub fn model_for_header(flag_byte: u8, m: Model) -> (r: Option<Model>)
    ensures
        r == select_model(cgb_flag_of(flag_byte), m),
{
    let flag = if flag_byte == 0x80 {
        CgbFlag::SupportCgb
    } else if flag_byte == 0xC0 {
        CgbFlag::OnlyCgb
    } else {
        CgbFlag::NonCgb
    };
    choose_model(flag, m)
}

fn choose_model(flag: CgbFlag, m: Model) -> (r: Option<Model>)
    ensures
        r == select_model(flag, m),
{
    let auto = match m {
        Model::Auto => true,
        _ => false,
    };
    match flag {
        CgbFlag::NonCgb => Some(
            if auto {
                Model::Dmg
            } else {
                m
            },
        ),
        CgbFlag::SupportCgb => Some(
            if auto {
                Model::Cgb
            } else {
                m
            },
        ),
        CgbFlag::OnlyCgb => match m {
            Model::Dmg => None,
            _ => Some(Model::Cgb),
        },
    }
}

impl GameBoy {
    /// Loads a cartridge image: decodes its header, picks the model, and builds the
    /// machine with the model's boot ROM from `boot_roms` if there is one, or else in
    /// the state the boot ROM leaves.
    #[verifier::rlimit(50)]
    pub fn try_from_file(data: &[u8], backup: Option<&[u8]>, config: &Config, boot_roms: &BootRoms) -> (r:
        Result<GameBoy, Error>)
        requires
            data.len() >= 0x150,
            boot_roms_fit(boot_roms),
            select_model(cgb_flag_of(data@[0x143]), config.model) matches Some(m) ==> (m == Model::Dmg || m
                == Model::Cgb || boot_roms.image_for(m) is Some),
        ensures
            rom_error_of(data@) matches Some(e) ==> r == Err::<GameBoy, Error>(Error::RomError(e)),
            rom_error_of(data@) is None && select_model(cgb_flag_of(data@[0x143]), config.model) is None
                ==> r == Err::<GameBoy, Error>(Error::DoesNotSupportCgb),
            r matches Err(Error::Context(e)) ==> exists|rom: Rom|
                rom_decoded_from(rom, data@) && #[trigger] context_error_of(&rom, slice_len(backup)) == Some(e),
            (rom_error_of(data@) is None && select_model(cgb_flag_of(data@[0x143]), config.model) is Some
                && forall|rom: Rom|
                rom_decoded_from(rom, data@) ==> #[trigger] context_error_of(&rom, slice_len(backup)) is None)
                ==> r is Ok,
            r matches Ok(gb) ==> {
                let m = select_model(cgb_flag_of(data@[0x143]), config.model)->Some_0;
                let boot = boot_roms.image_for(m);
                &&& gb.wf()
                &&& rom_decoded_from(gb.rom(), data@)
                &&& gb.model() == m
                &&& gb.rom_hash@ == sha256_digest(data@)
                &&& gb.config == *config
                &&& gb.corrected_frame_buffer.width == 160 && gb.corrected_frame_buffer.height == 144
                &&& gb.ctx.inner.bus.map_boot_rom == boot is Some
                &&& gb.ctx.inner.bus.boot_rom is Some == boot is Some
                &&& (boot is Some ==> gb.ctx.inner.bus.boot_rom->Some_0@ == boot->Some_0@)
                &&& gb.ctx.cpu.reg == (if boot is Some { zero_regs() } else { post_boot_regs(m) })
                &&& gb.ctx.inner.inner.ppu.dmg_palette == config.palette_spec()
                &&& (backup is Some && gb.rom().cartridge_type.mbc != Some(crate::rom::Mbc::Mbc2)
                    ==> gb.ctx.inner.inner.inner.external_ram@ == backup->Some_0@)
            },
    {
        let rom = match Rom::from_bytes(data) {
            Ok(r) => r,
            Err(e) => {
                return Err(Error::RomError(e));
            },
        };
        let rom_hash = sha256(rom.data.as_slice());
        let model = match choose_model(rom.cgb_flag, config.model) {
            Some(m) => m,
            None => {
                return Err(Error::DoesNotSupportCgb);
            },
        };
        let boot_rom: Option<Vec<u8>> = match boot_roms.get(model) {
            Some(b) => Some(copy_bytes(b)),
            None => None,
        };
        let backup_ram: Option<Vec<u8>> = match backup {
            Some(b) => Some(copy_bytes(b)),
            None => None,
        };
        let dmg_palette = config.palette();
        let ghost rom0 = rom;
        let ctx = match Context::new(model, rom, &boot_rom, backup_ram, &dmg_palette) {
            Ok(c) => c,
            Err(e) => {
                return Err(Error::Context(e));
            },
        };
        let mut ret = GameBoy {
            rom_hash,
            config: *config,
            corrected_frame_buffer: FrameBuffer::new(160, 144),
            ctx,
        };
        if boot_rom.is_none() {
            ret.setup_initial_state();
        }
        Ok(ret)
    }

    /// The run of machine states `h` of a frame started from `b0`, `c0`: it begins with the
    /// bus as it was and the devices prepared for the frame (no samples yet, 48 kHz, the
    /// video unit drawing or not as asked), each state a device step from the one before.
    pub open spec fn frame_run(h: Seq<(Bus, InnerContext1)>, b0: Bus, c0: InnerContext1, render_graphics: bool) -> bool {
        &&& h.len() >= 1
        &&& run_ok(h)
        &&& h[0].0 == b0
        &&& h[0].1.rom == c0.rom
        &&& h[0].1.inner == c0.inner
        &&& h[0].1.ppu.regs == c0.ppu.regs
        &&& h[0].1.ppu.render_graphics == render_graphics
        &&& h[0].1.apu.audio_buffer.samples@ == Seq::<AudioSample>::empty()
        &&& h[0].1.apu.audio_buffer.sample_rate == 48000
    }

    /// Runs the machine until the video unit starts a new frame, after clearing the
    /// sound samples and setting the sample rate to 48 kHz; with `render_graphics`, then
    /// fills the shown frame, color-corrected on a Game Boy Color when the settings ask
    /// for it. Stops early at an unknown opcode or a bus fault. (The run is bounded by
    /// 2^64 - 1 CPU steps.)
    pub fn exec_frame(&mut self, render_graphics: bool) -> (r: Result<(), ExecError>)
        requires
            old(self).wf(),
        ensures
            final(self).wf(),
            final(self).rom_hash == old(self).rom_hash,
            final(self).config == old(self).config,
            Self::frame_run(final(self).ctx.inner.log@, old(self).ctx.inner.bus, old(self).ctx.inner.inner, render_graphics),
            final(self).ctx.inner.log@.last() == (final(self).ctx.inner.bus, final(self).ctx.inner.inner),
            final(self).ctx.inner.inner.ppu.render_graphics == render_graphics,
            final(self).ctx.inner.inner.apu.audio_buffer.sample_rate == 48000,
            r matches Err(ExecError::UnknownInstruction(op)) ==> is_unknown(op) && exists|k: nat, cm: Cpu, em: Seq<BusEvent>|
                #[trigger] cpu_runs(old(self).ctx.cpu, cm, old(self).ctx.inner.events@, em, k)
                    && final(self).ctx.cpu.period == cycle_after(cm.period, 1)
                    && step_refused(cm, final(self).ctx.cpu, em, final(self).ctx.inner.events@, op),
            r matches Err(ExecError::BusFault(f)) ==> final(self).ctx.inner.bus.fault == Some(f) && exists|k: nat|
                #[trigger] cpu_runs(
                    old(self).ctx.cpu,
                    final(self).ctx.cpu,
                    old(self).ctx.inner.events@,
                    final(self).ctx.inner.events@,
                    k,
                ) && k >= 1,
            r is Ok ==> final(self).ctx.inner.bus.fault is None,
            r is Ok ==> exists|k: nat|
                #[trigger] cpu_runs(
                    old(self).ctx.cpu,
                    final(self).ctx.cpu,
                    old(self).ctx.inner.events@,
                    final(self).ctx.inner.events@,
                    k,
                ),
            r is Ok ==> final(self).ctx.inner.inner.ppu.regs.frame != old(self).ctx.inner.inner.ppu.regs.frame
                || final(self).ctx.cpu.period == u64::MAX,
            r is Ok && render_graphics ==> {
                let src = final(self).ctx.inner.inner.ppu.frame_buffer;
                let cc = final(self).model().spec_is_cgb() && final(self).config.color_correction;
                &&& final(self).corrected_frame_buffer.width == src.width
                &&& final(self).corrected_frame_buffer.height == src.height
                &&& forall|i: int|
                    0 <= i < src.buffer@.len() ==> #[trigger] final(self).corrected_frame_buffer.buffer@[i]
                        == shown_color(cc, src.buffer@[i])
            },
            r is Ok && !render_graphics ==> final(self).corrected_frame_buffer == old(self).corrected_frame_buffer,
    {
        prepare_frame(&mut self.ctx.inner.inner, render_graphics);
        self.ctx.inner.start_log();
        let ghost ob = old(self).ctx.inner.bus;
        let ghost oi = old(self).ctx.inner.inner;
        assert(self.ctx.inner.inner.apu.audio_buffer.samples@ =~= Seq::<AudioSample>::empty());
        let start_frame = self.ctx.inner.inner.ppu.regs.frame;
        let ghost p0 = self.ctx.cpu.period;
        let ghost cpu0 = self.ctx.cpu;
        let ghost ev0 = self.ctx.inner.events@;
        let ghost mut k: nat = 0;
        let mut budget: u64 = u64::MAX;
        while self.ctx.inner.inner.ppu.regs.frame == start_frame && budget > 0
            invariant
                self.wf(),
                self.rom_hash == old(self).rom_hash,
                self.config == old(self).config,
                self.corrected_frame_buffer == old(self).corrected_frame_buffer,
                start_frame == old(self).ctx.inner.inner.ppu.regs.frame,
                budget < u64::MAX ==> self.ctx.inner.bus.fault is None,
                budget == u64::MAX ==> self.ctx.inner.inner.ppu.regs.frame == start_frame,
                self.ctx.cpu.period >= p0 + (u64::MAX - budget) || self.ctx.cpu.period == u64::MAX,
                cpu0 == old(self).ctx.cpu,
                ev0 == old(self).ctx.inner.events@,
                cpu_runs(cpu0, self.ctx.cpu, ev0, self.ctx.inner.events@, k),
                self.ctx.inner.log_ok(),
                Self::frame_run(self.ctx.inner.log@, ob, oi, render_graphics),
                ob == old(self).ctx.inner.bus,
                oi == old(self).ctx.inner.inner,
                self.ctx.inner.inner.ppu.render_graphics == render_graphics,
                self.ctx.inner.inner.apu.audio_buffer.sample_rate == 48000,
            decreases budget,
        {
            let ghost cm = self.ctx.cpu;
            let ghost em = self.ctx.inner.events@;
            let ghost h0 = self.ctx.inner.log@[0];
            let ghost a0 = self.ctx.inner.anchor();
            let res = self.ctx.cpu.step(&mut self.ctx.inner);
            proof {
                assert(self.ctx.inner.anchor() == a0);
                assert(self.ctx.inner.log@[0] == h0);
                let h = self.ctx.inner.log@;
                lemma_run_keeps(h, h.len() - 1);
            }
            match res {
                Ok(()) => {},
                Err(op) => {
                    proof {
                        assert(cpu_runs(cpu0, cm, ev0, em, k));
                    }
                    return Err(ExecError::UnknownInstruction(op));
                },
            }
            proof {
                let n = choose|n: nat|
                    #[trigger] cpu_steps(
                        with_period(cm, self.ctx.cpu.period),
                        self.ctx.cpu,
                        em,
                        self.ctx.inner.events@,
                        n,
                    );
                lemma_runs_extend(cpu0, cm, self.ctx.cpu, ev0, em, self.ctx.inner.events@, k, n);
                k = k + 1;
            }
            match self.ctx.inner.bus.fault {
                Some(f) => {
                    proof {
                        assert(cpu_runs(cpu0, self.ctx.cpu, ev0, self.ctx.inner.events@, k));
                    }
                    return Err(ExecError::BusFault(f));
                },
                None => {},
            }
            budget = budget - 1;
        }
        if render_graphics {
            let cc = self.ctx.inner.inner.inner.model.is_cgb() && self.config.color_correction;
            convert_frame_buffer(cc, &mut self.corrected_frame_buffer, &self.ctx.inner.inner.ppu.frame_buffer);
        }
        Ok(())
    }

    /// The backup RAM to save: the cartridge RAM when it has a battery, else the
    /// controller's own RAM (MBC2), if any.
    pub fn backup(&self) -> (r: Option<Vec<u8>>)
        requires
            !self.backup_conflict(),
        ensures
            (self.rom().ram_size > 0 && self.rom().cartridge_type.has_battery) ==> r is Some && r->Some_0@
                == self.ctx.inner.inner.inner.external_ram@,
            !(self.rom().ram_size > 0 && self.rom().cartridge_type.has_battery) ==> match self.ctx.inner.bus.mbc {
                Mbc::Mbc2(m) => r is Some && r->Some_0@ == m.ram@,
                _ => r is None,
            },
    {
        let external = self.ctx.backup_ram();
        let internal = self.ctx.inner.bus.mbc.internal_ram();
        if external.is_some() {
            external
        } else {
            match internal {
                Some(b) => Some(copy_bytes(b)),
                None => None,
            }
        }
    }

    /// Powers the machine off and on with the same cartridge, backup RAM, boot ROM and
    /// palette.
    pub fn reset(&mut self)
        requires
            old(self).wf(),
            !old(self).backup_conflict(),
            old(self).ctx.inner.bus.boot_rom is Some || old(self).model() == Model::Dmg || old(self).model()
                == Model::Cgb,
        ensures
            final(self).wf(),
            final(self).rom() == old(self).rom(),
            final(self).model() == old(self).model(),
            final(self).rom_hash == old(self).rom_hash,
            final(self).config == old(self).config,
            final(self).corrected_frame_buffer == old(self).corrected_frame_buffer,
            final(self).ctx.inner.bus.map_boot_rom == old(self).ctx.inner.bus.boot_rom is Some,
            final(self).ctx.inner.bus.boot_rom is Some == old(self).ctx.inner.bus.boot_rom is Some,
            final(self).ctx.cpu.reg == (if old(self).ctx.inner.bus.boot_rom is Some {
                zero_regs()
            } else {
                post_boot_regs(old(self).model())
            }),
            final(self).ctx.cpu.cycle == 0,
            final(self).ctx.inner.inner.ppu.dmg_palette == old(self).ctx.inner.inner.ppu.dmg_palette,
            final(self).ctx.inner.inner.ppu.regs.frame == 0,
            (old(self).rom().ram_size > 0 && old(self).rom().cartridge_type.has_battery)
                ==> final(self).ctx.inner.inner.inner.external_ram@ == old(self).ctx.inner.inner.inner.external_ram@,
    {
        let model = self.ctx.inner.inner.inner.model;
        let backup_ram = self.backup();
        let mut rom = Rom::default();
        std::mem::swap(&mut rom, &mut self.ctx.inner.inner.rom);
        let boot_rom = match &self.ctx.inner.bus.boot_rom {
            Some(b) => Some(copy_bytes(b.as_slice())),
            None => None,
        };
        let dmg_palette = self.ctx.inner.inner.ppu.dmg_palette;
        match Context::new(model, rom, &boot_rom, backup_ram, &dmg_palette) {
            Ok(c) => {
                self.ctx = c;
                if boot_rom.is_none() {
                    self.setup_initial_state();
                }
            },
            Err(_) => {
                // The cartridge and backup RAM are those this machine was built from.
                proof {
                    assert(false);
                }
            },
        }
    }

    /// Sets the buttons held down; a newly pressed button of a selected group requests
    /// the joypad interrupt.
    pub fn set_input(&mut self, input: &Input)
        requires
            old(self).wf(),
        ensures
            final(self).wf(),
            final(self).ctx.inner.bus.io.input == *input,
            ({
                let falls = exists|i: int|
                    0 <= i < 4 && #[trigger] old(self).ctx.inner.bus.io.line(i) && !final(self).ctx.inner.bus.io.line(i);
                final(self).ctx.inner.inner.inner == (InnerContext2 {
                    interrupt_flag: (old(self).ctx.inner.inner.inner.interrupt_flag | (if falls {
                        0x10u8
                    } else {
                        0u8
                    })) as u8,
                    ..old(self).ctx.inner.inner.inner
                })
            }),
            final(self).ctx.inner.bus.io.select_action_buttons == old(self).ctx.inner.bus.io.select_action_buttons,
            final(self).ctx.inner.bus.io.select_direction_buttons == old(self).ctx.inner.bus.io.select_direction_buttons,
            final(self).ctx.inner.bus.io.serial == old(self).ctx.inner.bus.io.serial,
            final(self).ctx.inner.bus.io.divider == old(self).ctx.inner.bus.io.divider,
            final(self).ctx.inner.bus.regs_eq(&old(self).ctx.inner.bus),
            final(self).ctx.inner.bus.mbc == old(self).ctx.inner.bus.mbc,
            final(self).ctx.inner.inner.rom == old(self).ctx.inner.inner.rom,
            final(self).ctx.inner.inner.ppu == old(self).ctx.inner.inner.ppu,
            final(self).ctx.inner.inner.apu == old(self).ctx.inner.inner.apu,
            final(self).ctx.inner.events == old(self).ctx.inner.events,
            final(self).ctx.cpu == old(self).ctx.cpu,
            final(self).rom_hash == old(self).rom_hash,
            final(self).config == old(self).config,
            final(self).corrected_frame_buffer == old(self).corrected_frame_buffer,
    {
        self.ctx.inner.bus.io.set_input(&mut self.ctx.inner.inner.inner, input);
    }

    /// Takes new settings; the monochrome palette follows them at once.
    pub fn set_config(&mut self, config: &Config)
        requires
            old(self).wf(),
        ensures
            final(self).wf(),
            final(self).config == *config,
            final(self).ctx.inner.inner.ppu.dmg_palette == config.palette_spec(),
            final(self).ctx.cpu == old(self).ctx.cpu,
    {
        self.config = *config;
        let p = config.palette();
        self.ctx.inner.inner.ppu.set_dmg_palette(&p);
    }

    /// The last frame shown.
    pub fn frame_buffer(&self) -> (r: &FrameBuffer)
        ensures
            *r == self.corrected_frame_buffer,
    {
        &self.corrected_frame_buffer
    }

    /// The sound of the last frame.
    pub fn audio_buffer(&self) -> (r: &AudioBuffer)
        ensures
            *r == self.ctx.inner.inner.apu.audio_buffer,
    {
        &self.ctx.inner.inner.apu.audio_buffer
    }

    /// The cartridge header as (name, value) text.
    pub fn game_info(&self) -> (r: Vec<(String, String)>)
        ensures
            r@.len() == self.rom().info_spec().len(),
            forall|i: int|
                0 <= i < r@.len() ==> (#[trigger] r@[i]).0@ == self.rom().info_spec()[i].0 && r@[i].1@
                    == self.rom().info_spec()[i].1,
    {
        let info = self.ctx.inner.inner.rom.info();
        let mut out: Vec<(String, String)> = Vec::new();
        let mut i: usize = 0;
        while i < info.len()
            invariant
                i <= info@.len(),
                info@.len() == self.rom().info_spec().len(),
                forall|k: int|
                    0 <= k < info@.len() ==> (#[trigger] info@[k]).0@ == self.rom().info_spec()[k].0
                        && info@[k].1@ == self.rom().info_spec()[k].1,
                out@.len() == i,
                forall|k: int|
                    0 <= k < i ==> (#[trigger] out@[k]).0@ == self.rom().info_spec()[k].0 && out@[k].1@
                        == self.rom().info_spec()[k].1,
            decreases info@.len() - i,
        {
            let key: &str = info[i].0;
            let value = info[i].1.clone();
            out.push((key.to_owned(), value));
            i = i + 1;
        }
        out
    }

    /// The SHA-256 digest of the cartridge image.
    pub fn rom_hash(&self) -> (r: [u8; 32])
        ensures
            r == self.rom_hash,
    {
        self.rom_hash
    }
}

} // verus!
