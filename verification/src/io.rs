//! The I/O registers: joypad, serial port, timer, interrupt registers, and the sound and
//! video registers passed on to their units.
use vstd::prelude::*;
use crate::apu::Apu;
use crate::consts::{INT_JOYPAD, INT_TIMER};
use crate::context::InnerContext2;
use crate::ppu::{Ppu, ppu_reg};
use crate::serial::SerialTransfer;

verus! {

broadcast use crate::bits::group_and_bounds;

/// The joypad's eight buttons, `true` while pressed.
#[derive(Clone, Copy, PartialEq, Eq, Structural, Debug)]
pub struct Input {
    pub up: bool,
    pub down: bool,
    pub left: bool,
    pub right: bool,
    pub a: bool,
    pub b: bool,
    pub start: bool,
    pub select: bool,
}

impl Input {
    /// No button pressed.
    pub open spec fn new_spec() -> Input {
        Input { up: false, down: false, left: false, right: false, a: false, b: false, start: false, select: false }
    }

    pub fn new() -> (r: Input)
        ensures
            r == Input::new_spec(),
            !r.up && !r.down && !r.left && !r.right && !r.a && !r.b && !r.start && !r.select,
    {
        Input { up: false, down: false, left: false, right: false, a: false, b: false, start: false, select: false }
    }
}

pub struct Io {
    pub select_action_buttons: bool,
    pub select_direction_buttons: bool,
    pub divider: u16,
    pub timer_counter: u8,
    pub timer_modulo: u8,
    pub timer_enable: bool,
    pub input_clock_select: u8,
    pub prev_timer_clock: bool,
    pub timer_reload: bool,
    pub timer_reloaded: bool,
    pub serial: SerialTransfer,
    pub input: Input,
}

/// The four joypad lines (low while a selected button is pressed): line `i` is the
/// action button A, B, Select, Start or the direction Right, Left, Up, Down, for each
/// group whose select bit is low.
pub open spec fn key_line(sel_action: bool, sel_direction: bool, inp: Input, i: int) -> bool {
    let act = if i == 0 {
        inp.a
    } else if i == 1 {
        inp.b
    } else if i == 2 {
        inp.select
    } else {
        inp.start
    };
    let dir = if i == 0 {
        inp.right
    } else if i == 1 {
        inp.left
    } else if i == 2 {
        inp.up
    } else {
        inp.down
    };
    !(!sel_action && act) && !(!sel_direction && dir)
}

/// The divider bit that clocks the timer for each input clock setting.
pub open spec fn clock_bit(select: u8) -> u16 {
    if select == 0 {
        9
    } else if select == 1 {
        3
    } else if select == 2 {
        5
    } else {
        7
    }
}

impl Io {
    pub open spec fn wf(&self) -> bool {
        &&& self.input_clock_select < 4
        &&& self.serial.wf()
    }

    pub open spec fn line(&self, i: int) -> bool {
        key_line(self.select_action_buttons, self.select_direction_buttons, self.input, i)
    }

    /// P1: bits 7-6 read as 1, bit 5 and 4 the select bits, bits 3-0 the lines.
    pub open spec fn p1(&self) -> u8 {
        (0xC0u8 | (if self.select_action_buttons { 0x20u8 } else { 0 }) | (if self.select_direction_buttons {
            0x10u8
        } else {
            0
        }) | (if self.line(3) { 8u8 } else { 0 }) | (if self.line(2) { 4u8 } else { 0 }) | (if self.line(1) {
            2u8
        } else {
            0
        }) | (if self.line(0) { 1u8 } else { 0 })) as u8
    }

    /// TAC: bits 7-3 read as 1, bit 2 enable, bits 1-0 clock select.
    pub open spec fn tac(&self) -> u8 {
        (0xF8u8 | (if self.timer_enable { 4u8 } else { 0 }) | self.input_clock_select) as u8
    }

    pub fn new() -> (r: Io)
        ensures
            r.wf(),
            !r.select_action_buttons,
            !r.select_direction_buttons,
            r.divider == 0,
            r.timer_counter == 0,
            r.timer_modulo == 0,
            !r.timer_enable,
            r.input_clock_select == 0,
            !r.prev_timer_clock,
            !r.timer_reload,
            !r.timer_reloaded,
            r.serial.buf == 0,
            r.serial.recv_buf is None,
            !r.serial.transfer_progress,
            !r.serial.use_internal_clock,
            r.serial.transfer_timer == 0,
            r.serial.transfer_pos == 0,
            !r.serial.link_connected,
            r.serial.rx_queue@.len() == 0,
            r.serial.tx_queue@.len() == 0,
            r.input == Input::new_spec(),
    {
        Io {
            select_action_buttons: false,
            select_direction_buttons: false,
            divider: 0,
            timer_counter: 0,
            timer_modulo: 0,
            timer_enable: false,
            input_clock_select: 0,
            prev_timer_clock: false,
            timer_reload: false,
            timer_reloaded: false,
            serial: SerialTransfer::new(),
            input: Input::new(),
        }
    }

    fn keypad_line(&self, i: usize) -> (r: bool)
        requires
            i < 4,
        ensures
            r == self.line(i as int),
    {
        let inp = &self.input;
        let act = if i == 0 {
            inp.a
        } else if i == 1 {
            inp.b
        } else if i == 2 {
            inp.select
        } else {
            inp.start
        };
        let dir = if i == 0 {
            inp.right
        } else if i == 1 {
            inp.left
        } else if i == 2 {
            inp.up
        } else {
            inp.down
        };
        !(!self.select_action_buttons && act) && !(!self.select_direction_buttons && dir)
    }

    /// What one cycle of `tick` leaves: the state `n`, `nc` after `o`, `oc`.
    pub open spec fn tick_post(o: &Io, oc: &InnerContext2, n: &Io, nc: &InnerContext2) -> bool {
        &&& (n.wf())
        &&& (({
                    let div = vstd::wrapping::u16_specs::wrapping_add(o.divider, 4);
                    let counter0 = if o.timer_reload { o.timer_modulo } else { o.timer_counter };
                    let clock = o.timer_enable && (div >> clock_bit(o.input_clock_select)) & 1 == 1;
                    let falls = o.prev_timer_clock && !clock;
                    let overflow = falls && counter0 == 255;
                    &&& n.divider == div
                    &&& n.timer_reloaded == o.timer_reload
                    &&& n.timer_counter == (if falls { vstd::wrapping::u8_specs::wrapping_add(counter0, 1) } else { counter0 })
                    &&& n.timer_reload == overflow
                    &&& n.prev_timer_clock == clock
                    &&& *nc == (InnerContext2 {
                        interrupt_flag: (oc.interrupt_flag | (if o.timer_reload { 4u8 } else { 0u8 })) as u8,
                        ..*oc
                    })
                }))
        &&& (n.timer_modulo == o.timer_modulo)
        &&& (n.timer_enable == o.timer_enable)
        &&& (n.input_clock_select == o.input_clock_select)
        &&& (n.select_action_buttons == o.select_action_buttons)
        &&& (n.select_direction_buttons == o.select_direction_buttons)
        &&& (n.input == o.input)
        &&& (n.serial == o.serial)
    }

    /// One machine cycle of the timer: DIV counts up by 4; a reload pending from the
    /// last overflow loads TMA and requests the timer interrupt; TIMA counts on the
    /// falling edge of the selected divider bit (while enabled), and an overflow makes
    /// the reload pending for the next cycle.
    pub fn tick(&mut self, ctx: &mut InnerContext2)
        requires
            old(self).wf(),
        ensures
            final(self).wf(),
            ({
                let div = vstd::wrapping::u16_specs::wrapping_add(old(self).divider, 4);
                let counter0 = if old(self).timer_reload { old(self).timer_modulo } else { old(self).timer_counter };
                let clock = old(self).timer_enable && (div >> clock_bit(old(self).input_clock_select)) & 1 == 1;
                let falls = old(self).prev_timer_clock && !clock;
                let overflow = falls && counter0 == 255;
                &&& final(self).divider == div
                &&& final(self).timer_reloaded == old(self).timer_reload
                &&& final(self).timer_counter == (if falls { vstd::wrapping::u8_specs::wrapping_add(counter0, 1) } else { counter0 })
                &&& final(self).timer_reload == overflow
                &&& final(self).prev_timer_clock == clock
                &&& *final(ctx) == (InnerContext2 {
                    interrupt_flag: (old(ctx).interrupt_flag | (if old(self).timer_reload { 4u8 } else { 0u8 })) as u8,
                    ..*old(ctx)
                })
            }),
            final(self).timer_modulo == old(self).timer_modulo,
            final(self).timer_enable == old(self).timer_enable,
            final(self).input_clock_select == old(self).input_clock_select,
            final(self).select_action_buttons == old(self).select_action_buttons,
            final(self).select_direction_buttons == old(self).select_direction_buttons,
            final(self).input == old(self).input,
            final(self).serial == old(self).serial,
            Self::tick_post(old(self), old(ctx), final(self), final(ctx)),
    {
        self.divider = self.divider.wrapping_add(4);
        self.timer_reloaded = false;
        let f = ctx.interrupt_flag;
        if self.timer_reload {
            self.timer_counter = self.timer_modulo;
            ctx.set_interrupt_flag_bit(INT_TIMER);
            self.timer_reload = false;
            self.timer_reloaded = true;
            proof {
                crate::bits::lemma_u8_facts(f);
            }
        } else {
            proof {
                crate::bits::lemma_u8_facts(f);
            }
        }
        let bit: u16 = if self.input_clock_select == 0 {
            9
        } else if self.input_clock_select == 1 {
            3
        } else if self.input_clock_select == 2 {
            5
        } else {
            7
        };
        let timer_clock = self.timer_enable && (self.divider >> bit) & 1 == 1;
        if self.prev_timer_clock && !timer_clock {
            let overflow = self.timer_counter == 255;
            self.timer_counter = self.timer_counter.wrapping_add(1);
            if overflow {
                self.timer_reload = true;
            }
        }
        self.prev_timer_clock = timer_clock;
    }

    /// Takes a new joypad state; a line falling (a selected button pressed) requests
    /// the joypad interrupt.
    pub fn set_input(&mut self, ctx: &mut InnerContext2, input: &Input)
        ensures
            final(self).input == *input,
            final(self).select_action_buttons == old(self).select_action_buttons,
            final(self).select_direction_buttons == old(self).select_direction_buttons,
            final(self).divider == old(self).divider,
            final(self).timer_counter == old(self).timer_counter,
            final(self).timer_modulo == old(self).timer_modulo,
            final(self).timer_enable == old(self).timer_enable,
            final(self).input_clock_select == old(self).input_clock_select,
            final(self).prev_timer_clock == old(self).prev_timer_clock,
            final(self).timer_reload == old(self).timer_reload,
            final(self).timer_reloaded == old(self).timer_reloaded,
            final(self).serial == old(self).serial,
            ({
                let falls = exists|i: int| 0 <= i < 4 && #[trigger] old(self).line(i) && !final(self).line(i);
                *final(ctx) == (InnerContext2 {
                    interrupt_flag: (old(ctx).interrupt_flag | (if falls { 0x10u8 } else { 0u8 })) as u8,
                    ..*old(ctx)
                })
            }),
    {
        let p0 = self.keypad_line(0);
        let p1 = self.keypad_line(1);
        let p2 = self.keypad_line(2);
        let p3 = self.keypad_line(3);
        self.input = *input;
        let c0 = self.keypad_line(0);
        let c1 = self.keypad_line(1);
        let c2 = self.keypad_line(2);
        let c3 = self.keypad_line(3);
        let f = ctx.interrupt_flag;
        if (p0 && !c0) || (p1 && !c1) || (p2 && !c2) || (p3 && !c3) {
            ctx.set_interrupt_flag_bit(INT_JOYPAD);
            proof {
                crate::bits::lemma_u8_facts(f);
                if p0 && !c0 {
                    assert(old(self).line(0) && !self.line(0));
                } else if p1 && !c1 {
                    assert(old(self).line(1) && !self.line(1));
                } else if p2 && !c2 {
                    assert(old(self).line(2) && !self.line(2));
                } else {
                    assert(old(self).line(3) && !self.line(3));
                }
            }
        } else {
            proof {
                crate::bits::lemma_u8_facts(f);
                assert forall|i: int| 0 <= i < 4 implies !(#[trigger] old(self).line(i) && !self.line(i)) by {
                    if i == 0 {
                    } else if i == 1 {
                    } else if i == 2 {
                    } else {
                    }
                }
            }
        }
    }
}

/// The I/O address `addr` ($FF00-$FF7F, $FFFF) that the I/O block answers, other than the
/// DMA register.
pub open spec fn io_addr(addr: u16) -> bool {
    ((0xFF00 <= addr <= 0xFF7F) || addr == 0xFFFF) && addr != 0xFF46
}

/// In the high page, the low byte of an address is its offset from $FF00.
pub proof fn lemma_high_page(addr: u16)
    requires
        0xFF00 <= addr,
    ensures
        (addr & 0xff) + 0xFF00 == addr,
{
    assert(0xFF00 <= addr ==> (addr & 0xff) + 0xFF00 == addr) by (bit_vector);
}

impl Io {
    /// The value a read of `addr` gives, for the registers the I/O block itself holds.
    pub open spec fn own_reg(&self, ctx: &InnerContext2, addr: u16) -> u8 {
        let a = addr & 0xff;
        if a == 0x00 {
            self.p1()
        } else if a == 0x01 {
            self.serial.buf
        } else if a == 0x02 {
            self.serial.sc_spec()
        } else if a == 0x04 {
            (self.divider >> 8u16) as u8
        } else if a == 0x05 {
            self.timer_counter
        } else if a == 0x06 {
            self.timer_modulo
        } else if a == 0x07 {
            self.tac()
        } else if a == 0x0f {
            (0xE0u8 | (ctx.interrupt_flag & 0x1f)) as u8
        } else if a == 0xff {
            ctx.interrupt_enable
        } else {
            0xFF
        }
    }

    /// Reads an I/O register. Sound registers are read from the sound unit and
    /// $FF40-$FF4B from the video unit; other unknown registers read $FF.
    pub fn read(&mut self, ppu: &mut Ppu, apu: &mut Apu, ctx: &InnerContext2, addr: u16) -> (r: u8)
        requires
            old(self).wf(),
            old(ppu).wf(),
            old(apu).wf(),
            io_addr(addr),
        ensures
            final(self).wf(),
            final(apu).wf(),
            *final(ppu) == *old(ppu),
            *final(self) == *old(self),
            *final(apu) == *old(apu),
            final(self).serial == old(self).serial,
            final(self).divider == old(self).divider,
            final(self).timer_counter == old(self).timer_counter,
            0x10 <= (addr & 0xff) <= 0x3F ==> r == old(apu).reg_value(addr),
            0x40 <= (addr & 0xff) <= 0x4B ==> r == old(ppu).read_spec(ctx.running_mode, addr),
            !(0x10 <= (addr & 0xff) <= 0x4B) ==> r == old(self).own_reg(ctx, addr) && final(apu).noise == old(apu).noise,
    {
        proof {
            lemma_high_page(addr);
        }
        let a = addr & 0xff;
        if a == 0x00 {
            let l3 = self.keypad_line(3);
            let l2 = self.keypad_line(2);
            let l1 = self.keypad_line(1);
            let l0 = self.keypad_line(0);
            0xC0u8 | (if self.select_action_buttons { 0x20u8 } else { 0 }) | (if self.select_direction_buttons {
                0x10u8
            } else {
                0
            }) | (if l3 { 8u8 } else { 0 }) | (if l2 { 4u8 } else { 0 }) | (if l1 { 2u8 } else { 0 }) | (if l0 {
                1u8
            } else {
                0
            })
        } else if a == 0x01 {
            self.serial.read_sb()
        } else if a == 0x02 {
            self.serial.read_sc()
        } else if a == 0x04 {
            (self.divider >> 8u16) as u8
        } else if a == 0x05 {
            self.timer_counter
        } else if a == 0x06 {
            self.timer_modulo
        } else if a == 0x07 {
            0xF8u8 | (if self.timer_enable { 4u8 } else { 0 }) | self.input_clock_select
        } else if a == 0x0f {
            0xE0u8 | (ctx.interrupt_flag & 0x1f)
        } else if a == 0xff {
            ctx.interrupt_enable
        } else if 0x10 <= a && a <= 0x3F {
            apu.read(addr)
        } else if 0x40 <= a && a <= 0x4B {
            ppu.read(ctx, addr)
        } else {
            0xFF
        }
    }

    /// The timer registers DIV, TIMA, TMA and TAC (`a` from 4 to 7).
    fn write_timer(&mut self, a: u16, data: u8)
        requires
            old(self).wf(),
            4 <= a <= 7,
        ensures
            final(self).wf(),
            a == 0x04 ==> final(self).divider == 0,
            a != 0x04 ==> final(self).divider == old(self).divider,
            a == 0x05 ==> !final(self).timer_reload && final(self).timer_counter == (if old(self).timer_reloaded {
                old(self).timer_counter
            } else {
                data
            }),
            a != 0x05 ==> final(self).timer_reload == old(self).timer_reload,
            a == 0x06 ==> final(self).timer_modulo == data && final(self).timer_counter == (if old(self).timer_reloaded {
                data
            } else {
                old(self).timer_counter
            }),
            a != 0x06 ==> final(self).timer_modulo == old(self).timer_modulo,
            a != 0x05 && a != 0x06 ==> final(self).timer_counter == old(self).timer_counter,
            a == 0x07 ==> final(self).timer_enable == (data & 4 != 0) && final(self).input_clock_select == data & 3,
            a != 0x07 ==> final(self).timer_enable == old(self).timer_enable && final(self).input_clock_select
                == old(self).input_clock_select,
            final(self).timer_reloaded == old(self).timer_reloaded,
            final(self).prev_timer_clock == old(self).prev_timer_clock,
            final(self).input == old(self).input,
            final(self).serial == old(self).serial,
            final(self).select_action_buttons == old(self).select_action_buttons,
            final(self).select_direction_buttons == old(self).select_direction_buttons,
    {
        if a == 0x04 {
            self.divider = 0;
        } else if a == 0x05 {
            if self.timer_reload {
                self.timer_reload = false;
            }
            if !self.timer_reloaded {
                self.timer_counter = data;
            }
        } else if a == 0x06 {
            self.timer_modulo = data;
            if self.timer_reloaded {
                self.timer_counter = data;
            }
        } else {
            self.timer_enable = data & 4 != 0;
            self.input_clock_select = data & 3;
        }
    }

    /// A write to register `a` (the low byte of its address) leaves the I/O block's other
    /// registers as they were.
    pub open spec fn own_frame(&self, n: &Io, a: u16) -> bool {
        &&& a != 0x00 ==> n.select_direction_buttons == self.select_direction_buttons
            && n.select_action_buttons == self.select_action_buttons
        &&& a != 0x01 && a != 0x02 ==> n.serial == self.serial
        &&& a != 0x04 ==> n.divider == self.divider
        &&& a != 0x05 && a != 0x06 ==> n.timer_counter == self.timer_counter
        &&& a != 0x05 ==> n.timer_reload == self.timer_reload
        &&& a != 0x06 ==> n.timer_modulo == self.timer_modulo
        &&& a != 0x07 ==> n.timer_enable == self.timer_enable && n.input_clock_select == self.input_clock_select
        &&& n.timer_reloaded == self.timer_reloaded
        &&& n.prev_timer_clock == self.prev_timer_clock
        &&& n.input == self.input
    }

    /// What a write of `data` to `addr` leaves: the I/O block `n`, the shared state `nc`
    /// and the video unit `np`.
    pub open spec fn write_post(
        &self,
        n: &Io,
        c: &InnerContext2,
        nc: &InnerContext2,
        p: &Ppu,
        np: &Ppu,
        ap: &Apu,
        nap: &Apu,
        addr: u16,
        data: u8,
    ) -> bool {
        let a = addr & 0xff;
        &&& a == 0x00 ==> n.select_direction_buttons == (data & 0x10 != 0) && n.select_action_buttons
            == (data & 0x20 != 0)
        &&& a == 0x01 ==> n.serial.buf == data
        &&& a == 0x02 ==> n.serial.use_internal_clock == ((data & 1) != 0) && n.serial.transfer_progress
            == ((data & 0x80) != 0)
        &&& a == 0x04 ==> n.divider == 0
        &&& a == 0x05 ==> n.timer_reload == false && n.timer_counter == (if self.timer_reloaded {
            self.timer_counter
        } else {
            data
        })
        &&& a == 0x06 ==> n.timer_modulo == data && n.timer_counter == (if self.timer_reloaded {
            data
        } else {
            self.timer_counter
        })
        &&& a == 0x07 ==> n.timer_enable == (data & 4 != 0) && n.input_clock_select == data & 3
        &&& a == 0x0f ==> nc.interrupt_flag == data & 0x1f
        &&& a == 0xff ==> nc.interrupt_enable == data
        &&& a != 0x0f ==> nc.interrupt_flag == c.interrupt_flag
        &&& a != 0xff ==> nc.interrupt_enable == c.interrupt_enable
        &&& 0x40 <= a <= 0x4B ==> np.regs == crate::ppu::write_regs(p.regs, c.model.spec_is_cgb(), addr, data)
        &&& !(0x40 <= a <= 0x4B) ==> *np == *p
        &&& np.render_graphics == p.render_graphics
        &&& 0x10 <= a <= 0x3F ==> ap.write_post(nap, addr, data)
        &&& !(0x10 <= a <= 0x3F) ==> *nap == *ap
        &&& nc.model == c.model
        &&& nc.running_mode == c.running_mode
        &&& nc.vram == c.vram
        &&& nc.oam == c.oam
        &&& nc.oam_lock == c.oam_lock
        &&& nc.vram_lock == c.vram_lock
        &&& nc.external_ram == c.external_ram
        &&& nc.stall_cpu == c.stall_cpu
        &&& nc.wake == c.wake
    }

    /// Writes an I/O register, with the timer's reload quirks: writing TIMA in the cycle
    /// before a reload cancels it, in the reload cycle the write is ignored, and writing
    /// TMA in the reload cycle also loads TIMA.
    pub fn write(&mut self, ppu: &mut Ppu, apu: &mut Apu, ctx: &mut InnerContext2, addr: u16, data: u8)
        requires
            old(self).wf(),
            old(ppu).wf(),
            old(apu).wf(),
            old(ctx).model != crate::config::Model::Auto,
            io_addr(addr),
        ensures
            final(self).wf(),
            final(ppu).wf(),
            final(apu).wf(),
            old(self).write_post(final(self), old(ctx), final(ctx), old(ppu), final(ppu), old(apu), final(apu), addr, data),
            old(self).own_frame(final(self), addr & 0xff),
    {
        proof {
            lemma_high_page(addr);
        }
        let a = addr & 0xff;
        if a == 0x00 {
            self.select_direction_buttons = data & 0x10 != 0;
            self.select_action_buttons = data & 0x20 != 0;
        } else if a == 0x01 {
            self.serial.write_sb(data);
        } else if a == 0x02 {
            self.serial.write_sc(data);
        } else if 0x04 <= a && a <= 0x07 {
            self.write_timer(a, data);
        } else if a == 0x0f {
            ctx.set_interrupt_flag(data & 0x1f);
        } else if a == 0xff {
            ctx.set_interrupt_enable(data);
        } else if 0x10 <= a && a <= 0x3F {
            apu.write(addr, data);
        } else if 0x40 <= a && a <= 0x4B {
            ppu.write(ctx, addr, data);
        }
    }
}

proof fn lemma_fixed_bits(d: u8, b5: u8, b4: u8, b3: u8, b2: u8, b1: u8, b0: u8)
    ensures
        (0xF8u8 | (if d & 4 != 0 { 4u8 } else { 0u8 }) | (d & 3)) == 0xF8u8 | (d & 7),
        (0xC0u8 | b5 | b4 | b3 | b2 | b1 | b0) & 0xC0 == 0xC0,
{
    assert((0xF8u8 | (if d & 4 != 0 { 4u8 } else { 0u8 }) | (d & 3)) == 0xF8u8 | (d & 7) && (0xC0u8 | b5 | b4 | b3
        | b2 | b1 | b0) & 0xC0 == 0xC0) by (bit_vector);
}

/// TAC reads back the three low bits last written to it, with bits 7 to 3 set.
pub proof fn lemma_tac_read_back(
    io: Io,
    n: Io,
    c: InnerContext2,
    nc: InnerContext2,
    p: Ppu,
    np: Ppu,
    a: Apu,
    na: Apu,
    addr: u16,
    d: u8,
)
    requires
        addr & 0xff == 0x07,
        io.write_post(&n, &c, &nc, &p, &np, &a, &na, addr, d),
    ensures
        n.own_reg(&nc, addr) == 0xF8u8 | (d & 7),
{
    lemma_fixed_bits(d, 0, 0, 0, 0, 0, 0);
}

/// P1 always reads its two top bits set, and IF its three top bits set over the five
/// request bits.
pub proof fn lemma_io_unused_bits(io: Io, c: InnerContext2)
    ensures
        io.own_reg(&c, 0xFF00) & 0xC0 == 0xC0,
        io.own_reg(&c, 0xFF0F) == 0xE0u8 | (c.interrupt_flag & 0x1f),
{
    lemma_fixed_bits(
        0,
        if io.select_action_buttons { 0x20u8 } else { 0 },
        if io.select_direction_buttons { 0x10u8 } else { 0 },
        if io.line(3) { 8u8 } else { 0 },
        if io.line(2) { 4u8 } else { 0 },
        if io.line(1) { 2u8 } else { 0 },
        if io.line(0) { 1u8 } else { 0 },
    );
    lemma_high_page(0xFF00);
    lemma_high_page(0xFF0F);
}

} // verus!
