use vstd::prelude::*;
use crate::context::InnerContext2;
use crate::consts::INT_SERIAL;

verus! {

/// The serial port. A link cable is stood for by two queues: bytes received from the
/// cable and not yet taken (`rx_queue`), and bytes sent to the cable (`tx_queue`); the
/// program around the emulator moves bytes between them and the cable.
pub struct SerialTransfer {
    pub buf: u8,
    pub recv_buf: Option<u8>,
    pub transfer_progress: bool,
    pub use_internal_clock: bool,
    pub transfer_timer: u64,
    pub transfer_pos: usize,
    pub link_connected: bool,
    pub rx_queue: Vec<u8>,
    pub tx_queue: Vec<u8>,
}

impl SerialTransfer {
    pub open spec fn wf(&self) -> bool {
        &&& self.transfer_timer < 128
        &&& self.transfer_pos < 8
    }

    pub fn new() -> (r: SerialTransfer)
        ensures
            r.wf(),
            r.buf == 0,
            r.recv_buf is None,
            !r.transfer_progress,
            !r.use_internal_clock,
            r.transfer_timer == 0,
            r.transfer_pos == 0,
            !r.link_connected,
            r.rx_queue@.len() == 0,
            r.tx_queue@.len() == 0,
    {
        SerialTransfer {
            buf: 0,
            recv_buf: None,
            transfer_progress: false,
            use_internal_clock: false,
            transfer_timer: 0,
            transfer_pos: 0,
            link_connected: false,
            rx_queue: Vec::new(),
            tx_queue: Vec::new(),
        }
    }

    /// Connects or disconnects the link cable.
    pub fn set_link_cable(&mut self, connected: bool)
        ensures
            final(self).link_connected == connected,
            final(self).buf == old(self).buf,
            final(self).recv_buf == old(self).recv_buf,
            final(self).transfer_progress == old(self).transfer_progress,
            final(self).use_internal_clock == old(self).use_internal_clock,
            final(self).transfer_timer == old(self).transfer_timer,
            final(self).transfer_pos == old(self).transfer_pos,
            final(self).rx_queue@ == old(self).rx_queue@,
            final(self).tx_queue@ == old(self).tx_queue@,
    {
        self.link_connected = connected;
    }

    /// Takes the next byte received from the cable, if connected and there is one.
    fn try_recv(&mut self) -> (r: Option<u8>)
        ensures
            if old(self).link_connected && old(self).rx_queue@.len() > 0 {
                r == Some(old(self).rx_queue@[0]) && final(self).rx_queue@ == old(
                    self,
                ).rx_queue@.drop_first()
            } else {
                r is None && final(self).rx_queue@ == old(self).rx_queue@
            },
            final(self).tx_queue@ == old(self).tx_queue@,
            final(self).buf == old(self).buf,
            final(self).recv_buf == old(self).recv_buf,
            final(self).transfer_progress == old(self).transfer_progress,
            final(self).use_internal_clock == old(self).use_internal_clock,
            final(self).transfer_timer == old(self).transfer_timer,
            final(self).transfer_pos == old(self).transfer_pos,
            final(self).link_connected == old(self).link_connected,
    {
        if self.link_connected && self.rx_queue.len() > 0 {
            Some(self.rx_queue.remove(0))
        } else {
            None
        }
    }

    /// What one cycle of `tick` leaves: the state `n`, `nc` after `o`, `oc`.
    pub open spec fn tick_post(o: &SerialTransfer, oc: &InnerContext2, n: &SerialTransfer, nc: &InnerContext2) -> bool {
        &&& (n.wf())
        &&& (n.tx_queue@ == o.tx_queue@)
        &&& (n.link_connected == o.link_connected)
        &&& (n.use_internal_clock == o.use_internal_clock)
        &&& (!o.transfer_progress ==> (*n == *o && *nc == *oc))
        &&& (o.transfer_progress ==> ({
                    let took = o.recv_buf is None && o.link_connected
                        && o.rx_queue@.len() > 0;
                    let recv = if took { Some(o.rx_queue@[0]) } else { o.recv_buf };
                    let done = if o.use_internal_clock {
                        o.transfer_timer == 127 && o.transfer_pos == 7
                    } else {
                        recv is Some
                    };
                    &&& n.rx_queue@ == (if took { o.rx_queue@.drop_first() } else { o.rx_queue@ })
                    &&& (done ==> {
                        &&& n.buf == (match recv { Some(v) => v, None => 0xFFu8 })
                        &&& n.recv_buf is None
                        &&& n.transfer_pos == 0
                        &&& !n.transfer_progress
                        &&& *nc == (InnerContext2 {
                            interrupt_flag: (oc.interrupt_flag | 8) as u8,
                            ..*oc
                        })
                    })
                    &&& (!done ==> {
                        &&& n.buf == o.buf
                        &&& n.recv_buf == recv
                        &&& n.transfer_progress
                        &&& *nc == *oc
                        &&& (o.use_internal_clock ==> if o.transfer_timer == 127 {
                            n.transfer_timer == 0 && n.transfer_pos
                                == o.transfer_pos + 1
                        } else {
                            n.transfer_timer == o.transfer_timer + 1
                                && n.transfer_pos == o.transfer_pos
                        })
                    })
                }))
    }

    /// One cycle of the port. While a transfer runs, a byte from the cable is taken when
    /// none is held; with the internal clock a bit goes out every 128 cycles and the
    /// transfer ends after 8 bits; with the external clock it ends once a byte arrived.
    /// At the end the received byte (or $FF) replaces SB and the serial interrupt is
    /// requested.
    pub fn tick(&mut self, ctx: &mut InnerContext2)
        requires
            old(self).wf(),
        ensures
            final(self).wf(),
            final(self).tx_queue@ == old(self).tx_queue@,
            final(self).link_connected == old(self).link_connected,
            final(self).use_internal_clock == old(self).use_internal_clock,
            !old(self).transfer_progress ==> (*final(self) == *old(self) && *final(ctx) == *old(ctx)),
            old(self).transfer_progress ==> ({
                let took = old(self).recv_buf is None && old(self).link_connected
                    && old(self).rx_queue@.len() > 0;
                let recv = if took { Some(old(self).rx_queue@[0]) } else { old(self).recv_buf };
                let done = if old(self).use_internal_clock {
                    old(self).transfer_timer == 127 && old(self).transfer_pos == 7
                } else {
                    recv is Some
                };
                &&& final(self).rx_queue@ == (if took { old(self).rx_queue@.drop_first() } else { old(self).rx_queue@ })
                &&& (done ==> {
                    &&& final(self).buf == (match recv { Some(v) => v, None => 0xFFu8 })
                    &&& final(self).recv_buf is None
                    &&& final(self).transfer_pos == 0
                    &&& !final(self).transfer_progress
                    &&& *final(ctx) == (InnerContext2 {
                        interrupt_flag: (old(ctx).interrupt_flag | 8) as u8,
                        ..*old(ctx)
                    })
                })
                &&& (!done ==> {
                    &&& final(self).buf == old(self).buf
                    &&& final(self).recv_buf == recv
                    &&& final(self).transfer_progress
                    &&& *final(ctx) == *old(ctx)
                    &&& (old(self).use_internal_clock ==> if old(self).transfer_timer == 127 {
                        final(self).transfer_timer == 0 && final(self).transfer_pos
                            == old(self).transfer_pos + 1
                    } else {
                        final(self).transfer_timer == old(self).transfer_timer + 1
                            && final(self).transfer_pos == old(self).transfer_pos
                    })
                })
            }),
            Self::tick_post(old(self), old(ctx), final(self), final(ctx)),
    {
        if !self.transfer_progress {
            return;
        }
        if self.recv_buf.is_none() {
            self.recv_buf = self.try_recv();
        }
        let mut done = false;
        if self.use_internal_clock {
            self.transfer_timer = self.transfer_timer + 1;
            if self.transfer_timer == 128 {
                self.transfer_timer = 0;
                self.transfer_pos = self.transfer_pos + 1;
                if self.transfer_pos == 8 {
                    done = true;
                }
            }
        } else {
            if self.recv_buf.is_some() {
                done = true;
            }
        }
        if done {
            self.buf = match self.recv_buf {
                Some(v) => v,
                None => 0xFF,
            };
            self.recv_buf = None;
            self.transfer_pos = 0;
            self.transfer_progress = false;
            assert(1u8 << (INT_SERIAL as u8) == 8) by (bit_vector);
            ctx.set_interrupt_flag_bit(INT_SERIAL);
        }
    }

    /// SB: the data register.
    pub fn read_sb(&mut self) -> (r: u8)
        ensures
            r == old(self).buf,
            *final(self) == *old(self),
    {
        self.buf
    }

    pub fn write_sb(&mut self, data: u8)
        ensures
            *final(self) == (SerialTransfer { buf: data, ..*old(self) }),
    {
        self.buf = data;
    }

    pub open spec fn sc_spec(&self) -> u8 {
        ((if self.transfer_progress { 0x80u8 } else { 0u8 }) | 0x7E | (if self.use_internal_clock {
            1u8
        } else {
            0u8
        })) as u8
    }

    /// SC: bit 7 transfer running, bit 0 internal clock, other bits read as 1.
    pub fn read_sc(&mut self) -> (r: u8)
        ensures
            r == old(self).sc_spec(),
            *final(self) == *old(self),
    {
        (if self.transfer_progress { 0x80u8 } else { 0u8 }) | 0x7E | (if self.use_internal_clock {
            1u8
        } else {
            0u8
        })
    }

    /// SC write: bit 0 selects the internal clock; bit 7 starts a transfer (sending SB
    /// over the cable when connected), or stops one when clear.
    pub fn write_sc(&mut self, data: u8)
        requires
            old(self).wf(),
        ensures
            final(self).wf(),
            final(self).use_internal_clock == ((data & 1) != 0),
            final(self).transfer_progress == ((data & 0x80) != 0),
            final(self).buf == old(self).buf,
            final(self).link_connected == old(self).link_connected,
            final(self).rx_queue@ == old(self).rx_queue@,
            (data & 0x80) != 0 ==> {
                &&& final(self).transfer_timer == 0
                &&& final(self).transfer_pos == 0
                &&& final(self).recv_buf is None
                &&& final(self).tx_queue@ == if old(self).link_connected {
                    old(self).tx_queue@.push(old(self).buf)
                } else {
                    old(self).tx_queue@
                }
            },
            (data & 0x80) == 0 ==> {
                &&& final(self).transfer_timer == old(self).transfer_timer
                &&& final(self).transfer_pos == old(self).transfer_pos
                &&& final(self).recv_buf == old(self).recv_buf
                &&& final(self).tx_queue@ == old(self).tx_queue@
            },
    {
        self.use_internal_clock = data & 1 != 0;
        if data & 0x80 != 0 {
            if self.link_connected {
                let b = self.buf;
                self.tx_queue.push(b);
            }
            self.transfer_progress = true;
            self.transfer_timer = 0;
            self.transfer_pos = 0;
            self.recv_buf = None;
        } else {
            self.transfer_progress = false;
        }
    }
}

/// Reading SC after writing it gives the written bits 7 and 0, the others set.
pub proof fn lemma_sc_write_then_read(s: SerialTransfer, t: SerialTransfer, data: u8)
    requires
        t.use_internal_clock == ((data & 1) != 0),
        t.transfer_progress == ((data & 0x80) != 0),
    ensures
        t.sc_spec() == data | 0x7E,
{
    assert(((if (data & 0x80) != 0 { 0x80u8 } else { 0u8 }) | 0x7E | (if (data & 1) != 0 {
        1u8
    } else {
        0u8
    })) == data | 0x7E) by (bit_vector);
}

} // verus!
