//! The peripheral-mode serial transport engine.
//!
//! The engine holds everything the interrupt handler decides: the receive
//! and transmit buffers, their indices, the running CRC of the received
//! bytes, whether chip-select is asserted and which interrupts should be
//! unmasked. The code that owns the peripheral reads the status and data
//! registers, hands the engine what it saw, and writes back what the engine
//! asks for.
use vstd::prelude::*;

use crate::crc::{crc_of, crc_update, CrcCalc};
use crate::protocol::Sendable;

verus! {

/// The state of a [`SpiPeripheral`].
pub struct TransportView {
    /// The bytes received since the last `start`.
    pub received: Seq<u8>,
    /// How many bytes the current transaction expects.
    pub want: nat,
    /// The reply staged for transmission.
    pub staged: Seq<u8>,
    /// How many staged bytes have been sent.
    pub sent: nat,
    /// Chip-select is asserted.
    pub selected: bool,
    /// The receive interrupt should be unmasked.
    pub rx_irq: bool,
    /// The transmit interrupt should be unmasked.
    pub tx_irq: bool,
}

impl TransportView {
    /// The state right after `start(num_bytes)`, whatever came before.
    pub open spec fn started(num_bytes: nat) -> TransportView {
        TransportView {
            received: Seq::empty(),
            want: num_bytes,
            staged: Seq::empty(),
            sent: 0,
            selected: true,
            rx_irq: true,
            tx_irq: false,
        }
    }

    /// A byte arriving now is stored.
    pub open spec fn accepts(self) -> bool {
        self.selected && self.received.len() < self.want
    }

    /// A byte arriving now completes the frame.
    pub open spec fn completes(self) -> bool {
        self.accepts() && self.received.len() + 1 == self.want
    }

    /// The state after byte `b` arrives: stored while the frame is
    /// incomplete, otherwise ignored; the receive interrupt is masked once
    /// the frame is complete.
    pub open spec fn after_rx(self, b: u8) -> TransportView {
        if self.accepts() {
            TransportView {
                received: self.received.push(b),
                rx_irq: if self.completes() {
                    false
                } else {
                    self.rx_irq
                },
                ..self
            }
        } else {
            self
        }
    }

    /// The byte to put on the wire when the transmitter is empty: the next
    /// staged byte, or the padding byte 0x00 once they are all sent.
    pub open spec fn next_tx(self) -> u8 {
        if self.sent < self.staged.len() {
            self.staged[self.sent as int]
        } else {
            0
        }
    }

    /// The state after the transmitter took `next_tx`.
    pub open spec fn after_tx(self) -> TransportView {
        if self.sent < self.staged.len() {
            TransportView { sent: self.sent + 1, ..self }
        } else {
            self
        }
    }

    /// The state after the bytes of `bytes` arrive one after another.
    pub open spec fn deliver(self, bytes: Seq<u8>) -> TransportView
        decreases bytes.len(),
    {
        if bytes.len() == 0 {
            self
        } else {
            self.deliver(bytes.drop_last()).after_rx(bytes.last())
        }
    }
}

/// After `start(n)`, the first `k <= n` bytes delivered are exactly what
/// has been received, and the receive interrupt stays unmasked until the
/// last of them.
pub proof fn lemma_deliver_prefix(n: nat, bytes: Seq<u8>, k: int)
    requires
        bytes.len() == n,
        0 <= k <= n,
    ensures
        TransportView::started(n).deliver(bytes.subrange(0, k)) == (TransportView {
            received: bytes.subrange(0, k),
            rx_irq: k == 0 || k < n,
            ..TransportView::started(n)
        }),
    decreases k,
{
    if k > 0 {
        lemma_deliver_prefix(n, bytes, k - 1);
        assert(bytes.subrange(0, k).drop_last() =~= bytes.subrange(0, k - 1));
        assert(bytes.subrange(0, k - 1).push(bytes[k - 1]) =~= bytes.subrange(0, k));
    } else {
        assert(bytes.subrange(0, 0) =~= Seq::<u8>::empty());
    }
}

/// After `start(n)`, delivering `n` bytes one at a time reports a complete
/// frame on the `n`-th delivery and on none before it, leaves exactly those
/// bytes received, and no later byte completes the frame again. While
/// chip-select is released, a delivered byte changes nothing.
pub proof fn lemma_frame_ready_on_last_byte(n: nat, bytes: Seq<u8>, k: int, v: TransportView, b: u8)
    requires
        bytes.len() == n,
        0 <= k < n,
    ensures
        TransportView::started(n).deliver(bytes.subrange(0, k)).completes() == (k + 1 == n),
        TransportView::started(n).deliver(bytes).received == bytes,
        !TransportView::started(n).deliver(bytes).completes(),
        TransportView::started(n).deliver(bytes).after_rx(b) == TransportView::started(n).deliver(bytes),
        !v.selected ==> v.after_rx(b) == v,
{
    lemma_deliver_prefix(n, bytes, k);
    lemma_deliver_prefix(n, bytes, n as int);
    assert(bytes.subrange(0, n as int) =~= bytes);
}

/// What the interrupt handler asks of the peripheral.
#[derive(Debug, Copy, Clone, PartialEq, Eq, Structural)]
pub struct IsrAction {
    /// A complete frame has just been received.
    pub have_packet: bool,
    /// The byte to write to the data register, if the transmitter was empty.
    pub transmit: Option<u8>,
}

/// The transport engine, with a receive buffer of `RXC` bytes and a
/// transmit buffer of `TXC` bytes.
pub struct SpiPeripheral<const RXC: usize, const TXC: usize> {
    /// A space for bytes received from the host
    rx_buffer: [u8; RXC],
    /// How many bytes have been received?
    rx_idx: usize,
    /// How many bytes do we want?
    rx_want: usize,
    /// A space for data we're about to send
    tx_buffer: [u8; TXC],
    /// How many bytes have been played from the TX buffer
    tx_idx: usize,
    /// How many bytes are loaded into the TX buffer
    tx_ready: usize,
    /// The in-progress RX CRC
    rx_crc: CrcCalc,
    /// Is chip-select asserted?
    selected: bool,
    /// Should the RX-not-empty interrupt be unmasked?
    rx_irq: bool,
    /// Should the TX-empty interrupt be unmasked?
    tx_irq: bool,
}

impl<const RXC: usize, const TXC: usize> View for SpiPeripheral<RXC, TXC> {
    type V = TransportView;

    closed spec fn view(&self) -> TransportView {
        TransportView {
            received: self.rx_buffer@.subrange(0, self.rx_idx as int),
            want: self.rx_want as nat,
            staged: self.tx_buffer@.subrange(0, self.tx_ready as int),
            sent: self.tx_idx as nat,
            selected: self.selected,
            rx_irq: self.rx_irq,
            tx_irq: self.tx_irq,
        }
    }
}

impl<const RXC: usize, const TXC: usize> SpiPeripheral<RXC, TXC> {
    /// The indices stay within the buffers, and the running CRC is that of
    /// the bytes received.
    pub closed spec fn wf(&self) -> bool {
        &&& self.rx_idx <= self.rx_want <= RXC
        &&& self.tx_idx <= self.tx_ready <= TXC
        &&& self.rx_buffer@.len() == RXC
        &&& self.tx_buffer@.len() == TXC
        &&& self.rx_crc.state() == crc_update(0, self.rx_buffer@.subrange(0, self.rx_idx as int))
    }

    /// The capacity limits, as seen through the view.
    pub proof fn lemma_wf_bounds(&self)
        requires
            self.wf(),
        ensures
            self@.received.len() <= self@.want <= RXC,
            self@.sent <= self@.staged.len() <= TXC,
    {
    }

    /// Construct an idle engine: chip-select released, all interrupts masked.
    pub fn new() -> (r: Self)
        ensures
            r.wf(),
            r@.received.len() == 0,
            r@.want == 0,
            r@.staged.len() == 0,
            r@.sent == 0,
            !r@.selected,
            !r@.rx_irq,
            !r@.tx_irq,
    {
        SpiPeripheral {
            rx_buffer: [0u8; RXC],
            rx_idx: 0,
            rx_want: 0,
            tx_buffer: [0u8; TXC],
            tx_idx: 0,
            tx_ready: 0,
            rx_crc: CrcCalc::new(),
            selected: false,
            rx_irq: false,
            tx_irq: false,
        }
    }

    /// Begin a transaction (chip-select went low), expecting `num_bytes`
    /// bytes. Whatever was received or staged before is dropped.
    pub fn start(&mut self, num_bytes: usize)
        requires
            old(self).wf(),
            num_bytes <= RXC,
        ensures
            final(self).wf(),
            final(self)@ == TransportView::started(num_bytes as nat),
    {
        self.rx_idx = 0;
        self.rx_want = num_bytes;
        self.tx_idx = 0;
        self.tx_ready = 0;
        self.rx_crc.reset();
        self.rx_irq = true;
        self.tx_irq = false;
        self.selected = true;
        proof {
            assert(self.rx_buffer@.subrange(0, 0) =~= Seq::<u8>::empty());
            assert(self.tx_buffer@.subrange(0, 0) =~= Seq::<u8>::empty());
        }
    }

    /// End a transaction (chip-select went high).
    pub fn stop(&mut self)
        requires
            old(self).wf(),
        ensures
            final(self).wf(),
            final(self)@ == (TransportView { selected: false, ..old(self)@ }),
    {
        self.selected = false;
    }

    /// Return to idle after a full reset of the peripheral: chip-select
    /// released and all interrupts masked.
    pub fn reset(&mut self)
        requires
            old(self).wf(),
        ensures
            final(self).wf(),
            final(self)@ == (TransportView {
                selected: false,
                rx_irq: false,
                tx_irq: false,
                ..old(self)@
            }),
    {
        self.selected = false;
        self.rx_irq = false;
        self.tx_irq = false;
    }

    /// Is chip-select asserted?
    pub fn is_selected(&self) -> (r: bool)
        ensures
            r == self@.selected,
    {
        self.selected
    }

    /// Should the receive interrupt be unmasked?
    pub fn rx_irq_enabled(&self) -> (r: bool)
        ensures
            r == self@.rx_irq,
    {
        self.rx_irq
    }

    /// Should the transmit interrupt be unmasked?
    pub fn tx_irq_enabled(&self) -> (r: bool)
        ensures
            r == self@.tx_irq,
    {
        self.tx_irq
    }

    /// The data received so far, and the CRC of it.
    pub fn get_received(&self) -> (r: Option<(&[u8], u8)>)
        requires
            self.wf(),
        ensures
            r matches Some((d, c)) && d@ == self@.received && c == crc_of(self@.received),
    {
        let d = vstd::slice::slice_subrange(self.rx_buffer.as_slice(), 0, self.rx_idx);
        Some((d, self.rx_crc.get()))
    }

    /// Take one received byte.
    fn rx_isr(&mut self, byte: u8) -> (r: bool)
        requires
            old(self).wf(),
        ensures
            final(self).wf(),
            final(self)@ == old(self)@.after_rx(byte),
            r == old(self)@.completes(),
    {
        if !self.selected || self.rx_idx >= self.rx_want {
            return false;
        }
        let ghost before = self.rx_buffer@.subrange(0, self.rx_idx as int);
        self.rx_buffer[self.rx_idx] = byte;
        self.rx_crc.add(byte);
        self.rx_idx += 1;
        let done = self.rx_idx == self.rx_want;
        if done {
            // We've got enough: everything else we receive is garbage.
            self.rx_irq = false;
        }
        proof {
            let now = self.rx_buffer@.subrange(0, self.rx_idx as int);
            assert(now =~= before.push(byte));
            assert(now.drop_last() =~= before);
        }
        done
    }

    /// Give the next byte to transmit: from the staged reply, or padding.
    fn tx_isr(&mut self) -> (r: u8)
        requires
            old(self).wf(),
        ensures
            final(self).wf(),
            final(self)@ == old(self)@.after_tx(),
            r == old(self)@.next_tx(),
    {
        if self.tx_idx < self.tx_ready {
            let next_tx = self.tx_buffer[self.tx_idx];
            self.tx_idx += 1;
            next_tx
        } else {
            // No data - send padding
            0x00
        }
    }

    /// Call this when the peripheral interrupt fires, with the byte read
    /// from the data register if the receive flag was set, and whether the
    /// transmit-empty flag was set.
    pub fn handle_isr(&mut self, rx_byte: Option<u8>, tx_empty: bool) -> (r: IsrAction)
        requires
            old(self).wf(),
        ensures
            final(self).wf(),
            ({
                let mid = match rx_byte {
                    Some(b) => old(self)@.after_rx(b),
                    None => old(self)@,
                };
                &&& r.have_packet == (rx_byte is Some && old(self)@.completes())
                &&& r.transmit == (if tx_empty {
                    Some(mid.next_tx())
                } else {
                    None
                })
                &&& final(self)@ == (if tx_empty {
                    mid.after_tx()
                } else {
                    mid
                })
            }),
    {
        let mut have_packet = false;
        if let Some(b) = rx_byte {
            have_packet = self.rx_isr(b);
        }
        let transmit = if tx_empty {
            Some(self.tx_isr())
        } else {
            None
        };
        IsrAction { have_packet, transmit }
    }

    /// Load some data into the TX buffer and unmask the transmit interrupt.
    ///
    /// You get `Err(TXC)` if you try to load more than the buffer holds;
    /// the previous reply is dropped either way.
    pub fn set_transmit(&mut self, data: &[u8]) -> (r: Result<(), usize>)
        requires
            old(self).wf(),
        ensures
            final(self).wf(),
            data@.len() > TXC ==> {
                &&& r == Err::<(), usize>(TXC)
                &&& final(self)@ == (TransportView { staged: Seq::empty(), sent: 0, ..old(self)@ })
            },
            data@.len() <= TXC ==> {
                &&& r == Ok::<(), usize>(())
                &&& final(self)@ == (TransportView {
                    staged: data@,
                    sent: 0,
                    rx_irq: false,
                    tx_irq: true,
                    ..old(self)@
                })
            },
    {
        self.tx_ready = 0;
        self.tx_idx = 0;
        if data.len() > TXC {
            proof {
                assert(self.tx_buffer@.subrange(0, 0) =~= Seq::<u8>::empty());
            }
            return Err(TXC);
        }
        let mut k: usize = 0;
        while k < data.len()
            invariant
                k <= data@.len() <= TXC,
                self.tx_buffer@.len() == TXC,
                self.tx_idx == 0,
                self.tx_ready == 0,
                self.tx_buffer@.subrange(0, k as int) == data@.subrange(0, k as int),
                self.rx_idx == old(self).rx_idx,
                self.rx_want == old(self).rx_want,
                self.rx_buffer == old(self).rx_buffer,
                self.rx_crc == old(self).rx_crc,
                self.selected == old(self).selected,
                self.rx_irq == old(self).rx_irq,
                self.tx_irq == old(self).tx_irq,
            decreases data@.len() - k,
        {
            let ghost prev = self.tx_buffer@;
            self.tx_buffer[k] = data[k];
            k += 1;
            proof {
                assert(self.tx_buffer@.subrange(0, k as int) =~= data@.subrange(0, k as int)) by {
                    assert(forall|m: int| 0 <= m < k - 1 ==> self.tx_buffer@[m] == prev[m]);
                    assert(forall|m: int|
                        0 <= m < k - 1 ==> #[trigger] prev.subrange(0, k - 1)[m] == prev[m]);
                }
            }
        }
        // Never longer than `TXC`: `tx_isr` reads below it.
        self.tx_ready = data.len();
        self.rx_irq = false;
        self.tx_irq = true;
        proof {
            assert(data@.subrange(0, k as int) =~= data@);
        }
        Ok(())
    }

    /// Render a message into the TX buffer and unmask the transmit
    /// interrupt.
    ///
    /// You get an error if the message does not fit; the previous reply is
    /// dropped either way.
    pub fn set_transmit_sendable<S: Sendable>(&mut self, message: &S) -> (r: Result<(), ()>)
        requires
            old(self).wf(),
        ensures
            final(self).wf(),
            message.frame().len() > TXC ==> {
                &&& r == Err::<(), ()>(())
                &&& final(self)@ == (TransportView { staged: Seq::empty(), sent: 0, ..old(self)@ })
            },
            message.frame().len() <= TXC ==> {
                &&& r == Ok::<(), ()>(())
                &&& final(self)@ == (TransportView {
                    staged: message.frame(),
                    sent: 0,
                    rx_irq: false,
                    tx_irq: true,
                    ..old(self)@
                })
            },
    {
        self.tx_ready = 0;
        self.tx_idx = 0;
        match message.render_to_buffer(&mut self.tx_buffer) {
            Ok(n) => {
                // Never longer than `TXC`: `tx_isr` reads below it.
                self.tx_ready = n;
                self.rx_irq = false;
                self.tx_irq = true;
                proof {
                    assert(self.tx_buffer@.subrange(0, n as int) =~= message.frame());
                }
                Ok(())
            },
            Err(_) => {
                proof {
                    assert(self.tx_buffer@.subrange(0, 0) =~= Seq::<u8>::empty());
                }
                Err(())
            },
        }
    }
}

} // verus!
