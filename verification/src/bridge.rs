//! The two cross-core queue directions and the per-iteration cores of the two
//! polling engines.
//!
//! `cdc_to_uart` carries bytes read from the USB endpoint towards the UART;
//! `uart_to_cdc` carries bytes read from the UART towards the USB endpoint.
//! The directions are independent pipelines: every operation here states that
//! it leaves the other direction's queue untouched. The hardware transfers
//! themselves (the USB class poll, the endpoint read and write, the UART
//! register accesses) happen outside this crate; each engine function takes
//! the bytes the hardware produced and returns the bytes to hand back to it.

use vstd::prelude::*;

use crate::activity::ActivityState;
use crate::queue::{enq_model, fill_model, ByteQueue};
use crate::{MAX_TRANSFER, QUEUE_CAPACITY};

verus! {

pub struct Bridge {
    /// Bytes received from the USB endpoint, awaiting the UART engine.
    pub cdc_to_uart: ByteQueue,
    /// Bytes received from the UART, awaiting the USB engine.
    pub uart_to_cdc: ByteQueue,
}

impl Bridge {
    pub open spec fn wf(&self) -> bool {
        &&& self.cdc_to_uart.wf()
        &&& self.uart_to_cdc.wf()
        &&& self.cdc_to_uart.capacity() == QUEUE_CAPACITY
        &&& self.uart_to_cdc.capacity() == QUEUE_CAPACITY
        &&& self.cdc_to_uart@.len() <= QUEUE_CAPACITY
        &&& self.uart_to_cdc@.len() <= QUEUE_CAPACITY
    }

    /// Constructs the two fixed-capacity queues, both empty.
    pub fn new() -> (b: Bridge)
        ensures
            b.wf(),
            b.cdc_to_uart@ == Seq::<u8>::empty(),
            b.uart_to_cdc@ == Seq::<u8>::empty(),
    {
        Bridge {
            cdc_to_uart: ByteQueue::new(QUEUE_CAPACITY),
            uart_to_cdc: ByteQueue::new(QUEUE_CAPACITY),
        }
    }

    /// USB engine, receive direction: enqueues the bytes read from the USB
    /// endpoint into `cdc_to_uart`, at most `MAX_TRANSFER` of them per call;
    /// once the queue is full the rest are silently dropped. Returns how many
    /// bytes of `rx` were consumed. The other direction is untouched.
    pub fn usb_rx(&mut self, rx: &[u8]) -> (n: usize)
        requires
            old(self).wf(),
        ensures
            final(self).wf(),
            n == if rx@.len() <= MAX_TRANSFER {
                rx@.len() as int
            } else {
                MAX_TRANSFER as int
            },
            final(self).cdc_to_uart@ == fill_model(
                old(self).cdc_to_uart@,
                QUEUE_CAPACITY as nat,
                rx@.take(n as int),
            ),
            final(self).uart_to_cdc == old(self).uart_to_cdc,
    {
        let n = if rx.len() <= MAX_TRANSFER {
            rx.len()
        } else {
            MAX_TRANSFER
        };
        let mut i: usize = 0;
        proof {
            assert(rx@.take(0) =~= Seq::<u8>::empty());
            assert(fill_model(old(self).cdc_to_uart@, QUEUE_CAPACITY as nat, rx@.take(0))
                =~= old(self).cdc_to_uart@);
        }
        while i < n
            invariant
                i <= n,
                n <= rx@.len(),
                old(self).wf(),
                self.cdc_to_uart.wf(),
                self.cdc_to_uart.capacity() == QUEUE_CAPACITY,
                self.cdc_to_uart@.len() <= QUEUE_CAPACITY,
                self.cdc_to_uart@ == fill_model(
                    old(self).cdc_to_uart@,
                    QUEUE_CAPACITY as nat,
                    rx@.take(i as int),
                ),
                self.uart_to_cdc == old(self).uart_to_cdc,
            decreases n - i,
        {
            proof {
                lemma_fill_step(old(self).cdc_to_uart@, QUEUE_CAPACITY as nat, rx@, i as int);
            }
            let _ = self.cdc_to_uart.try_enqueue(rx[i]);
            i = i + 1;
        }
        n
    }

    /// USB engine, transmit direction: drains up to `MAX_TRANSFER` bytes, in
    /// order, from `uart_to_cdc` into one buffer to be written to the USB
    /// endpoint as a single transfer. The other direction is untouched.
    pub fn usb_tx_collect(&mut self) -> (tx: Vec<u8>)
        requires
            old(self).wf(),
        ensures
            final(self).wf(),
            tx@.len() <= MAX_TRANSFER,
            tx@.len() == if old(self).uart_to_cdc@.len() <= MAX_TRANSFER {
                old(self).uart_to_cdc@.len() as int
            } else {
                MAX_TRANSFER as int
            },
            tx@ == old(self).uart_to_cdc@.take(tx@.len() as int),
            final(self).uart_to_cdc@ == old(self).uart_to_cdc@.skip(tx@.len() as int),
            final(self).cdc_to_uart == old(self).cdc_to_uart,
    {
        let mut tx: Vec<u8> = Vec::new();
        proof {
            assert(tx@ =~= old(self).uart_to_cdc@.take(0));
            assert(self.uart_to_cdc@ =~= old(self).uart_to_cdc@.skip(0));
        }
        while tx.len() < MAX_TRANSFER && self.uart_to_cdc.len() > 0
            invariant
                old(self).wf(),
                self.uart_to_cdc.wf(),
                self.uart_to_cdc.capacity() == QUEUE_CAPACITY,
                tx@.len() <= MAX_TRANSFER,
                tx@.len() <= old(self).uart_to_cdc@.len(),
                tx@ == old(self).uart_to_cdc@.take(tx@.len() as int),
                self.uart_to_cdc@ == old(self).uart_to_cdc@.skip(tx@.len() as int),
                self.cdc_to_uart == old(self).cdc_to_uart,
            decreases MAX_TRANSFER - tx@.len(),
        {
            let ghost taken = tx@.len() as int;
            let ghost pending = old(self).uart_to_cdc@;
            match self.uart_to_cdc.try_dequeue() {
                Some(b) => {
                    tx.push(b);
                    proof {
                        assert(pending.skip(taken)[0] == pending[taken]);
                        assert(tx@ =~= pending.take(taken + 1));
                        assert(self.uart_to_cdc@ =~= pending.skip(taken + 1));
                    }
                },
                None => {
                    proof {
                        assert(false);
                    }
                },
            }
        }
        tx
    }

    /// One USB engine poll, hardware transfers factored out: `usb_event` is
    /// what the class stack's poll reported, `rx` the bytes then read from
    /// the endpoint (none are consumed without an event, as none were read).
    /// Returns how many bytes of `rx` were enqueued towards the UART and the
    /// buffer to write to the endpoint: at most `MAX_TRANSFER` bytes move in
    /// each direction per call.
    pub fn usb_engine_step(&mut self, usb_event: bool, rx: &[u8]) -> (r: (usize, Vec<u8>))
        requires
            old(self).wf(),
        ensures
            final(self).wf(),
            r.0 == if !usb_event {
                0
            } else if rx@.len() <= MAX_TRANSFER {
                rx@.len() as int
            } else {
                MAX_TRANSFER as int
            },
            final(self).cdc_to_uart@ == fill_model(
                old(self).cdc_to_uart@,
                QUEUE_CAPACITY as nat,
                rx@.take(r.0 as int),
            ),
            r.1@.len() <= MAX_TRANSFER,
            r.1@.len() == if old(self).uart_to_cdc@.len() <= MAX_TRANSFER {
                old(self).uart_to_cdc@.len() as int
            } else {
                MAX_TRANSFER as int
            },
            r.1@ == old(self).uart_to_cdc@.take(r.1@.len() as int),
            final(self).uart_to_cdc@ == old(self).uart_to_cdc@.skip(r.1@.len() as int),
    {
        let n = if usb_event {
            self.usb_rx(rx)
        } else {
            proof {
                assert(rx@.take(0) =~= Seq::<u8>::empty());
                assert(fill_model(self.cdc_to_uart@, QUEUE_CAPACITY as nat, rx@.take(0))
                    =~= self.cdc_to_uart@);
            }
            0
        };
        let tx = self.usb_tx_collect();
        (n, tx)
    }

    /// UART engine, receive duty: one byte read from the UART is enqueued
    /// into `uart_to_cdc`; if that queue is full the byte is dropped, lost
    /// for good, and the activity flag is forced on. The other direction and
    /// the rest of the indicator state are untouched.
    pub fn process_received_byte(&mut self, byte: u8, act: &mut ActivityState)
        requires
            old(self).wf(),
        ensures
            final(self).wf(),
            final(self).uart_to_cdc@ == enq_model(
                old(self).uart_to_cdc@,
                QUEUE_CAPACITY as nat,
                byte,
            ),
            final(self).cdc_to_uart == old(self).cdc_to_uart,
            *final(act) == if old(self).uart_to_cdc@.len() < QUEUE_CAPACITY {
                *old(act)
            } else {
                (ActivityState { led_on: true, ..*old(act) })
            },
    {
        let ok = self.uart_to_cdc.try_enqueue(byte);
        if !ok {
            act.force_led_on();
        }
    }

    /// UART engine, transmit duty: takes every byte currently queued in
    /// `cdc_to_uart`, in order, to be written to the UART (the caller blocks
    /// on the transmit-full flag between writes). The other direction is
    /// untouched.
    pub fn uart_tx_drain(&mut self) -> (tx: Vec<u8>)
        requires
            old(self).wf(),
        ensures
            final(self).wf(),
            tx@ == old(self).cdc_to_uart@,
            final(self).cdc_to_uart@ == Seq::<u8>::empty(),
            final(self).uart_to_cdc == old(self).uart_to_cdc,
    {
        let mut tx: Vec<u8> = Vec::new();
        proof {
            assert(tx@ =~= old(self).cdc_to_uart@.take(0));
            assert(self.cdc_to_uart@ =~= old(self).cdc_to_uart@.skip(0));
        }
        while self.cdc_to_uart.len() > 0
            invariant
                old(self).wf(),
                self.cdc_to_uart.wf(),
                self.cdc_to_uart.capacity() == QUEUE_CAPACITY,
                tx@.len() <= old(self).cdc_to_uart@.len(),
                tx@ == old(self).cdc_to_uart@.take(tx@.len() as int),
                self.cdc_to_uart@ == old(self).cdc_to_uart@.skip(tx@.len() as int),
                self.uart_to_cdc == old(self).uart_to_cdc,
            decreases self.cdc_to_uart@.len(),
        {
            let ghost taken = tx@.len() as int;
            let ghost pending = old(self).cdc_to_uart@;
            match self.cdc_to_uart.try_dequeue() {
                Some(b) => {
                    tx.push(b);
                    proof {
                        assert(pending.skip(taken)[0] == pending[taken]);
                        assert(tx@ =~= pending.take(taken + 1));
                        assert(self.cdc_to_uart@ =~= pending.skip(taken + 1));
                    }
                },
                None => {
                    proof {
                        assert(false);
                    }
                },
            }
        }
        proof {
            assert(tx@ =~= old(self).cdc_to_uart@);
        }
        tx
    }

    /// One UART engine iteration, hardware transfers factored out: `rx` holds
    /// the bytes read from the UART receive register while it showed data
    /// (each enqueued as `process_received_byte` does, dropped with the
    /// activity flag forced on once `uart_to_cdc` is full), then every byte
    /// queued in `cdc_to_uart` is taken, in order, for the UART writes.
    pub fn uart_engine_step(&mut self, rx: &[u8], act: &mut ActivityState) -> (tx: Vec<u8>)
        requires
            old(self).wf(),
        ensures
            final(self).wf(),
            final(self).uart_to_cdc@ == fill_model(
                old(self).uart_to_cdc@,
                QUEUE_CAPACITY as nat,
                rx@,
            ),
            *final(act) == (ActivityState {
                led_on: old(act).led_on
                    || old(self).uart_to_cdc@.len() + rx@.len() > QUEUE_CAPACITY,
                ..*old(act)
            }),
            tx@ == old(self).cdc_to_uart@,
            final(self).cdc_to_uart@ == Seq::<u8>::empty(),
    {
        let mut i: usize = 0;
        proof {
            assert(rx@.take(0) =~= Seq::<u8>::empty());
            assert(fill_model(old(self).uart_to_cdc@, QUEUE_CAPACITY as nat, rx@.take(0))
                =~= old(self).uart_to_cdc@);
        }
        while i < rx.len()
            invariant
                i <= rx@.len(),
                old(self).wf(),
                self.uart_to_cdc.wf(),
                self.uart_to_cdc.capacity() == QUEUE_CAPACITY,
                self.uart_to_cdc@.len() <= QUEUE_CAPACITY,
                self.uart_to_cdc@ == fill_model(
                    old(self).uart_to_cdc@,
                    QUEUE_CAPACITY as nat,
                    rx@.take(i as int),
                ),
                *act == (ActivityState {
                    led_on: old(act).led_on
                        || old(self).uart_to_cdc@.len() + i > QUEUE_CAPACITY,
                    ..*old(act)
                }),
                self.cdc_to_uart == old(self).cdc_to_uart,
            decreases rx@.len() - i,
        {
            proof {
                lemma_fill_step(old(self).uart_to_cdc@, QUEUE_CAPACITY as nat, rx@, i as int);
            }
            self.process_received_byte(rx[i], act);
            i = i + 1;
        }
        proof {
            assert(rx@.take(rx@.len() as int) =~= rx@);
        }
        self.uart_tx_drain()
    }
}

/// The USB engine's per-poll outcome: whether the poll reported a USB event
/// or collected bytes were accepted by the endpoint write. `write_ok` is the
/// class stack's verdict on that single write of `tx_len` bytes.
pub fn poll_outcome(usb_event: bool, tx_len: usize, write_ok: bool) -> (r: bool)
    ensures
        r == (usb_event || (tx_len > 0 && write_ok)),
{
    usb_event || (tx_len > 0 && write_ok)
}

/// Extending the enqueued sequence by one byte: enqueuing `s.take(i + 1)` is
/// enqueuing `s.take(i)` and then attempting `s[i]`.
proof fn lemma_fill_step(q: Seq<u8>, cap: nat, s: Seq<u8>, i: int)
    requires
        0 <= i < s.len(),
        q.len() <= cap,
    ensures
        fill_model(q, cap, s.take(i + 1)) == enq_model(fill_model(q, cap, s.take(i)), cap, s[i]),
{
    let a = fill_model(q, cap, s.take(i));
    if q.len() + i < cap {
        assert(a == q + s.take(i));
        assert(a.len() == q.len() + i);
        assert(fill_model(q, cap, s.take(i + 1)) =~= a.push(s[i]));
    } else {
        if q.len() + i == cap {
            assert(a == q + s.take(i));
            assert(s.take(i + 1).take(cap - q.len()) =~= s.take(i));
        } else {
            assert(s.take(i).take(cap - q.len()) =~= s.take(cap - q.len()));
            assert(s.take(i + 1).take(cap - q.len()) =~= s.take(cap - q.len()));
        }
        assert(a.len() == cap);
        assert(fill_model(q, cap, s.take(i + 1)) =~= a);
    }
}

} // verus!
