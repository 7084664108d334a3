//! Virtual UART peripheral: a receive FIFO, a transmit FIFO and a status
//! byte whose bit 0 signals "receive data available".
//!
//! The state here is single-owner. A host program that wants the two
//! console tasks of the full simulator wraps [`Uart`] (or the whole CPU) in
//! a lock of its own; every method below is one FIFO or flag operation, the
//! granularity at which such a lock is meant to be held.

use std::collections::VecDeque;
use vstd::prelude::*;

verus! {

/// Bit masks of the UART status register, packed into one byte.
/// All bits other than those named here are reserved and read as zero.
pub enum UartFlagsBm {
    /// Bit 0: the receive FIFO holds at least one byte.
    RxDataAvail,
}

impl UartFlagsBm {
    /// The mask this flag occupies in the status byte.
    pub open spec fn spec_mask(self) -> u8 {
        match self {
            UartFlagsBm::RxDataAvail => 0x01,
        }
    }

    /// Executable form of [`Self::spec_mask`].
    pub fn mask(&self) -> (r: u8)
        ensures
            r == self.spec_mask(),
    {
        match self {
            UartFlagsBm::RxDataAvail => 0x01,
        }
    }
}

/// Mathematical model of the UART state: the two queues as sequences
/// (front of the queue first) and the status byte.
#[verifier::ext_equal]
pub struct UartModel {
    pub rx: Seq<u8>,
    pub tx: Seq<u8>,
    pub flags: u8,
}

/// The status byte demanded by a given receive queue: bit 0 set if and only
/// if the queue is non-empty, all other bits zero.
pub open spec fn flags_for(rx: Seq<u8>) -> u8 {
    if rx.len() > 0 {
        0x01
    } else {
        0x00
    }
}

impl UartModel {
    /// The status byte tracks the receive queue exactly.
    pub open spec fn wf(self) -> bool {
        self.flags == flags_for(self.rx)
    }
}

/// CPU-side pop of the receive FIFO. An empty queue is a recoverable
/// underflow: the value read is 0 and nothing changes.
pub open spec fn spec_uart_read_rx(u: UartModel) -> (UartModel, u8) {
    if u.rx.len() > 0 {
        (
            UartModel { rx: u.rx.drop_first(), tx: u.tx, flags: flags_for(u.rx.drop_first()) },
            u.rx[0],
        )
    } else {
        (u, 0u8)
    }
}

/// CPU-side push onto the transmit FIFO.
pub open spec fn spec_uart_write_tx(u: UartModel, data: u8) -> UartModel {
    UartModel { tx: u.tx.push(data), ..u }
}

/// Console-side push onto the receive FIFO; raises the data-available flag.
pub open spec fn spec_uart_write_rx(u: UartModel, data: u8) -> UartModel {
    UartModel { rx: u.rx.push(data), tx: u.tx, flags: flags_for(u.rx.push(data)) }
}

/// Console-side pop of the transmit FIFO; 0 on underflow, as for receive.
pub open spec fn spec_uart_read_tx(u: UartModel) -> (UartModel, u8) {
    if u.tx.len() > 0 {
        (UartModel { tx: u.tx.drop_first(), ..u }, u.tx[0])
    } else {
        (u, 0u8)
    }
}

/// A whole batch of bytes pushed onto the transmit FIFO, first byte first.
pub open spec fn spec_uart_write_tx_all(u: UartModel, data: Seq<u8>) -> UartModel
    decreases data.len(),
{
    if data.len() == 0 {
        u
    } else {
        spec_uart_write_tx(spec_uart_write_tx_all(u, data.drop_last()), data.last())
    }
}

/// FIFO ordering law: pushing a batch of bytes onto the transmit queue
/// appends them in push order and touches nothing else, so draining the
/// queue from the front returns them first-in first-out.
pub proof fn lemma_tx_fifo_order(u: UartModel, data: Seq<u8>)
    ensures
        spec_uart_write_tx_all(u, data).tx == u.tx + data,
        spec_uart_write_tx_all(u, data).rx == u.rx,
        spec_uart_write_tx_all(u, data).flags == u.flags,
    decreases data.len(),
{
    if data.len() == 0 {
        assert(spec_uart_write_tx_all(u, data).tx =~= u.tx + data);
    } else {
        lemma_tx_fifo_order(u, data.drop_last());
        assert(spec_uart_write_tx_all(u, data).tx =~= u.tx + data);
    }
}

/// Status flag law: in every well-formed UART state the data-available bit
/// is set exactly while the receive queue is non-empty — it transitions to
/// set exactly when the queue becomes non-empty and clears exactly when the
/// queue becomes empty.
pub proof fn lemma_flag_tracks_rx(u: UartModel)
    requires
        u.wf(),
    ensures
        u.flags == 1 <==> u.rx.len() > 0,
        u.flags == 0 <==> u.rx.len() == 0,
{
}

/// The raw UART registers: receive FIFO, transmit FIFO, status byte.
pub struct UartComp {
    pub rx_fifo: VecDeque<u8>,
    pub tx_fifo: VecDeque<u8>,
    pub flags: u8,
}

impl View for UartComp {
    type V = UartModel;

    open spec fn view(&self) -> UartModel {
        UartModel { rx: self.rx_fifo@, tx: self.tx_fifo@, flags: self.flags }
    }
}

impl UartComp {
    /// Fresh register state: both FIFOs empty, status clear.
    pub fn new() -> (r: UartComp)
        ensures
            r@.rx.len() == 0,
            r@.tx.len() == 0,
            r@.flags == 0,
            r@.wf(),
    {
        UartComp { rx_fifo: VecDeque::new(), tx_fifo: VecDeque::new(), flags: 0 }
    }
}

/// The virtual UART. Offsets inside the peripheral window map to the
/// `cpu_` methods; the console tasks of a host program drive the `ext_`
/// methods from the other side.
pub struct Uart {
    pub comp: UartComp,
}

impl View for Uart {
    type V = UartModel;

    open spec fn view(&self) -> UartModel {
        self.comp@
    }
}

impl Uart {
    /// The status byte is set exactly while receive data is available.
    pub open spec fn wf(self) -> bool {
        self@.wf()
    }

    /// Fresh UART: both FIFOs empty, status clear.
    pub fn new() -> (r: Uart)
        ensures
            r@.rx.len() == 0,
            r@.tx.len() == 0,
            r@.flags == 0,
            r.wf(),
    {
        Uart { comp: UartComp::new() }
    }

    /// CPU-side read of the status register.
    pub fn cpu_get_flags(&self) -> (r: u8)
        ensures
            r == self@.flags,
    {
        self.comp.flags
    }

    /// CPU-side pop of the receive FIFO. Reading an empty FIFO is a
    /// recoverable underflow and returns 0; the data-available flag clears
    /// exactly when the queue becomes (or already is) empty.
    pub fn cpu_read_rx_fifo(&mut self) -> (r: u8)
        requires
            old(self).wf(),
        ensures
            final(self).wf(),
            final(self)@ == spec_uart_read_rx(old(self)@).0,
            r == spec_uart_read_rx(old(self)@).1,
    {
        match self.comp.rx_fifo.pop_front() {
            Some(b) => {
                if self.comp.rx_fifo.len() == 0 {
                    // The last byte left: clear the data-available flag.
                    self.comp.flags = 0;
                }
                assert(self@ =~= spec_uart_read_rx(old(self)@).0);
                b
            },
            None => 0,
        }
    }

    /// CPU-side push onto the transmit FIFO.
    pub fn cpu_write_tx_fifo(&mut self, data: u8)
        requires
            old(self).wf(),
        ensures
            final(self).wf(),
            final(self)@ == spec_uart_write_tx(old(self)@, data),
    {
        self.comp.tx_fifo.push_back(data);
        assert(self@ =~= spec_uart_write_tx(old(self)@, data));
    }

    /// Console-side: number of bytes waiting in the transmit FIFO.
    pub fn ext_check_tx_fifo_len(&self) -> (r: usize)
        ensures
            r == self@.tx.len(),
    {
        self.comp.tx_fifo.len()
    }

    /// Console-side pop of the transmit FIFO; 0 on underflow.
    pub fn ext_read_tx_fifo(&mut self) -> (r: u8)
        requires
            old(self).wf(),
        ensures
            final(self).wf(),
            final(self)@ == spec_uart_read_tx(old(self)@).0,
            r == spec_uart_read_tx(old(self)@).1,
    {
        match self.comp.tx_fifo.pop_front() {
            Some(b) => {
                assert(self@ =~= spec_uart_read_tx(old(self)@).0);
                b
            },
            None => 0,
        }
    }

    /// Console-side push onto the receive FIFO; sets the data-available
    /// flag on the empty-to-non-empty transition (idempotently otherwise).
    pub fn ext_write_rx_fifo(&mut self, data: u8)
        requires
            old(self).wf(),
        ensures
            final(self).wf(),
            final(self)@ == spec_uart_write_rx(old(self)@, data),
    {
        if self.comp.rx_fifo.len() == 0 {
            self.comp.flags = UartFlagsBm::RxDataAvail.mask();
        }
        self.comp.rx_fifo.push_back(data);
        assert(self@ =~= spec_uart_write_rx(old(self)@, data));
    }
}

} // verus!
