//! # AXI UART Lite v2.0 driver
//!
//! Driver for the AMD AXI UART Lite v2.0 IP core. The driver works on the core's register
//! block, handed to it as four volatile 32-bit cells; every access it makes through a
//! mutable handle is recorded in the ghost trace of that handle.
pub mod registers;
pub mod rx;
pub mod tx;

use crate::bits::bit_is_set;
use crate::mmio::BusOp;
use crate::uartlite::registers::{control_value, Control, MmioRegisters, CTRL_REG_INDEX};
use crate::uartlite::rx::{read_fifo_post, Rx, RxErrors};
use crate::uartlite::tx::{write_fifo_post, Tx};
use crate::WouldBlock;
use vcell::VolatileCell;
use vstd::prelude::*;

verus! {

/// Maximum FIFO depth of the AXI UART Lite.
pub const FIFO_DEPTH: usize = 16;

/// `count` plus one, unless `happened` is false or the count is already at its maximum.
pub open spec fn saturating_count(count: u8, happened: bool) -> u8 {
    if happened && count < u8::MAX {
        (count + 1) as u8
    } else {
        count
    }
}

/// RX error counters.
#[derive(Debug, Clone, Copy, PartialEq, Eq)]
pub struct RxErrorsCounted {
    parity: u8,
    frame: u8,
    overrun: u8,
}

impl RxErrorsCounted {
    /// Parity error count.
    pub closed spec fn spec_parity(&self) -> u8 {
        self.parity
    }

    /// Frame error count.
    pub closed spec fn spec_frame(&self) -> u8 {
        self.frame
    }

    /// Overrun error count.
    pub closed spec fn spec_overrun(&self) -> u8 {
        self.overrun
    }

    /// Whether all three counters are zero.
    pub open spec fn is_zero(&self) -> bool {
        self.spec_parity() == 0 && self.spec_frame() == 0 && self.spec_overrun() == 0
    }

    /// Create a new empty RX error counter.
    pub fn new() -> (r: Self)
        ensures
            r.is_zero(),
    {
        RxErrorsCounted { parity: 0, frame: 0, overrun: 0 }
    }

    /// Parity error count.
    pub fn parity(&self) -> (r: u8)
        ensures
            r == self.spec_parity(),
    {
        self.parity
    }

    /// Frame error count.
    pub fn frame(&self) -> (r: u8)
        ensures
            r == self.spec_frame(),
    {
        self.frame
    }

    /// Overrun error count.
    pub fn overrun(&self) -> (r: u8)
        ensures
            r == self.spec_overrun(),
    {
        self.overrun
    }

    /// Some error has occurred.
    pub fn has_errors(&self) -> (r: bool)
        ensures
            r == !self.is_zero(),
    {
        self.parity > 0 || self.frame > 0 || self.overrun > 0
    }
}

impl Default for RxErrorsCounted {
    fn default() -> (r: Self)
        ensures
            r.is_zero(),
    {
        RxErrorsCounted::new()
    }
}

/// The counters after counting the errors of `errors`: each counter whose error is flagged
/// goes up by one, saturating at its maximum; the others stay.
pub open spec fn counted(before: RxErrorsCounted, after: RxErrorsCounted, errors: RxErrors) -> bool {
    &&& after.spec_parity() == saturating_count(before.spec_parity(), errors.spec_parity())
    &&& after.spec_frame() == saturating_count(before.spec_frame(), errors.spec_frame())
    &&& after.spec_overrun() == saturating_count(before.spec_overrun(), errors.spec_overrun())
}

/// The counters after an operation that leaves `last` as the last recorded errors of the
/// half that made it: counted if there are any, unchanged otherwise.
pub open spec fn counted_after(before: RxErrorsCounted, after: RxErrorsCounted, last: Option<RxErrors>) -> bool {
    match last {
        Some(e) => counted(before, after, e),
        None => after == before,
    }
}

/// Counting errors never lowers a counter, and raises a flagged one unless it is at its
/// maximum.
pub proof fn lemma_counting_never_decreases(before: RxErrorsCounted, after: RxErrorsCounted, errors: RxErrors)
    requires
        counted(before, after, errors),
    ensures
        after.spec_parity() >= before.spec_parity(),
        after.spec_frame() >= before.spec_frame(),
        after.spec_overrun() >= before.spec_overrun(),
        errors.spec_frame() && before.spec_frame() < u8::MAX ==> after.spec_frame() == before.spec_frame() + 1,
        errors.spec_parity() && before.spec_parity() < u8::MAX ==> after.spec_parity() == before.spec_parity() + 1,
        errors.spec_overrun() && before.spec_overrun() < u8::MAX ==> after.spec_overrun() == before.spec_overrun() + 1,
{
}

/// Counting errors touches each counter only for its own error: a counter whose error is not
/// flagged keeps its value, a flagged one goes up by exactly one, and a flagged one already
/// at its maximum stays there.
pub proof fn lemma_counting_only_flagged(before: RxErrorsCounted, after: RxErrorsCounted, errors: RxErrors)
    requires
        counted(before, after, errors),
    ensures
        !errors.spec_parity() ==> after.spec_parity() == before.spec_parity(),
        !errors.spec_frame() ==> after.spec_frame() == before.spec_frame(),
        !errors.spec_overrun() ==> after.spec_overrun() == before.spec_overrun(),
        errors.spec_parity() && before.spec_parity() < u8::MAX ==> after.spec_parity() == before.spec_parity() + 1,
        errors.spec_frame() && before.spec_frame() < u8::MAX ==> after.spec_frame() == before.spec_frame() + 1,
        errors.spec_overrun() && before.spec_overrun() < u8::MAX ==> after.spec_overrun() == before.spec_overrun() + 1,
        errors.spec_parity() && before.spec_parity() == u8::MAX ==> after.spec_parity() == u8::MAX,
        errors.spec_frame() && before.spec_frame() == u8::MAX ==> after.spec_frame() == u8::MAX,
        errors.spec_overrun() && before.spec_overrun() == u8::MAX ==> after.spec_overrun() == u8::MAX,
{
}

/// AXI UART Lite peripheral driver.
pub struct AxiUartlite {
    rx: Rx,
    tx: Tx,
    errors: RxErrorsCounted,
}

impl AxiUartlite {
    /// The RX half.
    pub closed spec fn rx_half(&self) -> Rx {
        self.rx
    }

    /// The TX half.
    pub closed spec fn tx_half(&self) -> Tx {
        self.tx
    }

    /// The error counters.
    pub closed spec fn counters(&self) -> RxErrorsCounted {
        self.errors
    }

    /// Create a new AXI UART Lite peripheral driver on the given register block.
    ///
    /// The RX and TX halves get handles on the same registers, with empty traces.
    pub fn new(cells: &'static [VolatileCell<u32>; 4]) -> (r: Self)
        ensures
            r.rx_half().ops() == Seq::<BusOp>::empty(),
            r.tx_half().ops() == Seq::<BusOp>::empty(),
            r.rx_half().last_errors() == None::<RxErrors>,
            r.tx_half().last_errors() == None::<RxErrors>,
            r.counters().is_zero(),
            r.rx_half().registers().same_registers(&r.tx_half().registers()),
    {
        let regs = MmioRegisters::new(cells);
        AxiUartlite { rx: Rx::new(regs.duplicate()), tx: Tx::new(regs), errors: RxErrorsCounted::new() }
    }

    /// Direct register access, through the register handle of the TX half.
    pub fn regs(&mut self) -> (r: &mut MmioRegisters)
        ensures
            r.ops() == old(self).tx_half().ops(),
            final(self).tx_half().ops() == final(r).ops(),
            final(self).tx_half().last_errors() == old(self).tx_half().last_errors(),
            final(self).rx_half() == old(self).rx_half(),
            final(self).counters() == old(self).counters(),
    {
        self.tx.regs_mut()
    }

    /// Write into the UART Lite.
    ///
    /// Returns [WouldBlock] if the TX FIFO is full. Otherwise the byte is written and, if the
    /// TX half has recorded errors, they are counted.
    pub fn write_fifo(&mut self, data: u8) -> (r: Result<(), WouldBlock>)
        ensures
            write_fifo_post(old(self).tx_half(), final(self).tx_half(), data, r),
            final(self).rx_half() == old(self).rx_half(),
            r is Ok ==> counted_after(old(self).counters(), final(self).counters(), final(self).tx_half().last_errors()),
            r is Err ==> final(self).counters() == old(self).counters(),
    {
        if self.tx.write_fifo(data).is_err() {
            return Err(WouldBlock);
        }
        if let Some(errors) = self.tx.recorded_errors() {
            self.handle_status_reg_errors(errors);
        }
        Ok(())
    }

    /// Write into the FIFO without checking the FIFO fill status.
    ///
    /// This can be useful to completely fill the FIFO if it is known to be empty.
    pub fn write_fifo_unchecked(&mut self, data: u8)
        ensures
            final(self).tx_half().ops() == old(self).tx_half().ops().push(
                BusOp::Write { index: registers::TX_FIFO_INDEX, value: data as u32 },
            ),
            final(self).tx_half().last_errors() == old(self).tx_half().last_errors(),
            final(self).rx_half() == old(self).rx_half(),
            final(self).counters() == old(self).counters(),
    {
        self.tx.write_fifo_unchecked(data);
    }

    /// Read from the UART Lite.
    ///
    /// Returns [WouldBlock] if there is nothing to read. Otherwise, if the RX half has
    /// recorded errors, they are counted.
    pub fn read_fifo(&mut self) -> (r: Result<u8, WouldBlock>)
        ensures
            read_fifo_post(old(self).rx_half(), final(self).rx_half(), r),
            final(self).tx_half() == old(self).tx_half(),
            r is Ok ==> counted_after(old(self).counters(), final(self).counters(), final(self).rx_half().last_errors()),
            r is Err ==> final(self).counters() == old(self).counters(),
    {
        let val = match self.rx.read_fifo() {
            Ok(val) => val,
            Err(e) => return Err(e),
        };
        if let Some(errors) = self.rx.recorded_errors() {
            self.handle_status_reg_errors(errors);
        }
        Ok(val)
    }

    /// Read from the FIFO without checking the FIFO fill status.
    pub fn read_fifo_unchecked(&mut self) -> (r: u8)
        ensures
            ({
                let d = final(self).rx_half().ops()[old(self).rx_half().ops().len() as int];
                &&& d.is_read_of(registers::RX_FIFO_INDEX)
                &&& final(self).rx_half().ops() == old(self).rx_half().ops().push(d)
                &&& r == crate::bits::field_value(d.value(), 0, 8) as u8
            }),
            final(self).rx_half().last_errors() == old(self).rx_half().last_errors(),
            final(self).tx_half() == old(self).tx_half(),
            final(self).counters() == old(self).counters(),
    {
        self.rx.read_fifo_unchecked()
    }

    /// Is the TX FIFO empty? Reads the status register once, through the TX half, and returns its bit.
    pub fn tx_fifo_empty(&mut self) -> (r: bool)
        ensures
            ({
                let st = final(self).tx_half().ops()[old(self).tx_half().ops().len() as int];
                &&& st.is_read_of(registers::STAT_REG_INDEX)
                &&& final(self).tx_half().ops() == old(self).tx_half().ops().push(st)
                &&& r == bit_is_set(st.value(), registers::STATUS_TX_FIFO_EMPTY)
            }),
            final(self).tx_half().last_errors() == old(self).tx_half().last_errors(),
            final(self).rx_half() == old(self).rx_half(),
            final(self).counters() == old(self).counters(),
    {
        self.tx.fifo_empty()
    }

    /// TX FIFO full status. Reads the status register once, through the TX half, and returns its bit.
    pub fn tx_fifo_full(&mut self) -> (r: bool)
        ensures
            ({
                let st = final(self).tx_half().ops()[old(self).tx_half().ops().len() as int];
                &&& st.is_read_of(registers::STAT_REG_INDEX)
                &&& final(self).tx_half().ops() == old(self).tx_half().ops().push(st)
                &&& r == bit_is_set(st.value(), registers::STATUS_TX_FIFO_FULL)
            }),
            final(self).tx_half().last_errors() == old(self).tx_half().last_errors(),
            final(self).rx_half() == old(self).rx_half(),
            final(self).counters() == old(self).counters(),
    {
        self.tx.fifo_full()
    }

    /// RX FIFO has data. Reads the status register once, through the RX half, and returns its bit.
    pub fn rx_has_data(&mut self) -> (r: bool)
        ensures
            ({
                let st = final(self).rx_half().ops()[old(self).rx_half().ops().len() as int];
                &&& st.is_read_of(registers::STAT_REG_INDEX)
                &&& final(self).rx_half().ops() == old(self).rx_half().ops().push(st)
                &&& r == bit_is_set(st.value(), registers::STATUS_RX_FIFO_VALID_DATA)
            }),
            final(self).rx_half().last_errors() == old(self).rx_half().last_errors(),
            final(self).tx_half() == old(self).tx_half(),
            final(self).counters() == old(self).counters(),
    {
        self.rx.has_data()
    }

    /// Read the error counters and also resets them.
    pub fn read_and_clear_errors(&mut self) -> (r: RxErrorsCounted)
        ensures
            r == old(self).counters(),
            final(self).counters().is_zero(),
            final(self).rx_half() == old(self).rx_half(),
            final(self).tx_half() == old(self).tx_half(),
    {
        let errors = self.errors;
        self.errors = RxErrorsCounted::new();
        errors
    }

    /// Count the errors flagged in `errors`, saturating each counter at its maximum.
    fn handle_status_reg_errors(&mut self, errors: RxErrors)
        ensures
            counted(old(self).counters(), final(self).counters(), errors),
            final(self).rx_half() == old(self).rx_half(),
            final(self).tx_half() == old(self).tx_half(),
    {
        if errors.frame() {
            self.errors.frame = self.errors.frame.saturating_add(1);
        }
        if errors.parity() {
            self.errors.parity = self.errors.parity.saturating_add(1);
        }
        if errors.overrun() {
            self.errors.overrun = self.errors.overrun.saturating_add(1);
        }
    }

    /// Write one control word through the TX half's register handle.
    fn write_control(&mut self, enable_interrupt: bool, reset_rx_fifo: bool, reset_tx_fifo: bool)
        ensures
            final(self).tx_half().ops() == old(self).tx_half().ops().push(
                BusOp::Write {
                    index: CTRL_REG_INDEX,
                    value: control_value(enable_interrupt, reset_rx_fifo, reset_tx_fifo),
                },
            ),
            final(self).tx_half().last_errors() == old(self).tx_half().last_errors(),
            final(self).rx_half() == old(self).rx_half(),
            final(self).counters() == old(self).counters(),
    {
        self.regs().write_ctrl_reg(Control::build(enable_interrupt, reset_rx_fifo, reset_tx_fifo));
    }

    /// Reset the RX FIFO (interrupts disabled).
    pub fn reset_rx_fifo(&mut self)
        ensures
            final(self).tx_half().ops() == old(self).tx_half().ops().push(
                BusOp::Write { index: CTRL_REG_INDEX, value: control_value(false, true, false) },
            ),
            final(self).tx_half().last_errors() == old(self).tx_half().last_errors(),
            final(self).rx_half() == old(self).rx_half(),
            final(self).counters() == old(self).counters(),
    {
        self.write_control(false, true, false);
    }

    /// Reset the TX FIFO (interrupts disabled).
    pub fn reset_tx_fifo(&mut self)
        ensures
            final(self).tx_half().ops() == old(self).tx_half().ops().push(
                BusOp::Write { index: CTRL_REG_INDEX, value: control_value(false, false, true) },
            ),
            final(self).tx_half().last_errors() == old(self).tx_half().last_errors(),
            final(self).rx_half() == old(self).rx_half(),
            final(self).counters() == old(self).counters(),
    {
        self.write_control(false, false, true);
    }

    /// Split the driver into [Tx] and [Rx] halves.
    pub fn split(self) -> (r: (Tx, Rx))
        ensures
            r.0 == self.tx_half(),
            r.1 == self.rx_half(),
    {
        (self.tx, self.rx)
    }

    /// Enable UART Lite interrupts.
    pub fn enable_interrupt(&mut self)
        ensures
            final(self).tx_half().ops() == old(self).tx_half().ops().push(
                BusOp::Write { index: CTRL_REG_INDEX, value: control_value(true, false, false) },
            ),
            final(self).tx_half().last_errors() == old(self).tx_half().last_errors(),
            final(self).rx_half() == old(self).rx_half(),
            final(self).counters() == old(self).counters(),
    {
        self.write_control(true, false, false);
    }

    /// Disable UART Lite interrupts.
    pub fn disable_interrupt(&mut self)
        ensures
            final(self).tx_half().ops() == old(self).tx_half().ops().push(
                BusOp::Write { index: CTRL_REG_INDEX, value: control_value(false, false, false) },
            ),
            final(self).tx_half().last_errors() == old(self).tx_half().last_errors(),
            final(self).rx_half() == old(self).rx_half(),
            final(self).counters() == old(self).counters(),
    {
        self.write_control(false, false, false);
    }
}

} // verus!
