//! # Raw register module
//!
//! The AXI UART Lite register block is four consecutive 32-bit words: RX FIFO, TX FIFO,
//! status and control.
use crate::bits::{
    bit_is_set, field_value, lemma_bit_read_after_write, lemma_bit_write_keeps_others,
    lemma_low_mask_values, lemma_zero_has_no_bits, read_bit, read_field, with_bit, write_bit,
};
use crate::mmio::{BusOp, RegisterBlock};
use vcell::VolatileCell;
use vstd::prelude::*;

verus! {

/// Number of 32-bit words in the register block.
pub const REGISTER_WORDS: usize = 4;
/// Word index of the RX FIFO register.
pub const RX_FIFO_INDEX: usize = 0;
/// Word index of the TX FIFO register.
pub const TX_FIFO_INDEX: usize = 1;
/// Word index of the status register.
pub const STAT_REG_INDEX: usize = 2;
/// Word index of the control register.
pub const CTRL_REG_INDEX: usize = 3;

/// Status bit: parity error.
pub const STATUS_PARITY_ERROR: u32 = 7;
/// Status bit: frame error.
pub const STATUS_FRAME_ERROR: u32 = 6;
/// Status bit: overrun error.
pub const STATUS_OVERRUN_ERROR: u32 = 5;
/// Status bit: interrupts enabled.
pub const STATUS_INTR_ENABLED: u32 = 4;
/// Status bit: TX FIFO full.
pub const STATUS_TX_FIFO_FULL: u32 = 3;
/// Status bit: TX FIFO empty.
pub const STATUS_TX_FIFO_EMPTY: u32 = 2;
/// Status bit: RX FIFO full.
pub const STATUS_RX_FIFO_FULL: u32 = 1;
/// Status bit: RX FIFO holds valid data.
pub const STATUS_RX_FIFO_VALID_DATA: u32 = 0;

/// Control bit: enable interrupt.
pub const CONTROL_ENABLE_INTERRUPT: u32 = 4;
/// Control bit: reset RX FIFO.
pub const CONTROL_RESET_RX_FIFO: u32 = 1;
/// Control bit: reset TX FIFO.
pub const CONTROL_RESET_TX_FIFO: u32 = 0;

/// The control word with the given bits, all other bits zero.
pub open spec fn control_value(enable_interrupt: bool, reset_rx_fifo: bool, reset_tx_fifo: bool) -> u32 {
    with_bit(
        with_bit(with_bit(0, CONTROL_ENABLE_INTERRUPT, enable_interrupt), CONTROL_RESET_RX_FIFO, reset_rx_fifo),
        CONTROL_RESET_TX_FIFO,
        reset_tx_fifo,
    )
}

/// The control word built from three bits holds exactly those bits: reading them back gives
/// the values set, and every other bit is clear.
pub proof fn lemma_control_value_fields(enable_interrupt: bool, reset_rx_fifo: bool, reset_tx_fifo: bool, m: u32)
    requires
        m < 32,
    ensures
        bit_is_set(control_value(enable_interrupt, reset_rx_fifo, reset_tx_fifo), CONTROL_ENABLE_INTERRUPT) == enable_interrupt,
        bit_is_set(control_value(enable_interrupt, reset_rx_fifo, reset_tx_fifo), CONTROL_RESET_RX_FIFO) == reset_rx_fifo,
        bit_is_set(control_value(enable_interrupt, reset_rx_fifo, reset_tx_fifo), CONTROL_RESET_TX_FIFO) == reset_tx_fifo,
        m != CONTROL_ENABLE_INTERRUPT && m != CONTROL_RESET_RX_FIFO && m != CONTROL_RESET_TX_FIFO
            ==> !bit_is_set(control_value(enable_interrupt, reset_rx_fifo, reset_tx_fifo), m),
{
    let a = with_bit(0, CONTROL_ENABLE_INTERRUPT, enable_interrupt);
    let b = with_bit(a, CONTROL_RESET_RX_FIFO, reset_rx_fifo);
    lemma_bit_read_after_write(b, CONTROL_RESET_TX_FIFO, reset_tx_fifo);
    lemma_bit_write_keeps_others(b, CONTROL_RESET_TX_FIFO, CONTROL_RESET_RX_FIFO, reset_tx_fifo);
    lemma_bit_write_keeps_others(b, CONTROL_RESET_TX_FIFO, CONTROL_ENABLE_INTERRUPT, reset_tx_fifo);
    lemma_bit_read_after_write(a, CONTROL_RESET_RX_FIFO, reset_rx_fifo);
    lemma_bit_write_keeps_others(a, CONTROL_RESET_RX_FIFO, CONTROL_ENABLE_INTERRUPT, reset_rx_fifo);
    lemma_bit_read_after_write(0, CONTROL_ENABLE_INTERRUPT, enable_interrupt);
    if m != CONTROL_ENABLE_INTERRUPT && m != CONTROL_RESET_RX_FIFO && m != CONTROL_RESET_TX_FIFO {
        lemma_bit_write_keeps_others(b, CONTROL_RESET_TX_FIFO, m, reset_tx_fifo);
        lemma_bit_write_keeps_others(a, CONTROL_RESET_RX_FIFO, m, reset_rx_fifo);
        lemma_bit_write_keeps_others(0, CONTROL_ENABLE_INTERRUPT, m, enable_interrupt);
        lemma_zero_has_no_bits(m);
    }
}

/// RX FIFO register.
#[derive(Debug, Clone, Copy, PartialEq, Eq)]
pub struct RxFifo {
    raw: u32,
}

impl View for RxFifo {
    type V = u32;

    closed spec fn view(&self) -> u32 {
        self.raw
    }
}

impl RxFifo {
    /// Register with the given raw value.
    pub fn new_with_raw_value(raw: u32) -> (r: Self)
        ensures
            r@ == raw,
    {
        RxFifo { raw }
    }

    /// Raw register value.
    pub fn raw_value(&self) -> (r: u32)
        ensures
            r == self@,
    {
        self.raw
    }

    /// Data which can be read (bits 0 to 7).
    pub fn data(&self) -> (r: u8)
        ensures
            r == field_value(self@, 0, 8),
    {
        proof {
            lemma_low_mask_values();
        }
        read_field(self.raw, 0, 8) as u8
    }
}

/// TX FIFO register.
#[derive(Debug, Clone, Copy, PartialEq, Eq)]
pub struct TxFifo {
    raw: u32,
}

impl View for TxFifo {
    type V = u32;

    closed spec fn view(&self) -> u32 {
        self.raw
    }
}

impl TxFifo {
    /// Register with the given raw value.
    pub fn new_with_raw_value(raw: u32) -> (r: Self)
        ensures
            r@ == raw,
    {
        TxFifo { raw }
    }

    /// Raw register value.
    pub fn raw_value(&self) -> (r: u32)
        ensures
            r == self@,
    {
        self.raw
    }

    /// Register holding only the data byte to transmit (bits 0 to 7).
    pub fn with_data(data: u8) -> (r: Self)
        ensures
            r@ == data as u32,
    {
        TxFifo { raw: data as u32 }
    }
}

/// Status register.
#[derive(Debug, Clone, Copy, PartialEq, Eq)]
pub struct Status {
    raw: u32,
}

impl View for Status {
    type V = u32;

    closed spec fn view(&self) -> u32 {
        self.raw
    }
}

impl Status {
    /// Register with the given raw value.
    pub fn new_with_raw_value(raw: u32) -> (r: Self)
        ensures
            r@ == raw,
    {
        Status { raw }
    }

    /// Raw register value.
    pub fn raw_value(&self) -> (r: u32)
        ensures
            r == self@,
    {
        self.raw
    }

    /// Parity error bit.
    pub fn parity_error(&self) -> (r: bool)
        ensures
            r == bit_is_set(self@, STATUS_PARITY_ERROR),
    {
        read_bit(self.raw, STATUS_PARITY_ERROR)
    }

    /// Frame error bit.
    pub fn frame_error(&self) -> (r: bool)
        ensures
            r == bit_is_set(self@, STATUS_FRAME_ERROR),
    {
        read_bit(self.raw, STATUS_FRAME_ERROR)
    }

    /// Overrun error bit.
    pub fn overrun_error(&self) -> (r: bool)
        ensures
            r == bit_is_set(self@, STATUS_OVERRUN_ERROR),
    {
        read_bit(self.raw, STATUS_OVERRUN_ERROR)
    }

    /// Interrupt enabled bit.
    pub fn intr_enabled(&self) -> (r: bool)
        ensures
            r == bit_is_set(self@, STATUS_INTR_ENABLED),
    {
        read_bit(self.raw, STATUS_INTR_ENABLED)
    }

    /// TX FIFO full.
    pub fn tx_fifo_full(&self) -> (r: bool)
        ensures
            r == bit_is_set(self@, STATUS_TX_FIFO_FULL),
    {
        read_bit(self.raw, STATUS_TX_FIFO_FULL)
    }

    /// TX FIFO empty.
    pub fn tx_fifo_empty(&self) -> (r: bool)
        ensures
            r == bit_is_set(self@, STATUS_TX_FIFO_EMPTY),
    {
        read_bit(self.raw, STATUS_TX_FIFO_EMPTY)
    }

    /// RX FIFO full.
    pub fn rx_fifo_full(&self) -> (r: bool)
        ensures
            r == bit_is_set(self@, STATUS_RX_FIFO_FULL),
    {
        read_bit(self.raw, STATUS_RX_FIFO_FULL)
    }

    /// RX FIFO contains valid data.
    pub fn rx_fifo_valid_data(&self) -> (r: bool)
        ensures
            r == bit_is_set(self@, STATUS_RX_FIFO_VALID_DATA),
    {
        read_bit(self.raw, STATUS_RX_FIFO_VALID_DATA)
    }
}

/// Control register (write only, default value zero).
#[derive(Debug, Clone, Copy, PartialEq, Eq)]
pub struct Control {
    raw: u32,
}

impl View for Control {
    type V = u32;

    closed spec fn view(&self) -> u32 {
        self.raw
    }
}

impl Control {
    /// Register with the given raw value.
    pub fn new_with_raw_value(raw: u32) -> (r: Self)
        ensures
            r@ == raw,
    {
        Control { raw }
    }

    /// The default value, all bits zero.
    pub fn zero() -> (r: Self)
        ensures
            r@ == 0,
    {
        Control { raw: 0 }
    }

    /// Raw register value.
    pub fn raw_value(&self) -> (r: u32)
        ensures
            r == self@,
    {
        self.raw
    }

    /// With the enable interrupt bit set to `value`.
    pub fn with_enable_interrupt(self, value: bool) -> (r: Self)
        ensures
            r@ == with_bit(self@, CONTROL_ENABLE_INTERRUPT, value),
    {
        Control { raw: write_bit(self.raw, CONTROL_ENABLE_INTERRUPT, value) }
    }

    /// With the reset RX FIFO bit set to `value`.
    pub fn with_reset_rx_fifo(self, value: bool) -> (r: Self)
        ensures
            r@ == with_bit(self@, CONTROL_RESET_RX_FIFO, value),
    {
        Control { raw: write_bit(self.raw, CONTROL_RESET_RX_FIFO, value) }
    }

    /// With the reset TX FIFO bit set to `value`.
    pub fn with_reset_tx_fifo(self, value: bool) -> (r: Self)
        ensures
            r@ == with_bit(self@, CONTROL_RESET_TX_FIFO, value),
    {
        Control { raw: write_bit(self.raw, CONTROL_RESET_TX_FIFO, value) }
    }

    /// The control word with the three given bits, all other bits zero.
    pub fn build(enable_interrupt: bool, reset_rx_fifo: bool, reset_tx_fifo: bool) -> (r: Self)
        ensures
            r@ == control_value(enable_interrupt, reset_rx_fifo, reset_tx_fifo),
    {
        Control::zero().with_enable_interrupt(enable_interrupt).with_reset_rx_fifo(
            reset_rx_fifo,
        ).with_reset_tx_fifo(reset_tx_fifo)
    }
}

/// AXI UART Lite register block, with typed access to its four registers.
pub struct MmioRegisters {
    block: RegisterBlock<4>,
}

impl MmioRegisters {
    /// The accesses made through this handle so far, oldest first.
    pub closed spec fn ops(&self) -> Seq<BusOp> {
        self.block.ops()
    }

    /// Handle on the given register cells, with an empty trace.
    pub fn new(cells: &'static [VolatileCell<u32>; 4]) -> (r: Self)
        ensures
            r.ops() == Seq::<BusOp>::empty(),
    {
        MmioRegisters { block: RegisterBlock::new(cells) }
    }

    /// Whether two handles access the same hardware registers.
    pub closed spec fn same_registers(&self, other: &Self) -> bool {
        self.block.same_block(&other.block)
    }

    /// A second handle on the same registers, with an empty trace.
    pub fn duplicate(&self) -> (r: Self)
        ensures
            r.ops() == Seq::<BusOp>::empty(),
            r.same_registers(self),
    {
        MmioRegisters { block: self.block.duplicate() }
    }

    /// Read the RX FIFO register (this pops one byte from the RX FIFO).
    pub fn read_rx_fifo(&mut self) -> (r: RxFifo)
        ensures
            final(self).ops() == old(self).ops().push(BusOp::Read { index: RX_FIFO_INDEX, value: r@ }),
    {
        RxFifo::new_with_raw_value(self.block.read(RX_FIFO_INDEX))
    }

    /// Write the TX FIFO register.
    pub fn write_tx_fifo(&mut self, value: TxFifo)
        ensures
            final(self).ops() == old(self).ops().push(BusOp::Write { index: TX_FIFO_INDEX, value: value@ }),
    {
        self.block.write(TX_FIFO_INDEX, value.raw_value())
    }

    /// Read the status register.
    pub fn read_stat_reg(&mut self) -> (r: Status)
        ensures
            final(self).ops() == old(self).ops().push(BusOp::Read { index: STAT_REG_INDEX, value: r@ }),
    {
        Status::new_with_raw_value(self.block.read(STAT_REG_INDEX))
    }

    /// Write the control register.
    pub fn write_ctrl_reg(&mut self, value: Control)
        ensures
            final(self).ops() == old(self).ops().push(BusOp::Write { index: CTRL_REG_INDEX, value: value@ }),
    {
        self.block.write(CTRL_REG_INDEX, value.raw_value())
    }
}

} // verus!
