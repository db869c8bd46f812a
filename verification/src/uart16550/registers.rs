//! # Raw register module
//!
//! The 16550 register set of the AXI UART16550 core: eight consecutive 32-bit words. Word 0
//! is the RX/TX FIFO or, while the divisor access latch is set, the divisor LSB; word 1 the
//! interrupt enable register or the divisor MSB; word 2 the interrupt identification register
//! when read and the FIFO control register when written; then the line control, modem control,
//! line status, modem status and scratch registers.
use crate::bits::{
    bit_is_set, field_value, lemma_bit_read_after_write, lemma_bit_write_keeps_others,
    lemma_field_read_after_write, lemma_low_mask_values,
    read_bit, read_field, with_bit, with_field, write_bit, write_field,
};
use crate::mmio::{BusOp, RegisterBlock};
use vcell::VolatileCell;
use vstd::prelude::*;

verus! {

/// Number of 32-bit words in the register block.
pub const REGISTER_WORDS: usize = 8;
/// Word index of the RX/TX FIFO, or of the divisor LSB while the latch is set.
pub const FIFO_OR_DLL_INDEX: usize = 0;
/// Word index of the interrupt enable register, or of the divisor MSB while the latch is set.
pub const IER_OR_DLM_INDEX: usize = 1;
/// Word index of the interrupt identification (read) and FIFO control (write) register.
pub const IIR_OR_FCR_INDEX: usize = 2;
/// Word index of the line control register.
pub const LCR_INDEX: usize = 3;
/// Word index of the modem control register.
pub const MCR_INDEX: usize = 4;
/// Word index of the line status register.
pub const LSR_INDEX: usize = 5;
/// Word index of the modem status register.
pub const MSR_INDEX: usize = 6;
/// Word index of the scratch register.
pub const SCR_INDEX: usize = 7;

/// Line status bit: error in the RX FIFO.
pub const LSR_ERROR_IN_RX_FIFO: u32 = 7;
/// Line status bit: transmitter empty.
pub const LSR_TX_EMPTY: u32 = 6;
/// Line status bit: transmitter holding register empty.
pub const LSR_THR_EMPTY: u32 = 5;
/// Line status bit: break interrupt.
pub const LSR_BREAK_INTERRUPT: u32 = 4;
/// Line status bit: framing error.
pub const LSR_FRAMING_ERROR: u32 = 3;
/// Line status bit: parity error.
pub const LSR_PARITY_ERROR: u32 = 2;
/// Line status bit: overrun error.
pub const LSR_OVERRUN_ERROR: u32 = 1;
/// Line status bit: data ready.
pub const LSR_DATA_READY: u32 = 0;

/// Interrupt enable bit: modem status interrupt.
pub const IER_MODEM_STATUS: u32 = 3;
/// Interrupt enable bit: receiver line status interrupt.
pub const IER_LINE_STATUS: u32 = 2;
/// Interrupt enable bit: transmitter holding register empty interrupt.
pub const IER_THR_EMPTY: u32 = 1;
/// Interrupt enable bit: received data available interrupt.
pub const IER_RX_AVL: u32 = 0;

/// Line control bit: divisor access latch.
pub const LCR_DIV_ACCESS_LATCH: u32 = 7;
/// Line control bit: set break.
pub const LCR_SET_BREAK: u32 = 6;
/// Line control bit: stick parity.
pub const LCR_STICK_PARITY: u32 = 5;
/// Line control bit: even parity select.
pub const LCR_EVEN_PARITY: u32 = 4;
/// Line control bit: parity enable.
pub const LCR_PARITY_ENABLE: u32 = 3;
/// Line control bit: number of stop bits.
pub const LCR_STOP_BITS: u32 = 2;
/// Line control field: word length, bits 0 and 1.
pub const LCR_WORD_LEN_LO: u32 = 0;

/// FIFO control field: RX FIFO trigger level, bits 6 and 7.
pub const FCR_RX_TRIGGER_LO: u32 = 6;
/// FIFO control bit: DMA mode select.
pub const FCR_DMA_MODE_SEL: u32 = 3;
/// FIFO control bit: reset the TX FIFO.
pub const FCR_RESET_TX_FIFO: u32 = 2;
/// FIFO control bit: reset the RX FIFO.
pub const FCR_RESET_RX_FIFO: u32 = 1;
/// FIFO control bit: enable the FIFOs.
pub const FCR_FIFO_ENABLE: u32 = 0;

/// Interrupt identification field: FIFOs enabled, bits 6 and 7.
pub const IIR_FIFOS_ENABLED_LO: u32 = 6;
/// Interrupt identification field: interrupt identifier, bits 1 to 3.
pub const IIR_INT_ID_LO: u32 = 1;
/// Interrupt identification bit: no interrupt pending (active low pending flag).
pub const IIR_NO_INT_PENDING: u32 = 0;

/// Word length.
#[derive(Debug, Clone, Copy, PartialEq, Eq, Structural)]
pub enum WordLen {
    Five,
    Six,
    Seven,
    Eight,
}

impl WordLen {
    /// The two-bit encoding.
    pub open spec fn spec_bits(self) -> u32 {
        match self {
            WordLen::Five => 0,
            WordLen::Six => 1,
            WordLen::Seven => 2,
            WordLen::Eight => 3,
        }
    }

    /// The two-bit encoding.
    pub fn bits(self) -> (r: u32)
        ensures
            r == self.spec_bits(),
    {
        match self {
            WordLen::Five => 0,
            WordLen::Six => 1,
            WordLen::Seven => 2,
            WordLen::Eight => 3,
        }
    }

    /// The word length of a two-bit encoding.
    pub fn from_bits(bits: u32) -> (r: Self)
        requires
            bits < 4,
        ensures
            r.spec_bits() == bits,
    {
        if bits == 0 {
            WordLen::Five
        } else if bits == 1 {
            WordLen::Six
        } else if bits == 2 {
            WordLen::Seven
        } else {
            WordLen::Eight
        }
    }
}

/// Number of stop bits.
#[derive(Debug, Clone, Copy, PartialEq, Eq, Structural)]
pub enum StopBits {
    One,
    Two,
}

impl StopBits {
    /// Whether the stop bit flag is set for this setting.
    pub open spec fn spec_flag(self) -> bool {
        self == StopBits::Two
    }
}

/// RX FIFO trigger level.
#[derive(Debug, Clone, Copy, PartialEq, Eq, Structural)]
pub enum RxFifoTrigger {
    OneByte,
    FourBytes,
    EightBytes,
    FourteenBytes,
}

impl RxFifoTrigger {
    /// The two-bit encoding.
    pub open spec fn spec_bits(self) -> u32 {
        match self {
            RxFifoTrigger::OneByte => 0,
            RxFifoTrigger::FourBytes => 1,
            RxFifoTrigger::EightBytes => 2,
            RxFifoTrigger::FourteenBytes => 3,
        }
    }

    /// The number of bytes at which the RX FIFO triggers.
    pub open spec fn spec_num(self) -> u32 {
        match self {
            RxFifoTrigger::OneByte => 1,
            RxFifoTrigger::FourBytes => 4,
            RxFifoTrigger::EightBytes => 8,
            RxFifoTrigger::FourteenBytes => 14,
        }
    }

    /// The two-bit encoding.
    pub fn bits(self) -> (r: u32)
        ensures
            r == self.spec_bits(),
    {
        match self {
            RxFifoTrigger::OneByte => 0,
            RxFifoTrigger::FourBytes => 1,
            RxFifoTrigger::EightBytes => 2,
            RxFifoTrigger::FourteenBytes => 3,
        }
    }

    /// The trigger level of a two-bit encoding.
    pub fn from_bits(bits: u32) -> (r: Self)
        requires
            bits < 4,
        ensures
            r.spec_bits() == bits,
    {
        if bits == 0 {
            RxFifoTrigger::OneByte
        } else if bits == 1 {
            RxFifoTrigger::FourBytes
        } else if bits == 2 {
            RxFifoTrigger::EightBytes
        } else {
            RxFifoTrigger::FourteenBytes
        }
    }

    /// The number of bytes at which the RX FIFO triggers.
    pub fn as_num(self) -> (r: u32)
        ensures
            r == self.spec_num(),
    {
        match self {
            RxFifoTrigger::OneByte => 1,
            RxFifoTrigger::FourBytes => 4,
            RxFifoTrigger::EightBytes => 8,
            RxFifoTrigger::FourteenBytes => 14,
        }
    }
}

/// Interrupt identifier (bits 1 to 3 of the interrupt identification register).
#[derive(Debug, Clone, Copy, PartialEq, Eq, Structural)]
pub enum InterruptId2 {
    ModemStatus,
    ThrEmpty,
    RxDataAvailable,
    ReceiverLineStatus,
    CharTimeout,
}

impl InterruptId2 {
    /// The three-bit encoding.
    pub open spec fn spec_bits(self) -> u32 {
        match self {
            InterruptId2::ModemStatus => 0b000,
            InterruptId2::ThrEmpty => 0b001,
            InterruptId2::RxDataAvailable => 0b010,
            InterruptId2::ReceiverLineStatus => 0b011,
            InterruptId2::CharTimeout => 0b110,
        }
    }
}

/// Line control register.
#[derive(Debug, Clone, Copy, PartialEq, Eq)]
pub struct LineControl {
    raw: u32,
}

impl View for LineControl {
    type V = u32;

    closed spec fn view(&self) -> u32 {
        self.raw
    }
}

/// The line control word for normal operation with the given frame format: divisor latch,
/// break and stick parity off.
pub open spec fn line_control_value(word_len: WordLen, even_parity: bool, parity_enable: bool, stop_bits: StopBits) -> u32 {
    with_field(
        with_bit(
            with_bit(
                with_bit(
                    with_bit(with_bit(with_bit(0, LCR_DIV_ACCESS_LATCH, false), LCR_SET_BREAK, false), LCR_STICK_PARITY, false),
                    LCR_EVEN_PARITY,
                    even_parity,
                ),
                LCR_PARITY_ENABLE,
                parity_enable,
            ),
            LCR_STOP_BITS,
            stop_bits.spec_flag(),
        ),
        LCR_WORD_LEN_LO,
        2,
        word_len.spec_bits(),
    )
}

impl LineControl {
    /// Register with the given raw value.
    pub fn new_with_raw_value(raw: u32) -> (r: Self)
        ensures
            r@ == raw,
    {
        LineControl { raw }
    }

    /// Raw register value.
    pub fn raw_value(&self) -> (r: u32)
        ensures
            r == self@,
    {
        self.raw
    }

    /// The value that unlocks the divisor registers: only the divisor access latch set.
    pub fn new_for_divisor_access() -> (r: Self)
        ensures
            r@ == with_bit(0, LCR_DIV_ACCESS_LATCH, true),
    {
        LineControl { raw: write_bit(0, LCR_DIV_ACCESS_LATCH, true) }
    }

    /// The line control word for normal operation with the given frame format.
    pub fn for_frame_format(word_len: WordLen, even_parity: bool, parity_enable: bool, stop_bits: StopBits) -> (r: Self)
        ensures
            r@ == line_control_value(word_len, even_parity, parity_enable, stop_bits),
    {
        let raw = write_bit(0, LCR_DIV_ACCESS_LATCH, false);
        let raw = write_bit(raw, LCR_SET_BREAK, false);
        let raw = write_bit(raw, LCR_STICK_PARITY, false);
        let raw = write_bit(raw, LCR_EVEN_PARITY, even_parity);
        let raw = write_bit(raw, LCR_PARITY_ENABLE, parity_enable);
        let two = match stop_bits {
            StopBits::One => false,
            StopBits::Two => true,
        };
        let raw = write_bit(raw, LCR_STOP_BITS, two);
        let raw = write_field(raw, LCR_WORD_LEN_LO, 2, word_len.bits());
        LineControl { raw }
    }

    /// Divisor access latch.
    pub fn div_access_latch(&self) -> (r: bool)
        ensures
            r == bit_is_set(self@, LCR_DIV_ACCESS_LATCH),
    {
        read_bit(self.raw, LCR_DIV_ACCESS_LATCH)
    }

    /// Set break.
    pub fn set_break(&self) -> (r: bool)
        ensures
            r == bit_is_set(self@, LCR_SET_BREAK),
    {
        read_bit(self.raw, LCR_SET_BREAK)
    }

    /// Stick parity.
    pub fn stick_parity(&self) -> (r: bool)
        ensures
            r == bit_is_set(self@, LCR_STICK_PARITY),
    {
        read_bit(self.raw, LCR_STICK_PARITY)
    }

    /// Even parity select.
    pub fn even_parity(&self) -> (r: bool)
        ensures
            r == bit_is_set(self@, LCR_EVEN_PARITY),
    {
        read_bit(self.raw, LCR_EVEN_PARITY)
    }

    /// Parity enable.
    pub fn parity_enable(&self) -> (r: bool)
        ensures
            r == bit_is_set(self@, LCR_PARITY_ENABLE),
    {
        read_bit(self.raw, LCR_PARITY_ENABLE)
    }

    /// Number of stop bits.
    pub fn stop_bits(&self) -> (r: StopBits)
        ensures
            r.spec_flag() == bit_is_set(self@, LCR_STOP_BITS),
    {
        if read_bit(self.raw, LCR_STOP_BITS) {
            StopBits::Two
        } else {
            StopBits::One
        }
    }

    /// Word length.
    pub fn word_len(&self) -> (r: WordLen)
        ensures
            r.spec_bits() == field_value(self@, LCR_WORD_LEN_LO, 2),
    {
        proof {
            lemma_low_mask_values();
        }
        WordLen::from_bits(read_field(self.raw, LCR_WORD_LEN_LO, 2))
    }
}

/// Line status register.
#[derive(Debug, Clone, Copy, PartialEq, Eq)]
pub struct LineStatus {
    raw: u32,
}

impl View for LineStatus {
    type V = u32;

    closed spec fn view(&self) -> u32 {
        self.raw
    }
}

impl LineStatus {
    /// Register with the given raw value.
    pub fn new_with_raw_value(raw: u32) -> (r: Self)
        ensures
            r@ == raw,
    {
        LineStatus { raw }
    }

    /// Raw register value.
    pub fn raw_value(&self) -> (r: u32)
        ensures
            r == self@,
    {
        self.raw
    }

    /// Error in the RX FIFO.
    pub fn error_in_rx_fifo(&self) -> (r: bool)
        ensures
            r == bit_is_set(self@, LSR_ERROR_IN_RX_FIFO),
    {
        read_bit(self.raw, LSR_ERROR_IN_RX_FIFO)
    }

    /// Transmitter empty.
    pub fn tx_empty(&self) -> (r: bool)
        ensures
            r == bit_is_set(self@, LSR_TX_EMPTY),
    {
        read_bit(self.raw, LSR_TX_EMPTY)
    }

    /// Transmitter holding register empty.
    pub fn thr_empty(&self) -> (r: bool)
        ensures
            r == bit_is_set(self@, LSR_THR_EMPTY),
    {
        read_bit(self.raw, LSR_THR_EMPTY)
    }

    /// Break interrupt.
    pub fn break_interrupt(&self) -> (r: bool)
        ensures
            r == bit_is_set(self@, LSR_BREAK_INTERRUPT),
    {
        read_bit(self.raw, LSR_BREAK_INTERRUPT)
    }

    /// Framing error.
    pub fn framing_error(&self) -> (r: bool)
        ensures
            r == bit_is_set(self@, LSR_FRAMING_ERROR),
    {
        read_bit(self.raw, LSR_FRAMING_ERROR)
    }

    /// Parity error.
    pub fn parity_error(&self) -> (r: bool)
        ensures
            r == bit_is_set(self@, LSR_PARITY_ERROR),
    {
        read_bit(self.raw, LSR_PARITY_ERROR)
    }

    /// Overrun error.
    pub fn overrun_error(&self) -> (r: bool)
        ensures
            r == bit_is_set(self@, LSR_OVERRUN_ERROR),
    {
        read_bit(self.raw, LSR_OVERRUN_ERROR)
    }

    /// Data ready.
    pub fn data_ready(&self) -> (r: bool)
        ensures
            r == bit_is_set(self@, LSR_DATA_READY),
    {
        read_bit(self.raw, LSR_DATA_READY)
    }
}

/// Interrupt enable register.
#[derive(Debug, Clone, Copy, PartialEq, Eq)]
pub struct InterruptEnable {
    raw: u32,
}

impl View for InterruptEnable {
    type V = u32;

    closed spec fn view(&self) -> u32 {
        self.raw
    }
}

impl InterruptEnable {
    /// Register with the given raw value.
    pub fn new_with_raw_value(raw: u32) -> (r: Self)
        ensures
            r@ == raw,
    {
        InterruptEnable { raw }
    }

    /// Raw register value.
    pub fn raw_value(&self) -> (r: u32)
        ensures
            r == self@,
    {
        self.raw
    }

    /// Modem status interrupt enabled.
    pub fn modem_status(&self) -> (r: bool)
        ensures
            r == bit_is_set(self@, IER_MODEM_STATUS),
    {
        read_bit(self.raw, IER_MODEM_STATUS)
    }

    /// Receiver line status interrupt enabled.
    pub fn line_status(&self) -> (r: bool)
        ensures
            r == bit_is_set(self@, IER_LINE_STATUS),
    {
        read_bit(self.raw, IER_LINE_STATUS)
    }

    /// Transmitter holding register empty interrupt enabled.
    pub fn thr_empty(&self) -> (r: bool)
        ensures
            r == bit_is_set(self@, IER_THR_EMPTY),
    {
        read_bit(self.raw, IER_THR_EMPTY)
    }

    /// Received data available interrupt enabled.
    pub fn rx_avl(&self) -> (r: bool)
        ensures
            r == bit_is_set(self@, IER_RX_AVL),
    {
        read_bit(self.raw, IER_RX_AVL)
    }

    /// Set the modem status interrupt enable bit.
    pub fn set_modem_status(&mut self, value: bool)
        ensures
            final(self)@ == with_bit(old(self)@, IER_MODEM_STATUS, value),
    {
        self.raw = write_bit(self.raw, IER_MODEM_STATUS, value);
    }

    /// Set the receiver line status interrupt enable bit.
    pub fn set_line_status(&mut self, value: bool)
        ensures
            final(self)@ == with_bit(old(self)@, IER_LINE_STATUS, value),
    {
        self.raw = write_bit(self.raw, IER_LINE_STATUS, value);
    }

    /// Set the transmitter holding register empty interrupt enable bit.
    pub fn set_thr_empty(&mut self, value: bool)
        ensures
            final(self)@ == with_bit(old(self)@, IER_THR_EMPTY, value),
    {
        self.raw = write_bit(self.raw, IER_THR_EMPTY, value);
    }

    /// Set the received data available interrupt enable bit.
    pub fn set_rx_avl(&mut self, value: bool)
        ensures
            final(self)@ == with_bit(old(self)@, IER_RX_AVL, value),
    {
        self.raw = write_bit(self.raw, IER_RX_AVL, value);
    }
}

/// The FIFO control word with the given fields, all other bits zero.
pub open spec fn fifo_control_value(
    rx_fifo_trigger: RxFifoTrigger,
    dma_mode_sel: bool,
    reset_tx_fifo: bool,
    reset_rx_fifo: bool,
    fifo_enable: bool,
) -> u32 {
    with_bit(
        with_bit(
            with_bit(
                with_bit(with_field(0, FCR_RX_TRIGGER_LO, 2, rx_fifo_trigger.spec_bits()), FCR_DMA_MODE_SEL, dma_mode_sel),
                FCR_RESET_TX_FIFO,
                reset_tx_fifo,
            ),
            FCR_RESET_RX_FIFO,
            reset_rx_fifo,
        ),
        FCR_FIFO_ENABLE,
        fifo_enable,
    )
}

/// The FIFO control word holds the fields it was built from: the trigger level field and
/// the four flag bits read back as given.
pub proof fn lemma_fifo_control_value_fields(
    rx_fifo_trigger: RxFifoTrigger,
    dma_mode_sel: bool,
    reset_tx_fifo: bool,
    reset_rx_fifo: bool,
    fifo_enable: bool,
)
    ensures
        ({
            let v = fifo_control_value(rx_fifo_trigger, dma_mode_sel, reset_tx_fifo, reset_rx_fifo, fifo_enable);
            &&& field_value(v, FCR_RX_TRIGGER_LO, 2) == rx_fifo_trigger.spec_bits()
            &&& bit_is_set(v, FCR_DMA_MODE_SEL) == dma_mode_sel
            &&& bit_is_set(v, FCR_RESET_TX_FIFO) == reset_tx_fifo
            &&& bit_is_set(v, FCR_RESET_RX_FIFO) == reset_rx_fifo
            &&& bit_is_set(v, FCR_FIFO_ENABLE) == fifo_enable
        }),
{
    let t = rx_fifo_trigger.spec_bits();
    let a = with_field(0, FCR_RX_TRIGGER_LO, 2, t);
    let b = with_bit(a, FCR_DMA_MODE_SEL, dma_mode_sel);
    let c = with_bit(b, FCR_RESET_TX_FIFO, reset_tx_fifo);
    let d = with_bit(c, FCR_RESET_RX_FIFO, reset_rx_fifo);
    lemma_low_mask_values();
    lemma_field_read_after_write(0, FCR_RX_TRIGGER_LO, 2, t);
    lemma_bit_read_after_write(d, FCR_FIFO_ENABLE, fifo_enable);
    lemma_bit_read_after_write(c, FCR_RESET_RX_FIFO, reset_rx_fifo);
    lemma_bit_read_after_write(b, FCR_RESET_TX_FIFO, reset_tx_fifo);
    lemma_bit_read_after_write(a, FCR_DMA_MODE_SEL, dma_mode_sel);
    lemma_bit_write_keeps_others(d, FCR_FIFO_ENABLE, FCR_RESET_RX_FIFO, fifo_enable);
    lemma_bit_write_keeps_others(d, FCR_FIFO_ENABLE, FCR_RESET_TX_FIFO, fifo_enable);
    lemma_bit_write_keeps_others(c, FCR_RESET_RX_FIFO, FCR_RESET_TX_FIFO, reset_rx_fifo);
    lemma_bit_write_keeps_others(d, FCR_FIFO_ENABLE, FCR_DMA_MODE_SEL, fifo_enable);
    lemma_bit_write_keeps_others(c, FCR_RESET_RX_FIFO, FCR_DMA_MODE_SEL, reset_rx_fifo);
    lemma_bit_write_keeps_others(b, FCR_RESET_TX_FIFO, FCR_DMA_MODE_SEL, reset_tx_fifo);
    // The trigger level field (bits 6 and 7) is untouched by the four flag writes.
    lemma_field_untouched_by_bit(a, FCR_DMA_MODE_SEL, dma_mode_sel);
    lemma_field_untouched_by_bit(b, FCR_RESET_TX_FIFO, reset_tx_fifo);
    lemma_field_untouched_by_bit(c, FCR_RESET_RX_FIFO, reset_rx_fifo);
    lemma_field_untouched_by_bit(d, FCR_FIFO_ENABLE, fifo_enable);
}

/// Writing one of bits 0 to 3 leaves the trigger level field (bits 6 and 7) unchanged.
proof fn lemma_field_untouched_by_bit(raw: u32, n: u32, value: bool)
    requires
        n < 4,
    ensures
        field_value(with_bit(raw, n, value), FCR_RX_TRIGGER_LO, 2) == field_value(raw, FCR_RX_TRIGGER_LO, 2),
{
    if value {
        assert((((raw | (1u32 << n)) >> 6u32) & !(0xffff_ffffu32 << 2u32)) == ((raw >> 6u32) & !(0xffff_ffffu32 << 2u32))) by (bit_vector)
            requires n < 4;
    } else {
        assert((((raw & !(1u32 << n)) >> 6u32) & !(0xffff_ffffu32 << 2u32)) == ((raw >> 6u32) & !(0xffff_ffffu32 << 2u32))) by (bit_vector)
            requires n < 4;
    }
}

/// FIFO control register.
#[derive(Debug, Clone, Copy, PartialEq, Eq)]
pub struct FifoControl {
    raw: u32,
}

impl View for FifoControl {
    type V = u32;

    closed spec fn view(&self) -> u32 {
        self.raw
    }
}

impl FifoControl {
    /// Register with the given raw value.
    pub fn new_with_raw_value(raw: u32) -> (r: Self)
        ensures
            r@ == raw,
    {
        FifoControl { raw }
    }

    /// Raw register value.
    pub fn raw_value(&self) -> (r: u32)
        ensures
            r == self@,
    {
        self.raw
    }

    /// The FIFO control word with the given fields, all other bits zero.
    pub fn build(
        rx_fifo_trigger: RxFifoTrigger,
        dma_mode_sel: bool,
        reset_tx_fifo: bool,
        reset_rx_fifo: bool,
        fifo_enable: bool,
    ) -> (r: Self)
        ensures
            r@ == fifo_control_value(rx_fifo_trigger, dma_mode_sel, reset_tx_fifo, reset_rx_fifo, fifo_enable),
    {
        let raw = write_field(0, FCR_RX_TRIGGER_LO, 2, rx_fifo_trigger.bits());
        let raw = write_bit(raw, FCR_DMA_MODE_SEL, dma_mode_sel);
        let raw = write_bit(raw, FCR_RESET_TX_FIFO, reset_tx_fifo);
        let raw = write_bit(raw, FCR_RESET_RX_FIFO, reset_rx_fifo);
        let raw = write_bit(raw, FCR_FIFO_ENABLE, fifo_enable);
        FifoControl { raw }
    }

    /// RX FIFO trigger level.
    pub fn rx_fifo_trigger(&self) -> (r: RxFifoTrigger)
        ensures
            r.spec_bits() == field_value(self@, FCR_RX_TRIGGER_LO, 2),
    {
        proof {
            lemma_low_mask_values();
        }
        RxFifoTrigger::from_bits(read_field(self.raw, FCR_RX_TRIGGER_LO, 2))
    }

    /// DMA mode select.
    pub fn dma_mode_sel(&self) -> (r: bool)
        ensures
            r == bit_is_set(self@, FCR_DMA_MODE_SEL),
    {
        read_bit(self.raw, FCR_DMA_MODE_SEL)
    }

    /// Reset TX FIFO.
    pub fn reset_tx_fifo(&self) -> (r: bool)
        ensures
            r == bit_is_set(self@, FCR_RESET_TX_FIFO),
    {
        read_bit(self.raw, FCR_RESET_TX_FIFO)
    }

    /// Reset RX FIFO.
    pub fn reset_rx_fifo(&self) -> (r: bool)
        ensures
            r == bit_is_set(self@, FCR_RESET_RX_FIFO),
    {
        read_bit(self.raw, FCR_RESET_RX_FIFO)
    }

    /// FIFO enable.
    pub fn fifo_enable(&self) -> (r: bool)
        ensures
            r == bit_is_set(self@, FCR_FIFO_ENABLE),
    {
        read_bit(self.raw, FCR_FIFO_ENABLE)
    }
}

/// Interrupt identification register.
#[derive(Debug, Clone, Copy, PartialEq, Eq)]
pub struct InterruptIdentification {
    raw: u32,
}

impl View for InterruptIdentification {
    type V = u32;

    closed spec fn view(&self) -> u32 {
        self.raw
    }
}

impl InterruptIdentification {
    /// Register with the given raw value.
    pub fn new_with_raw_value(raw: u32) -> (r: Self)
        ensures
            r@ == raw,
    {
        InterruptIdentification { raw }
    }

    /// Raw register value.
    pub fn raw_value(&self) -> (r: u32)
        ensures
            r == self@,
    {
        self.raw
    }

    /// FIFOs enabled field (bits 6 and 7).
    pub fn fifos_enabled(&self) -> (r: u32)
        ensures
            r == field_value(self@, IIR_FIFOS_ENABLED_LO, 2),
            r < 4,
    {
        proof {
            lemma_low_mask_values();
        }
        read_field(self.raw, IIR_FIFOS_ENABLED_LO, 2)
    }

    /// Whether an interrupt is pending (the pending flag is active low).
    pub fn int_pending(&self) -> (r: bool)
        ensures
            r == !bit_is_set(self@, IIR_NO_INT_PENDING),
    {
        !read_bit(self.raw, IIR_NO_INT_PENDING)
    }

    /// Interrupt identifier; the raw three-bit value if it names no interrupt source.
    pub fn int_id(&self) -> (r: Result<InterruptId2, u32>)
        ensures
            match r {
                Ok(id) => id.spec_bits() == field_value(self@, IIR_INT_ID_LO, 3),
                Err(bits) => bits == field_value(self@, IIR_INT_ID_LO, 3) && bits != 0b000
                    && bits != 0b001 && bits != 0b010 && bits != 0b011 && bits != 0b110,
            },
    {
        let bits = read_field(self.raw, IIR_INT_ID_LO, 3);
        if bits == 0b000 {
            Ok(InterruptId2::ModemStatus)
        } else if bits == 0b001 {
            Ok(InterruptId2::ThrEmpty)
        } else if bits == 0b010 {
            Ok(InterruptId2::RxDataAvailable)
        } else if bits == 0b011 {
            Ok(InterruptId2::ReceiverLineStatus)
        } else if bits == 0b110 {
            Ok(InterruptId2::CharTimeout)
        } else {
            Err(bits)
        }
    }
}

/// UART16550 register block, with typed access to its eight registers.
pub struct MmioRegisters {
    block: RegisterBlock<8>,
}

impl MmioRegisters {
    /// The accesses made through this handle so far, oldest first.
    pub closed spec fn ops(&self) -> Seq<BusOp> {
        self.block.ops()
    }

    /// Handle on the given register cells, with an empty trace.
    pub fn new(cells: &'static [VolatileCell<u32>; 8]) -> (r: Self)
        ensures
            r.ops() == Seq::<BusOp>::empty(),
    {
        MmioRegisters { block: RegisterBlock::new(cells) }
    }

    /// Whether two handles access the same hardware registers.
    pub closed spec fn same_registers(&self, other: &Self) -> bool {
        self.block.same_block(&other.block)
    }

    /// A second handle on the same registers, with an empty trace.
    pub fn duplicate(&self) -> (r: Self)
        ensures
            r.ops() == Seq::<BusOp>::empty(),
            r.same_registers(self),
    {
        MmioRegisters { block: self.block.duplicate() }
    }

    /// Read register `index` and record the read.
    pub fn read(&mut self, index: usize) -> (value: u32)
        requires
            index < REGISTER_WORDS,
        ensures
            final(self).ops() == old(self).ops().push(BusOp::Read { index, value }),
    {
        self.block.read(index)
    }

    /// Write register `index` and record the write.
    pub fn write(&mut self, index: usize, value: u32)
        requires
            index < REGISTER_WORDS,
        ensures
            final(self).ops() == old(self).ops().push(BusOp::Write { index, value }),
    {
        self.block.write(index, value)
    }

    /// Read the RX FIFO (or the divisor LSB).
    pub fn read_fifo_or_dll(&mut self) -> (value: u32)
        ensures
            final(self).ops() == old(self).ops().push(BusOp::Read { index: FIFO_OR_DLL_INDEX, value }),
    {
        self.block.read(FIFO_OR_DLL_INDEX)
    }

    /// Write the TX FIFO (or the divisor LSB).
    pub fn write_fifo_or_dll(&mut self, value: u32)
        ensures
            final(self).ops() == old(self).ops().push(BusOp::Write { index: FIFO_OR_DLL_INDEX, value }),
    {
        self.block.write(FIFO_OR_DLL_INDEX, value)
    }

    /// Read the interrupt enable register (or the divisor MSB).
    pub fn read_ier_or_dlm(&mut self) -> (value: u32)
        ensures
            final(self).ops() == old(self).ops().push(BusOp::Read { index: IER_OR_DLM_INDEX, value }),
    {
        self.block.read(IER_OR_DLM_INDEX)
    }

    /// Write the interrupt enable register (or the divisor MSB).
    pub fn write_ier_or_dlm(&mut self, value: u32)
        ensures
            final(self).ops() == old(self).ops().push(BusOp::Write { index: IER_OR_DLM_INDEX, value }),
    {
        self.block.write(IER_OR_DLM_INDEX, value)
    }

    /// Read the interrupt identification register.
    pub fn read_iir_or_fcr(&mut self) -> (value: u32)
        ensures
            final(self).ops() == old(self).ops().push(BusOp::Read { index: IIR_OR_FCR_INDEX, value }),
    {
        self.block.read(IIR_OR_FCR_INDEX)
    }

    /// Write the FIFO control register.
    pub fn write_iir_or_fcr(&mut self, value: u32)
        ensures
            final(self).ops() == old(self).ops().push(BusOp::Write { index: IIR_OR_FCR_INDEX, value }),
    {
        self.block.write(IIR_OR_FCR_INDEX, value)
    }

    /// Write the line control register.
    pub fn write_lcr(&mut self, value: LineControl)
        ensures
            final(self).ops() == old(self).ops().push(BusOp::Write { index: LCR_INDEX, value: value@ }),
    {
        self.block.write(LCR_INDEX, value.raw_value())
    }

    /// Read the line status register.
    pub fn read_lsr(&mut self) -> (r: LineStatus)
        ensures
            final(self).ops() == old(self).ops().push(BusOp::Read { index: LSR_INDEX, value: r@ }),
    {
        LineStatus::new_with_raw_value(self.block.read(LSR_INDEX))
    }
}

} // verus!
