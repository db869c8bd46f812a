//! # AMD AXI UART16550 driver
//!
//! Driver for the AMD AXI UART16550 IP core. The driver works on the core's 16550 register
//! set, handed to it as eight volatile 32-bit cells; every access it makes through a mutable
//! handle is recorded in the ghost trace of that handle.
pub mod registers;
pub mod rx;
pub mod tx;
pub mod tx_async;

use crate::bits::{
    bit_is_set, field_value, lemma_bit_read_after_write, lemma_bit_write_keeps_others,
    lemma_field_read_after_write, lemma_field_write_keeps_others, lemma_low_mask_values, with_bit,
};
use crate::mmio::BusOp;
use crate::uart16550::registers::{
    fifo_control_value, line_control_value, FifoControl, InterruptEnable, LineControl,
    MmioRegisters, RxFifoTrigger, StopBits, WordLen, FIFO_OR_DLL_INDEX, IER_OR_DLM_INDEX,
    IIR_OR_FCR_INDEX, LCR_DIV_ACCESS_LATCH, LCR_EVEN_PARITY, LCR_INDEX, LCR_PARITY_ENABLE,
    LCR_SET_BREAK, LCR_STICK_PARITY, LCR_STOP_BITS, LCR_WORD_LEN_LO, LSR_DATA_READY, LSR_INDEX,
    LSR_THR_EMPTY, LSR_TX_EMPTY,
};
use crate::uart16550::rx::{Rx, RxErrors};
use crate::uart16550::tx::Tx;
use crate::WouldBlock;
use vcell::VolatileCell;
use vstd::prelude::*;

verus! {

/// Maximum FIFO depth of the AXI UART16550.
pub const FIFO_DEPTH: usize = 16;

/// Default RX FIFO trigger level.
pub const DEFAULT_RX_TRIGGER_LEVEL: RxFifoTrigger = RxFifoTrigger::EightBytes;

/// Clock configuration structure.
#[derive(Debug, PartialEq, Eq, Clone, Copy)]
pub struct ClockConfig {
    /// Divisor value.
    pub div: u16,
}

/// Divisor is zero error.
#[derive(Debug, PartialEq, Eq, Clone, Copy)]
pub struct DivisorZeroError;

/// If this error occurs, the calculated baudrate divisor is too large, either because the
/// used clock is too large, or the baudrate is too slow for the used clock frequency.
#[derive(Debug, PartialEq, Eq, Clone, Copy)]
pub enum ClockConfigError {
    /// Divisor too large error.
    DivisorTooLargeError(u32),
    /// Divisor is zero error.
    DivisorZero(DivisorZeroError),
}

impl From<DivisorZeroError> for ClockConfigError {
    fn from(e: DivisorZeroError) -> (r: Self) {
        ClockConfigError::DivisorZero(e)
    }
}

impl vstd::std_specs::convert::FromSpecImpl<DivisorZeroError> for ClockConfigError {
    open spec fn obeys_from_spec() -> bool {
        true
    }

    open spec fn from_spec(v: DivisorZeroError) -> Self {
        ClockConfigError::DivisorZero(v)
    }
}

/// The deviation of the baud rate that a divisor gives from the target baud rate, as the
/// exact fraction `deviation / reference` (a value between 0.0 and 1.0 for usable settings).
///
/// With clock `clk`, divisor `div` and target baud rate `baud`, the actual baud rate is
/// `clk / (16 div)`, so the relative error `|clk / (16 div) - baud| / baud` equals
/// `|clk - 16 div baud| / (16 div baud)`.
#[derive(Debug, PartialEq, Eq, Clone, Copy)]
pub struct BaudErrorRate {
    /// `|clk - 16 div baud|`.
    pub deviation: u64,
    /// `16 div baud`, never zero.
    pub reference: u64,
}

/// The divisor that [ClockConfig::calc_div_with_integer_div] computes: `clk / (16 baud)`
/// rounded to the nearest integer (halves rounded up).
pub open spec fn rounded_divisor(clk_in: u32, baudrate: u32) -> int {
    (clk_in + 8 * baudrate) / (16 * baudrate)
}

/// Whether `clk_in` and `baudrate` stay within the 32-bit arithmetic of the divisor
/// calculation.
pub open spec fn divisor_calc_fits(clk_in: u32, baudrate: u32) -> bool {
    baudrate == 0 || (clk_in + 8 * baudrate <= u32::MAX && 16 * baudrate <= u32::MAX)
}

/// The error rate of the given divisor: deviation `|clk - 16 div baud|` over `16 div baud`.
pub open spec fn error_rate_of(clk_in: u32, baudrate: u32, div: u16) -> BaudErrorRate {
    let reference = 16 * div * baudrate;
    BaudErrorRate {
        deviation: (if clk_in >= reference { clk_in - reference } else { reference - clk_in }) as u64,
        reference: reference as u64,
    }
}

/// The error rate of a divisor is the distance of the baud rate clock `16 div baud` from the
/// input clock, over that baud rate clock: the reference is `16 div baud`, and the deviation
/// is the non-negative amount that takes one of the two clocks to the other. So the rate is
/// `|clk / (16 div) - baud| / baud`, whichever of the two is larger.
pub proof fn lemma_error_rate_is_distance(clk_in: u32, baudrate: u32, div: u16)
    requires
        baudrate > 0,
        div > 0,
    ensures
        error_rate_of(clk_in, baudrate, div).reference == 16 * div * baudrate,
        error_rate_of(clk_in, baudrate, div).reference > 0,
        clk_in + error_rate_of(clk_in, baudrate, div).deviation == 16 * div * baudrate
            || 16 * div * baudrate + error_rate_of(clk_in, baudrate, div).deviation == clk_in,
        clk_in > 16 * div * baudrate ==> error_rate_of(clk_in, baudrate, div).deviation > 0,
        clk_in < 16 * div * baudrate ==> error_rate_of(clk_in, baudrate, div).deviation > 0,
{
    assert(0 < 16 * (div as int) * (baudrate as int) <= 16 * 0xffff * 0xffff_ffff) by (nonlinear_arith)
        requires
            0 < div <= 0xffff,
            0 < baudrate <= 0xffff_ffff,
    ;
}

/// Calculate the error rate of the baudrate with the given clock frequency (in Hz), baudrate
/// and divisor as an exact fraction between 0 and 1.
pub fn calculate_error_rate_from_div(clk_in: u32, baudrate: u32, div: u16) -> (r: Result<BaudErrorRate, DivisorZeroError>)
    ensures
        (baudrate == 0 || div == 0) <==> r is Err,
        r is Ok ==> r == Ok::<BaudErrorRate, DivisorZeroError>(error_rate_of(clk_in, baudrate, div)),
        r matches Ok(e) ==> {
            &&& e.reference == 16 * div * baudrate
            &&& clk_in >= 16 * div * baudrate ==> e.deviation == clk_in - 16 * div * baudrate
            &&& clk_in < 16 * div * baudrate ==> e.deviation == 16 * div * baudrate - clk_in
        },
{
    if baudrate == 0 || div == 0 {
        return Err(DivisorZeroError);
    }
    assert(16 * (div as int) * (baudrate as int) <= 16 * 0xffff * 0xffff_ffff) by (nonlinear_arith)
        requires
            div <= 0xffff,
            baudrate <= 0xffff_ffff,
    ;
    let reference: u64 = 16 * (div as u64) * (baudrate as u64);
    let clk = clk_in as u64;
    let deviation = if clk >= reference {
        clk - reference
    } else {
        reference - clk
    };
    Ok(BaudErrorRate { deviation, reference })
}

impl ClockConfig {
    /// New clock config with the given divisor.
    pub fn new(div: u16) -> (r: Self)
        ensures
            r.div == div,
    {
        ClockConfig { div }
    }

    /// MSB part of the divisor.
    pub fn div_msb(&self) -> (r: u8)
        ensures
            r == self.div / 256,
    {
        let d = self.div;
        assert(d >> 8u16 == d / 256) by (bit_vector);
        (d >> 8u16) as u8
    }

    /// LSB part of the divisor.
    pub fn div_lsb(&self) -> (r: u8)
        ensures
            r == self.div % 256,
    {
        (self.div % 256) as u8
    }

    /// The two divisor bytes put back together give the divisor.
    pub proof fn lemma_div_bytes(div: u16)
        ensures
            (div / 256) * 256 + div % 256 == div,
            div / 256 < 256,
    {
    }

    /// This function calculates the required divisor values for a given input clock (in Hz)
    /// and baudrate as well as an baud error rate.
    pub fn new_autocalc_with_error(clk_in: u32, baudrate: u32) -> (r: Result<(Self, BaudErrorRate), ClockConfigError>)
        requires
            divisor_calc_fits(clk_in, baudrate),
        ensures
            baudrate == 0 ==> r == Err::<(Self, BaudErrorRate), ClockConfigError>(ClockConfigError::DivisorZero(DivisorZeroError)),
            baudrate != 0 && rounded_divisor(clk_in, baudrate) > u16::MAX ==> r == Err::<(Self, BaudErrorRate), ClockConfigError>(
                ClockConfigError::DivisorTooLargeError(rounded_divisor(clk_in, baudrate) as u32),
            ),
            baudrate != 0 && rounded_divisor(clk_in, baudrate) == 0 ==> r == Err::<(Self, BaudErrorRate), ClockConfigError>(
                ClockConfigError::DivisorZero(DivisorZeroError),
            ),
            baudrate != 0 && 0 < rounded_divisor(clk_in, baudrate) <= u16::MAX ==> r == Ok::<(Self, BaudErrorRate), ClockConfigError>(
                (
                    ClockConfig { div: rounded_divisor(clk_in, baudrate) as u16 },
                    error_rate_of(clk_in, baudrate, rounded_divisor(clk_in, baudrate) as u16),
                ),
            ),
    {
        let cfg = match Self::new_autocalc(clk_in, baudrate) {
            Ok(cfg) => cfg,
            Err(e) => return Err(e),
        };
        match cfg.calculate_error_rate(clk_in, baudrate) {
            Ok(rate) => Ok((cfg, rate)),
            Err(e) => Err(ClockConfigError::DivisorZero(e)),
        }
    }

    /// This function calculates the required divisor values for a given input clock (in Hz)
    /// and baudrate.
    ///
    /// The function will not calculate the error rate. You can use [Self::calculate_error_rate]
    /// to check the error rate, or use the [Self::new_autocalc_with_error] function to get both
    /// the clock config and its baud error.
    pub fn new_autocalc(clk_in: u32, baudrate: u32) -> (r: Result<Self, ClockConfigError>)
        requires
            divisor_calc_fits(clk_in, baudrate),
        ensures
            baudrate == 0 ==> r == Err::<Self, ClockConfigError>(ClockConfigError::DivisorZero(DivisorZeroError)),
            baudrate != 0 && rounded_divisor(clk_in, baudrate) > u16::MAX ==> r == Err::<Self, ClockConfigError>(
                ClockConfigError::DivisorTooLargeError(rounded_divisor(clk_in, baudrate) as u32),
            ),
            baudrate != 0 && rounded_divisor(clk_in, baudrate) <= u16::MAX ==> r == Ok::<Self, ClockConfigError>(
                ClockConfig { div: rounded_divisor(clk_in, baudrate) as u16 },
            ),
    {
        let div = match Self::calc_div_with_integer_div(clk_in, baudrate) {
            Ok(div) => div,
            Err(e) => return Err(ClockConfigError::DivisorZero(e)),
        };
        if div > u16::MAX as u32 {
            return Err(ClockConfigError::DivisorTooLargeError(div));
        }
        Ok(ClockConfig { div: div as u16 })
    }

    /// Calculate the error rate of the baudrate with the given clock frequency (in Hz),
    /// baudrate and the current clock config as an exact fraction between 0 and 1.
    pub fn calculate_error_rate(&self, clk_in: u32, baudrate: u32) -> (r: Result<BaudErrorRate, DivisorZeroError>)
        ensures
            (baudrate == 0 || self.div == 0) <==> r is Err,
            r is Ok ==> r == Ok::<BaudErrorRate, DivisorZeroError>(error_rate_of(clk_in, baudrate, self.div)),
    {
        calculate_error_rate_from_div(clk_in, baudrate, self.div)
    }

    /// Calculate the divisor from an input clock (in Hz) for a give target baudrate.
    ///
    /// Rounding integer division, by adding half the divisor to the dividend.
    pub fn calc_div_with_integer_div(clk_in: u32, baudrate: u32) -> (r: Result<u32, DivisorZeroError>)
        requires
            divisor_calc_fits(clk_in, baudrate),
        ensures
            baudrate == 0 <==> r is Err,
            r is Ok ==> r == Ok::<u32, DivisorZeroError>(rounded_divisor(clk_in, baudrate) as u32),
    {
        if baudrate == 0 {
            return Err(DivisorZeroError);
        }
        Ok((clk_in + (8 * baudrate)) / (16 * baudrate))
    }

    /// The computed divisor is the nearest one: the baud rate clock `16 baud div` is at most
    /// half a divisor step (`8 baud`) away from the input clock.
    pub proof fn lemma_rounded_divisor_is_nearest(clk_in: u32, baudrate: u32)
        requires
            baudrate > 0,
        ensures
            16 * baudrate * rounded_divisor(clk_in, baudrate) <= clk_in + 8 * baudrate,
            clk_in + 8 * baudrate < 16 * baudrate * (rounded_divisor(clk_in, baudrate) + 1),
            -8 * baudrate <= clk_in - 16 * baudrate * rounded_divisor(clk_in, baudrate) < 8 * baudrate,
    {
        let x = clk_in + 8 * baudrate;
        let d = 16 * baudrate;
        vstd::arithmetic::div_mod::lemma_fundamental_div_mod(x as int, d as int);
        vstd::arithmetic::div_mod::lemma_mod_bound(x as int, d as int);
        vstd::arithmetic::mul::lemma_mul_is_commutative(d as int, x / d);
        assert(d * (x / d + 1) == d * (x / d) + d) by (nonlinear_arith);
    }

    /// With the computed divisor the error rate is at most one half: the deviation is at most
    /// half the reference.
    pub proof fn lemma_autocalc_error_rate_at_most_half(clk_in: u32, baudrate: u32)
        requires
            baudrate > 0,
            0 < rounded_divisor(clk_in, baudrate) <= u16::MAX,
        ensures
            2 * error_rate_of(clk_in, baudrate, rounded_divisor(clk_in, baudrate) as u16).deviation
                <= error_rate_of(clk_in, baudrate, rounded_divisor(clk_in, baudrate) as u16).reference,
    {
        let d = rounded_divisor(clk_in, baudrate);
        Self::lemma_rounded_divisor_is_nearest(clk_in, baudrate);
        assert(16 * baudrate * d >= 16 * baudrate) by (nonlinear_arith)
            requires
                d >= 1,
                baudrate > 0,
        ;
        assert(16 * (d as u16) * baudrate == 16 * baudrate * d) by (nonlinear_arith)
            requires
                0 < d <= u16::MAX,
        ;
        assert(16 * baudrate * d <= 16 * 0xffff * 0xffff_ffff) by (nonlinear_arith)
            requires
                0 < d <= u16::MAX,
                baudrate <= u32::MAX,
        ;
    }
}

/// Parity configuration.
#[derive(Debug, PartialEq, Eq, Clone, Copy, Structural)]
pub enum Parity {
    /// No parity (default).
    Disabled,
    /// Odd parity.
    Odd,
    /// Even parity.
    Even,
}

impl Default for Parity {
    fn default() -> (r: Self)
        ensures
            r == Parity::Disabled,
    {
        Parity::Disabled
    }
}

/// UART configuration structure.
#[derive(Debug, PartialEq, Eq, Clone, Copy)]
pub struct UartConfig {
    clk: ClockConfig,
    word_len: WordLen,
    parity: Parity,
    stop_bits: StopBits,
}

/// The line control word that [AxiUart16550::new] writes for a configuration.
pub open spec fn config_line_control(config: UartConfig) -> u32 {
    line_control_value(
        config.spec_word_len(),
        config.spec_parity() == Parity::Even,
        config.spec_parity() != Parity::Disabled,
        config.spec_stop_bits(),
    )
}

impl UartConfig {
    /// Clock configuration.
    pub closed spec fn spec_clk(&self) -> ClockConfig {
        self.clk
    }

    /// Word length.
    pub closed spec fn spec_word_len(&self) -> WordLen {
        self.word_len
    }

    /// Parity.
    pub closed spec fn spec_parity(&self) -> Parity {
        self.parity
    }

    /// Stop bits.
    pub closed spec fn spec_stop_bits(&self) -> StopBits {
        self.stop_bits
    }

    /// New with the given clock configuration: eight data bits, no parity, one stop bit.
    pub fn new_with_clk_config(clk: ClockConfig) -> (r: Self)
        ensures
            r.spec_clk() == clk,
            r.spec_word_len() == WordLen::Eight,
            r.spec_parity() == Parity::Disabled,
            r.spec_stop_bits() == StopBits::One,
    {
        UartConfig { clk, word_len: WordLen::Eight, parity: Parity::Disabled, stop_bits: StopBits::One }
    }

    /// New with all parameters.
    pub fn new(clk: ClockConfig, word_len: WordLen, parity: Parity, stop_bits: StopBits) -> (r: Self)
        ensures
            r.spec_clk() == clk,
            r.spec_word_len() == word_len,
            r.spec_parity() == parity,
            r.spec_stop_bits() == stop_bits,
    {
        UartConfig { clk, word_len, parity, stop_bits }
    }
}

/// The line control word for a configuration holds the configured frame format, with the
/// divisor latch, break and stick parity bits clear.
pub proof fn lemma_line_control_encodes_config(config: UartConfig)
    ensures
        field_value(config_line_control(config), LCR_WORD_LEN_LO, 2) == config.spec_word_len().spec_bits(),
        bit_is_set(config_line_control(config), LCR_STOP_BITS) == (config.spec_stop_bits() == StopBits::Two),
        bit_is_set(config_line_control(config), LCR_PARITY_ENABLE) == (config.spec_parity() != Parity::Disabled),
        bit_is_set(config_line_control(config), LCR_EVEN_PARITY) == (config.spec_parity() == Parity::Even),
        !bit_is_set(config_line_control(config), LCR_STICK_PARITY),
        !bit_is_set(config_line_control(config), LCR_SET_BREAK),
        !bit_is_set(config_line_control(config), LCR_DIV_ACCESS_LATCH),
{
    let even = config.spec_parity() == Parity::Even;
    let pen = config.spec_parity() != Parity::Disabled;
    let two = config.spec_stop_bits().spec_flag();
    let b0 = with_bit(0, LCR_DIV_ACCESS_LATCH, false);
    let b1 = with_bit(b0, LCR_SET_BREAK, false);
    let b2 = with_bit(b1, LCR_STICK_PARITY, false);
    let b3 = with_bit(b2, LCR_EVEN_PARITY, even);
    let b4 = with_bit(b3, LCR_PARITY_ENABLE, pen);
    let b5 = with_bit(b4, LCR_STOP_BITS, two);
    lemma_low_mask_values();
    lemma_field_read_after_write(b5, LCR_WORD_LEN_LO, 2, config.spec_word_len().spec_bits());
    lemma_field_write_keeps_others(b5, LCR_WORD_LEN_LO, 2, config.spec_word_len().spec_bits(), LCR_STOP_BITS);
    lemma_field_write_keeps_others(b5, LCR_WORD_LEN_LO, 2, config.spec_word_len().spec_bits(), LCR_PARITY_ENABLE);
    lemma_field_write_keeps_others(b5, LCR_WORD_LEN_LO, 2, config.spec_word_len().spec_bits(), LCR_EVEN_PARITY);
    lemma_field_write_keeps_others(b5, LCR_WORD_LEN_LO, 2, config.spec_word_len().spec_bits(), LCR_STICK_PARITY);
    lemma_field_write_keeps_others(b5, LCR_WORD_LEN_LO, 2, config.spec_word_len().spec_bits(), LCR_SET_BREAK);
    lemma_field_write_keeps_others(b5, LCR_WORD_LEN_LO, 2, config.spec_word_len().spec_bits(), LCR_DIV_ACCESS_LATCH);
    lemma_bit_read_after_write(b4, LCR_STOP_BITS, two);
    lemma_bit_write_keeps_others(b4, LCR_STOP_BITS, LCR_PARITY_ENABLE, two);
    lemma_bit_write_keeps_others(b4, LCR_STOP_BITS, LCR_EVEN_PARITY, two);
    lemma_bit_write_keeps_others(b4, LCR_STOP_BITS, LCR_STICK_PARITY, two);
    lemma_bit_write_keeps_others(b4, LCR_STOP_BITS, LCR_SET_BREAK, two);
    lemma_bit_write_keeps_others(b4, LCR_STOP_BITS, LCR_DIV_ACCESS_LATCH, two);
    lemma_bit_read_after_write(b3, LCR_PARITY_ENABLE, pen);
    lemma_bit_write_keeps_others(b3, LCR_PARITY_ENABLE, LCR_EVEN_PARITY, pen);
    lemma_bit_write_keeps_others(b3, LCR_PARITY_ENABLE, LCR_STICK_PARITY, pen);
    lemma_bit_write_keeps_others(b3, LCR_PARITY_ENABLE, LCR_SET_BREAK, pen);
    lemma_bit_write_keeps_others(b3, LCR_PARITY_ENABLE, LCR_DIV_ACCESS_LATCH, pen);
    lemma_bit_read_after_write(b2, LCR_EVEN_PARITY, even);
    lemma_bit_write_keeps_others(b2, LCR_EVEN_PARITY, LCR_STICK_PARITY, even);
    lemma_bit_write_keeps_others(b2, LCR_EVEN_PARITY, LCR_SET_BREAK, even);
    lemma_bit_write_keeps_others(b2, LCR_EVEN_PARITY, LCR_DIV_ACCESS_LATCH, even);
    lemma_bit_read_after_write(b1, LCR_STICK_PARITY, false);
    lemma_bit_write_keeps_others(b1, LCR_STICK_PARITY, LCR_SET_BREAK, false);
    lemma_bit_write_keeps_others(b1, LCR_STICK_PARITY, LCR_DIV_ACCESS_LATCH, false);
    lemma_bit_read_after_write(b0, LCR_SET_BREAK, false);
    lemma_bit_write_keeps_others(b0, LCR_SET_BREAK, LCR_DIV_ACCESS_LATCH, false);
    lemma_bit_read_after_write(0, LCR_DIV_ACCESS_LATCH, false);
}

/// The register writes that [AxiUart16550::new] makes for a configuration, in order: unlock
/// the divisor registers, write divisor LSB and MSB, write the line control word (which locks
/// the divisor registers again), disable all interrupts, and enable and reset both FIFOs with
/// the default RX trigger level.
pub open spec fn init_sequence(config: UartConfig) -> Seq<BusOp> {
    seq![
        BusOp::Write { index: LCR_INDEX, value: with_bit(0, LCR_DIV_ACCESS_LATCH, true) },
        BusOp::Write { index: FIFO_OR_DLL_INDEX, value: (config.spec_clk().div % 256) as u32 },
        BusOp::Write { index: IER_OR_DLM_INDEX, value: (config.spec_clk().div / 256) as u32 },
        BusOp::Write { index: LCR_INDEX, value: config_line_control(config) },
        BusOp::Write { index: IER_OR_DLM_INDEX, value: 0 },
        BusOp::Write {
            index: IIR_OR_FCR_INDEX,
            value: fifo_control_value(RxFifoTrigger::EightBytes, false, true, true, true),
        },
    ]
}

/// Initialization programs the configured divisor: first the divisor latch access bit is set
/// in the line control register, then the two values written to the divisor latch registers
/// (DLL at word 0, DLM at word 1) are bytes that recombine to the divisor, `dlm * 256 + dll`;
/// only after that is the line control word written, which clears the latch access bit.
pub proof fn lemma_init_programs_divisor(config: UartConfig)
    ensures
        init_sequence(config).len() == 6,
        init_sequence(config)[0] == (BusOp::Write { index: LCR_INDEX, value: init_sequence(config)[0].value() }),
        bit_is_set(init_sequence(config)[0].value(), LCR_DIV_ACCESS_LATCH),
        init_sequence(config)[1] == (BusOp::Write { index: FIFO_OR_DLL_INDEX, value: init_sequence(config)[1].value() }),
        init_sequence(config)[2] == (BusOp::Write { index: IER_OR_DLM_INDEX, value: init_sequence(config)[2].value() }),
        init_sequence(config)[1].value() < 256,
        init_sequence(config)[2].value() < 256,
        init_sequence(config)[2].value() * 256 + init_sequence(config)[1].value() == config.spec_clk().div,
        init_sequence(config)[3] == (BusOp::Write { index: LCR_INDEX, value: init_sequence(config)[3].value() }),
        !bit_is_set(init_sequence(config)[3].value(), LCR_DIV_ACCESS_LATCH),
{
    lemma_bit_read_after_write(0, LCR_DIV_ACCESS_LATCH, true);
    lemma_line_control_encodes_config(config);
    ClockConfig::lemma_div_bytes(config.spec_clk().div);
}

/// AXI UART16550 peripheral driver.
pub struct AxiUart16550 {
    rx: Rx,
    tx: Tx,
    config: UartConfig,
}

impl AxiUart16550 {
    /// The RX half.
    pub closed spec fn rx_half(&self) -> Rx {
        self.rx
    }

    /// The TX half.
    pub closed spec fn tx_half(&self) -> Tx {
        self.tx
    }

    /// The configuration the driver was created with.
    pub closed spec fn spec_config(&self) -> UartConfig {
        self.config
    }

    /// Create a new AXI UART16550 peripheral driver on the given register block and
    /// configure the UART.
    ///
    /// The configuration writes are made through the handle that becomes the TX half; the RX
    /// half gets a handle on the same registers with an empty trace.
    pub fn new(cells: &'static [VolatileCell<u32>; 8], config: UartConfig) -> (r: Self)
        ensures
            r.tx_half().ops() == init_sequence(config),
            r.rx_half().ops() == Seq::<BusOp>::empty(),
            r.rx_half().last_errors() == None::<RxErrors>,
            r.spec_config() == config,
            r.rx_half().registers().same_registers(&r.tx_half().registers()),
            r.tx_half().ops()[2].value() * 256 + r.tx_half().ops()[1].value() == config.spec_clk().div,
    {
        proof {
            lemma_init_programs_divisor(config);
        }
        let mut regs = MmioRegisters::new(cells);
        // This unlocks the divisor config registers.
        regs.write_lcr(LineControl::new_for_divisor_access());
        regs.write_fifo_or_dll(config.clk.div_lsb() as u32);
        regs.write_ier_or_dlm(config.clk.div_msb() as u32);
        // Configure all other settings and reset the div acess latch. This is important
        // for accessing IER and the FIFO control register again.
        let even = match config.parity {
            Parity::Even => true,
            _ => false,
        };
        let enable = match config.parity {
            Parity::Disabled => false,
            _ => true,
        };
        regs.write_lcr(LineControl::for_frame_format(config.word_len, even, enable, config.stop_bits));
        // Disable all interrupts.
        regs.write_ier_or_dlm(InterruptEnable::new_with_raw_value(0x0).raw_value());
        // Enable FIFO, configure 8 bytes FIFO trigger by default.
        regs.write_iir_or_fcr(
            FifoControl::build(DEFAULT_RX_TRIGGER_LEVEL, false, true, true, true).raw_value(),
        );
        let rx = Rx::new(regs.duplicate());
        let tx = Tx::new(regs);
        proof {
            assert(tx.ops() =~= init_sequence(config));
        }
        AxiUart16550 { rx, tx, config }
    }

    /// Raw register access, through the register handle of the RX half.
    pub fn regs(&mut self) -> (r: &mut MmioRegisters)
        ensures
            r.ops() == old(self).rx_half().ops(),
            final(self).rx_half().ops() == final(r).ops(),
            final(self).rx_half().last_errors() == old(self).rx_half().last_errors(),
            final(self).tx_half() == old(self).tx_half(),
            final(self).spec_config() == old(self).spec_config(),
    {
        self.rx.regs_mut()
    }

    /// UART configuration.
    pub fn config(&mut self) -> (r: &UartConfig)
        ensures
            *r == old(self).spec_config(),
            *final(self) == *old(self),
    {
        &self.config
    }

    /// Write into the UART.
    ///
    /// Returns [WouldBlock] if the transmitter holding register is not empty.
    pub fn write_fifo(&mut self, data: u8) -> (r: Result<(), WouldBlock>)
        ensures
            tx::write_fifo_post(old(self).tx_half(), final(self).tx_half(), data, r),
            final(self).rx_half() == old(self).rx_half(),
            final(self).spec_config() == old(self).spec_config(),
    {
        self.tx.write_fifo(data)
    }

    /// Transmitter Holding Register empty status. Reads the line status register once, through the TX half, and returns its bit.
    pub fn thr_empty(&mut self) -> (r: bool)
        ensures
            ({
                let st = final(self).tx_half().ops()[old(self).tx_half().ops().len() as int];
                &&& st.is_read_of(LSR_INDEX)
                &&& final(self).tx_half().ops() == old(self).tx_half().ops().push(st)
                &&& r == bit_is_set(st.value(), LSR_THR_EMPTY)
            }),
            final(self).rx_half() == old(self).rx_half(),
            final(self).spec_config() == old(self).spec_config(),
    {
        self.tx.thr_empty()
    }

    /// Transmitter empty status. Reads the line status register once, through the TX half, and returns its bit.
    pub fn tx_empty(&mut self) -> (r: bool)
        ensures
            ({
                let st = final(self).tx_half().ops()[old(self).tx_half().ops().len() as int];
                &&& st.is_read_of(LSR_INDEX)
                &&& final(self).tx_half().ops() == old(self).tx_half().ops().push(st)
                &&& r == bit_is_set(st.value(), LSR_TX_EMPTY)
            }),
            final(self).rx_half() == old(self).rx_half(),
            final(self).spec_config() == old(self).spec_config(),
    {
        self.tx.tx_empty()
    }

    /// Receiver has data. Reads the line status register once, through the RX half, and returns its bit.
    pub fn rx_has_data(&mut self) -> (r: bool)
        ensures
            ({
                let st = final(self).rx_half().ops()[old(self).rx_half().ops().len() as int];
                &&& st.is_read_of(LSR_INDEX)
                &&& final(self).rx_half().ops() == old(self).rx_half().ops().push(st)
                &&& r == bit_is_set(st.value(), LSR_DATA_READY)
            }),
            final(self).rx_half().last_errors() == old(self).rx_half().last_errors(),
            final(self).tx_half() == old(self).tx_half(),
            final(self).spec_config() == old(self).spec_config(),
    {
        self.rx.has_data()
    }

    /// Write into the FIFO without checking the FIFO fill status.
    ///
    /// This can be useful to completely fill the FIFO if it is known to be empty.
    pub fn write_fifo_unchecked(&mut self, data: u8)
        ensures
            final(self).tx_half().ops() == old(self).tx_half().ops().push(
                BusOp::Write { index: FIFO_OR_DLL_INDEX, value: data as u32 },
            ),
            final(self).rx_half() == old(self).rx_half(),
            final(self).spec_config() == old(self).spec_config(),
    {
        self.tx.write_fifo_unchecked(data);
    }

    /// Read the RX FIFO.
    ///
    /// Returns [WouldBlock] if there is nothing to read.
    pub fn read_fifo(&mut self) -> (r: Result<u8, WouldBlock>)
        ensures
            rx::read_fifo_post(old(self).rx_half(), final(self).rx_half(), r),
            final(self).tx_half() == old(self).tx_half(),
            final(self).spec_config() == old(self).spec_config(),
    {
        self.rx.read_fifo()
    }

    /// Read from the FIFO without checking the FIFO fill status.
    pub fn read_fifo_unchecked(&mut self) -> (r: u8)
        ensures
            ({
                let d = final(self).rx_half().ops()[old(self).rx_half().ops().len() as int];
                &&& d.is_read_of(FIFO_OR_DLL_INDEX)
                &&& final(self).rx_half().ops() == old(self).rx_half().ops().push(d)
                &&& r == d.value() as u8
            }),
            final(self).rx_half().last_errors() == old(self).rx_half().last_errors(),
            final(self).tx_half() == old(self).tx_half(),
            final(self).spec_config() == old(self).spec_config(),
    {
        self.rx.read_fifo_unchecked()
    }

    /// Enable interrupts according to the given interrupt enable configuration.
    pub fn enable_interrupts(&mut self, ier: InterruptEnable)
        ensures
            final(self).rx_half().ops() == old(self).rx_half().ops().push(
                BusOp::Write { index: IER_OR_DLM_INDEX, value: ier@ },
            ),
            final(self).rx_half().last_errors() == old(self).rx_half().last_errors(),
            final(self).tx_half() == old(self).tx_half(),
            final(self).spec_config() == old(self).spec_config(),
    {
        self.regs().write_ier_or_dlm(ier.raw_value());
    }

    /// Whether a call that took the driver from `before` to `after` kept its configuration.
    /// Every `&mut self` method of the driver ensures this, and [Self::config] changes nothing
    /// at all: the configuration is neither read from nor written to a register after
    /// [Self::new].
    pub open spec fn keeps_config(before: AxiUart16550, after: AxiUart16550) -> bool {
        after.spec_config() == before.spec_config()
    }

    /// The configuration stays the one the driver was created with: along any run of calls
    /// on one driver (`states[i + 1]` is the driver after call `i`), each of which keeps the
    /// configuration, every state has the configuration of the first.
    pub proof fn lemma_config_stays(states: Seq<AxiUart16550>)
        requires
            states.len() > 0,
            forall|i: int| 0 <= i < states.len() - 1 ==> #[trigger] Self::keeps_config(states[i], states[i + 1]),
        ensures
            forall|i: int| 0 <= i < states.len() ==> (#[trigger] states[i]).spec_config() == states[0].spec_config(),
        decreases states.len(),
    {
        if states.len() > 1 {
            let prefix = states.drop_last();
            assert forall|i: int| 0 <= i < prefix.len() - 1 implies #[trigger] Self::keeps_config(prefix[i], prefix[i + 1]) by {
                assert(Self::keeps_config(states[i], states[i + 1]));
            }
            Self::lemma_config_stays(prefix);
            let last = states.len() - 1;
            assert(Self::keeps_config(states[last - 1], states[last - 1 + 1]));
            assert forall|i: int| 0 <= i < states.len() implies (#[trigger] states[i]).spec_config() == states[0].spec_config() by {
                assert(prefix[0] == states[0]);
                if i < last {
                    assert(prefix[i] == states[i]);
                } else {
                    assert(prefix[last - 1] == states[last - 1]);
                    assert(prefix[last - 1].spec_config() == prefix[0].spec_config());
                }
            }
        }
    }

    /// Split into TX and RX halves.
    pub fn split(self) -> (r: (Tx, Rx))
        ensures
            r.0 == self.tx_half(),
            r.1 == self.rx_half(),
    {
        (self.tx, self.rx)
    }
}

} // verus!
