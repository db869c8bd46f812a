use axi_drivers::uart16550::registers::{
    FifoControl, InterruptEnable, InterruptId2, InterruptIdentification, LineControl, LineStatus,
    RxFifoTrigger, StopBits, WordLen,
};
use axi_drivers::uart16550::rx::Rx;
use axi_drivers::uart16550::tx::Tx;
use axi_drivers::uart16550::tx_async::{
    on_interrupt_tx, start_transfer, validate_waker_index, InvalidWakerIndex, TxContext,
    TxInterruptOutcome,
};
use axi_drivers::uart16550::registers::MmioRegisters;
use axi_drivers::uart16550::{
    calculate_error_rate_from_div, AxiUart16550, BaudErrorRate, ClockConfig, ClockConfigError,
    DivisorZeroError, Parity, UartConfig,
};
use axi_drivers::WouldBlock;
use fugit::RateExtU32;
use vcell::VolatileCell;

const FIFO: usize = 0;
const IER: usize = 1;
const IIR_FCR: usize = 2;
const LCR: usize = 3;
const LSR: usize = 5;

fn cells() -> &'static [VolatileCell<u32>; 8] {
    Box::leak(Box::new([const { VolatileCell::new(0u32) }; 8]))
}

fn hz(rate: fugit::HertzU32) -> u32 {
    rate.raw()
}

fn as_f32(rate: BaudErrorRate) -> f32 {
    rate.deviation as f32 / rate.reference as f32
}

fn abs_diff_le(a: f32, b: f32, epsilon: f32) -> bool {
    (a - b).abs() <= epsilon
}

#[test]
fn test_clk_calc_example_0() {
    let clk_cfg = ClockConfig::new_autocalc(hz(100.MHz()), 56000).unwrap();
    // For some reason, the Xilinx example rounds up here..
    assert_eq!(clk_cfg.div, 0x0070);
    assert_eq!(clk_cfg.div_msb(), 0x00);
    assert_eq!(clk_cfg.div_lsb(), 0x70);
    let error = as_f32(clk_cfg.calculate_error_rate(hz(100.MHz()), 56000).unwrap());
    assert!(abs_diff_le(error, 0.0035, 0.001));
    let (clk_cfg_checked, error_checked) =
        ClockConfig::new_autocalc_with_error(hz(100.MHz()), 56000).unwrap();
    assert_eq!(clk_cfg, clk_cfg_checked);
    assert!(abs_diff_le(error, as_f32(error_checked), 0.001));
    let error_calc =
        as_f32(calculate_error_rate_from_div(hz(100.MHz()), 56000, clk_cfg.div).unwrap());
    assert!(abs_diff_le(error, error_calc, 0.001));
}

#[test]
fn test_clk_calc_example_1() {
    let clk_cfg = ClockConfig::new_autocalc(hz(1843200.Hz()), 56000).unwrap();
    assert_eq!(clk_cfg.div, 0x0002);
    assert_eq!(clk_cfg.div_msb(), 0x00);
    assert_eq!(clk_cfg.div_lsb(), 0x02);
}

#[test]
fn test_invalid_baud() {
    let clk_cfg = ClockConfig::new_autocalc_with_error(hz(100.MHz()), 0);
    assert_eq!(clk_cfg, Err(ClockConfigError::DivisorZero(DivisorZeroError)));
}

#[test]
fn test_invalid_div() {
    let error = calculate_error_rate_from_div(hz(100.MHz()), 115200, 0);
    assert_eq!(error.unwrap_err(), DivisorZeroError);
    let error = calculate_error_rate_from_div(hz(100.MHz()), 0, 0);
    assert_eq!(error.unwrap_err(), DivisorZeroError);
    let error = calculate_error_rate_from_div(hz(100.MHz()), 0, 16);
    assert_eq!(error.unwrap_err(), DivisorZeroError);
}

#[test]
fn error_rate_exact_fraction() {
    let rate = calculate_error_rate_from_div(100_000_000, 56000, 0x70).unwrap();
    assert_eq!(rate, BaudErrorRate { deviation: 352_000, reference: 100_352_000 });
    let rate = calculate_error_rate_from_div(1_843_200, 115_200, 1).unwrap();
    assert_eq!(rate, BaudErrorRate { deviation: 0, reference: 1_843_200 });
}

#[test]
fn divisor_too_large_and_zero() {
    assert_eq!(
        ClockConfig::new_autocalc(100_000_000, 10),
        Err(ClockConfigError::DivisorTooLargeError(625_000))
    );
    assert_eq!(ClockConfig::calc_div_with_integer_div(100_000_000, 0), Err(DivisorZeroError));
    assert_eq!(ClockConfig::calc_div_with_integer_div(100_000_000, 115_200), Ok(54));
    // Clock far below the baud rate: divisor zero, no error rate.
    assert_eq!(ClockConfig::new_autocalc(1000, 115_200), Ok(ClockConfig::new(0)));
    assert_eq!(
        ClockConfig::new_autocalc_with_error(1000, 115_200),
        Err(ClockConfigError::DivisorZero(DivisorZeroError))
    );
    assert_eq!(ClockConfigError::from(DivisorZeroError), ClockConfigError::DivisorZero(DivisorZeroError));
}

#[test]
fn divisor_bytes() {
    let cfg = ClockConfig::new(0x1234);
    assert_eq!(cfg.div_msb(), 0x12);
    assert_eq!(cfg.div_lsb(), 0x34);
}

#[test]
fn parity_default_is_disabled() {
    assert_eq!(Parity::default(), Parity::Disabled);
}

#[test]
fn register_values() {
    assert_eq!(LineControl::new_for_divisor_access().raw_value(), 0x80);
    let lcr = LineControl::for_frame_format(WordLen::Seven, true, true, StopBits::Two);
    assert_eq!(lcr.raw_value(), 0x1e);
    assert_eq!(lcr.word_len(), WordLen::Seven);
    assert_eq!(lcr.stop_bits(), StopBits::Two);
    assert!(lcr.even_parity() && lcr.parity_enable() && !lcr.stick_parity());
    let fcr = FifoControl::build(RxFifoTrigger::EightBytes, false, true, true, true);
    assert_eq!(fcr.raw_value(), 0x87);
    assert_eq!(fcr.rx_fifo_trigger(), RxFifoTrigger::EightBytes);
    assert_eq!(RxFifoTrigger::FourteenBytes.as_num(), 14);
    let iir = InterruptIdentification::new_with_raw_value(0xc4);
    assert_eq!(iir.int_id(), Ok(InterruptId2::RxDataAvailable));
    assert_eq!(iir.fifos_enabled(), 3);
    assert!(iir.int_pending());
    assert_eq!(InterruptIdentification::new_with_raw_value(0x08).int_id(), Err(4));
    let lsr = LineStatus::new_with_raw_value(0x61);
    assert!(lsr.data_ready() && lsr.thr_empty() && lsr.tx_empty() && !lsr.error_in_rx_fifo());
}

#[test]
fn new_configures_uart() {
    let c = cells();
    let cfg = UartConfig::new_with_clk_config(ClockConfig::new(0x0170));
    let mut uart = AxiUart16550::new(c, cfg);
    assert_eq!(c[FIFO].get(), 0x70);
    assert_eq!(c[IER].get(), 0);
    assert_eq!(c[LCR].get(), 0x03);
    assert_eq!(c[IIR_FCR].get(), 0x87);
    assert_eq!(*uart.config(), cfg);

    let c = cells();
    let cfg = UartConfig::new(ClockConfig::new(2), WordLen::Seven, Parity::Even, StopBits::Two);
    AxiUart16550::new(c, cfg);
    assert_eq!(c[LCR].get(), 0x1e);
    let c = cells();
    let cfg = UartConfig::new(ClockConfig::new(2), WordLen::Five, Parity::Odd, StopBits::One);
    AxiUart16550::new(c, cfg);
    assert_eq!(c[LCR].get(), 0x08);
}

#[test]
fn uart_write_read_and_interrupts() {
    let c = cells();
    let cfg = UartConfig::new(ClockConfig::new(1), WordLen::Seven, Parity::Odd, StopBits::Two);
    let mut uart = AxiUart16550::new(c, cfg);
    c[LSR].set(0);
    assert_eq!(uart.write_fifo(0x42), Err(WouldBlock));
    assert!(!uart.thr_empty());
    assert_eq!(uart.read_fifo(), Err(WouldBlock));
    assert!(!uart.rx_has_data());
    c[LSR].set((1 << 5) | (1 << 6) | 1);
    assert_eq!(uart.write_fifo(0x42), Ok(()));
    assert_eq!(c[FIFO].get(), 0x42);
    assert!(uart.thr_empty() && uart.tx_empty() && uart.rx_has_data());
    c[FIFO].set(0x1_99);
    assert_eq!(uart.read_fifo(), Ok(0x99));
    assert_eq!(uart.read_fifo_unchecked(), 0x99);
    uart.write_fifo_unchecked(0x11);
    assert_eq!(c[FIFO].get(), 0x11);
    let mut ier = InterruptEnable::new_with_raw_value(0);
    ier.set_thr_empty(true);
    ier.set_rx_avl(true);
    uart.enable_interrupts(ier);
    assert_eq!(c[IER].get(), 0b11);
    uart.regs().write_lcr(LineControl::new_with_raw_value(0));
    // The configuration stays the one the driver was created with.
    assert_eq!(*uart.config(), cfg);
    let (mut tx, mut rx) = uart.split();
    tx.disable_interrupt();
    assert_eq!(c[IER].get(), 0b01);
    rx.disable_interrupt();
    assert_eq!(c[IER].get(), 0);
}

#[test]
fn rx_interrupt_setup_and_errors() {
    let c = cells();
    let mut rx = Rx::new(MmioRegisters::new(c));
    c[IER].set(0b10);
    rx.start_interrupt_driven_reception();
    assert_eq!(c[IIR_FCR].get(), 0x83);
    assert_eq!(c[IER].get(), 0b111);
    c[IIR_FCR].set(0xc6);
    assert_eq!(rx.read_iir().int_id(), Ok(InterruptId2::ReceiverLineStatus));
    c[LSR].set(0b1000_1111);
    let errors = rx.on_interrupt_receiver_line_status(rx_iir(0xc6));
    assert!(errors.frame() && errors.parity() && errors.overrun() && errors.has_errors());
    let errors = Rx::lsr_to_errors(&LineStatus::new_with_raw_value(0b0100));
    assert!(errors.parity() && !errors.frame() && !errors.overrun());
    // A byte with an error in the RX FIFO.
    c[FIFO].set(0x31);
    assert_eq!(rx.read_fifo(), Ok(0x31));
}

fn rx_iir(raw: u32) -> InterruptIdentification {
    InterruptIdentification::new_with_raw_value(raw)
}

#[test]
fn rx_data_available_reads_trigger_level_then_polls() {
    let c = cells();
    let mut rx = Rx::new(MmioRegisters::new(c));
    let mut buf = [0u8; 16];
    // The IIR word plays no part: the configured trigger level of eight bytes is read, then
    // the line status keeps showing data until the buffer is full.
    c[IIR_FCR].set(0xc4);
    c[LSR].set(1);
    c[FIFO].set(0x5a);
    assert_eq!(rx.on_interrupt_data_available_or_char_timeout(InterruptId2::RxDataAvailable, &mut buf), 16);
    assert_eq!(buf, [0x5a; 16]);
    // Character timeout without data: nothing read, buffer unchanged.
    let mut buf = [7u8; 16];
    c[LSR].set(0);
    assert_eq!(rx.on_interrupt_data_available_or_char_timeout(InterruptId2::CharTimeout, &mut buf), 0);
    assert_eq!(buf, [7u8; 16]);
    // Data available with no data left after the trigger level: exactly eight bytes.
    c[IIR_FCR].set(0x04);
    assert_eq!(rx.on_interrupt_data_available_or_char_timeout(InterruptId2::RxDataAvailable, &mut buf), 8);
    assert_eq!(buf[..8], [0x5a; 8]);
    assert_eq!(buf[8..], [7u8; 8]);
    // Character timeout with data: polled reads fill the whole buffer.
    let mut buf = [0u8; 16];
    c[LSR].set(1);
    c[FIFO].set(0x33);
    assert_eq!(rx.on_interrupt_data_available_or_char_timeout(InterruptId2::CharTimeout, &mut buf), 16);
    assert_eq!(buf, [0x33; 16]);
}

#[test]
fn rx_read_available() {
    let c = cells();
    let mut rx = Rx::new(MmioRegisters::new(c));
    let mut buf = [0u8; 4];
    c[LSR].set(0);
    assert_eq!(rx.read_available(&mut buf), 0);
    assert!(!rx.has_data());
    c[LSR].set(1 | (1 << 7) | (1 << 3));
    c[FIFO].set(0x77);
    assert_eq!(rx.read_available(&mut buf), 4);
    assert_eq!(buf, [0x77; 4]);
    assert!(rx.has_data());
}

#[test]
fn tx_fifo_operations() {
    let c = cells();
    let mut tx = Tx::new(MmioRegisters::new(c));
    tx.reset_fifo();
    assert_eq!(c[IIR_FCR].get(), 0x85);
    c[IER].set(0b1101);
    tx.enable_interrupt();
    assert_eq!(c[IER].get(), 0b1111);
    tx.disable_interrupt();
    assert_eq!(c[IER].get(), 0b1101);
    c[LSR].set(1 << 5);
    assert_eq!(tx.fill_fifo(&[1, 2, 3]), 3);
    assert_eq!(c[FIFO].get(), 3);
    assert_eq!(tx.on_interrupt_thr_empty(&[]), 0);
    assert_eq!(tx.on_interrupt_thr_empty(&[4, 5]), 2);
    assert_eq!(c[FIFO].get(), 5);
    c[LSR].set(0);
    assert_eq!(tx.on_interrupt_thr_empty(&[6]), 0);
    assert_eq!(tx.fill_fifo(&[6]), 0);
    assert_eq!(tx.write_fifo(6), Err(WouldBlock));
    assert_eq!(c[FIFO].get(), 5);
    assert!(!tx.thr_empty());
    assert!(!tx.tx_empty());
}

#[test]
fn async_transfer_runs_to_completion() {
    assert_eq!(validate_waker_index(0), Ok(0));
    assert_eq!(validate_waker_index(1), Err(InvalidWakerIndex(1)));
    let c = cells();
    let mut tx = Tx::new(MmioRegisters::new(c));
    let data: Vec<u8> = (0..20).collect();
    let mut ctx = TxContext::new();
    assert_eq!(ctx.slice_len, None);
    start_transfer(&mut tx, &mut ctx, &data);
    assert_eq!(ctx, TxContext { progress: 16, slice_len: Some(20) });
    assert_eq!(c[FIFO].get(), 15);
    assert_eq!(c[IIR_FCR].get(), 0x85);
    assert_eq!(c[IER].get(), 0b10);
    // Holding register empty: the remaining four bytes go out.
    c[LSR].set(1 << 5);
    assert_eq!(on_interrupt_tx(&mut tx, 0, &mut ctx, &data), TxInterruptOutcome::Continued);
    assert_eq!(ctx.progress, 20);
    assert_eq!(c[FIFO].get(), 19);
    // All handed over and the holding register empty: done, interrupt disabled.
    assert_eq!(on_interrupt_tx(&mut tx, 0, &mut ctx, &data), TxInterruptOutcome::Completed);
    assert_eq!(c[IER].get(), 0);
    // A completed transfer reports the whole buffer as sent.
    assert_eq!(ctx.slice_len, Some(ctx.progress));
    // Interrupt disabled now: ignored. Invalid slot: ignored.
    assert_eq!(on_interrupt_tx(&mut tx, 0, &mut ctx, &data), TxInterruptOutcome::Ignored);
    assert_eq!(on_interrupt_tx(&mut tx, 3, &mut ctx, &data), TxInterruptOutcome::Ignored);
}

#[test]
fn async_transfer_waits_for_room() {
    let c = cells();
    let mut tx = Tx::new(MmioRegisters::new(c));
    let data = [9u8; 3];
    let mut ctx = TxContext::new();
    c[IER].set(0b10);
    // No active transfer.
    assert_eq!(on_interrupt_tx(&mut tx, 0, &mut ctx, &[]), TxInterruptOutcome::Ignored);
    start_transfer(&mut tx, &mut ctx, &data);
    assert_eq!(ctx.progress, 3);
    // Everything handed over but the holding register still busy: keep waiting.
    c[LSR].set(0);
    assert_eq!(on_interrupt_tx(&mut tx, 0, &mut ctx, &data), TxInterruptOutcome::Continued);
    assert_eq!(c[IER].get(), 0b10);
    assert_eq!(ctx.progress, 3);
    // The holding register drains: the transfer completes with all three bytes reported.
    c[LSR].set(1 << 5);
    assert_eq!(on_interrupt_tx(&mut tx, 0, &mut ctx, &data), TxInterruptOutcome::Completed);
    assert_eq!(ctx, TxContext { progress: 3, slice_len: Some(3) });
    assert_eq!(c[IER].get(), 0);
    // Empty transfer completes at once.
    c[IER].set(0b10);
    let mut empty = TxContext { progress: 0, slice_len: Some(0) };
    assert_eq!(on_interrupt_tx(&mut tx, 0, &mut empty, &[]), TxInterruptOutcome::Completed);
}

#[test]
fn computed_divisor_is_nearest_and_error_at_most_half() {
    for &(clk, baud) in &[(100_000_000u32, 115_200u32), (100_000_000, 9600), (1_843_200, 56_000), (50_000_000, 921_600)] {
        let div = ClockConfig::calc_div_with_integer_div(clk, baud).unwrap() as i64;
        let deviation = clk as i64 - 16 * baud as i64 * div;
        assert!(-8 * (baud as i64) <= deviation && deviation < 8 * baud as i64);
        let (cfg, rate) = ClockConfig::new_autocalc_with_error(clk, baud).unwrap();
        assert_eq!(cfg.div as i64, div);
        assert!(2 * rate.deviation <= rate.reference);
    }
}
