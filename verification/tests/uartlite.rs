use axi_drivers::uartlite::registers::{Control, MmioRegisters, Status};
use axi_drivers::uartlite::rx::{handle_status_reg_errors, Rx};
use axi_drivers::uartlite::tx::Tx;
use axi_drivers::uartlite::{AxiUartlite, RxErrorsCounted};
use axi_drivers::WouldBlock;
use vcell::VolatileCell;

fn cells() -> &'static [VolatileCell<u32>; 4] {
    Box::leak(Box::new([const { VolatileCell::new(0u32) }; 4]))
}

const RX: usize = 0;
const TX: usize = 1;
const STAT: usize = 2;
const CTRL: usize = 3;

#[test]
fn status_bits_decode() {
    let s = Status::new_with_raw_value(0b1010_0101);
    assert!(s.parity_error());
    assert!(!s.frame_error());
    assert!(s.overrun_error());
    assert!(!s.intr_enabled());
    assert!(!s.tx_fifo_full());
    assert!(s.tx_fifo_empty());
    assert!(!s.rx_fifo_full());
    assert!(s.rx_fifo_valid_data());
}

#[test]
fn control_build_values() {
    assert_eq!(Control::build(false, true, false).raw_value(), 0x2);
    assert_eq!(Control::build(false, false, true).raw_value(), 0x1);
    assert_eq!(Control::build(true, false, false).raw_value(), 0x10);
    assert_eq!(Control::build(true, true, true).raw_value(), 0x13);
    assert_eq!(Control::zero().raw_value(), 0);
}

#[test]
fn errors_from_status() {
    assert_eq!(handle_status_reg_errors(&Status::new_with_raw_value(0x0f)), None);
    let e = handle_status_reg_errors(&Status::new_with_raw_value(0x40)).unwrap();
    assert!(e.frame());
    assert!(!e.parity());
    assert!(!e.overrun());
    assert!(e.has_errors());
}

#[test]
fn control_writes_of_driver() {
    let c = cells();
    let mut uart = AxiUartlite::new(c);
    uart.reset_rx_fifo();
    assert_eq!(c[CTRL].get(), 0x2);
    uart.reset_tx_fifo();
    assert_eq!(c[CTRL].get(), 0x1);
    uart.enable_interrupt();
    assert_eq!(c[CTRL].get(), 0x10);
    uart.disable_interrupt();
    assert_eq!(c[CTRL].get(), 0x0);
}

#[test]
fn write_fifo_full_would_block() {
    let c = cells();
    let mut uart = AxiUartlite::new(c);
    c[STAT].set(1 << 3);
    c[TX].set(0xdead);
    assert_eq!(uart.write_fifo(0x41), Err(WouldBlock));
    assert_eq!(c[TX].get(), 0xdead);
    assert!(uart.tx_fifo_full());
}

#[test]
fn write_and_read_fifo() {
    let c = cells();
    let mut uart = AxiUartlite::new(c);
    c[STAT].set(1 << 2);
    assert_eq!(uart.write_fifo(0x41), Ok(()));
    assert_eq!(c[TX].get(), 0x41);
    assert!(uart.tx_fifo_empty());
    assert!(!uart.rx_has_data());
    assert_eq!(uart.read_fifo(), Err(WouldBlock));
    c[STAT].set(1);
    c[RX].set(0x1_23);
    assert_eq!(uart.read_fifo(), Ok(0x23));
    assert_eq!(uart.read_fifo_unchecked(), 0x23);
    uart.write_fifo_unchecked(0x7f);
    assert_eq!(c[TX].get(), 0x7f);
    assert!(!uart.read_and_clear_errors().has_errors());
}

#[test]
fn error_counters_saturate_and_clear() {
    let c = cells();
    let mut uart = AxiUartlite::new(c);
    // Frame error and parity error reported, TX FIFO not full.
    c[STAT].set((1 << 6) | (1 << 7));
    for _ in 0..300 {
        assert_eq!(uart.write_fifo(1), Ok(()));
    }
    let counts = uart.read_and_clear_errors();
    assert_eq!(counts.frame(), 255);
    assert_eq!(counts.parity(), 255);
    assert_eq!(counts.overrun(), 0);
    assert!(counts.has_errors());
    let again = uart.read_and_clear_errors();
    assert_eq!(again, RxErrorsCounted::new());
    assert!(!again.has_errors());
}

#[test]
fn tx_reset_keeps_interrupt_enable() {
    let c = cells();
    let mut tx = Tx::new(MmioRegisters::new(c));
    c[STAT].set(1 << 4);
    tx.reset_fifo();
    assert_eq!(c[CTRL].get(), 0x11);
    c[STAT].set(0);
    tx.reset_fifo();
    assert_eq!(c[CTRL].get(), 0x01);
}

#[test]
fn fill_fifo_counts_written() {
    let c = cells();
    let mut tx = Tx::new(MmioRegisters::new(c));
    assert_eq!(tx.fill_fifo(&[1, 2, 3]), 3);
    assert_eq!(c[TX].get(), 3);
    c[STAT].set(1 << 3);
    assert_eq!(tx.fill_fifo(&[4, 5]), 0);
    assert_eq!(c[TX].get(), 3);
    assert_eq!(tx.fill_fifo(&[]), 0);
    assert!(tx.fifo_full());
    assert!(!tx.fifo_empty());
}

#[test]
fn tx_records_last_error() {
    let c = cells();
    let mut tx = Tx::new(MmioRegisters::new(c));
    c[STAT].set(1 << 5);
    assert_eq!(tx.write_fifo(9), Ok(()));
    let e = tx.read_and_clear_last_error().unwrap();
    assert!(e.overrun());
    assert_eq!(tx.read_and_clear_last_error(), None);
}

#[test]
fn rx_records_last_error() {
    let c = cells();
    let mut rx = Rx::new(MmioRegisters::new(c));
    c[STAT].set(1 | (1 << 7));
    c[RX].set(0x55);
    assert!(rx.has_data());
    assert_eq!(rx.read_fifo(), Ok(0x55));
    assert!(rx.read_and_clear_last_error().unwrap().parity());
}

#[test]
fn split_halves_share_registers() {
    let c = cells();
    let uart = AxiUartlite::new(c);
    let (mut tx, mut rx) = uart.split();
    c[STAT].set(1);
    c[RX].set(0x31);
    assert_eq!(rx.read_fifo(), Ok(0x31));
    tx.write_fifo_unchecked(0x32);
    assert_eq!(c[TX].get(), 0x32);
}
