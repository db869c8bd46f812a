use axi_drivers::ad9361::adc::Adc;
use axi_drivers::ad9361::dac::Dac;
use axi_drivers::ad9361::regs::adc::fields::{Control1 as AdcControl1, DdrEdgeSelect, PinMode};
use axi_drivers::ad9361::regs::dac::regs::{
    ChannelControl7, Control1, Control2, DataSource, ParityType, RateControl,
};
use axi_drivers::ad9361::regs::fields::{Config, FpgaInfo, InterfaceType, R1Mode, Reset, SymbolModeBits};
use axi_drivers::ad9361::regs::{
    TddRegisters, TDD_BLOCK_OFFSET, TDD_CONTROL0_INDEX, TDD_FRAME_LENGTH_INDEX, TDD_REGISTER_WORDS, TDD_STATUS_INDEX,
    TDD_TX_DP_OFF_2_INDEX, TDD_VCO_RX_ON_1_INDEX, TDD_VCO_RX_ON_2_INDEX,
};
use axi_drivers::dma::regs::direct_register::fields::Mm2SLength;
use axi_drivers::dma::regs::direct_register::MmioRegisters as DmaRegisters;
use axi_drivers::dma::regs::fields::{Control, RunStop, Status};
use axi_drivers::dma::regs::scatter_gather::fields::{DescriptorControl, DescriptorStatus, SgControl};
use axi_drivers::dma::regs::scatter_gather::{configure_descriptors_cyclic, Descriptor};
use axi_drivers::dma::{InvalidBufferLengthError, SimpleDma, SimpleDmaAsync, MAX_TRANSFER_LENGTH};
use vcell::VolatileCell;

fn leak<const N: usize>() -> &'static [VolatileCell<u32>; N] {
    Box::leak(Box::new([const { VolatileCell::new(0u32) }; N]))
}

#[test]
fn dma_reset_and_transfer() {
    let c = leak::<23>();
    let mut dma = SimpleDma::new(c);
    assert_eq!(c[0].get(), 0x4);
    assert!(dma.reset_in_progress());
    c[0].set(0x0001_0000);
    assert!(!dma.reset_in_progress());
    assert_eq!(dma.start_write(0x1000_0000, 64), Ok(()));
    assert_eq!(c[0].get(), 0x0001_0001);
    assert_eq!(c[6].get(), 0x1000_0000);
    assert_eq!(c[10].get(), 64);
    assert!(!dma.idle());
    c[1].set(0b10);
    assert!(dma.idle());
    c[10].set(0);
    assert_eq!(dma.start_write(0x2000, MAX_TRANSFER_LENGTH + 1), Err(InvalidBufferLengthError));
    assert_eq!(c[10].get(), 0);
    assert_eq!(dma.start_write(0x2000, MAX_TRANSFER_LENGTH), Ok(()));
    assert_eq!(c[10].get(), 0x3ff_ffff);
}

#[test]
fn dma_async_interrupt_clears_completion() {
    let c = leak::<23>();
    let mut dma = SimpleDmaAsync::new(c, 0);
    assert_eq!(dma.waker_index(), 0);
    assert_eq!(dma.start_write(0x40, 8), Ok(()));
    let mut regs = DmaRegisters::new(c);
    c[1].set(0b10);
    assert!(!SimpleDmaAsync::on_interrupt(&mut regs));
    assert_eq!(c[1].get(), 0b10);
    c[1].set(1 << 12);
    assert!(SimpleDmaAsync::on_interrupt(&mut regs));
    assert_eq!(c[1].get(), 1 << 12);
    let mut regs2 = DmaRegisters::new(leak::<23>());
    assert_eq!(axi_drivers::dma::write(&mut regs2, 0, usize::MAX), Err(InvalidBufferLengthError));
}

#[test]
fn dma_register_fields() {
    let ctrl = Control::zero().with_run_stop(RunStop::Run).with_interrupt_threshold(3).with_reset(true);
    assert_eq!(ctrl.raw_value(), 0x0003_0005);
    assert_eq!(ctrl.run_stop(), RunStop::Run);
    assert_eq!(ctrl.interrupt_threshold(), 3);
    let st = Status::new_with_raw_value(0x0500_1003);
    assert!(st.completion_interrupt() && st.idle() && st.halted() && !st.error_interrupt());
    assert_eq!(st.interrupt_delay(), 5);
    assert_eq!(Mm2SLength::zero().with_length(0x12345).length(), 0x12345);
    let sg = SgControl::zero().with_user(0xa).with_cache(0x3);
    assert_eq!(sg.raw_value(), 0xa03);
    let dc = DescriptorControl::zero().with_tx_start_of_frame(true).with_buffer_length(100);
    assert_eq!(dc.raw_value(), (1 << 27) | 100);
    let ds = DescriptorStatus::new_with_raw_value((1 << 31) | 42);
    assert!(ds.completed());
    assert_eq!(ds.transferred_bytes(), 42);
}

#[test]
fn descriptors_cyclic_and_status() {
    let first = leak::<16>();
    let second = leak::<16>();
    let mut list = [Descriptor::new(first), Descriptor::new(second)];
    list[1].clear();
    configure_descriptors_cyclic(&mut list, 0x8000_0040);
    assert_eq!(second[0].get(), 0x8000_0040);
    assert_eq!(first[0].get(), 0);
    second[7].set(1 << 31);
    assert!(list[1].status_word().completed());
    let mut empty: [Descriptor; 0] = [];
    configure_descriptors_cyclic(&mut empty, 0x40);
}

#[test]
fn dac_new_enables_and_synchronizes() {
    let c = leak::<512>();
    let mut dac = Dac::new(c, 4);
    assert_eq!(c[16].get(), 0b011);
    assert_eq!(c[19].get(), 4);
    assert_eq!(c[17].get(), 1);
    dac.set_data_source(3, DataSource::Dma);
    assert_eq!(c[256 + 3 * 16 + 6].get(), 2);
    dac.set_data_source_all_channels_up_to(2, DataSource::Zero);
    assert_eq!(c[256 + 6].get(), 3);
    assert_eq!(c[256 + 16 + 6].get(), 3);
    assert_eq!(c[256 + 3 * 16 + 6].get(), 2);
    dac.set_rate_div(9);
    assert_eq!(c[19].get(), 9);
    c[17].set(0);
    dac.synchronize();
    assert_eq!(c[17].get(), 1);
    dac.regs().write(40, 7);
    assert_eq!(c[40].get(), 7);
}

#[test]
fn adc_register_access() {
    let c = leak::<368>();
    let mut adc = Adc::new(c);
    adc.regs().write_resets(Reset::zero().with_reset_n(true).with_mmcm_reset_n(true));
    assert_eq!(c[0].get(), 0b11);
    let ctrl = AdcControl1::zero()
        .with_interface_type(InterfaceType::Ddr)
        .with_num_of_lanes(4)
        .with_pin_mode(PinMode::ClockMultiplexed)
        .with_ddr_edgesel(DdrEdgeSelect::Falling);
    adc.regs().write_adc_control1(ctrl);
    assert_eq!(c[1].get(), (1 << 16) | (4 << 8) | 0b11);
    c[240 + 8 + 2].set(0x55);
    let ch = axi_drivers::ad9361::regs::adc::Channel::new(1).unwrap();
    assert_eq!(adc.regs().read_channel(&ch, 2), 0x55);
    assert!(axi_drivers::ad9361::regs::adc::Channel::new(16).is_none());
}

#[test]
fn ad9361_fields() {
    let cfg = Config::new_with_raw_value(0b1000_0000_0011);
    assert!(cfg.rd_raw_data() && cfg.dc_filter_disabled() && cfg.iq_correction_disabled());
    assert!(!cfg.pps_receiver());
    let info = FpgaInfo::new_with_raw_value(0x0102_0304);
    assert_eq!((info.technology(), info.family(), info.speed(), info.dev_package()), (1, 2, 3, 4));
    let c2 = Control2::zero()
        .with_r1_mode(R1Mode::OneChannel)
        .with_symb_8_16b(SymbolModeBits::_8)
        .with_parity_type(ParityType::Odd)
        .with_data_format(true);
    assert_eq!(c2.raw_value(), (1 << 5) | (1 << 14) | (1 << 7) | (1 << 4));
    assert_eq!(c2.r1_mode(), R1Mode::OneChannel);
    assert_eq!(Control1::zero().with_sync(true).raw_value(), 1);
    assert_eq!(RateControl::zero().with_rate(200).rate(), 200);
    assert_eq!(ChannelControl7::for_data_source(DataSource::PnX).data_source(), Ok(DataSource::PnX));
    assert_eq!(ChannelControl7::new_with_raw_value(0xf).data_source(), Err(0xf));
}

#[test]
fn tdd_register_access() {
    let c = leak::<44>();
    let mut tdd = TddRegisters::new(c);
    tdd.write(TDD_CONTROL0_INDEX, 0x11);
    tdd.write(TDD_FRAME_LENGTH_INDEX, 0x1234);
    tdd.write(TDD_TX_DP_OFF_2_INDEX, 0xabcd);
    assert_eq!(c[0].get(), 0x11);
    assert_eq!(c[3].get(), 0x1234);
    assert_eq!(c[43].get(), 0xabcd);
    c[TDD_STATUS_INDEX].set(5);
    assert_eq!(tdd.read(TDD_STATUS_INDEX), 5);
    assert_eq!(TDD_STATUS_INDEX, 8);
    assert_eq!(TDD_VCO_RX_ON_1_INDEX, 16);
    assert_eq!(TDD_VCO_RX_ON_2_INDEX, 32);
    // The last TDD register ends where the register space of the core ends.
    assert_eq!(TDD_BLOCK_OFFSET + 4 * TDD_REGISTER_WORDS, 0x20f0);
}
