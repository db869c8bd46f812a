//! Register blocks of the AD9361 interface core.
//!
//! The core's register space holds the common registers (word 0 on), the ADC block (byte
//! offset 0x40), the DAC block (byte offset 0x1000) and the TDD block (byte offset 0x2040).
pub mod adc;
pub mod dac;
pub mod fields;

use crate::ad9361::regs::fields::{Config, FpgaInfo};
use crate::mmio::{BusOp, RegisterBlock};
use vcell::VolatileCell;
use vstd::prelude::*;

verus! {

/// Byte offset of the ADC register block from the base address of the core.
pub const ADC_BLOCK_OFFSET: usize = 0x40;
/// Byte offset of the DAC register block from the base address of the core.
pub const DAC_BLOCK_OFFSET: usize = 0x1000;
/// Byte offset of the TDD register block from the base address of the core.
pub const TDD_BLOCK_OFFSET: usize = 0x2040;

/// Number of 32-bit words of the common register block.
pub const REGISTER_WORDS: usize = 16;
/// Word index of the version register.
pub const VERSION_INDEX: usize = 0;
/// Word index of the identification register.
pub const ID_INDEX: usize = 1;
/// Word index of the scratch register.
pub const SCRATCH_INDEX: usize = 2;
/// Word index of the configuration register.
pub const CONFIG_INDEX: usize = 3;
/// Word index of the PPS interrupt mask register.
pub const PPS_IRQ_MASK_INDEX: usize = 4;
/// Word index of the FPGA information register.
pub const FPGA_INFO_INDEX: usize = 7;

/// The common registers of the core (the first sixteen words of its register space).
pub struct MmioRegisters {
    block: RegisterBlock<16>,
}

impl MmioRegisters {
    /// The accesses made through this handle so far, oldest first.
    pub closed spec fn ops(&self) -> Seq<BusOp> {
        self.block.ops()
    }

    /// Handle on the given register cells, with an empty trace.
    pub fn new(cells: &'static [VolatileCell<u32>; 16]) -> (r: Self)
        ensures
            r.ops() == Seq::<BusOp>::empty(),
    {
        MmioRegisters { block: RegisterBlock::new(cells) }
    }

    /// Read register `index` and record the read.
    pub fn read(&mut self, index: usize) -> (value: u32)
        requires
            index < REGISTER_WORDS,
        ensures
            final(self).ops() == old(self).ops().push(BusOp::Read { index, value }),
    {
        self.block.read(index)
    }

    /// Write register `index` and record the write.
    pub fn write(&mut self, index: usize, value: u32)
        requires
            index < REGISTER_WORDS,
        ensures
            final(self).ops() == old(self).ops().push(BusOp::Write { index, value }),
    {
        self.block.write(index, value)
    }

    /// Read the configuration register.
    pub fn read_config(&mut self) -> (r: Config)
        ensures
            final(self).ops() == old(self).ops().push(BusOp::Read { index: CONFIG_INDEX, value: r@ }),
    {
        Config::new_with_raw_value(self.block.read(CONFIG_INDEX))
    }

    /// Read the FPGA information register.
    pub fn read_fpga_info(&mut self) -> (r: FpgaInfo)
        ensures
            final(self).ops() == old(self).ops().push(BusOp::Read { index: FPGA_INFO_INDEX, value: r@ }),
    {
        FpgaInfo::new_with_raw_value(self.block.read(FPGA_INFO_INDEX))
    }
}

/// Number of 32-bit words of the TDD register block.
pub const TDD_REGISTER_WORDS: usize = 44;
/// Word index of the `tdd_control0` register in the TDD block.
pub const TDD_CONTROL0_INDEX: usize = 0;
/// Word index of the `tdd_control1` register in the TDD block.
pub const TDD_CONTROL1_INDEX: usize = 1;
/// Word index of the `tdd_control2` register in the TDD block.
pub const TDD_CONTROL2_INDEX: usize = 2;
/// Word index of the `tdd_frame_length` register in the TDD block.
pub const TDD_FRAME_LENGTH_INDEX: usize = 3;
/// Word index of the `tdd_sync_terminal_type` register in the TDD block.
pub const TDD_SYNC_TERMINAL_TYPE_INDEX: usize = 4;
/// Word index of the `tdd_status` register in the TDD block.
pub const TDD_STATUS_INDEX: usize = 8;
/// Word index of the `tdd_vco_rx_on_1` register in the TDD block.
pub const TDD_VCO_RX_ON_1_INDEX: usize = 16;
/// Word index of the `tdd_vco_rx_off_1` register in the TDD block.
pub const TDD_VCO_RX_OFF_1_INDEX: usize = 17;
/// Word index of the `tdd_vco_tx_on_1` register in the TDD block.
pub const TDD_VCO_TX_ON_1_INDEX: usize = 18;
/// Word index of the `tdd_vco_tx_off_1` register in the TDD block.
pub const TDD_VCO_TX_OFF_1_INDEX: usize = 19;
/// Word index of the `tdd_rx_on_1` register in the TDD block.
pub const TDD_RX_ON_1_INDEX: usize = 20;
/// Word index of the `tdd_rx_off_1` register in the TDD block.
pub const TDD_RX_OFF_1_INDEX: usize = 21;
/// Word index of the `tdd_tx_on_1` register in the TDD block.
pub const TDD_TX_ON_1_INDEX: usize = 22;
/// Word index of the `tdd_tx_off_1` register in the TDD block.
pub const TDD_TX_OFF_1_INDEX: usize = 23;
/// Word index of the `tdd_rx_dp_on_1` register in the TDD block.
pub const TDD_RX_DP_ON_1_INDEX: usize = 24;
/// Word index of the `tdd_rx_dp_off_1` register in the TDD block.
pub const TDD_RX_DP_OFF_1_INDEX: usize = 25;
/// Word index of the `tdd_tx_dp_on_1` register in the TDD block.
pub const TDD_TX_DP_ON_1_INDEX: usize = 26;
/// Word index of the `tdd_tx_dp_off_1` register in the TDD block.
pub const TDD_TX_DP_OFF_1_INDEX: usize = 27;
/// Word index of the `tdd_vco_rx_on_2` register in the TDD block.
pub const TDD_VCO_RX_ON_2_INDEX: usize = 32;
/// Word index of the `tdd_vco_rx_off_2` register in the TDD block.
pub const TDD_VCO_RX_OFF_2_INDEX: usize = 33;
/// Word index of the `tdd_vco_tx_on_2` register in the TDD block.
pub const TDD_VCO_TX_ON_2_INDEX: usize = 34;
/// Word index of the `tdd_vco_tx_off_2` register in the TDD block.
pub const TDD_VCO_TX_OFF_2_INDEX: usize = 35;
/// Word index of the `tdd_rx_on_2` register in the TDD block.
pub const TDD_RX_ON_2_INDEX: usize = 36;
/// Word index of the `tdd_rx_off_2` register in the TDD block.
pub const TDD_RX_OFF_2_INDEX: usize = 37;
/// Word index of the `tdd_tx_on_2` register in the TDD block.
pub const TDD_TX_ON_2_INDEX: usize = 38;
/// Word index of the `tdd_tx_off_2` register in the TDD block.
pub const TDD_TX_OFF_2_INDEX: usize = 39;
/// Word index of the `tdd_rx_dp_on_2` register in the TDD block.
pub const TDD_RX_DP_ON_2_INDEX: usize = 40;
/// Word index of the `tdd_rx_dp_off_2` register in the TDD block.
pub const TDD_RX_DP_OFF_2_INDEX: usize = 41;
/// Word index of the `tdd_tx_dp_on_2` register in the TDD block.
pub const TDD_TX_DP_ON_2_INDEX: usize = 42;
/// Word index of the `tdd_tx_dp_off_2` register in the TDD block.
pub const TDD_TX_DP_OFF_2_INDEX: usize = 43;

/// The TDD (time division duplexing) registers of the core.
pub struct TddRegisters {
    block: RegisterBlock<44>,
}

impl TddRegisters {
    /// The accesses made through this handle so far, oldest first.
    pub closed spec fn ops(&self) -> Seq<BusOp> {
        self.block.ops()
    }

    /// Handle on the given register cells, with an empty trace.
    pub fn new(cells: &'static [VolatileCell<u32>; 44]) -> (r: Self)
        ensures
            r.ops() == Seq::<BusOp>::empty(),
    {
        TddRegisters { block: RegisterBlock::new(cells) }
    }

    /// Read register `index` of the TDD block and record the read.
    pub fn read(&mut self, index: usize) -> (value: u32)
        requires
            index < TDD_REGISTER_WORDS,
        ensures
            final(self).ops() == old(self).ops().push(BusOp::Read { index, value }),
    {
        self.block.read(index)
    }

    /// Write register `index` of the TDD block and record the write.
    pub fn write(&mut self, index: usize, value: u32)
        requires
            index < TDD_REGISTER_WORDS,
        ensures
            final(self).ops() == old(self).ops().push(BusOp::Write { index, value }),
    {
        self.block.write(index, value)
    }
}

} // verus!
