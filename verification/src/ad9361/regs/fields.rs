//! Bit fields shared by the ADC and DAC register blocks of the AD9361 interface core.
#[allow(unused_imports)]
use crate::bits::{bit_is_set, field_value, lemma_low_mask_values, read_bit, read_field, with_bit, with_field, write_bit, write_field};
use vstd::prelude::*;

verus! {

/// Reset bit. Clock disable (active low clock enable); the clock is enabled by default.
pub const RESET_CLOCK_ENABLE_N: u32 = 2;
/// Reset bit. MMCM reset release; software must write 1 to bring up the core.
pub const RESET_MMCM_RESET_N: u32 = 1;
/// Reset bit. Reset release; software must write 1 to bring up the core.
pub const RESET_RESET_N: u32 = 0;

/// Reset register.
#[derive(Debug, Clone, Copy, PartialEq, Eq)]
pub struct Reset {
    raw: u32,
}

impl View for Reset {
    type V = u32;

    closed spec fn view(&self) -> u32 {
        self.raw
    }
}

impl Reset {
    /// Register with the given raw value.
    pub fn new_with_raw_value(raw: u32) -> (r: Self)
        ensures
            r@ == raw,
    {
        Reset { raw }
    }

    /// Raw register value.
    pub fn raw_value(&self) -> (r: u32)
        ensures
            r == self@,
    {
        self.raw
    }

    /// The default value, all bits zero.
    pub fn zero() -> (r: Self)
        ensures
            r@ == 0,
    {
        Reset { raw: 0 }
    }

    /// Clock disable (active low clock enable); the clock is enabled by default.
    pub fn clock_enable_n(&self) -> (r: bool)
        ensures
            r == bit_is_set(self@, RESET_CLOCK_ENABLE_N),
    {
        read_bit(self.raw, RESET_CLOCK_ENABLE_N)
    }

    /// With the clock_enable_n bit set to `value`.
    pub fn with_clock_enable_n(self, value: bool) -> (r: Self)
        ensures
            r@ == with_bit(self@, RESET_CLOCK_ENABLE_N, value),
    {
        Reset { raw: write_bit(self.raw, RESET_CLOCK_ENABLE_N, value) }
    }

    /// MMCM reset release; software must write 1 to bring up the core.
    pub fn mmcm_reset_n(&self) -> (r: bool)
        ensures
            r == bit_is_set(self@, RESET_MMCM_RESET_N),
    {
        read_bit(self.raw, RESET_MMCM_RESET_N)
    }

    /// With the mmcm_reset_n bit set to `value`.
    pub fn with_mmcm_reset_n(self, value: bool) -> (r: Self)
        ensures
            r@ == with_bit(self@, RESET_MMCM_RESET_N, value),
    {
        Reset { raw: write_bit(self.raw, RESET_MMCM_RESET_N, value) }
    }

    /// Reset release; software must write 1 to bring up the core.
    pub fn reset_n(&self) -> (r: bool)
        ensures
            r == bit_is_set(self@, RESET_RESET_N),
    {
        read_bit(self.raw, RESET_RESET_N)
    }

    /// With the reset_n bit set to `value`.
    pub fn with_reset_n(self, value: bool) -> (r: Self)
        ensures
            r@ == with_bit(self@, RESET_RESET_N, value),
    {
        Reset { raw: write_bit(self.raw, RESET_RESET_N, value) }
    }
}
/// Interface type.
#[derive(Debug, Clone, Copy, PartialEq, Eq, Structural)]
pub enum InterfaceType {
    Sdr,
    Ddr,
}

impl InterfaceType {
    /// The value of the register bit for this setting.
    pub open spec fn spec_bit(self) -> bool {
        match self {
            InterfaceType::Sdr => false,
            InterfaceType::Ddr => true,
        }
    }

    /// The value of the register bit for this setting.
    pub fn bit(self) -> (r: bool)
        ensures
            r == self.spec_bit(),
    {
        match self {
            InterfaceType::Sdr => false,
            InterfaceType::Ddr => true,
        }
    }

    /// The setting that a register bit value selects.
    pub fn from_bit(bit: bool) -> (r: Self)
        ensures
            r.spec_bit() == bit,
    {
        if bit {
            InterfaceType::Ddr
        } else {
            InterfaceType::Sdr
        }
    }
}
/// Symbol width of the symbol data format mode.
#[derive(Debug, Clone, Copy, PartialEq, Eq, Structural)]
pub enum SymbolModeBits {
    _8,
    _16,
}

impl SymbolModeBits {
    /// The value of the register bit for this setting.
    pub open spec fn spec_bit(self) -> bool {
        match self {
            SymbolModeBits::_8 => true,
            SymbolModeBits::_16 => false,
        }
    }

    /// The value of the register bit for this setting.
    pub fn bit(self) -> (r: bool)
        ensures
            r == self.spec_bit(),
    {
        match self {
            SymbolModeBits::_8 => true,
            SymbolModeBits::_16 => false,
        }
    }

    /// The setting that a register bit value selects.
    pub fn from_bit(bit: bool) -> (r: Self)
        ensures
            r.spec_bit() == bit,
    {
        if bit {
            SymbolModeBits::_8
        } else {
            SymbolModeBits::_16
        }
    }
}
/// Number of channels in use.
#[derive(Debug, Clone, Copy, PartialEq, Eq, Structural)]
pub enum R1Mode {
    OneChannel,
    TwoChannels,
}

impl R1Mode {
    /// The value of the register bit for this setting.
    pub open spec fn spec_bit(self) -> bool {
        match self {
            R1Mode::OneChannel => true,
            R1Mode::TwoChannels => false,
        }
    }

    /// The value of the register bit for this setting.
    pub fn bit(self) -> (r: bool)
        ensures
            r == self.spec_bit(),
    {
        match self {
            R1Mode::OneChannel => true,
            R1Mode::TwoChannels => false,
        }
    }

    /// The setting that a register bit value selects.
    pub fn from_bit(bit: bool) -> (r: Self)
        ensures
            r.spec_bit() == bit,
    {
        if bit {
            R1Mode::OneChannel
        } else {
            R1Mode::TwoChannels
        }
    }
}
/// Config bit. Raw data read enabled.
pub const CONFIG_RD_RAW_DATA: u32 = 11;
/// Config bit. External synchronization.
pub const CONFIG_EXTERNAL_SYNC: u32 = 10;
/// Config bit. Scale correction only.
pub const CONFIG_SCALE_CORRECTION_ONLY: u32 = 9;
/// Config bit. PPS receiver present.
pub const CONFIG_PPS_RECEIVER: u32 = 8;
/// Config bit. CMOS (set) or LVDS (clear) interface.
pub const CONFIG_CMOS_OR_LVDS: u32 = 7;
/// Config bit. DDS disabled.
pub const CONFIG_DDS_DISABLE: u32 = 6;
/// Config bit. Delay control disabled.
pub const CONFIG_DELAY_CONTROL_DISABLE: u32 = 5;
/// Config bit. 1R1T mode.
pub const CONFIG_MODE_1R1T: u32 = 4;
/// Config bit. User ports disabled.
pub const CONFIG_USERPORTS_DISABLED: u32 = 3;
/// Config bit. Data format disabled.
pub const CONFIG_DATAFORMAT_DISABLED: u32 = 2;
/// Config bit. DC filter disabled.
pub const CONFIG_DC_FILTER_DISABLED: u32 = 1;
/// Config bit. IQ correction disabled.
pub const CONFIG_IQ_CORRECTION_DISABLED: u32 = 0;

/// Configuration register of the core (read only in hardware).
#[derive(Debug, Clone, Copy, PartialEq, Eq)]
pub struct Config {
    raw: u32,
}

impl View for Config {
    type V = u32;

    closed spec fn view(&self) -> u32 {
        self.raw
    }
}

impl Config {
    /// Register with the given raw value.
    pub fn new_with_raw_value(raw: u32) -> (r: Self)
        ensures
            r@ == raw,
    {
        Config { raw }
    }

    /// Raw register value.
    pub fn raw_value(&self) -> (r: u32)
        ensures
            r == self@,
    {
        self.raw
    }

    /// The default value, all bits zero.
    pub fn zero() -> (r: Self)
        ensures
            r@ == 0,
    {
        Config { raw: 0 }
    }

    /// Raw data read enabled.
    pub fn rd_raw_data(&self) -> (r: bool)
        ensures
            r == bit_is_set(self@, CONFIG_RD_RAW_DATA),
    {
        read_bit(self.raw, CONFIG_RD_RAW_DATA)
    }

    /// With the rd_raw_data bit set to `value`.
    pub fn with_rd_raw_data(self, value: bool) -> (r: Self)
        ensures
            r@ == with_bit(self@, CONFIG_RD_RAW_DATA, value),
    {
        Config { raw: write_bit(self.raw, CONFIG_RD_RAW_DATA, value) }
    }

    /// External synchronization.
    pub fn external_sync(&self) -> (r: bool)
        ensures
            r == bit_is_set(self@, CONFIG_EXTERNAL_SYNC),
    {
        read_bit(self.raw, CONFIG_EXTERNAL_SYNC)
    }

    /// With the external_sync bit set to `value`.
    pub fn with_external_sync(self, value: bool) -> (r: Self)
        ensures
            r@ == with_bit(self@, CONFIG_EXTERNAL_SYNC, value),
    {
        Config { raw: write_bit(self.raw, CONFIG_EXTERNAL_SYNC, value) }
    }

    /// Scale correction only.
    pub fn scale_correction_only(&self) -> (r: bool)
        ensures
            r == bit_is_set(self@, CONFIG_SCALE_CORRECTION_ONLY),
    {
        read_bit(self.raw, CONFIG_SCALE_CORRECTION_ONLY)
    }

    /// With the scale_correction_only bit set to `value`.
    pub fn with_scale_correction_only(self, value: bool) -> (r: Self)
        ensures
            r@ == with_bit(self@, CONFIG_SCALE_CORRECTION_ONLY, value),
    {
        Config { raw: write_bit(self.raw, CONFIG_SCALE_CORRECTION_ONLY, value) }
    }

    /// PPS receiver present.
    pub fn pps_receiver(&self) -> (r: bool)
        ensures
            r == bit_is_set(self@, CONFIG_PPS_RECEIVER),
    {
        read_bit(self.raw, CONFIG_PPS_RECEIVER)
    }

    /// With the pps_receiver bit set to `value`.
    pub fn with_pps_receiver(self, value: bool) -> (r: Self)
        ensures
            r@ == with_bit(self@, CONFIG_PPS_RECEIVER, value),
    {
        Config { raw: write_bit(self.raw, CONFIG_PPS_RECEIVER, value) }
    }

    /// CMOS (set) or LVDS (clear) interface.
    pub fn cmos_or_lvds(&self) -> (r: bool)
        ensures
            r == bit_is_set(self@, CONFIG_CMOS_OR_LVDS),
    {
        read_bit(self.raw, CONFIG_CMOS_OR_LVDS)
    }

    /// With the cmos_or_lvds bit set to `value`.
    pub fn with_cmos_or_lvds(self, value: bool) -> (r: Self)
        ensures
            r@ == with_bit(self@, CONFIG_CMOS_OR_LVDS, value),
    {
        Config { raw: write_bit(self.raw, CONFIG_CMOS_OR_LVDS, value) }
    }

    /// DDS disabled.
    pub fn dds_disable(&self) -> (r: bool)
        ensures
            r == bit_is_set(self@, CONFIG_DDS_DISABLE),
    {
        read_bit(self.raw, CONFIG_DDS_DISABLE)
    }

    /// With the dds_disable bit set to `value`.
    pub fn with_dds_disable(self, value: bool) -> (r: Self)
        ensures
            r@ == with_bit(self@, CONFIG_DDS_DISABLE, value),
    {
        Config { raw: write_bit(self.raw, CONFIG_DDS_DISABLE, value) }
    }

    /// Delay control disabled.
    pub fn delay_control_disable(&self) -> (r: bool)
        ensures
            r == bit_is_set(self@, CONFIG_DELAY_CONTROL_DISABLE),
    {
        read_bit(self.raw, CONFIG_DELAY_CONTROL_DISABLE)
    }

    /// With the delay_control_disable bit set to `value`.
    pub fn with_delay_control_disable(self, value: bool) -> (r: Self)
        ensures
            r@ == with_bit(self@, CONFIG_DELAY_CONTROL_DISABLE, value),
    {
        Config { raw: write_bit(self.raw, CONFIG_DELAY_CONTROL_DISABLE, value) }
    }

    /// 1R1T mode.
    pub fn mode_1r1t(&self) -> (r: bool)
        ensures
            r == bit_is_set(self@, CONFIG_MODE_1R1T),
    {
        read_bit(self.raw, CONFIG_MODE_1R1T)
    }

    /// With the mode_1r1t bit set to `value`.
    pub fn with_mode_1r1t(self, value: bool) -> (r: Self)
        ensures
            r@ == with_bit(self@, CONFIG_MODE_1R1T, value),
    {
        Config { raw: write_bit(self.raw, CONFIG_MODE_1R1T, value) }
    }

    /// User ports disabled.
    pub fn userports_disabled(&self) -> (r: bool)
        ensures
            r == bit_is_set(self@, CONFIG_USERPORTS_DISABLED),
    {
        read_bit(self.raw, CONFIG_USERPORTS_DISABLED)
    }

    /// With the userports_disabled bit set to `value`.
    pub fn with_userports_disabled(self, value: bool) -> (r: Self)
        ensures
            r@ == with_bit(self@, CONFIG_USERPORTS_DISABLED, value),
    {
        Config { raw: write_bit(self.raw, CONFIG_USERPORTS_DISABLED, value) }
    }

    /// Data format disabled.
    pub fn dataformat_disabled(&self) -> (r: bool)
        ensures
            r == bit_is_set(self@, CONFIG_DATAFORMAT_DISABLED),
    {
        read_bit(self.raw, CONFIG_DATAFORMAT_DISABLED)
    }

    /// With the dataformat_disabled bit set to `value`.
    pub fn with_dataformat_disabled(self, value: bool) -> (r: Self)
        ensures
            r@ == with_bit(self@, CONFIG_DATAFORMAT_DISABLED, value),
    {
        Config { raw: write_bit(self.raw, CONFIG_DATAFORMAT_DISABLED, value) }
    }

    /// DC filter disabled.
    pub fn dc_filter_disabled(&self) -> (r: bool)
        ensures
            r == bit_is_set(self@, CONFIG_DC_FILTER_DISABLED),
    {
        read_bit(self.raw, CONFIG_DC_FILTER_DISABLED)
    }

    /// IQ correction disabled.
    pub fn iq_correction_disabled(&self) -> (r: bool)
        ensures
            r == bit_is_set(self@, CONFIG_IQ_CORRECTION_DISABLED),
    {
        read_bit(self.raw, CONFIG_IQ_CORRECTION_DISABLED)
    }
}
/// FpgaInfo field, its lowest bit. FPGA technology.
pub const FPGA_INFO_TECHNOLOGY: u32 = 24;
/// FpgaInfo field, its lowest bit. FPGA family.
pub const FPGA_INFO_FAMILY: u32 = 16;
/// FpgaInfo field, its lowest bit. FPGA speed grade.
pub const FPGA_INFO_SPEED: u32 = 8;
/// FpgaInfo field, its lowest bit. FPGA device package.
pub const FPGA_INFO_DEV_PACKAGE: u32 = 0;

/// FPGA information register.
#[derive(Debug, Clone, Copy, PartialEq, Eq)]
pub struct FpgaInfo {
    raw: u32,
}

impl View for FpgaInfo {
    type V = u32;

    closed spec fn view(&self) -> u32 {
        self.raw
    }
}

impl FpgaInfo {
    /// Register with the given raw value.
    pub fn new_with_raw_value(raw: u32) -> (r: Self)
        ensures
            r@ == raw,
    {
        FpgaInfo { raw }
    }

    /// Raw register value.
    pub fn raw_value(&self) -> (r: u32)
        ensures
            r == self@,
    {
        self.raw
    }

    /// The default value, all bits zero.
    pub fn zero() -> (r: Self)
        ensures
            r@ == 0,
    {
        FpgaInfo { raw: 0 }
    }

    /// FPGA technology.
    pub fn technology(&self) -> (r: u8)
        ensures
            r == field_value(self@, FPGA_INFO_TECHNOLOGY, 8),
            r <= 0xff,
    {
        proof {
            lemma_low_mask_values();
        }
        read_field(self.raw, FPGA_INFO_TECHNOLOGY, 8) as u8
    }

    /// With the technology field set to `value`.
    pub fn with_technology(self, value: u8) -> (r: Self)
        ensures
            r@ == with_field(self@, FPGA_INFO_TECHNOLOGY, 8, value as u32),
    {
        FpgaInfo { raw: write_field(self.raw, FPGA_INFO_TECHNOLOGY, 8, value as u32) }
    }

    /// FPGA family.
    pub fn family(&self) -> (r: u8)
        ensures
            r == field_value(self@, FPGA_INFO_FAMILY, 8),
            r <= 0xff,
    {
        proof {
            lemma_low_mask_values();
        }
        read_field(self.raw, FPGA_INFO_FAMILY, 8) as u8
    }

    /// With the family field set to `value`.
    pub fn with_family(self, value: u8) -> (r: Self)
        ensures
            r@ == with_field(self@, FPGA_INFO_FAMILY, 8, value as u32),
    {
        FpgaInfo { raw: write_field(self.raw, FPGA_INFO_FAMILY, 8, value as u32) }
    }

    /// FPGA speed grade.
    pub fn speed(&self) -> (r: u8)
        ensures
            r == field_value(self@, FPGA_INFO_SPEED, 8),
            r <= 0xff,
    {
        proof {
            lemma_low_mask_values();
        }
        read_field(self.raw, FPGA_INFO_SPEED, 8) as u8
    }

    /// With the speed field set to `value`.
    pub fn with_speed(self, value: u8) -> (r: Self)
        ensures
            r@ == with_field(self@, FPGA_INFO_SPEED, 8, value as u32),
    {
        FpgaInfo { raw: write_field(self.raw, FPGA_INFO_SPEED, 8, value as u32) }
    }

    /// FPGA device package.
    pub fn dev_package(&self) -> (r: u8)
        ensures
            r == field_value(self@, FPGA_INFO_DEV_PACKAGE, 8),
            r <= 0xff,
    {
        proof {
            lemma_low_mask_values();
        }
        read_field(self.raw, FPGA_INFO_DEV_PACKAGE, 8) as u8
    }

    /// With the dev_package field set to `value`.
    pub fn with_dev_package(self, value: u8) -> (r: Self)
        ensures
            r@ == with_field(self@, FPGA_INFO_DEV_PACKAGE, 8, value as u32),
    {
        FpgaInfo { raw: write_field(self.raw, FPGA_INFO_DEV_PACKAGE, 8, value as u32) }
    }
}
} // verus!
