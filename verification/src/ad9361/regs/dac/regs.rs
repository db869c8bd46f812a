//! Bit fields of the DAC register block.
#[allow(unused_imports)]
use crate::bits::{bit_is_set, field_value, lemma_low_mask_values, read_bit, read_field, with_bit, with_field, write_bit, write_field};
pub use crate::ad9361::regs::fields::{InterfaceType, R1Mode, SymbolModeBits};
use vstd::prelude::*;

verus! {

/// Parity type.
#[derive(Debug, Clone, Copy, PartialEq, Eq, Structural)]
pub enum ParityType {
    Even,
    Odd,
}

impl ParityType {
    /// The value of the register bit for this setting.
    pub open spec fn spec_bit(self) -> bool {
        match self {
            ParityType::Even => false,
            ParityType::Odd => true,
        }
    }

    /// The value of the register bit for this setting.
    pub fn bit(self) -> (r: bool)
        ensures
            r == self.spec_bit(),
    {
        match self {
            ParityType::Even => false,
            ParityType::Odd => true,
        }
    }

    /// The setting that a register bit value selects.
    pub fn from_bit(bit: bool) -> (r: Self)
        ensures
            r.spec_bit() == bit,
    {
        if bit {
            ParityType::Odd
        } else {
            ParityType::Even
        }
    }
}
/// Parity mode.
#[derive(Debug, Clone, Copy, PartialEq, Eq, Structural)]
pub enum ParityMode {
    Frame,
    Parity,
}

impl ParityMode {
    /// The value of the register bit for this setting.
    pub open spec fn spec_bit(self) -> bool {
        match self {
            ParityMode::Frame => false,
            ParityMode::Parity => true,
        }
    }

    /// The value of the register bit for this setting.
    pub fn bit(self) -> (r: bool)
        ensures
            r == self.spec_bit(),
    {
        match self {
            ParityMode::Frame => false,
            ParityMode::Parity => true,
        }
    }

    /// The setting that a register bit value selects.
    pub fn from_bit(bit: bool) -> (r: Self)
        ensures
            r.spec_bit() == bit,
    {
        if bit {
            ParityMode::Parity
        } else {
            ParityMode::Frame
        }
    }
}
/// Control1 bit. Manual synchronization request.
pub const DAC_CONTROL1_MANUAL_SYNC_REQUEST: u32 = 3;
/// Control1 bit. Disarm external synchronization.
pub const DAC_CONTROL1_DISARM_EXT_SYNC: u32 = 2;
/// Control1 bit. Arm external synchronization.
pub const DAC_CONTROL1_ARM_EXT_SYNC: u32 = 1;
/// Control1 bit. Synchronize the DAC channels.
pub const DAC_CONTROL1_SYNC: u32 = 0;

/// DAC control register 1.
#[derive(Debug, Clone, Copy, PartialEq, Eq)]
pub struct Control1 {
    raw: u32,
}

impl View for Control1 {
    type V = u32;

    closed spec fn view(&self) -> u32 {
        self.raw
    }
}

impl Control1 {
    /// Register with the given raw value.
    pub fn new_with_raw_value(raw: u32) -> (r: Self)
        ensures
            r@ == raw,
    {
        Control1 { raw }
    }

    /// Raw register value.
    pub fn raw_value(&self) -> (r: u32)
        ensures
            r == self@,
    {
        self.raw
    }

    /// The default value, all bits zero.
    pub fn zero() -> (r: Self)
        ensures
            r@ == 0,
    {
        Control1 { raw: 0 }
    }

    /// Manual synchronization request.
    pub fn manual_sync_request(&self) -> (r: bool)
        ensures
            r == bit_is_set(self@, DAC_CONTROL1_MANUAL_SYNC_REQUEST),
    {
        read_bit(self.raw, DAC_CONTROL1_MANUAL_SYNC_REQUEST)
    }

    /// With the manual_sync_request bit set to `value`.
    pub fn with_manual_sync_request(self, value: bool) -> (r: Self)
        ensures
            r@ == with_bit(self@, DAC_CONTROL1_MANUAL_SYNC_REQUEST, value),
    {
        Control1 { raw: write_bit(self.raw, DAC_CONTROL1_MANUAL_SYNC_REQUEST, value) }
    }

    /// Disarm external synchronization.
    pub fn disarm_ext_sync(&self) -> (r: bool)
        ensures
            r == bit_is_set(self@, DAC_CONTROL1_DISARM_EXT_SYNC),
    {
        read_bit(self.raw, DAC_CONTROL1_DISARM_EXT_SYNC)
    }

    /// With the disarm_ext_sync bit set to `value`.
    pub fn with_disarm_ext_sync(self, value: bool) -> (r: Self)
        ensures
            r@ == with_bit(self@, DAC_CONTROL1_DISARM_EXT_SYNC, value),
    {
        Control1 { raw: write_bit(self.raw, DAC_CONTROL1_DISARM_EXT_SYNC, value) }
    }

    /// Arm external synchronization.
    pub fn arm_ext_sync(&self) -> (r: bool)
        ensures
            r == bit_is_set(self@, DAC_CONTROL1_ARM_EXT_SYNC),
    {
        read_bit(self.raw, DAC_CONTROL1_ARM_EXT_SYNC)
    }

    /// With the arm_ext_sync bit set to `value`.
    pub fn with_arm_ext_sync(self, value: bool) -> (r: Self)
        ensures
            r@ == with_bit(self@, DAC_CONTROL1_ARM_EXT_SYNC, value),
    {
        Control1 { raw: write_bit(self.raw, DAC_CONTROL1_ARM_EXT_SYNC, value) }
    }

    /// Synchronize the DAC channels.
    pub fn sync(&self) -> (r: bool)
        ensures
            r == bit_is_set(self@, DAC_CONTROL1_SYNC),
    {
        read_bit(self.raw, DAC_CONTROL1_SYNC)
    }

    /// With the sync bit set to `value`.
    pub fn with_sync(self, value: bool) -> (r: Self)
        ensures
            r@ == with_bit(self@, DAC_CONTROL1_SYNC, value),
    {
        Control1 { raw: write_bit(self.raw, DAC_CONTROL1_SYNC, value) }
    }
}
/// Control2 bit. Interface type.
pub const DAC_CONTROL2_INTERFACE_TYPE: u32 = 16;
/// Control2 bit. Select symbol data format mode.
pub const DAC_CONTROL2_SYMB_OP: u32 = 15;
/// Control2 bit. Symbol width.
pub const DAC_CONTROL2_SYMB_8_16B: u32 = 14;
/// Control2 field, its lowest bit. Number of lanes.
pub const DAC_CONTROL2_NUM_OF_LANES: u32 = 8;
/// Control2 bit. Parity type.
pub const DAC_CONTROL2_PARITY_TYPE: u32 = 7;
/// Control2 bit. Parity mode.
pub const DAC_CONTROL2_PARITY_MODE: u32 = 6;
/// Control2 bit. Number of channels.
pub const DAC_CONTROL2_R1_MODE: u32 = 5;
/// Control2 bit. Data format.
pub const DAC_CONTROL2_DATA_FORMAT: u32 = 4;

/// DAC control register 2.
#[derive(Debug, Clone, Copy, PartialEq, Eq)]
pub struct Control2 {
    raw: u32,
}

impl View for Control2 {
    type V = u32;

    closed spec fn view(&self) -> u32 {
        self.raw
    }
}

impl Control2 {
    /// Register with the given raw value.
    pub fn new_with_raw_value(raw: u32) -> (r: Self)
        ensures
            r@ == raw,
    {
        Control2 { raw }
    }

    /// Raw register value.
    pub fn raw_value(&self) -> (r: u32)
        ensures
            r == self@,
    {
        self.raw
    }

    /// The default value, all bits zero.
    pub fn zero() -> (r: Self)
        ensures
            r@ == 0,
    {
        Control2 { raw: 0 }
    }

    /// Interface type.
    pub fn interface_type(&self) -> (r: InterfaceType)
        ensures
            r.spec_bit() == bit_is_set(self@, DAC_CONTROL2_INTERFACE_TYPE),
    {
        InterfaceType::from_bit(read_bit(self.raw, DAC_CONTROL2_INTERFACE_TYPE))
    }

    /// With the interface_type bit set for `value`.
    pub fn with_interface_type(self, value: InterfaceType) -> (r: Self)
        ensures
            r@ == with_bit(self@, DAC_CONTROL2_INTERFACE_TYPE, value.spec_bit()),
    {
        Control2 { raw: write_bit(self.raw, DAC_CONTROL2_INTERFACE_TYPE, value.bit()) }
    }

    /// Select symbol data format mode.
    pub fn symb_op(&self) -> (r: bool)
        ensures
            r == bit_is_set(self@, DAC_CONTROL2_SYMB_OP),
    {
        read_bit(self.raw, DAC_CONTROL2_SYMB_OP)
    }

    /// With the symb_op bit set to `value`.
    pub fn with_symb_op(self, value: bool) -> (r: Self)
        ensures
            r@ == with_bit(self@, DAC_CONTROL2_SYMB_OP, value),
    {
        Control2 { raw: write_bit(self.raw, DAC_CONTROL2_SYMB_OP, value) }
    }

    /// Symbol width.
    pub fn symb_8_16b(&self) -> (r: SymbolModeBits)
        ensures
            r.spec_bit() == bit_is_set(self@, DAC_CONTROL2_SYMB_8_16B),
    {
        SymbolModeBits::from_bit(read_bit(self.raw, DAC_CONTROL2_SYMB_8_16B))
    }

    /// With the symb_8_16b bit set for `value`.
    pub fn with_symb_8_16b(self, value: SymbolModeBits) -> (r: Self)
        ensures
            r@ == with_bit(self@, DAC_CONTROL2_SYMB_8_16B, value.spec_bit()),
    {
        Control2 { raw: write_bit(self.raw, DAC_CONTROL2_SYMB_8_16B, value.bit()) }
    }

    /// Number of lanes.
    pub fn num_of_lanes(&self) -> (r: u8)
        ensures
            r == field_value(self@, DAC_CONTROL2_NUM_OF_LANES, 5),
            r <= 0x1f,
    {
        proof {
            lemma_low_mask_values();
        }
        read_field(self.raw, DAC_CONTROL2_NUM_OF_LANES, 5) as u8
    }

    /// With the num_of_lanes field set to `value`.
    pub fn with_num_of_lanes(self, value: u8) -> (r: Self)
        requires
            value <= 0x1f,
        ensures
            r@ == with_field(self@, DAC_CONTROL2_NUM_OF_LANES, 5, value as u32),
    {
        Control2 { raw: write_field(self.raw, DAC_CONTROL2_NUM_OF_LANES, 5, value as u32) }
    }

    /// Parity type.
    pub fn parity_type(&self) -> (r: ParityType)
        ensures
            r.spec_bit() == bit_is_set(self@, DAC_CONTROL2_PARITY_TYPE),
    {
        ParityType::from_bit(read_bit(self.raw, DAC_CONTROL2_PARITY_TYPE))
    }

    /// With the parity_type bit set for `value`.
    pub fn with_parity_type(self, value: ParityType) -> (r: Self)
        ensures
            r@ == with_bit(self@, DAC_CONTROL2_PARITY_TYPE, value.spec_bit()),
    {
        Control2 { raw: write_bit(self.raw, DAC_CONTROL2_PARITY_TYPE, value.bit()) }
    }

    /// Parity mode.
    pub fn parity_mode(&self) -> (r: ParityType)
        ensures
            r.spec_bit() == bit_is_set(self@, DAC_CONTROL2_PARITY_MODE),
    {
        ParityType::from_bit(read_bit(self.raw, DAC_CONTROL2_PARITY_MODE))
    }

    /// With the parity_mode bit set for `value`.
    pub fn with_parity_mode(self, value: ParityType) -> (r: Self)
        ensures
            r@ == with_bit(self@, DAC_CONTROL2_PARITY_MODE, value.spec_bit()),
    {
        Control2 { raw: write_bit(self.raw, DAC_CONTROL2_PARITY_MODE, value.bit()) }
    }

    /// Number of channels.
    pub fn r1_mode(&self) -> (r: R1Mode)
        ensures
            r.spec_bit() == bit_is_set(self@, DAC_CONTROL2_R1_MODE),
    {
        R1Mode::from_bit(read_bit(self.raw, DAC_CONTROL2_R1_MODE))
    }

    /// With the r1_mode bit set for `value`.
    pub fn with_r1_mode(self, value: R1Mode) -> (r: Self)
        ensures
            r@ == with_bit(self@, DAC_CONTROL2_R1_MODE, value.spec_bit()),
    {
        Control2 { raw: write_bit(self.raw, DAC_CONTROL2_R1_MODE, value.bit()) }
    }

    /// Data format.
    pub fn data_format(&self) -> (r: bool)
        ensures
            r == bit_is_set(self@, DAC_CONTROL2_DATA_FORMAT),
    {
        read_bit(self.raw, DAC_CONTROL2_DATA_FORMAT)
    }

    /// With the data_format bit set to `value`.
    pub fn with_data_format(self, value: bool) -> (r: Self)
        ensures
            r@ == with_bit(self@, DAC_CONTROL2_DATA_FORMAT, value),
    {
        Control2 { raw: write_bit(self.raw, DAC_CONTROL2_DATA_FORMAT, value) }
    }
}
/// RateControl field, its lowest bit. Rate divider.
pub const RATE_CONTROL_RATE: u32 = 0;

/// DAC rate control register.
#[derive(Debug, Clone, Copy, PartialEq, Eq)]
pub struct RateControl {
    raw: u32,
}

impl View for RateControl {
    type V = u32;

    closed spec fn view(&self) -> u32 {
        self.raw
    }
}

impl RateControl {
    /// Register with the given raw value.
    pub fn new_with_raw_value(raw: u32) -> (r: Self)
        ensures
            r@ == raw,
    {
        RateControl { raw }
    }

    /// Raw register value.
    pub fn raw_value(&self) -> (r: u32)
        ensures
            r == self@,
    {
        self.raw
    }

    /// The default value, all bits zero.
    pub fn zero() -> (r: Self)
        ensures
            r@ == 0,
    {
        RateControl { raw: 0 }
    }

    /// Rate divider.
    pub fn rate(&self) -> (r: u8)
        ensures
            r == field_value(self@, RATE_CONTROL_RATE, 8),
            r <= 0xff,
    {
        proof {
            lemma_low_mask_values();
        }
        read_field(self.raw, RATE_CONTROL_RATE, 8) as u8
    }

    /// With the rate field set to `value`.
    pub fn with_rate(self, value: u8) -> (r: Self)
        ensures
            r@ == with_field(self@, RATE_CONTROL_RATE, 8, value as u32),
    {
        RateControl { raw: write_field(self.raw, RATE_CONTROL_RATE, 8, value as u32) }
    }
}

/// Data source of a DAC channel (4-bit selector in channel control register 7).
#[derive(Debug, Clone, Copy, PartialEq, Eq, Structural)]
pub enum DataSource {
    /// Internal tone generator (DDS).
    Dds,
    /// Test pattern (SED).
    Sed,
    /// Input data (DMA).
    Dma,
    /// Constant zero.
    Zero,
    /// Inverted PN7 sequence.
    InvertedPn7,
    /// Inverted PN15 sequence.
    InvertedPn15,
    /// PN7 sequence.
    Pn7,
    /// PN15 sequence.
    Pn15,
    /// Loopback of the ADC data.
    Loopback,
    /// Device specific PN sequence.
    PnX,
}

impl DataSource {
    /// The four-bit selector value.
    pub open spec fn spec_bits(self) -> u32 {
        match self {
            DataSource::Dds => 0,
            DataSource::Sed => 1,
            DataSource::Dma => 2,
            DataSource::Zero => 3,
            DataSource::InvertedPn7 => 4,
            DataSource::InvertedPn15 => 5,
            DataSource::Pn7 => 6,
            DataSource::Pn15 => 7,
            DataSource::Loopback => 8,
            DataSource::PnX => 9,
        }
    }

    /// The four-bit selector value.
    pub fn bits(self) -> (r: u32)
        ensures
            r == self.spec_bits(),
    {
        match self {
            DataSource::Dds => 0,
            DataSource::Sed => 1,
            DataSource::Dma => 2,
            DataSource::Zero => 3,
            DataSource::InvertedPn7 => 4,
            DataSource::InvertedPn15 => 5,
            DataSource::Pn7 => 6,
            DataSource::Pn15 => 7,
            DataSource::Loopback => 8,
            DataSource::PnX => 9,
        }
    }

    /// The data source that a selector value names; the value itself if it names none.
    pub fn from_bits(bits: u32) -> (r: Result<Self, u32>)
        ensures
            match r {
                Ok(source) => source.spec_bits() == bits,
                Err(v) => v == bits && bits > 9,
            },
    {
        if bits == 0 {
            Ok(DataSource::Dds)
        } else if bits == 1 {
            Ok(DataSource::Sed)
        } else if bits == 2 {
            Ok(DataSource::Dma)
        } else if bits == 3 {
            Ok(DataSource::Zero)
        } else if bits == 4 {
            Ok(DataSource::InvertedPn7)
        } else if bits == 5 {
            Ok(DataSource::InvertedPn15)
        } else if bits == 6 {
            Ok(DataSource::Pn7)
        } else if bits == 7 {
            Ok(DataSource::Pn15)
        } else if bits == 8 {
            Ok(DataSource::Loopback)
        } else if bits == 9 {
            Ok(DataSource::PnX)
        } else {
            Err(bits)
        }
    }
}

/// Channel control register 7 field, its lowest bit. Data source selector, bits 0 to 3.
pub const CHANNEL_CONTROL7_DATA_SOURCE: u32 = 0;

/// Channel control register 7 of a DAC channel.
#[derive(Debug, Clone, Copy, PartialEq, Eq)]
pub struct ChannelControl7 {
    raw: u32,
}

impl View for ChannelControl7 {
    type V = u32;

    closed spec fn view(&self) -> u32 {
        self.raw
    }
}

impl ChannelControl7 {
    /// Register with the given raw value.
    pub fn new_with_raw_value(raw: u32) -> (r: Self)
        ensures
            r@ == raw,
    {
        ChannelControl7 { raw }
    }

    /// Raw register value.
    pub fn raw_value(&self) -> (r: u32)
        ensures
            r == self@,
    {
        self.raw
    }

    /// The register selecting `source`, all other bits zero.
    pub fn for_data_source(source: DataSource) -> (r: Self)
        ensures
            r@ == with_field(0, CHANNEL_CONTROL7_DATA_SOURCE, 4, source.spec_bits()),
    {
        ChannelControl7 { raw: write_field(0, CHANNEL_CONTROL7_DATA_SOURCE, 4, source.bits()) }
    }

    /// Data source; the raw selector value if it names no data source.
    pub fn data_source(&self) -> (r: Result<DataSource, u32>)
        ensures
            match r {
                Ok(source) => source.spec_bits() == field_value(self@, CHANNEL_CONTROL7_DATA_SOURCE, 4),
                Err(v) => v == field_value(self@, CHANNEL_CONTROL7_DATA_SOURCE, 4),
            },
    {
        DataSource::from_bits(read_field(self.raw, CHANNEL_CONTROL7_DATA_SOURCE, 4))
    }
}

} // verus!
