//! Bit fields of the ADC register block.
#[allow(unused_imports)]
use crate::bits::{bit_is_set, field_value, lemma_low_mask_values, read_bit, read_field, with_bit, with_field, write_bit, write_field};
pub use crate::ad9361::regs::fields::{InterfaceType, R1Mode, SymbolModeBits};
use vstd::prelude::*;

verus! {

/// DDR sampling edge.
#[derive(Debug, Clone, Copy, PartialEq, Eq, Structural)]
pub enum DdrEdgeSelect {
    Rising,
    Falling,
}

impl DdrEdgeSelect {
    /// The value of the register bit for this setting.
    pub open spec fn spec_bit(self) -> bool {
        match self {
            DdrEdgeSelect::Rising => false,
            DdrEdgeSelect::Falling => true,
        }
    }

    /// The value of the register bit for this setting.
    pub fn bit(self) -> (r: bool)
        ensures
            r == self.spec_bit(),
    {
        match self {
            DdrEdgeSelect::Rising => false,
            DdrEdgeSelect::Falling => true,
        }
    }

    /// The setting that a register bit value selects.
    pub fn from_bit(bit: bool) -> (r: Self)
        ensures
            r.spec_bit() == bit,
    {
        if bit {
            DdrEdgeSelect::Falling
        } else {
            DdrEdgeSelect::Rising
        }
    }
}
/// Pin mode.
#[derive(Debug, Clone, Copy, PartialEq, Eq, Structural)]
pub enum PinMode {
    ClockMultiplexed,
    PinMultiplexed,
}

impl PinMode {
    /// The value of the register bit for this setting.
    pub open spec fn spec_bit(self) -> bool {
        match self {
            PinMode::ClockMultiplexed => true,
            PinMode::PinMultiplexed => false,
        }
    }

    /// The value of the register bit for this setting.
    pub fn bit(self) -> (r: bool)
        ensures
            r == self.spec_bit(),
    {
        match self {
            PinMode::ClockMultiplexed => true,
            PinMode::PinMultiplexed => false,
        }
    }

    /// The setting that a register bit value selects.
    pub fn from_bit(bit: bool) -> (r: Self)
        ensures
            r.spec_bit() == bit,
    {
        if bit {
            PinMode::ClockMultiplexed
        } else {
            PinMode::PinMultiplexed
        }
    }
}
/// Control1 bit. Interface type.
pub const ADC_CONTROL1_INTERFACE_TYPE: u32 = 16;
/// Control1 bit. Select symbol data format mode.
pub const ADC_CONTROL1_SYMB_OP: u32 = 15;
/// Control1 bit. Symbol width.
pub const ADC_CONTROL1_SYMB_8_16B: u32 = 14;
/// Control1 field, its lowest bit. Number of lanes.
pub const ADC_CONTROL1_NUM_OF_LANES: u32 = 8;
/// Control1 bit. Synchronize.
pub const ADC_CONTROL1_SYNC: u32 = 3;
/// Control1 bit. Number of channels.
pub const ADC_CONTROL1_R1_MODE: u32 = 2;
/// Control1 bit. DDR sampling edge.
pub const ADC_CONTROL1_DDR_EDGESEL: u32 = 1;
/// Control1 bit. Pin mode.
pub const ADC_CONTROL1_PIN_MODE: u32 = 0;

/// ADC control register 1.
#[derive(Debug, Clone, Copy, PartialEq, Eq)]
pub struct Control1 {
    raw: u32,
}

impl View for Control1 {
    type V = u32;

    closed spec fn view(&self) -> u32 {
        self.raw
    }
}

impl Control1 {
    /// Register with the given raw value.
    pub fn new_with_raw_value(raw: u32) -> (r: Self)
        ensures
            r@ == raw,
    {
        Control1 { raw }
    }

    /// Raw register value.
    pub fn raw_value(&self) -> (r: u32)
        ensures
            r == self@,
    {
        self.raw
    }

    /// The default value, all bits zero.
    pub fn zero() -> (r: Self)
        ensures
            r@ == 0,
    {
        Control1 { raw: 0 }
    }

    /// Interface type.
    pub fn interface_type(&self) -> (r: InterfaceType)
        ensures
            r.spec_bit() == bit_is_set(self@, ADC_CONTROL1_INTERFACE_TYPE),
    {
        InterfaceType::from_bit(read_bit(self.raw, ADC_CONTROL1_INTERFACE_TYPE))
    }

    /// With the interface_type bit set for `value`.
    pub fn with_interface_type(self, value: InterfaceType) -> (r: Self)
        ensures
            r@ == with_bit(self@, ADC_CONTROL1_INTERFACE_TYPE, value.spec_bit()),
    {
        Control1 { raw: write_bit(self.raw, ADC_CONTROL1_INTERFACE_TYPE, value.bit()) }
    }

    /// Select symbol data format mode.
    pub fn symb_op(&self) -> (r: bool)
        ensures
            r == bit_is_set(self@, ADC_CONTROL1_SYMB_OP),
    {
        read_bit(self.raw, ADC_CONTROL1_SYMB_OP)
    }

    /// With the symb_op bit set to `value`.
    pub fn with_symb_op(self, value: bool) -> (r: Self)
        ensures
            r@ == with_bit(self@, ADC_CONTROL1_SYMB_OP, value),
    {
        Control1 { raw: write_bit(self.raw, ADC_CONTROL1_SYMB_OP, value) }
    }

    /// Symbol width.
    pub fn symb_8_16b(&self) -> (r: SymbolModeBits)
        ensures
            r.spec_bit() == bit_is_set(self@, ADC_CONTROL1_SYMB_8_16B),
    {
        SymbolModeBits::from_bit(read_bit(self.raw, ADC_CONTROL1_SYMB_8_16B))
    }

    /// With the symb_8_16b bit set for `value`.
    pub fn with_symb_8_16b(self, value: SymbolModeBits) -> (r: Self)
        ensures
            r@ == with_bit(self@, ADC_CONTROL1_SYMB_8_16B, value.spec_bit()),
    {
        Control1 { raw: write_bit(self.raw, ADC_CONTROL1_SYMB_8_16B, value.bit()) }
    }

    /// Number of lanes.
    pub fn num_of_lanes(&self) -> (r: u8)
        ensures
            r == field_value(self@, ADC_CONTROL1_NUM_OF_LANES, 5),
            r <= 0x1f,
    {
        proof {
            lemma_low_mask_values();
        }
        read_field(self.raw, ADC_CONTROL1_NUM_OF_LANES, 5) as u8
    }

    /// With the num_of_lanes field set to `value`.
    pub fn with_num_of_lanes(self, value: u8) -> (r: Self)
        requires
            value <= 0x1f,
        ensures
            r@ == with_field(self@, ADC_CONTROL1_NUM_OF_LANES, 5, value as u32),
    {
        Control1 { raw: write_field(self.raw, ADC_CONTROL1_NUM_OF_LANES, 5, value as u32) }
    }

    /// Synchronize.
    pub fn sync(&self) -> (r: bool)
        ensures
            r == bit_is_set(self@, ADC_CONTROL1_SYNC),
    {
        read_bit(self.raw, ADC_CONTROL1_SYNC)
    }

    /// With the sync bit set to `value`.
    pub fn with_sync(self, value: bool) -> (r: Self)
        ensures
            r@ == with_bit(self@, ADC_CONTROL1_SYNC, value),
    {
        Control1 { raw: write_bit(self.raw, ADC_CONTROL1_SYNC, value) }
    }

    /// Number of channels.
    pub fn r1_mode(&self) -> (r: R1Mode)
        ensures
            r.spec_bit() == bit_is_set(self@, ADC_CONTROL1_R1_MODE),
    {
        R1Mode::from_bit(read_bit(self.raw, ADC_CONTROL1_R1_MODE))
    }

    /// With the r1_mode bit set for `value`.
    pub fn with_r1_mode(self, value: R1Mode) -> (r: Self)
        ensures
            r@ == with_bit(self@, ADC_CONTROL1_R1_MODE, value.spec_bit()),
    {
        Control1 { raw: write_bit(self.raw, ADC_CONTROL1_R1_MODE, value.bit()) }
    }

    /// DDR sampling edge.
    pub fn ddr_edgesel(&self) -> (r: DdrEdgeSelect)
        ensures
            r.spec_bit() == bit_is_set(self@, ADC_CONTROL1_DDR_EDGESEL),
    {
        DdrEdgeSelect::from_bit(read_bit(self.raw, ADC_CONTROL1_DDR_EDGESEL))
    }

    /// With the ddr_edgesel bit set for `value`.
    pub fn with_ddr_edgesel(self, value: DdrEdgeSelect) -> (r: Self)
        ensures
            r@ == with_bit(self@, ADC_CONTROL1_DDR_EDGESEL, value.spec_bit()),
    {
        Control1 { raw: write_bit(self.raw, ADC_CONTROL1_DDR_EDGESEL, value.bit()) }
    }

    /// Pin mode.
    pub fn pin_mode(&self) -> (r: PinMode)
        ensures
            r.spec_bit() == bit_is_set(self@, ADC_CONTROL1_PIN_MODE),
    {
        PinMode::from_bit(read_bit(self.raw, ADC_CONTROL1_PIN_MODE))
    }

    /// With the pin_mode bit set for `value`.
    pub fn with_pin_mode(self, value: PinMode) -> (r: Self)
        ensures
            r@ == with_bit(self@, ADC_CONTROL1_PIN_MODE, value.spec_bit()),
    {
        Control1 { raw: write_bit(self.raw, ADC_CONTROL1_PIN_MODE, value.bit()) }
    }
}
} // verus!
