//! The ADC register block: 240 words of block registers, then sixteen channel register sets
//! of eight words each (368 words in all).
pub mod fields;

pub use crate::ad9361::regs::fields::Reset;
use crate::ad9361::regs::adc::fields::Control1;
use crate::mmio::{BusOp, RegisterBlock};
use vcell::VolatileCell;
use vstd::prelude::*;

verus! {

/// Number of 32-bit words of the ADC register block.
pub const REGISTER_WORDS: usize = 368;
/// Word index of the reset register.
pub const RESETS_INDEX: usize = 0;
/// Word index of ADC control register 1.
pub const ADC_CONTROL1_INDEX: usize = 1;
/// Word index of ADC control register 2.
pub const ADC_CONTROL2_INDEX: usize = 2;
/// Word index of ADC control register 3.
pub const ADC_CONTROL3_INDEX: usize = 3;
/// Word index of the clock frequency register.
pub const ADC_CLOCK_FREQ_INDEX: usize = 5;
/// Word index of the clock ratio register.
pub const ADC_CLOCK_RATIO_INDEX: usize = 6;
/// Word index of the status register.
pub const ADC_STATUS_INDEX: usize = 7;
/// Word index of the delay control register.
pub const ADC_DELAY_CONTROL_INDEX: usize = 8;
/// Word index of the delay status register.
pub const ADC_DELAY_STATUS_INDEX: usize = 9;
/// Word index of the synchronization status register.
pub const ADC_SYNC_STATUS_INDEX: usize = 10;
/// Word index of the DRP control register.
pub const ADC_DRP_CONTROL_INDEX: usize = 12;
/// Word index of the DRP status register.
pub const ADC_DRP_STATUS_INDEX: usize = 13;
/// Word index of the DRP write data register.
pub const ADC_DRP_WDATA_INDEX: usize = 14;
/// Word index of the DRP read data register.
pub const ADC_DRP_RDATA_INDEX: usize = 15;
/// Word index of the configuration write register.
pub const ADC_CONFIG_WRITE_INDEX: usize = 16;
/// Word index of the configuration read register.
pub const ADC_CONFIG_READ_INDEX: usize = 17;
/// Word index of the user interface status register.
pub const UI_STATUS_INDEX: usize = 18;
/// Word index of the configuration control register.
pub const ADC_CONFIG_CONTROL_INDEX: usize = 19;
/// Word index of user control register 1.
pub const USER_CONTROL_1_INDEX: usize = 24;
/// Word index of the start code register.
pub const ADC_START_CODE_INDEX: usize = 25;
/// Word index of the GPIO input register.
pub const ADC_GPIO_IN_INDEX: usize = 30;
/// Word index of the GPIO output register.
pub const ADC_GPIO_OUT_INDEX: usize = 31;
/// Word index of the PPS counter register.
pub const PPS_COUNTER_INDEX: usize = 32;
/// Word index of the PPS status register.
pub const PPS_STATUS_INDEX: usize = 33;
/// Word index of the first channel register set.
pub const CHANNELS_INDEX: usize = 240;
/// Number of words of one channel register set.
pub const CHANNEL_WORDS: usize = 8;
/// Number of channel register sets.
pub const NUM_CHANNELS: usize = 16;

/// Channel register offset of control register 0.
pub const CHANNEL_CONTROL0: usize = 0;
/// Channel register offset of the status register.
pub const CHANNEL_STATUS: usize = 1;
/// Channel register offset of the raw data register.
pub const CHANNEL_RAW_DATA: usize = 2;
/// Channel register offset of control register 1.
pub const CHANNEL_CONTROL1: usize = 3;
/// Channel register offset of control register 2.
pub const CHANNEL_CONTROL2: usize = 4;
/// Channel register offset of control register 3.
pub const CHANNEL_CONTROL3: usize = 5;
/// Channel register offset of user control register 1.
pub const CHANNEL_USER_CONTROL1: usize = 6;
/// Channel register offset of user control register 2.
pub const CHANNEL_USER_CONTROL2: usize = 7;

/// The word index in the ADC block of register `offset` of channel `channel`.
pub open spec fn channel_register_index(channel: int, offset: int) -> int {
    CHANNELS_INDEX + CHANNEL_WORDS * channel + offset
}

/// One of the sixteen channel register sets of the ADC block.
#[derive(Debug, Clone, Copy, PartialEq, Eq)]
pub struct Channel {
    index: usize,
}

impl Channel {
    /// A channel number always names one of the channel register sets.
    #[verifier::type_invariant]
    spec fn valid(&self) -> bool {
        self.index < NUM_CHANNELS
    }

    /// The channel number.
    pub closed spec fn spec_index(&self) -> usize {
        self.index
    }

    /// The channel register set `index`, if there is one.
    pub fn new(index: usize) -> (r: Option<Self>)
        ensures
            index < NUM_CHANNELS <==> r is Some,
            r matches Some(c) ==> c.spec_index() == index,
    {
        if index < NUM_CHANNELS {
            Some(Channel { index })
        } else {
            None
        }
    }

    /// The channel number.
    pub fn index(&self) -> (r: usize)
        ensures
            r == self.spec_index(),
            r < NUM_CHANNELS,
    {
        proof {
            use_type_invariant(self);
        }
        self.index
    }
}

/// ADC register block.
pub struct MmioRegisters {
    block: RegisterBlock<368>,
}

impl MmioRegisters {
    /// The accesses made through this handle so far, oldest first.
    pub closed spec fn ops(&self) -> Seq<BusOp> {
        self.block.ops()
    }

    /// Handle on the given register cells, with an empty trace.
    pub fn new(cells: &'static [VolatileCell<u32>; 368]) -> (r: Self)
        ensures
            r.ops() == Seq::<BusOp>::empty(),
    {
        MmioRegisters { block: RegisterBlock::new(cells) }
    }

    /// Read register `index` and record the read.
    pub fn read(&mut self, index: usize) -> (value: u32)
        requires
            index < REGISTER_WORDS,
        ensures
            final(self).ops() == old(self).ops().push(BusOp::Read { index, value }),
    {
        self.block.read(index)
    }

    /// Write register `index` and record the write.
    pub fn write(&mut self, index: usize, value: u32)
        requires
            index < REGISTER_WORDS,
        ensures
            final(self).ops() == old(self).ops().push(BusOp::Write { index, value }),
    {
        self.block.write(index, value)
    }

    /// Write the reset register.
    pub fn write_resets(&mut self, value: Reset)
        ensures
            final(self).ops() == old(self).ops().push(BusOp::Write { index: RESETS_INDEX, value: value@ }),
    {
        self.block.write(RESETS_INDEX, value.raw_value())
    }

    /// Write ADC control register 1.
    pub fn write_adc_control1(&mut self, value: Control1)
        ensures
            final(self).ops() == old(self).ops().push(BusOp::Write { index: ADC_CONTROL1_INDEX, value: value@ }),
    {
        self.block.write(ADC_CONTROL1_INDEX, value.raw_value())
    }

    /// Read register `offset` of a channel.
    pub fn read_channel(&mut self, channel: &Channel, offset: usize) -> (value: u32)
        requires
            offset < CHANNEL_WORDS,
        ensures
            final(self).ops() == old(self).ops().push(
                BusOp::Read { index: channel_register_index(channel.spec_index() as int, offset as int) as usize, value },
            ),
    {
        let i = channel.index();
        self.block.read(CHANNELS_INDEX + CHANNEL_WORDS * i + offset)
    }

    /// Write register `offset` of a channel.
    pub fn write_channel(&mut self, channel: &Channel, offset: usize, value: u32)
        requires
            offset < CHANNEL_WORDS,
        ensures
            final(self).ops() == old(self).ops().push(
                BusOp::Write { index: channel_register_index(channel.spec_index() as int, offset as int) as usize, value },
            ),
    {
        let i = channel.index();
        self.block.write(CHANNELS_INDEX + CHANNEL_WORDS * i + offset, value)
    }
}

} // verus!
