//! The DAC register block: 256 words of block registers, then sixteen channel register sets
//! of sixteen words each (512 words in all).
pub mod regs;

pub use crate::ad9361::regs::fields::Reset;
use crate::ad9361::regs::dac::regs::{ChannelControl7, Control1, Control2, RateControl};
use crate::mmio::{BusOp, RegisterBlock};
use vcell::VolatileCell;
use vstd::prelude::*;

verus! {

/// Number of 32-bit words of the DAC register block.
pub const REGISTER_WORDS: usize = 512;
/// Word index of the reset register.
pub const RESET_INDEX: usize = 16;
/// Word index of DAC control register 1.
pub const CONTROL1_INDEX: usize = 17;
/// Word index of DAC control register 2.
pub const CONTROL2_INDEX: usize = 18;
/// Word index of the rate control register.
pub const RATE_CONTROL_INDEX: usize = 19;
/// Word index of the frame register.
pub const FRAME_INDEX: usize = 20;
/// Word index of status register 1.
pub const STATUS1_INDEX: usize = 21;
/// Word index of status register 2.
pub const DAC_STATUS2_INDEX: usize = 22;
/// Word index of status register 3.
pub const DAC_STATUS3_INDEX: usize = 23;
/// Word index of the clock select register.
pub const DAC_CLKSEL_INDEX: usize = 24;
/// Word index of the synchronization status register.
pub const DAC_SYNC_STATUS_INDEX: usize = 26;
/// Word index of the DRP control register.
pub const DAC_DRP_CONTROL_INDEX: usize = 28;
/// Word index of the DRP status register.
pub const DAC_DRP_STATUS_INDEX: usize = 29;
/// Word index of the DRP write data register.
pub const DAC_DRP_WDATA_INDEX: usize = 30;
/// Word index of the DRP read data register.
pub const DAC_DRP_RDATA_INDEX: usize = 31;
/// Word index of the custom read register.
pub const DAC_CUSTOM_READ_INDEX: usize = 32;
/// Word index of the custom write register.
pub const DAC_CUSTOM_WRITE_INDEX: usize = 33;
/// Word index of the user interface status register.
pub const DAC_UI_STATUS_INDEX: usize = 34;
/// Word index of the custom control register.
pub const DAC_CUSTOM_CONTROL_INDEX: usize = 35;
/// Word index of user control register 1.
pub const DAC_USER_CONTROL_1_INDEX: usize = 40;
/// Word index of the GPIO input register.
pub const DAC_GPIO_IN_INDEX: usize = 46;
/// Word index of the GPIO output register.
pub const DAC_GPIO_OUT_INDEX: usize = 47;
/// Word index of the first channel register set.
pub const CHANNELS_INDEX: usize = 256;
/// Number of words of one channel register set.
pub const CHANNEL_WORDS: usize = 16;
/// Number of channel register sets.
pub const NUM_CHANNELS: usize = 16;

/// Channel register offset of control register 1.
pub const CHANNEL_CONTROL1: usize = 0;
/// Channel register offset of control register 2.
pub const CHANNEL_CONTROL2: usize = 1;
/// Channel register offset of control register 3.
pub const CHANNEL_CONTROL3: usize = 2;
/// Channel register offset of control register 4.
pub const CHANNEL_CONTROL4: usize = 3;
/// Channel register offset of control register 5.
pub const CHANNEL_CONTROL5: usize = 4;
/// Channel register offset of control register 6.
pub const CHANNEL_CONTROL6: usize = 5;
/// Channel register offset of control register 7 (data source selection).
pub const CHANNEL_CONTROL7: usize = 6;
/// Channel register offset of control register 8.
pub const CHANNEL_CONTROL8: usize = 7;
/// Channel register offset of user control register 3.
pub const CHANNEL_USER_CONTROL3: usize = 8;
/// Channel register offset of user control register 4.
pub const CHANNEL_USER_CONTROL4: usize = 9;
/// Channel register offset of user control register 5.
pub const CHANNEL_USER_CONTROL5: usize = 10;
/// Channel register offset of control register 9.
pub const CHANNEL_CONTROL9: usize = 11;
/// Channel register offset of control register 10.
pub const CHANNEL_CONTROL10: usize = 12;

/// The word index in the DAC block of register `offset` of channel `channel`.
pub open spec fn channel_register_index(channel: int, offset: int) -> int {
    CHANNELS_INDEX + CHANNEL_WORDS * channel + offset
}

/// One of the sixteen channel register sets of the DAC block.
#[derive(Debug, Clone, Copy, PartialEq, Eq)]
pub struct Channel {
    index: usize,
}

impl Channel {
    /// A channel number always names one of the channel register sets.
    #[verifier::type_invariant]
    spec fn valid(&self) -> bool {
        self.index < NUM_CHANNELS
    }

    /// The channel number.
    pub closed spec fn spec_index(&self) -> usize {
        self.index
    }

    /// The channel register set `index`, if there is one.
    pub fn new(index: usize) -> (r: Option<Self>)
        ensures
            index < NUM_CHANNELS <==> r is Some,
            r matches Some(c) ==> c.spec_index() == index,
    {
        if index < NUM_CHANNELS {
            Some(Channel { index })
        } else {
            None
        }
    }

    /// The channel number.
    pub fn index(&self) -> (r: usize)
        ensures
            r == self.spec_index(),
            r < NUM_CHANNELS,
    {
        proof {
            use_type_invariant(self);
        }
        self.index
    }
}

/// DAC register block.
pub struct MmioRegisters {
    block: RegisterBlock<512>,
}

impl MmioRegisters {
    /// The accesses made through this handle so far, oldest first.
    pub closed spec fn ops(&self) -> Seq<BusOp> {
        self.block.ops()
    }

    /// Handle on the given register cells, with an empty trace.
    pub fn new(cells: &'static [VolatileCell<u32>; 512]) -> (r: Self)
        ensures
            r.ops() == Seq::<BusOp>::empty(),
    {
        MmioRegisters { block: RegisterBlock::new(cells) }
    }

    /// Read register `index` and record the read.
    pub fn read(&mut self, index: usize) -> (value: u32)
        requires
            index < REGISTER_WORDS,
        ensures
            final(self).ops() == old(self).ops().push(BusOp::Read { index, value }),
    {
        self.block.read(index)
    }

    /// Write register `index` and record the write.
    pub fn write(&mut self, index: usize, value: u32)
        requires
            index < REGISTER_WORDS,
        ensures
            final(self).ops() == old(self).ops().push(BusOp::Write { index, value }),
    {
        self.block.write(index, value)
    }

    /// Write the reset register.
    pub fn write_reset(&mut self, value: Reset)
        ensures
            final(self).ops() == old(self).ops().push(BusOp::Write { index: RESET_INDEX, value: value@ }),
    {
        self.block.write(RESET_INDEX, value.raw_value())
    }

    /// Write DAC control register 1.
    pub fn write_control1(&mut self, value: Control1)
        ensures
            final(self).ops() == old(self).ops().push(BusOp::Write { index: CONTROL1_INDEX, value: value@ }),
    {
        self.block.write(CONTROL1_INDEX, value.raw_value())
    }

    /// Write DAC control register 2.
    pub fn write_control2(&mut self, value: Control2)
        ensures
            final(self).ops() == old(self).ops().push(BusOp::Write { index: CONTROL2_INDEX, value: value@ }),
    {
        self.block.write(CONTROL2_INDEX, value.raw_value())
    }

    /// Write the rate control register.
    pub fn write_rate_control(&mut self, value: RateControl)
        ensures
            final(self).ops() == old(self).ops().push(BusOp::Write { index: RATE_CONTROL_INDEX, value: value@ }),
    {
        self.block.write(RATE_CONTROL_INDEX, value.raw_value())
    }

    /// The register set of DAC channel `index`, if there is one.
    pub fn dac_channels(&self, index: usize) -> (r: Option<Channel>)
        ensures
            index < NUM_CHANNELS <==> r is Some,
            r matches Some(c) ==> c.spec_index() == index,
    {
        Channel::new(index)
    }

    /// Write control register 7 of a channel.
    pub fn write_channel_control7(&mut self, channel: &Channel, value: ChannelControl7)
        ensures
            final(self).ops() == old(self).ops().push(
                BusOp::Write { index: channel_register_index(channel.spec_index() as int, CHANNEL_CONTROL7 as int) as usize, value: value@ },
            ),
    {
        self.write_channel(channel, CHANNEL_CONTROL7, value.raw_value())
    }

    /// Read register `offset` of a channel.
    pub fn read_channel(&mut self, channel: &Channel, offset: usize) -> (value: u32)
        requires
            offset < CHANNEL_WORDS,
        ensures
            final(self).ops() == old(self).ops().push(
                BusOp::Read { index: channel_register_index(channel.spec_index() as int, offset as int) as usize, value },
            ),
    {
        let i = channel.index();
        self.block.read(CHANNELS_INDEX + CHANNEL_WORDS * i + offset)
    }

    /// Write register `offset` of a channel.
    pub fn write_channel(&mut self, channel: &Channel, offset: usize, value: u32)
        requires
            offset < CHANNEL_WORDS,
        ensures
            final(self).ops() == old(self).ops().push(
                BusOp::Write { index: channel_register_index(channel.spec_index() as int, offset as int) as usize, value },
            ),
    {
        let i = channel.index();
        self.block.write(CHANNELS_INDEX + CHANNEL_WORDS * i + offset, value)
    }
}

} // verus!
