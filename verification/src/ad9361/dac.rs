//! DAC driver.
use crate::ad9361::regs::dac::regs::{ChannelControl7, Control1, DataSource, RateControl, CHANNEL_CONTROL7_DATA_SOURCE, DAC_CONTROL1_SYNC};
use crate::ad9361::regs::dac::{channel_register_index, MmioRegisters, CHANNEL_CONTROL7, CONTROL1_INDEX, NUM_CHANNELS, RATE_CONTROL_INDEX, RESET_INDEX};
use crate::ad9361::regs::fields::{Reset, RESET_CLOCK_ENABLE_N, RESET_MMCM_RESET_N, RESET_RESET_N};
use crate::bits::{with_bit, with_field};
use crate::mmio::BusOp;
use vcell::VolatileCell;
use vstd::prelude::*;

verus! {

/// The two reset register writes that enable the DAC: clock enabled with the core held in
/// reset, then both resets released.
pub open spec fn enable_sequence() -> Seq<BusOp> {
    seq![
        BusOp::Write { index: RESET_INDEX, value: with_bit(0, RESET_CLOCK_ENABLE_N, false) },
        BusOp::Write {
            index: RESET_INDEX,
            value: with_bit(with_bit(with_bit(0, RESET_CLOCK_ENABLE_N, false), RESET_MMCM_RESET_N, true), RESET_RESET_N, true),
        },
    ]
}

/// The control register 1 write that synchronizes the DAC channels.
pub open spec fn sync_op() -> BusOp {
    BusOp::Write { index: CONTROL1_INDEX, value: with_bit(0, DAC_CONTROL1_SYNC, true) }
}

/// The write that selects `source` for DAC channel `channel`.
pub open spec fn data_source_op(channel: int, source: DataSource) -> BusOp {
    BusOp::Write {
        index: channel_register_index(channel, CHANNEL_CONTROL7 as int) as usize,
        value: with_field(0, CHANNEL_CONTROL7_DATA_SOURCE, 4, source.spec_bits()),
    }
}

/// DAC driver of the AD9361 interface core.
pub struct Dac {
    mmio: MmioRegisters,
}

impl Dac {
    /// The register accesses made by this driver so far.
    pub closed spec fn ops(&self) -> Seq<BusOp> {
        self.mmio.ops()
    }

    /// Create a new DAC driver on the DAC register block of the core (the core's registers
    /// from byte offset 0x1000 on).
    ///
    /// This function also enables the driver, sets the rate divider and synchronizes the
    /// channels within the DAC.
    pub fn new(cells: &'static [VolatileCell<u32>; 512], rate_div: u8) -> (r: Self)
        requires
            rate_div != 0,
        ensures
            r.ops() == enable_sequence().push(BusOp::Write { index: RATE_CONTROL_INDEX, value: rate_div as u32 }).push(sync_op()),
    {
        let mut dac = Dac { mmio: MmioRegisters::new(cells) };
        dac.enable();
        dac.set_rate_div(rate_div);
        dac.synchronize();
        proof {
            assert(dac.ops() =~= enable_sequence().push(BusOp::Write { index: RATE_CONTROL_INDEX, value: rate_div as u32 }).push(sync_op()));
        }
        dac
    }

    /// Enable the DAC: enable the clock with the core held in reset, then release both resets.
    pub fn enable(&mut self)
        ensures
            final(self).ops() == old(self).ops() + enable_sequence(),
    {
        self.mmio.write_reset(Reset::zero().with_clock_enable_n(false));
        self.mmio.write_reset(Reset::zero().with_clock_enable_n(false).with_mmcm_reset_n(true).with_reset_n(true));
        proof {
            assert(self.ops() =~= old(self).ops() + enable_sequence());
        }
    }

    /// Select the data source of one channel. Also synchronizes the DAC channels.
    pub fn set_data_source(&mut self, channel: u8, source: DataSource)
        requires
            channel < 16,
        ensures
            final(self).ops() == old(self).ops().push(data_source_op(channel as int, source)).push(sync_op()),
    {
        if let Some(ch) = self.mmio.dac_channels(channel as usize) {
            self.mmio.write_channel_control7(&ch, ChannelControl7::for_data_source(source));
        }
        self.synchronize();
    }

    /// Select the data source of channels `0..num_channels`. Also synchronizes the DAC
    /// channels.
    pub fn set_data_source_all_channels_up_to(&mut self, num_channels: u8, source: DataSource)
        requires
            num_channels < 16,
        ensures
            final(self).ops().len() == old(self).ops().len() + num_channels + 1,
            final(self).ops().subrange(0, old(self).ops().len() as int) == old(self).ops(),
            forall|i: int| 0 <= i < num_channels ==> #[trigger] final(self).ops()[old(self).ops().len() + i] == data_source_op(i, source),
            final(self).ops().last() == sync_op(),
    {
        let ghost n = self.ops().len() as int;
        let ghost old_ops = self.ops();
        let mut i: usize = 0;
        while i < num_channels as usize
            invariant
                i <= num_channels < 16,
                n == old_ops.len(),
                self.ops().len() == n + i,
                self.ops().subrange(0, n) == old_ops,
                forall|j: int| 0 <= j < i ==> #[trigger] self.ops()[n + j] == data_source_op(j, source),
            decreases num_channels - i,
        {
            let ghost before = self.ops();
            if let Some(ch) = self.mmio.dac_channels(i) {
                self.mmio.write_channel_control7(&ch, ChannelControl7::for_data_source(source));
            }
            proof {
                assert(self.ops().subrange(0, n) =~= before.subrange(0, n));
                assert forall|j: int| 0 <= j < i + 1 implies #[trigger] self.ops()[n + j] == data_source_op(j, source) by {
                    if j < i {
                        assert(self.ops()[n + j] == before[n + j]);
                    }
                }
            }
            i += 1;
        }
        let ghost looped = self.ops();
        self.synchronize();
        proof {
            assert(self.ops().subrange(0, n) =~= looped.subrange(0, n));
            assert forall|j: int| 0 <= j < num_channels implies #[trigger] self.ops()[n + j] == data_source_op(j, source) by {
                assert(self.ops()[n + j] == looped[n + j]);
            }
        }
    }

    /// Set the rate divider.
    pub fn set_rate_div(&mut self, rate_div: u8)
        requires
            rate_div != 0,
        ensures
            final(self).ops() == old(self).ops().push(BusOp::Write { index: RATE_CONTROL_INDEX, value: rate_div as u32 }),
    {
        self.mmio.write_rate_control(RateControl::new_with_raw_value(rate_div as u32));
    }

    /// Synchronize the DAC channels.
    pub fn synchronize(&mut self)
        ensures
            final(self).ops() == old(self).ops().push(sync_op()),
    {
        self.mmio.write_control1(Control1::zero().with_sync(true));
    }

    /// Direct register access.
    pub fn regs(&mut self) -> (r: &mut MmioRegisters)
        ensures
            r.ops() == old(self).ops(),
            final(self).ops() == final(r).ops(),
    {
        &mut self.mmio
    }
}

} // verus!
