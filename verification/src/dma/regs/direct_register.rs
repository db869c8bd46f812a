//! Register map of the AXI DMA core in direct register mode: 23 words.
pub mod fields;

pub use crate::dma::regs::fields::{Control, Status};
use crate::dma::regs::direct_register::fields::Mm2SLength;
use crate::mmio::{BusOp, RegisterBlock};
use vcell::VolatileCell;
use vstd::prelude::*;

verus! {

/// Number of 32-bit words of the register block.
pub const REGISTER_WORDS: usize = 23;
/// Word index of the MM2S control register.
pub const MM2S_CONTROL_INDEX: usize = 0;
/// Word index of the MM2S status register.
pub const MM2S_STATUS_INDEX: usize = 1;
/// Word index of the lower word of the MM2S source address.
pub const MM2S_SOURCE_ADDRESS_LOWER_WORD_INDEX: usize = 6;
/// Word index of the upper word of the MM2S source address.
pub const MM2S_SOURCE_ADDRESS_UPPER_WORD_INDEX: usize = 7;
/// Word index of the MM2S transfer length register.
pub const MM2S_TRANSFER_LENGTH_INDEX: usize = 10;
/// Word index of the S2MM control register.
pub const S2MM_CONTROL_INDEX: usize = 12;
/// Word index of the S2MM status register.
pub const S2MM_STATUS_INDEX: usize = 13;
/// Word index of the lower word of the S2MM destination address.
pub const S2MM_DEST_ADDRESS_LOWER_WORD_INDEX: usize = 18;
/// Word index of the upper word of the S2MM destination address.
pub const S2MM_DEST_ADDRESS_UPPER_WORD_INDEX: usize = 19;
/// Word index of the S2MM length register.
pub const S2MM_LENGTH_INDEX: usize = 22;

/// Register block of the AXI DMA core in direct register mode.
pub struct MmioRegisters {
    block: RegisterBlock<23>,
}

impl MmioRegisters {
    /// The accesses made through this handle so far, oldest first.
    pub closed spec fn ops(&self) -> Seq<BusOp> {
        self.block.ops()
    }

    /// Handle on the given register cells, with an empty trace.
    pub fn new(cells: &'static [VolatileCell<u32>; 23]) -> (r: Self)
        ensures
            r.ops() == Seq::<BusOp>::empty(),
    {
        MmioRegisters { block: RegisterBlock::new(cells) }
    }

    /// Read register `index` and record the read.
    pub fn read(&mut self, index: usize) -> (value: u32)
        requires
            index < REGISTER_WORDS,
        ensures
            final(self).ops() == old(self).ops().push(BusOp::Read { index, value }),
    {
        self.block.read(index)
    }

    /// Write register `index` and record the write.
    pub fn write(&mut self, index: usize, value: u32)
        requires
            index < REGISTER_WORDS,
        ensures
            final(self).ops() == old(self).ops().push(BusOp::Write { index, value }),
    {
        self.block.write(index, value)
    }

    /// Read the MM2S control register.
    pub fn read_mm2s_control(&mut self) -> (r: Control)
        ensures
            final(self).ops() == old(self).ops().push(BusOp::Read { index: MM2S_CONTROL_INDEX, value: r@ }),
    {
        Control::new_with_raw_value(self.block.read(MM2S_CONTROL_INDEX))
    }

    /// Write the MM2S control register.
    pub fn write_mm2s_control(&mut self, value: Control)
        ensures
            final(self).ops() == old(self).ops().push(BusOp::Write { index: MM2S_CONTROL_INDEX, value: value@ }),
    {
        self.block.write(MM2S_CONTROL_INDEX, value.raw_value())
    }

    /// Read the MM2S status register.
    pub fn read_mm2s_status(&mut self) -> (r: Status)
        ensures
            final(self).ops() == old(self).ops().push(BusOp::Read { index: MM2S_STATUS_INDEX, value: r@ }),
    {
        Status::new_with_raw_value(self.block.read(MM2S_STATUS_INDEX))
    }

    /// Write the MM2S status register (write one to clear its interrupt bits).
    pub fn write_mm2s_status(&mut self, value: Status)
        ensures
            final(self).ops() == old(self).ops().push(BusOp::Write { index: MM2S_STATUS_INDEX, value: value@ }),
    {
        self.block.write(MM2S_STATUS_INDEX, value.raw_value())
    }

    /// Write the lower word of the MM2S source address.
    pub fn write_mm2s_source_address_lower_word(&mut self, value: u32)
        ensures
            final(self).ops() == old(self).ops().push(BusOp::Write { index: MM2S_SOURCE_ADDRESS_LOWER_WORD_INDEX, value }),
    {
        self.block.write(MM2S_SOURCE_ADDRESS_LOWER_WORD_INDEX, value)
    }

    /// Write the MM2S transfer length register, which starts the transfer.
    pub fn write_mm2s_transfer_length(&mut self, value: Mm2SLength)
        ensures
            final(self).ops() == old(self).ops().push(BusOp::Write { index: MM2S_TRANSFER_LENGTH_INDEX, value: value@ }),
    {
        self.block.write(MM2S_TRANSFER_LENGTH_INDEX, value.raw_value())
    }
}

} // verus!
