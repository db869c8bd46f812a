//! ADC driver.
use crate::ad9361::regs::adc::MmioRegisters;
use crate::mmio::BusOp;
use vcell::VolatileCell;
use vstd::prelude::*;

verus! {

/// ADC driver of the AD9361 interface core.
pub struct Adc {
    mmio: MmioRegisters,
}

impl Adc {
    /// The register accesses made by this driver so far.
    pub closed spec fn ops(&self) -> Seq<BusOp> {
        self.mmio.ops()
    }

    /// Create a new ADC driver on the ADC register block of the core (the core's registers
    /// from byte offset 0x40 on).
    pub fn new(cells: &'static [VolatileCell<u32>; 368]) -> (r: Self)
        ensures
            r.ops() == Seq::<BusOp>::empty(),
    {
        Adc { mmio: MmioRegisters::new(cells) }
    }

    /// Direct register access.
    pub fn regs(&mut self) -> (r: &mut MmioRegisters)
        ensures
            r.ops() == old(self).ops(),
            final(self).ops() == final(r).ops(),
    {
        &mut self.mmio
    }
}

} // verus!
