//! Verified drivers for AMD/Xilinx AXI IP cores: UART Lite, UART16550, AXI DMA and the
//! Analog Devices AD9361 interface core.
pub mod ad9361;
pub mod bits;
pub mod dma;
pub mod mmio;
pub mod uart16550;
pub mod uartlite;

use vstd::prelude::*;

verus! {

/// The operation cannot complete now: the FIFO it needs is full (for a write) or empty
/// (for a read). Retry later.
#[derive(Debug, Clone, Copy, PartialEq, Eq)]
pub struct WouldBlock;

} // verus!
