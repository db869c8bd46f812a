//! Register maps of the AXI DMA core.
pub mod direct_register;
pub mod fields;
pub mod scatter_gather;
