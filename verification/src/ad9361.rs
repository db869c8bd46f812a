//! # Analog Devices AD9361 interface core driver
//!
//! Drivers for the ADC and DAC register blocks of the AXI AD9361 interface IP core. Each
//! driver works on its block, handed to it as volatile 32-bit cells; every access it makes
//! through a mutable handle is recorded in the ghost trace of that handle.
pub mod adc;
pub mod dac;
pub mod regs;
