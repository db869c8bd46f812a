//! Bit fields shared by the register maps of the AXI DMA core.
#[allow(unused_imports)]
use crate::bits::{bit_is_set, field_value, lemma_low_mask_values, read_bit, read_field, with_bit, with_field, write_bit, write_field};
use vstd::prelude::*;

verus! {

/// Run or stop the DMA channel.
#[derive(Debug, Clone, Copy, PartialEq, Eq, Structural)]
pub enum RunStop {
    Stop,
    Run,
}

impl RunStop {
    /// The value of the register bit for this setting.
    pub open spec fn spec_bit(self) -> bool {
        match self {
            RunStop::Stop => false,
            RunStop::Run => true,
        }
    }

    /// The value of the register bit for this setting.
    pub fn bit(self) -> (r: bool)
        ensures
            r == self.spec_bit(),
    {
        match self {
            RunStop::Stop => false,
            RunStop::Run => true,
        }
    }

    /// The setting that a register bit value selects.
    pub fn from_bit(bit: bool) -> (r: Self)
        ensures
            r.spec_bit() == bit,
    {
        if bit {
            RunStop::Run
        } else {
            RunStop::Stop
        }
    }
}
/// Control field, its lowest bit. Interrupt delay timeout.
pub const CONTROL_INTERRUPT_DELAY: u32 = 24;
/// Control field, its lowest bit. Interrupt threshold.
pub const CONTROL_INTERRUPT_THRESHOLD: u32 = 16;
/// Control bit. Error interrupt enable.
pub const CONTROL_ERROR_INTERRUPT_ENABLE: u32 = 14;
/// Control bit. Delay timer interrupt enable.
pub const CONTROL_DELAY_TIMER_INTERRUPT_ENABLE: u32 = 13;
/// Control bit. Interrupt on complete enable.
pub const CONTROL_INTERRUPT_ON_COMPLETE: u32 = 12;
/// Control bit. Cyclic buffer descriptor mode enable.
pub const CONTROL_CYCLIC_BD_ENABLE: u32 = 4;
/// Control bit. Keyhole mode.
pub const CONTROL_KEYHOLE: u32 = 3;
/// Control bit. Soft reset; reads as set while the reset is in progress.
pub const CONTROL_RESET: u32 = 2;
/// Control bit. Run or stop the channel.
pub const CONTROL_RUN_STOP: u32 = 0;

/// DMA channel control register.
#[derive(Debug, Clone, Copy, PartialEq, Eq)]
pub struct Control {
    raw: u32,
}

impl View for Control {
    type V = u32;

    closed spec fn view(&self) -> u32 {
        self.raw
    }
}

impl Control {
    /// Register with the given raw value.
    pub fn new_with_raw_value(raw: u32) -> (r: Self)
        ensures
            r@ == raw,
    {
        Control { raw }
    }

    /// Raw register value.
    pub fn raw_value(&self) -> (r: u32)
        ensures
            r == self@,
    {
        self.raw
    }

    /// The default value, all bits zero.
    pub fn zero() -> (r: Self)
        ensures
            r@ == 0,
    {
        Control { raw: 0 }
    }

    /// Interrupt delay timeout.
    pub fn interrupt_delay(&self) -> (r: u8)
        ensures
            r == field_value(self@, CONTROL_INTERRUPT_DELAY, 8),
            r <= 0xff,
    {
        proof {
            lemma_low_mask_values();
        }
        read_field(self.raw, CONTROL_INTERRUPT_DELAY, 8) as u8
    }

    /// With the interrupt_delay field set to `value`.
    pub fn with_interrupt_delay(self, value: u8) -> (r: Self)
        ensures
            r@ == with_field(self@, CONTROL_INTERRUPT_DELAY, 8, value as u32),
    {
        Control { raw: write_field(self.raw, CONTROL_INTERRUPT_DELAY, 8, value as u32) }
    }

    /// Interrupt threshold.
    pub fn interrupt_threshold(&self) -> (r: u8)
        ensures
            r == field_value(self@, CONTROL_INTERRUPT_THRESHOLD, 8),
            r <= 0xff,
    {
        proof {
            lemma_low_mask_values();
        }
        read_field(self.raw, CONTROL_INTERRUPT_THRESHOLD, 8) as u8
    }

    /// With the interrupt_threshold field set to `value`.
    pub fn with_interrupt_threshold(self, value: u8) -> (r: Self)
        ensures
            r@ == with_field(self@, CONTROL_INTERRUPT_THRESHOLD, 8, value as u32),
    {
        Control { raw: write_field(self.raw, CONTROL_INTERRUPT_THRESHOLD, 8, value as u32) }
    }

    /// Error interrupt enable.
    pub fn error_interrupt_enable(&self) -> (r: bool)
        ensures
            r == bit_is_set(self@, CONTROL_ERROR_INTERRUPT_ENABLE),
    {
        read_bit(self.raw, CONTROL_ERROR_INTERRUPT_ENABLE)
    }

    /// With the error_interrupt_enable bit set to `value`.
    pub fn with_error_interrupt_enable(self, value: bool) -> (r: Self)
        ensures
            r@ == with_bit(self@, CONTROL_ERROR_INTERRUPT_ENABLE, value),
    {
        Control { raw: write_bit(self.raw, CONTROL_ERROR_INTERRUPT_ENABLE, value) }
    }

    /// Delay timer interrupt enable.
    pub fn delay_timer_interrupt_enable(&self) -> (r: bool)
        ensures
            r == bit_is_set(self@, CONTROL_DELAY_TIMER_INTERRUPT_ENABLE),
    {
        read_bit(self.raw, CONTROL_DELAY_TIMER_INTERRUPT_ENABLE)
    }

    /// With the delay_timer_interrupt_enable bit set to `value`.
    pub fn with_delay_timer_interrupt_enable(self, value: bool) -> (r: Self)
        ensures
            r@ == with_bit(self@, CONTROL_DELAY_TIMER_INTERRUPT_ENABLE, value),
    {
        Control { raw: write_bit(self.raw, CONTROL_DELAY_TIMER_INTERRUPT_ENABLE, value) }
    }

    /// Interrupt on complete enable.
    pub fn interrupt_on_complete(&self) -> (r: bool)
        ensures
            r == bit_is_set(self@, CONTROL_INTERRUPT_ON_COMPLETE),
    {
        read_bit(self.raw, CONTROL_INTERRUPT_ON_COMPLETE)
    }

    /// With the interrupt_on_complete bit set to `value`.
    pub fn with_interrupt_on_complete(self, value: bool) -> (r: Self)
        ensures
            r@ == with_bit(self@, CONTROL_INTERRUPT_ON_COMPLETE, value),
    {
        Control { raw: write_bit(self.raw, CONTROL_INTERRUPT_ON_COMPLETE, value) }
    }

    /// Cyclic buffer descriptor mode enable.
    pub fn cyclic_bd_enable(&self) -> (r: bool)
        ensures
            r == bit_is_set(self@, CONTROL_CYCLIC_BD_ENABLE),
    {
        read_bit(self.raw, CONTROL_CYCLIC_BD_ENABLE)
    }

    /// With the cyclic_bd_enable bit set to `value`.
    pub fn with_cyclic_bd_enable(self, value: bool) -> (r: Self)
        ensures
            r@ == with_bit(self@, CONTROL_CYCLIC_BD_ENABLE, value),
    {
        Control { raw: write_bit(self.raw, CONTROL_CYCLIC_BD_ENABLE, value) }
    }

    /// Keyhole mode.
    pub fn keyhole(&self) -> (r: bool)
        ensures
            r == bit_is_set(self@, CONTROL_KEYHOLE),
    {
        read_bit(self.raw, CONTROL_KEYHOLE)
    }

    /// With the keyhole bit set to `value`.
    pub fn with_keyhole(self, value: bool) -> (r: Self)
        ensures
            r@ == with_bit(self@, CONTROL_KEYHOLE, value),
    {
        Control { raw: write_bit(self.raw, CONTROL_KEYHOLE, value) }
    }

    /// Soft reset; reads as set while the reset is in progress.
    pub fn reset(&self) -> (r: bool)
        ensures
            r == bit_is_set(self@, CONTROL_RESET),
    {
        read_bit(self.raw, CONTROL_RESET)
    }

    /// With the reset bit set to `value`.
    pub fn with_reset(self, value: bool) -> (r: Self)
        ensures
            r@ == with_bit(self@, CONTROL_RESET, value),
    {
        Control { raw: write_bit(self.raw, CONTROL_RESET, value) }
    }

    /// Run or stop the channel.
    pub fn run_stop(&self) -> (r: RunStop)
        ensures
            r.spec_bit() == bit_is_set(self@, CONTROL_RUN_STOP),
    {
        RunStop::from_bit(read_bit(self.raw, CONTROL_RUN_STOP))
    }

    /// With the run_stop bit set for `value`.
    pub fn with_run_stop(self, value: RunStop) -> (r: Self)
        ensures
            r@ == with_bit(self@, CONTROL_RUN_STOP, value.spec_bit()),
    {
        Control { raw: write_bit(self.raw, CONTROL_RUN_STOP, value.bit()) }
    }
}
/// Status field, its lowest bit. Interrupt delay time status.
pub const STATUS_INTERRUPT_DELAY: u32 = 24;
/// Status field, its lowest bit. Interrupt threshold status.
pub const STATUS_INTERRUPT_THRESHOLD: u32 = 16;
/// Status bit. Error interrupt; write one to clear.
pub const STATUS_ERROR_INTERRUPT: u32 = 14;
/// Status bit. Delay timer interrupt; write one to clear.
pub const STATUS_DELAY_TIMER_INTERRUPT: u32 = 13;
/// Status bit. Completion interrupt; write one to clear.
pub const STATUS_COMPLETION_INTERRUPT: u32 = 12;
/// Status bit. Scatter gather decode error.
pub const STATUS_SG_DECODE_ERROR: u32 = 10;
/// Status bit. Scatter gather slave error.
pub const STATUS_SG_SLAVE_ERROR: u32 = 9;
/// Status bit. Scatter gather internal error.
pub const STATUS_SG_INTERNAL_ERROR: u32 = 8;
/// Status bit. DMA decode error.
pub const STATUS_DMA_DECODE_ERROR: u32 = 6;
/// Status bit. DMA slave error.
pub const STATUS_DMA_SLAVE_ERROR: u32 = 5;
/// Status bit. DMA internal error.
pub const STATUS_DMA_INTERNAL_ERROR: u32 = 4;
/// Status bit. Scatter gather engine included.
pub const STATUS_SCATTER_GATHER_ENABLED: u32 = 3;
/// Status bit. Channel idle.
pub const STATUS_IDLE: u32 = 1;
/// Status bit. Channel halted.
pub const STATUS_HALTED: u32 = 0;

/// DMA channel status register.
#[derive(Debug, Clone, Copy, PartialEq, Eq)]
pub struct Status {
    raw: u32,
}

impl View for Status {
    type V = u32;

    closed spec fn view(&self) -> u32 {
        self.raw
    }
}

impl Status {
    /// Register with the given raw value.
    pub fn new_with_raw_value(raw: u32) -> (r: Self)
        ensures
            r@ == raw,
    {
        Status { raw }
    }

    /// Raw register value.
    pub fn raw_value(&self) -> (r: u32)
        ensures
            r == self@,
    {
        self.raw
    }

    /// The default value, all bits zero.
    pub fn zero() -> (r: Self)
        ensures
            r@ == 0,
    {
        Status { raw: 0 }
    }

    /// Interrupt delay time status.
    pub fn interrupt_delay(&self) -> (r: u8)
        ensures
            r == field_value(self@, STATUS_INTERRUPT_DELAY, 8),
            r <= 0xff,
    {
        proof {
            lemma_low_mask_values();
        }
        read_field(self.raw, STATUS_INTERRUPT_DELAY, 8) as u8
    }

    /// Interrupt threshold status.
    pub fn interrupt_threshold(&self) -> (r: u8)
        ensures
            r == field_value(self@, STATUS_INTERRUPT_THRESHOLD, 8),
            r <= 0xff,
    {
        proof {
            lemma_low_mask_values();
        }
        read_field(self.raw, STATUS_INTERRUPT_THRESHOLD, 8) as u8
    }

    /// Error interrupt; write one to clear.
    pub fn error_interrupt(&self) -> (r: bool)
        ensures
            r == bit_is_set(self@, STATUS_ERROR_INTERRUPT),
    {
        read_bit(self.raw, STATUS_ERROR_INTERRUPT)
    }

    /// With the error_interrupt bit set to `value`.
    pub fn with_error_interrupt(self, value: bool) -> (r: Self)
        ensures
            r@ == with_bit(self@, STATUS_ERROR_INTERRUPT, value),
    {
        Status { raw: write_bit(self.raw, STATUS_ERROR_INTERRUPT, value) }
    }

    /// Delay timer interrupt; write one to clear.
    pub fn delay_timer_interrupt(&self) -> (r: bool)
        ensures
            r == bit_is_set(self@, STATUS_DELAY_TIMER_INTERRUPT),
    {
        read_bit(self.raw, STATUS_DELAY_TIMER_INTERRUPT)
    }

    /// With the delay_timer_interrupt bit set to `value`.
    pub fn with_delay_timer_interrupt(self, value: bool) -> (r: Self)
        ensures
            r@ == with_bit(self@, STATUS_DELAY_TIMER_INTERRUPT, value),
    {
        Status { raw: write_bit(self.raw, STATUS_DELAY_TIMER_INTERRUPT, value) }
    }

    /// Completion interrupt; write one to clear.
    pub fn completion_interrupt(&self) -> (r: bool)
        ensures
            r == bit_is_set(self@, STATUS_COMPLETION_INTERRUPT),
    {
        read_bit(self.raw, STATUS_COMPLETION_INTERRUPT)
    }

    /// With the completion_interrupt bit set to `value`.
    pub fn with_completion_interrupt(self, value: bool) -> (r: Self)
        ensures
            r@ == with_bit(self@, STATUS_COMPLETION_INTERRUPT, value),
    {
        Status { raw: write_bit(self.raw, STATUS_COMPLETION_INTERRUPT, value) }
    }

    /// Scatter gather decode error.
    pub fn sg_decode_error(&self) -> (r: bool)
        ensures
            r == bit_is_set(self@, STATUS_SG_DECODE_ERROR),
    {
        read_bit(self.raw, STATUS_SG_DECODE_ERROR)
    }

    /// Scatter gather slave error.
    pub fn sg_slave_error(&self) -> (r: bool)
        ensures
            r == bit_is_set(self@, STATUS_SG_SLAVE_ERROR),
    {
        read_bit(self.raw, STATUS_SG_SLAVE_ERROR)
    }

    /// Scatter gather internal error.
    pub fn sg_internal_error(&self) -> (r: bool)
        ensures
            r == bit_is_set(self@, STATUS_SG_INTERNAL_ERROR),
    {
        read_bit(self.raw, STATUS_SG_INTERNAL_ERROR)
    }

    /// DMA decode error.
    pub fn dma_decode_error(&self) -> (r: bool)
        ensures
            r == bit_is_set(self@, STATUS_DMA_DECODE_ERROR),
    {
        read_bit(self.raw, STATUS_DMA_DECODE_ERROR)
    }

    /// DMA slave error.
    pub fn dma_slave_error(&self) -> (r: bool)
        ensures
            r == bit_is_set(self@, STATUS_DMA_SLAVE_ERROR),
    {
        read_bit(self.raw, STATUS_DMA_SLAVE_ERROR)
    }

    /// DMA internal error.
    pub fn dma_internal_error(&self) -> (r: bool)
        ensures
            r == bit_is_set(self@, STATUS_DMA_INTERNAL_ERROR),
    {
        read_bit(self.raw, STATUS_DMA_INTERNAL_ERROR)
    }

    /// Scatter gather engine included.
    pub fn scatter_gather_enabled(&self) -> (r: bool)
        ensures
            r == bit_is_set(self@, STATUS_SCATTER_GATHER_ENABLED),
    {
        read_bit(self.raw, STATUS_SCATTER_GATHER_ENABLED)
    }

    /// Channel idle.
    pub fn idle(&self) -> (r: bool)
        ensures
            r == bit_is_set(self@, STATUS_IDLE),
    {
        read_bit(self.raw, STATUS_IDLE)
    }

    /// Channel halted.
    pub fn halted(&self) -> (r: bool)
        ensures
            r == bit_is_set(self@, STATUS_HALTED),
    {
        read_bit(self.raw, STATUS_HALTED)
    }
}
} // verus!
