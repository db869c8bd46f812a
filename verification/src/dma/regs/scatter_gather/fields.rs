//! Bit fields of the scatter gather register map and of its buffer descriptors.
#[allow(unused_imports)]
use crate::bits::{bit_is_set, field_value, lemma_low_mask_values, read_bit, read_field, with_bit, with_field, write_bit, write_field};
use vstd::prelude::*;

verus! {

/// SgControl field, its lowest bit. User bits of scatter gather transfers.
pub const SG_CONTROL_USER: u32 = 8;
/// SgControl field, its lowest bit. Cache bits of scatter gather transfers.
pub const SG_CONTROL_CACHE: u32 = 0;

/// Scatter gather user and cache control register.
#[derive(Debug, Clone, Copy, PartialEq, Eq)]
pub struct SgControl {
    raw: u32,
}

impl View for SgControl {
    type V = u32;

    closed spec fn view(&self) -> u32 {
        self.raw
    }
}

impl SgControl {
    /// Register with the given raw value.
    pub fn new_with_raw_value(raw: u32) -> (r: Self)
        ensures
            r@ == raw,
    {
        SgControl { raw }
    }

    /// Raw register value.
    pub fn raw_value(&self) -> (r: u32)
        ensures
            r == self@,
    {
        self.raw
    }

    /// The default value, all bits zero.
    pub fn zero() -> (r: Self)
        ensures
            r@ == 0,
    {
        SgControl { raw: 0 }
    }

    /// User bits of scatter gather transfers.
    pub fn user(&self) -> (r: u8)
        ensures
            r == field_value(self@, SG_CONTROL_USER, 4),
            r <= 0xf,
    {
        proof {
            lemma_low_mask_values();
        }
        read_field(self.raw, SG_CONTROL_USER, 4) as u8
    }

    /// With the user field set to `value`.
    pub fn with_user(self, value: u8) -> (r: Self)
        requires
            value <= 0xf,
        ensures
            r@ == with_field(self@, SG_CONTROL_USER, 4, value as u32),
    {
        SgControl { raw: write_field(self.raw, SG_CONTROL_USER, 4, value as u32) }
    }

    /// Cache bits of scatter gather transfers.
    pub fn cache(&self) -> (r: u8)
        ensures
            r == field_value(self@, SG_CONTROL_CACHE, 4),
            r <= 0xf,
    {
        proof {
            lemma_low_mask_values();
        }
        read_field(self.raw, SG_CONTROL_CACHE, 4) as u8
    }

    /// With the cache field set to `value`.
    pub fn with_cache(self, value: u8) -> (r: Self)
        requires
            value <= 0xf,
        ensures
            r@ == with_field(self@, SG_CONTROL_CACHE, 4, value as u32),
    {
        SgControl { raw: write_field(self.raw, SG_CONTROL_CACHE, 4, value as u32) }
    }
}
/// DescriptorControl bit. Set by the CPU to indicate that this descriptor describes the start of the packet.
pub const DESCRIPTOR_CONTROL_TX_START_OF_FRAME: u32 = 27;
/// DescriptorControl bit. Set by the CPU to indicate that this descriptor describes the end of the packet.
pub const DESCRIPTOR_CONTROL_TX_END_OF_FRAME: u32 = 26;
/// DescriptorControl field, its lowest bit. Buffer length in bytes.
pub const DESCRIPTOR_CONTROL_BUFFER_LENGTH: u32 = 0;

/// Control word of a buffer descriptor.
#[derive(Debug, Clone, Copy, PartialEq, Eq)]
pub struct DescriptorControl {
    raw: u32,
}

impl View for DescriptorControl {
    type V = u32;

    closed spec fn view(&self) -> u32 {
        self.raw
    }
}

impl DescriptorControl {
    /// Register with the given raw value.
    pub fn new_with_raw_value(raw: u32) -> (r: Self)
        ensures
            r@ == raw,
    {
        DescriptorControl { raw }
    }

    /// Raw register value.
    pub fn raw_value(&self) -> (r: u32)
        ensures
            r == self@,
    {
        self.raw
    }

    /// The default value, all bits zero.
    pub fn zero() -> (r: Self)
        ensures
            r@ == 0,
    {
        DescriptorControl { raw: 0 }
    }

    /// Set by the CPU to indicate that this descriptor describes the start of the packet.
    pub fn tx_start_of_frame(&self) -> (r: bool)
        ensures
            r == bit_is_set(self@, DESCRIPTOR_CONTROL_TX_START_OF_FRAME),
    {
        read_bit(self.raw, DESCRIPTOR_CONTROL_TX_START_OF_FRAME)
    }

    /// With the tx_start_of_frame bit set to `value`.
    pub fn with_tx_start_of_frame(self, value: bool) -> (r: Self)
        ensures
            r@ == with_bit(self@, DESCRIPTOR_CONTROL_TX_START_OF_FRAME, value),
    {
        DescriptorControl { raw: write_bit(self.raw, DESCRIPTOR_CONTROL_TX_START_OF_FRAME, value) }
    }

    /// Set by the CPU to indicate that this descriptor describes the end of the packet.
    pub fn tx_end_of_frame(&self) -> (r: bool)
        ensures
            r == bit_is_set(self@, DESCRIPTOR_CONTROL_TX_END_OF_FRAME),
    {
        read_bit(self.raw, DESCRIPTOR_CONTROL_TX_END_OF_FRAME)
    }

    /// With the tx_end_of_frame bit set to `value`.
    pub fn with_tx_end_of_frame(self, value: bool) -> (r: Self)
        ensures
            r@ == with_bit(self@, DESCRIPTOR_CONTROL_TX_END_OF_FRAME, value),
    {
        DescriptorControl { raw: write_bit(self.raw, DESCRIPTOR_CONTROL_TX_END_OF_FRAME, value) }
    }

    /// Buffer length in bytes.
    pub fn buffer_length(&self) -> (r: u32)
        ensures
            r == field_value(self@, DESCRIPTOR_CONTROL_BUFFER_LENGTH, 26),
            r <= 0x3ffffff,
    {
        proof {
            lemma_low_mask_values();
        }
        read_field(self.raw, DESCRIPTOR_CONTROL_BUFFER_LENGTH, 26)
    }

    /// With the buffer_length field set to `value`.
    pub fn with_buffer_length(self, value: u32) -> (r: Self)
        requires
            value <= 0x3ffffff,
        ensures
            r@ == with_field(self@, DESCRIPTOR_CONTROL_BUFFER_LENGTH, 26, value),
    {
        DescriptorControl { raw: write_field(self.raw, DESCRIPTOR_CONTROL_BUFFER_LENGTH, 26, value) }
    }
}
/// DescriptorStatus bit. The descriptor was completed.
pub const DESCRIPTOR_STATUS_COMPLETED: u32 = 31;
/// DescriptorStatus bit. DMA decode error.
pub const DESCRIPTOR_STATUS_DMA_DECODE_ERROR: u32 = 30;
/// DescriptorStatus bit. DMA slave error.
pub const DESCRIPTOR_STATUS_DMA_SLAVE_ERROR: u32 = 29;
/// DescriptorStatus bit. DMA internal error.
pub const DESCRIPTOR_STATUS_DMA_INTERNAL_ERROR: u32 = 28;
/// DescriptorStatus field, its lowest bit. Number of transferred bytes.
pub const DESCRIPTOR_STATUS_TRANSFERRED_BYTES: u32 = 0;

/// Status word of a buffer descriptor.
#[derive(Debug, Clone, Copy, PartialEq, Eq)]
pub struct DescriptorStatus {
    raw: u32,
}

impl View for DescriptorStatus {
    type V = u32;

    closed spec fn view(&self) -> u32 {
        self.raw
    }
}

impl DescriptorStatus {
    /// Register with the given raw value.
    pub fn new_with_raw_value(raw: u32) -> (r: Self)
        ensures
            r@ == raw,
    {
        DescriptorStatus { raw }
    }

    /// Raw register value.
    pub fn raw_value(&self) -> (r: u32)
        ensures
            r == self@,
    {
        self.raw
    }

    /// The default value, all bits zero.
    pub fn zero() -> (r: Self)
        ensures
            r@ == 0,
    {
        DescriptorStatus { raw: 0 }
    }

    /// The descriptor was completed.
    pub fn completed(&self) -> (r: bool)
        ensures
            r == bit_is_set(self@, DESCRIPTOR_STATUS_COMPLETED),
    {
        read_bit(self.raw, DESCRIPTOR_STATUS_COMPLETED)
    }

    /// With the completed bit set to `value`.
    pub fn with_completed(self, value: bool) -> (r: Self)
        ensures
            r@ == with_bit(self@, DESCRIPTOR_STATUS_COMPLETED, value),
    {
        DescriptorStatus { raw: write_bit(self.raw, DESCRIPTOR_STATUS_COMPLETED, value) }
    }

    /// DMA decode error.
    pub fn dma_decode_error(&self) -> (r: bool)
        ensures
            r == bit_is_set(self@, DESCRIPTOR_STATUS_DMA_DECODE_ERROR),
    {
        read_bit(self.raw, DESCRIPTOR_STATUS_DMA_DECODE_ERROR)
    }

    /// With the dma_decode_error bit set to `value`.
    pub fn with_dma_decode_error(self, value: bool) -> (r: Self)
        ensures
            r@ == with_bit(self@, DESCRIPTOR_STATUS_DMA_DECODE_ERROR, value),
    {
        DescriptorStatus { raw: write_bit(self.raw, DESCRIPTOR_STATUS_DMA_DECODE_ERROR, value) }
    }

    /// DMA slave error.
    pub fn dma_slave_error(&self) -> (r: bool)
        ensures
            r == bit_is_set(self@, DESCRIPTOR_STATUS_DMA_SLAVE_ERROR),
    {
        read_bit(self.raw, DESCRIPTOR_STATUS_DMA_SLAVE_ERROR)
    }

    /// With the dma_slave_error bit set to `value`.
    pub fn with_dma_slave_error(self, value: bool) -> (r: Self)
        ensures
            r@ == with_bit(self@, DESCRIPTOR_STATUS_DMA_SLAVE_ERROR, value),
    {
        DescriptorStatus { raw: write_bit(self.raw, DESCRIPTOR_STATUS_DMA_SLAVE_ERROR, value) }
    }

    /// DMA internal error.
    pub fn dma_internal_error(&self) -> (r: bool)
        ensures
            r == bit_is_set(self@, DESCRIPTOR_STATUS_DMA_INTERNAL_ERROR),
    {
        read_bit(self.raw, DESCRIPTOR_STATUS_DMA_INTERNAL_ERROR)
    }

    /// With the dma_internal_error bit set to `value`.
    pub fn with_dma_internal_error(self, value: bool) -> (r: Self)
        ensures
            r@ == with_bit(self@, DESCRIPTOR_STATUS_DMA_INTERNAL_ERROR, value),
    {
        DescriptorStatus { raw: write_bit(self.raw, DESCRIPTOR_STATUS_DMA_INTERNAL_ERROR, value) }
    }

    /// Number of transferred bytes.
    pub fn transferred_bytes(&self) -> (r: u32)
        ensures
            r == field_value(self@, DESCRIPTOR_STATUS_TRANSFERRED_BYTES, 26),
            r <= 0x3ffffff,
    {
        proof {
            lemma_low_mask_values();
        }
        read_field(self.raw, DESCRIPTOR_STATUS_TRANSFERRED_BYTES, 26)
    }

    /// With the transferred_bytes field set to `value`.
    pub fn with_transferred_bytes(self, value: u32) -> (r: Self)
        requires
            value <= 0x3ffffff,
        ensures
            r@ == with_field(self@, DESCRIPTOR_STATUS_TRANSFERRED_BYTES, 26, value),
    {
        DescriptorStatus { raw: write_field(self.raw, DESCRIPTOR_STATUS_TRANSFERRED_BYTES, 26, value) }
    }
}
} // verus!
