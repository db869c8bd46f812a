//! Bit fields of the direct register mode register map.
#[allow(unused_imports)]
use crate::bits::{bit_is_set, field_value, lemma_low_mask_values, read_bit, read_field, with_bit, with_field, write_bit, write_field};
use vstd::prelude::*;

verus! {

/// Mm2SLength field, its lowest bit. Transfer length in bytes; writing it starts the transfer.
pub const MM2S_LENGTH_LENGTH: u32 = 0;

/// MM2S transfer length register.
#[derive(Debug, Clone, Copy, PartialEq, Eq)]
pub struct Mm2SLength {
    raw: u32,
}

impl View for Mm2SLength {
    type V = u32;

    closed spec fn view(&self) -> u32 {
        self.raw
    }
}

impl Mm2SLength {
    /// Register with the given raw value.
    pub fn new_with_raw_value(raw: u32) -> (r: Self)
        ensures
            r@ == raw,
    {
        Mm2SLength { raw }
    }

    /// Raw register value.
    pub fn raw_value(&self) -> (r: u32)
        ensures
            r == self@,
    {
        self.raw
    }

    /// The default value, all bits zero.
    pub fn zero() -> (r: Self)
        ensures
            r@ == 0,
    {
        Mm2SLength { raw: 0 }
    }

    /// Transfer length in bytes; writing it starts the transfer.
    pub fn length(&self) -> (r: u32)
        ensures
            r == field_value(self@, MM2S_LENGTH_LENGTH, 26),
            r <= 0x3ffffff,
    {
        proof {
            lemma_low_mask_values();
        }
        read_field(self.raw, MM2S_LENGTH_LENGTH, 26)
    }

    /// With the length field set to `value`.
    pub fn with_length(self, value: u32) -> (r: Self)
        requires
            value <= 0x3ffffff,
        ensures
            r@ == with_field(self@, MM2S_LENGTH_LENGTH, 26, value),
    {
        Mm2SLength { raw: write_field(self.raw, MM2S_LENGTH_LENGTH, 26, value) }
    }
}
} // verus!
