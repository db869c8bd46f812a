//! Bit and bit-field access on 32-bit register words.
//!
//! Bit `n` of a word is `(raw >> n) & 1`; a field of `width` bits starting at bit `lo` is
//! `(raw >> lo)` masked to its low `width` bits. The setters replace exactly those bits and
//! leave every other bit of the word unchanged.
use vstd::prelude::*;

verus! {

/// The low `width` bits set (`width < 32`).
pub open spec fn low_mask(width: u32) -> u32 {
    !(0xffff_ffffu32 << width)
}

/// Whether bit `n` of `raw` is set.
pub open spec fn bit_is_set(raw: u32, n: u32) -> bool {
    (raw >> n) & 1u32 == 1u32
}

/// The `width`-bit field of `raw` that starts at bit `lo`.
pub open spec fn field_value(raw: u32, lo: u32, width: u32) -> u32 {
    (raw >> lo) & low_mask(width)
}

/// `raw` with bit `n` set to `value`.
pub open spec fn with_bit(raw: u32, n: u32, value: bool) -> u32 {
    if value {
        raw | (1u32 << n)
    } else {
        raw & !(1u32 << n)
    }
}

/// `raw` with the `width`-bit field at `lo` replaced by `value`.
pub open spec fn with_field(raw: u32, lo: u32, width: u32, value: u32) -> u32 {
    (raw & !(low_mask(width) << lo)) | ((value & low_mask(width)) << lo)
}

/// The masks of the field widths that the registers of this crate use.
pub proof fn lemma_low_mask_values()
    ensures
        low_mask(1) == 0x1,
        low_mask(2) == 0x3,
        low_mask(3) == 0x7,
        low_mask(4) == 0xf,
        low_mask(5) == 0x1f,
        low_mask(8) == 0xff,
        low_mask(26) == 0x3ff_ffff,
{
    assert(!(0xffff_ffffu32 << 1u32) == 0x1u32 && !(0xffff_ffffu32 << 2u32) == 0x3u32
        && !(0xffff_ffffu32 << 3u32) == 0x7u32 && !(0xffff_ffffu32 << 4u32) == 0xfu32
        && !(0xffff_ffffu32 << 5u32) == 0x1fu32 && !(0xffff_ffffu32 << 8u32) == 0xffu32
        && !(0xffff_ffffu32 << 26u32) == 0x3ff_ffffu32) by (bit_vector);
}

/// Read bit `n` of `raw`.
pub fn read_bit(raw: u32, n: u32) -> (b: bool)
    requires
        n < 32,
    ensures
        b == bit_is_set(raw, n),
{
    (raw >> n) & 1u32 == 1u32
}

/// Write bit `n` of `raw`.
pub fn write_bit(raw: u32, n: u32, value: bool) -> (r: u32)
    requires
        n < 32,
    ensures
        r == with_bit(raw, n, value),
{
    if value {
        raw | (1u32 << n)
    } else {
        raw & !(1u32 << n)
    }
}

/// Read the `width`-bit field at `lo`.
pub fn read_field(raw: u32, lo: u32, width: u32) -> (v: u32)
    requires
        lo < 32,
        0 < width < 32,
    ensures
        v == field_value(raw, lo, width),
        v <= low_mask(width),
{
    let v = (raw >> lo) & !(0xffff_ffffu32 << width);
    assert(((raw >> lo) & !(0xffff_ffffu32 << width)) <= !(0xffff_ffffu32 << width)) by (bit_vector);
    v
}

/// Write the `width`-bit field at `lo`.
pub fn write_field(raw: u32, lo: u32, width: u32, value: u32) -> (r: u32)
    requires
        lo < 32,
        0 < width < 32,
    ensures
        r == with_field(raw, lo, width, value),
{
    (raw & !(!(0xffff_ffffu32 << width) << lo)) | ((value & !(0xffff_ffffu32 << width)) << lo)
}

/// Setting a bit and reading it back gives the value that was set.
pub proof fn lemma_bit_read_after_write(raw: u32, n: u32, value: bool)
    requires
        n < 32,
    ensures
        bit_is_set(with_bit(raw, n, value), n) == value,
{
    if value {
        assert(((raw | (1u32 << n)) >> n) & 1u32 == 1u32) by (bit_vector)
            requires n < 32;
    } else {
        assert(((raw & !(1u32 << n)) >> n) & 1u32 != 1u32) by (bit_vector)
            requires n < 32;
    }
}

/// Setting a bit leaves every other bit unchanged.
pub proof fn lemma_bit_write_keeps_others(raw: u32, n: u32, m: u32, value: bool)
    requires
        n < 32,
        m < 32,
        n != m,
    ensures
        bit_is_set(with_bit(raw, n, value), m) == bit_is_set(raw, m),
{
    if value {
        assert((((raw | (1u32 << n)) >> m) & 1u32 == 1u32) == (((raw >> m) & 1u32) == 1u32))
            by (bit_vector)
            requires n < 32, m < 32, n != m;
    } else {
        assert((((raw & !(1u32 << n)) >> m) & 1u32 == 1u32) == (((raw >> m) & 1u32) == 1u32))
            by (bit_vector)
            requires n < 32, m < 32, n != m;
    }
}

/// The zero word has no bit set.
pub proof fn lemma_zero_has_no_bits(m: u32)
    requires
        m < 32,
    ensures
        !bit_is_set(0, m),
{
    assert((0u32 >> m) & 1u32 != 1u32) by (bit_vector)
        requires m < 32;
}

/// Writing a field and reading it back gives the value written, provided it fits.
pub proof fn lemma_field_read_after_write(raw: u32, lo: u32, width: u32, value: u32)
    requires
        lo < 32,
        0 < width < 32,
        lo + width <= 32,
        value <= low_mask(width),
    ensures
        field_value(with_field(raw, lo, width, value), lo, width) == value,
{
    assert((((raw & !(!(0xffff_ffffu32 << width) << lo)) | ((value & !(0xffff_ffffu32 << width))
        << lo)) >> lo) & !(0xffff_ffffu32 << width) == value) by (bit_vector)
        requires
            lo < 32,
            0 < width < 32,
            lo + width <= 32,
            value <= !(0xffff_ffffu32 << width),
    ;
}

/// Writing a field leaves every bit outside the field unchanged.
pub proof fn lemma_field_write_keeps_others(raw: u32, lo: u32, width: u32, value: u32, m: u32)
    requires
        lo < 32,
        0 < width < 32,
        lo + width <= 32,
        m < 32,
        m < lo || m >= lo + width,
    ensures
        bit_is_set(with_field(raw, lo, width, value), m) == bit_is_set(raw, m),
{
    assert(((((raw & !(!(0xffff_ffffu32 << width) << lo)) | ((value & !(0xffff_ffffu32 << width))
        << lo)) >> m) & 1u32 == 1u32) == (((raw >> m) & 1u32) == 1u32)) by (bit_vector)
        requires
            lo < 32,
            0 < width < 32,
            lo + width <= 32,
            m < 32,
            m < lo || m >= lo + width,
    ;
}

} // verus!
