//! Bit-field access on machine words.
//!
//! Field extraction goes through the `simple_bits` crate; the rest of the
//! bit arithmetic used by the emulator (rotation, population count, sign
//! extension) is written and proved here.
use vstd::prelude::*;
use simple_bits::BitsExt;

verus! {

/// The `len`-bit field of `v` that starts at bit `start`.
pub open spec fn field_u32(v: u32, start: u32, len: u32) -> u32 {
    (v >> start) & (((1u32 << len) - 1) as u32)
}

/// The `len`-bit field of `v` that starts at bit `start`.
pub open spec fn field_u16(v: u16, start: u16, len: u16) -> u16 {
    (v >> start) & (((1u16 << len) - 1) as u16)
}

/// Bit `index` of `v`.
pub open spec fn bit_u32(v: u32, index: u32) -> bool {
    (v >> index) & 1 == 1
}

/// Bit `index` of `v`.
pub open spec fn bit_u16(v: u16, index: u16) -> bool {
    (v >> index) & 1 == 1
}

/// `<u32 as simple_bits::BitsExt>::extract_bits` on the range `start..end`.
/// The crate computes `(v >> start) & ((1 << (end - start)) - 1)`; it panics
/// on a shift of 32 or more, which the `requires` rules out.
#[verifier::external_body]
pub(crate) fn extract_bits_u32(v: u32, start: usize, end: usize) -> (r: u32)
    requires
        start <= end,
        end - start < 32,
        start < 32,
    ensures
        r == field_u32(v, start as u32, (end - start) as u32),
{
    BitsExt::extract_bits(v, start..end)
}

/// `<u16 as simple_bits::BitsExt>::extract_bits` on the range `start..end`.
/// The crate computes `(v >> start) & ((1 << (end - start)) - 1)`; it panics
/// on a shift of 16 or more, which the `requires` rules out.
#[verifier::external_body]
pub(crate) fn extract_bits_u16(v: u16, start: usize, end: usize) -> (r: u16)
    requires
        start <= end,
        end - start < 16,
        start < 16,
    ensures
        r == field_u16(v, start as u16, (end - start) as u16),
{
    BitsExt::extract_bits(v, start..end)
}

/// `<u32 as simple_bits::BitsExt>::extract_bit`: `(v >> index) & 1 == 1`.
#[verifier::external_body]
pub(crate) fn extract_bit_u32(v: u32, index: usize) -> (r: bool)
    requires
        index < 32,
    ensures
        r == bit_u32(v, index as u32),
{
    BitsExt::extract_bit(v, index)
}

/// `<u16 as simple_bits::BitsExt>::extract_bit`: `(v >> index) & 1 == 1`.
#[verifier::external_body]
pub(crate) fn extract_bit_u16(v: u16, index: usize) -> (r: bool)
    requires
        index < 16,
    ensures
        r == bit_u16(v, index as u16),
{
    BitsExt::extract_bit(v, index)
}

} // verus!

verus! {

/// The values of the low-bit masks that the instruction decoders use.
pub proof fn lemma_u32_masks()
    by (bit_vector)
    ensures
        ((1u32 << 1u32) - 1) as u32 == 1u32,
        ((1u32 << 2u32) - 1) as u32 == 3u32,
        ((1u32 << 3u32) - 1) as u32 == 7u32,
        ((1u32 << 4u32) - 1) as u32 == 15u32,
        ((1u32 << 5u32) - 1) as u32 == 31u32,
        ((1u32 << 8u32) - 1) as u32 == 255u32,
        ((1u32 << 12u32) - 1) as u32 == 4095u32,
        ((1u32 << 16u32) - 1) as u32 == 0xFFFFu32,
        ((1u32 << 20u32) - 1) as u32 == 0xFFFFFu32,
        ((1u32 << 24u32) - 1) as u32 == 0xFFFFFFu32,
{
}

/// The values of the low-bit masks that the Thumb decoders use.
pub proof fn lemma_u16_masks()
    by (bit_vector)
    ensures
        ((1u16 << 2u16) - 1) as u16 == 3u16,
        ((1u16 << 3u16) - 1) as u16 == 7u16,
        ((1u16 << 4u16) - 1) as u16 == 15u16,
        ((1u16 << 5u16) - 1) as u16 == 31u16,
        ((1u16 << 7u16) - 1) as u16 == 127u16,
        ((1u16 << 8u16) - 1) as u16 == 255u16,
        ((1u16 << 11u16) - 1) as u16 == 2047u16,
{
}

/// A masked value is no larger than its mask.
pub broadcast proof fn lemma_and_le_u32(a: u32, m: u32)
    ensures
        #[trigger] (a & m) <= m,
{
    assert((a & m) <= m) by (bit_vector);
}

/// A masked value is no larger than its mask.
pub broadcast proof fn lemma_and_le_u16(a: u16, m: u16)
    ensures
        #[trigger] (a & m) <= m,
{
    assert((a & m) <= m) by (bit_vector);
}

pub broadcast group group_bits {
    lemma_and_le_u32,
    lemma_and_le_u16,
}

} // verus!

verus! {

/// A 24-bit field read as a two's-complement number.
pub open spec fn sext24(v: u32) -> int {
    if v < 0x80_0000 {
        v as int
    } else {
        v - 0x100_0000
    }
}

/// An 11-bit field read as a two's-complement number.
pub open spec fn sext11(v: u32) -> int {
    if v < 0x400 {
        v as int
    } else {
        v - 0x800
    }
}

/// An 8-bit field read as a two's-complement number.
pub open spec fn sext8(v: u32) -> int {
    if v < 0x80 {
        v as int
    } else {
        v - 0x100
    }
}

pub fn sign_extend_24(v: u32) -> (r: i32)
    requires
        v <= 0xFF_FFFF,
    ensures
        r == sext24(v),
{
    if v < 0x80_0000 {
        v as i32
    } else {
        (v as i32) - 0x100_0000
    }
}

pub fn sign_extend_11(v: u32) -> (r: i32)
    requires
        v <= 0x7FF,
    ensures
        r == sext11(v),
{
    if v < 0x400 {
        v as i32
    } else {
        (v as i32) - 0x800
    }
}

pub fn sign_extend_8(v: u32) -> (r: i32)
    requires
        v <= 0xFF,
    ensures
        r == sext8(v),
{
    if v < 0x80 {
        v as i32
    } else {
        (v as i32) - 0x100
    }
}

/// A byte sign-extended to a word.
pub open spec fn byte_to_word_signed(b: u8) -> u32 {
    if b < 0x80 {
        b as u32
    } else {
        (b as u32) | 0xFFFF_FF00
    }
}

/// A halfword sign-extended to a word.
pub open spec fn half_to_word_signed(h: u16) -> u32 {
    if h < 0x8000 {
        h as u32
    } else {
        (h as u32) | 0xFFFF_0000
    }
}

/// `b as i8 as u32`.
pub fn sign_extend_byte(b: u8) -> (r: u32)
    ensures
        r == byte_to_word_signed(b),
{
    if b < 0x80 {
        b as u32
    } else {
        (b as u32) | 0xFFFF_FF00
    }
}

/// `h as i16 as u32`.
pub fn sign_extend_half(h: u16) -> (r: u32)
    ensures
        r == half_to_word_signed(h),
{
    if h < 0x8000 {
        h as u32
    } else {
        (h as u32) | 0xFFFF_0000
    }
}

/// Sign extension keeps the value of a byte or halfword read as a signed
/// number.
pub proof fn lemma_sign_extension_values(b: u8, h: u16)
    ensures
        byte_to_word_signed(b) as i32 == b as i8 as i32,
        half_to_word_signed(h) as i32 == h as i16 as i32,
{
    let wb = byte_to_word_signed(b);
    let wh = half_to_word_signed(h);
    assert(wb as i32 == b as i8 as i32 && wh as i32 == h as i16 as i32) by (bit_vector)
        requires
            wb == if b < 0x80 { b as u32 } else { (b as u32) | 0xFFFF_FF00 },
            wh == if h < 0x8000 { h as u32 } else { (h as u32) | 0xFFFF_0000 },
    ;
}

} // verus!
