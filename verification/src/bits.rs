//! Single-bit and bit-range access to the integer registers of the model.
//!
//! The executable entry points call into the `bit_field` crate, the same
//! routines the register code has always used; each wrapper's contract states
//! the exact formula that `bit_field` computes, and everything proved about a
//! register value goes through these spec functions.

use vstd::prelude::*;
use vstd::arithmetic::power2::pow2;
use bit_field::BitField;

verus! {

/// Bit `i` of `v`; bit 0 is the least significant.
pub open spec fn bit8(v: u8, i: u32) -> bool {
    v & (1u8 << i) != 0
}

/// Bit `i` of `v`; bit 0 is the least significant.
pub open spec fn bit16(v: u16, i: u32) -> bool {
    v & (1u16 << i) != 0
}

/// Bit `i` of `v`; bit 0 is the least significant.
pub open spec fn bit32(v: u32, i: u32) -> bool {
    v & (1u32 << i) != 0
}

/// Bits `lo..hi` of `v`, shifted down to the low end of the result.
pub open spec fn bits8(v: u8, lo: u32, hi: u32) -> u8 {
    (v >> lo) & (((1u16 << (hi - lo)) - 1) as u8)
}

/// Bits `lo..hi` of `v`, shifted down to the low end of the result.
pub open spec fn bits32(v: u32, lo: u32, hi: u32) -> u32 {
    (v >> lo) & (((1u64 << (hi - lo)) - 1) as u32)
}

/// `v` with bit `i` replaced by `b` and every other bit unchanged.
pub open spec fn with_bit8(v: u8, i: u32, b: bool) -> u8 {
    if b {
        v | (1u8 << i)
    } else {
        v & !(1u8 << i)
    }
}

/// `v` with bit `i` replaced by `b` and every other bit unchanged.
pub open spec fn with_bit16(v: u16, i: u32, b: bool) -> u16 {
    if b {
        v | (1u16 << i)
    } else {
        v & !(1u16 << i)
    }
}

/// `v` with bit `i` replaced by `b` and every other bit unchanged.
pub open spec fn with_bit32(v: u32, i: u32, b: bool) -> u32 {
    if b {
        v | (1u32 << i)
    } else {
        v & !(1u32 << i)
    }
}

/// `v` with bits `lo..hi` replaced by the `hi - lo` low bits of `x` and every
/// other bit unchanged; meaningful when `x` fits in `hi - lo` bits.
pub open spec fn with_bits8(v: u8, lo: u32, hi: u32, x: u8) -> u8 {
    (v & !((((1u16 << (hi - lo)) - 1) as u8) << lo)) | (x << lo)
}

/// `v` with bits `lo..hi` replaced by the `hi - lo` low bits of `x` and every
/// other bit unchanged; meaningful when `x` fits in `hi - lo` bits.
pub open spec fn with_bits32(v: u32, lo: u32, hi: u32, x: u32) -> u32 {
    (v & !((((1u64 << (hi - lo)) - 1) as u32) << lo)) | (x << lo)
}

/// Relies on `bit_field::BitField::get_bit` for `u8`: returns
/// `(v & (1 << bit)) != 0`, and panics when `bit` is out of range.
#[verifier::external_body]
pub(crate) fn get_bit8(v: u8, bit: usize) -> (r: bool)
    requires
        bit < 8,
    ensures
        r == bit8(v, bit as u32),
{
    v.get_bit(bit)
}

/// Relies on `bit_field::BitField::get_bits` for `u8`: returns bits
/// `lo..hi` of `v` shifted down to the low end, and panics when the range is
/// out of bounds.
#[verifier::external_body]
pub(crate) fn get_bits8(v: u8, lo: usize, hi: usize) -> (r: u8)
    requires
        lo < hi <= 8,
    ensures
        r == bits8(v, lo as u32, hi as u32),
{
    v.get_bits(lo..hi)
}

/// Relies on `bit_field::BitField::set_bit` for `u8`: ors in or masks out
/// `1 << bit`, and panics when `bit` is out of range.
#[verifier::external_body]
pub(crate) fn set_bit8(v: u8, bit: usize, value: bool) -> (r: u8)
    requires
        bit < 8,
    ensures
        r == with_bit8(v, bit as u32, value),
{
    let mut x = v;
    x.set_bit(bit, value);
    x
}

/// Relies on `bit_field::BitField::set_bits` for `u8`: replaces bits
/// `lo..hi` of `v` with `value`, and panics when the range is out of bounds
/// or `value` does not fit in it.
#[verifier::external_body]
pub(crate) fn set_bits8(v: u8, lo: usize, hi: usize, value: u8) -> (r: u8)
    requires
        lo < hi <= 8,
        (value as nat) < pow2((hi - lo) as nat),
    ensures
        r == with_bits8(v, lo as u32, hi as u32, value),
{
    let mut x = v;
    x.set_bits(lo..hi, value);
    x
}

/// Relies on `bit_field::BitField::set_bit` for `u16`: ors in or masks out
/// `1 << bit`, and panics when `bit` is out of range.
#[verifier::external_body]
pub(crate) fn set_bit16(v: u16, bit: usize, value: bool) -> (r: u16)
    requires
        bit < 16,
    ensures
        r == with_bit16(v, bit as u32, value),
{
    let mut x = v;
    x.set_bit(bit, value);
    x
}

/// Relies on `bit_field::BitField::set_bit` for `u32`: ors in or masks out
/// `1 << bit`, and panics when `bit` is out of range.
#[verifier::external_body]
pub(crate) fn set_bit32(v: u32, bit: usize, value: bool) -> (r: u32)
    requires
        bit < 32,
    ensures
        r == with_bit32(v, bit as u32, value),
{
    let mut x = v;
    x.set_bit(bit, value);
    x
}

/// Relies on `bit_field::BitField::set_bits` for `u32`: replaces bits
/// `lo..hi` of `v` with `value`, and panics when the range is out of bounds
/// or `value` does not fit in it.
#[verifier::external_body]
pub(crate) fn set_bits32(v: u32, lo: usize, hi: usize, value: u32) -> (r: u32)
    requires
        lo < hi <= 32,
        (value as nat) < pow2((hi - lo) as nat),
    ensures
        r == with_bits32(v, lo as u32, hi as u32, value),
{
    let mut x = v;
    x.set_bits(lo..hi, value);
    x
}

} // verus!
