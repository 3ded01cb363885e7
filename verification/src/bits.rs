//! Bit ranges of 8- and 16-bit words.
//!
//! The arithmetic is done by the `bitfield` crate; the functions here give its
//! accessors a contract over plain masks and shifts.

use bitfield::{Bit, BitMut, BitRange, BitRangeMut};
use vstd::prelude::*;

verus! {

/// An 8-bit word with exactly the bits `lsb..=msb` set.
pub open spec fn mask8(msb: u8, lsb: u8) -> u8 {
    (0xFFu8 >> ((7u8 - msb + lsb) as u8)) << lsb
}

/// A 16-bit word with exactly the bits `lsb..=msb` set.
pub open spec fn mask16(msb: u16, lsb: u16) -> u16 {
    (0xFFFFu16 >> ((15u16 - msb + lsb) as u16)) << lsb
}

/// The bits `lsb..=msb` of `raw`, moved down to bit 0.
pub open spec fn field8(raw: u8, msb: u8, lsb: u8) -> u8 {
    (raw & mask8(msb, lsb)) >> lsb
}

/// `raw` with its bits `lsb..=msb` replaced by the low bits of `value`.
pub open spec fn with_field8(raw: u8, msb: u8, lsb: u8, value: u8) -> u8 {
    (raw & !mask8(msb, lsb)) | ((value << lsb) & mask8(msb, lsb))
}

/// The bits `lsb..=msb` of `raw`, moved down to bit 0.
pub open spec fn field16(raw: u16, msb: u16, lsb: u16) -> u16 {
    (raw & mask16(msb, lsb)) >> lsb
}

/// `raw` with its bits `lsb..=msb` replaced by the low bits of `value`.
pub open spec fn with_field16(raw: u16, msb: u16, lsb: u16, value: u16) -> u16 {
    (raw & !mask16(msb, lsb)) | ((value << lsb) & mask16(msb, lsb))
}

/// Calls `bitfield::BitRange::<u8>::bit_range` on a `u8`.
///
/// Trusted: the call returns the bits `lsb..=msb` of `raw`, moved down to bit 0,
/// with zeroes above them.
#[verifier::external_body]
pub(crate) fn get_range8(raw: u8, msb: usize, lsb: usize) -> (out: u8)
    requires
        lsb <= msb < 8,
    ensures
        out == field8(raw, msb as u8, lsb as u8),
{
    BitRange::<u8>::bit_range(&raw, msb, lsb)
}

/// Calls `bitfield::BitRangeMut::<u8>::set_bit_range` on a `u8`.
///
/// Trusted: the call overwrites the bits `lsb..=msb` of `raw` with the low bits
/// of `value` and leaves every other bit as it was.
#[verifier::external_body]
pub(crate) fn set_range8(raw: u8, msb: usize, lsb: usize, value: u8) -> (out: u8)
    requires
        lsb <= msb < 8,
    ensures
        out == with_field8(raw, msb as u8, lsb as u8, value),
{
    let mut word = raw;
    BitRangeMut::<u8>::set_bit_range(&mut word, msb, lsb, value);
    word
}

/// Calls `bitfield::Bit::bit` on a `u8`.
///
/// Trusted: the call tells whether bit `bit` of `raw` is set.
#[verifier::external_body]
pub(crate) fn get_bit8(raw: u8, bit: usize) -> (out: bool)
    requires
        bit < 8,
    ensures
        out == (field8(raw, bit as u8, bit as u8) != 0),
{
    Bit::bit(&raw, bit)
}

/// Calls `bitfield::BitMut::set_bit` on a `u8`.
///
/// Trusted: the call sets bit `bit` of `raw` where `value` is true, clears it
/// where `value` is false, and leaves every other bit as it was.
#[verifier::external_body]
pub(crate) fn set_bit8(raw: u8, bit: usize, value: bool) -> (out: u8)
    requires
        bit < 8,
    ensures
        out == with_field8(raw, bit as u8, bit as u8, if value { 1u8 } else { 0u8 }),
{
    let mut word = raw;
    BitMut::set_bit(&mut word, bit, value);
    word
}

/// Calls `bitfield::BitRange::<u16>::bit_range` on a `u16`.
///
/// Trusted: the call returns the bits `lsb..=msb` of `raw`, moved down to bit 0,
/// with zeroes above them.
#[verifier::external_body]
pub(crate) fn get_range16(raw: u16, msb: usize, lsb: usize) -> (out: u16)
    requires
        lsb <= msb < 16,
    ensures
        out == field16(raw, msb as u16, lsb as u16),
{
    BitRange::<u16>::bit_range(&raw, msb, lsb)
}

/// Calls `bitfield::BitRangeMut::<u16>::set_bit_range` on a `u16`.
///
/// Trusted: the call overwrites the bits `lsb..=msb` of `raw` with the low bits
/// of `value` and leaves every other bit as it was.
#[verifier::external_body]
pub(crate) fn set_range16(raw: u16, msb: usize, lsb: usize, value: u16) -> (out: u16)
    requires
        lsb <= msb < 16,
    ensures
        out == with_field16(raw, msb as u16, lsb as u16, value),
{
    let mut word = raw;
    BitRangeMut::<u16>::set_bit_range(&mut word, msb, lsb, value);
    word
}

/// Calls `bitfield::Bit::bit` on a `u16`.
///
/// Trusted: the call tells whether bit `bit` of `raw` is set.
#[verifier::external_body]
pub(crate) fn get_bit16(raw: u16, bit: usize) -> (out: bool)
    requires
        bit < 16,
    ensures
        out == (field16(raw, bit as u16, bit as u16) != 0),
{
    Bit::bit(&raw, bit)
}

/// Calls `bitfield::BitMut::set_bit` on a `u16`.
///
/// Trusted: the call sets bit `bit` of `raw` where `value` is true, clears it
/// where `value` is false, and leaves every other bit as it was.
#[verifier::external_body]
pub(crate) fn set_bit16(raw: u16, bit: usize, value: bool) -> (out: u16)
    requires
        bit < 16,
    ensures
        out == with_field16(raw, bit as u16, bit as u16, if value { 1u16 } else { 0u16 }),
{
    let mut word = raw;
    BitMut::set_bit(&mut word, bit, value);
    word
}

} // verus!
