//! Numbers that lose their upper bits, or change their sign, on the way to and from libusb.
use vstd::prelude::*;

verus! {

/// The number that the thirty-two bits of `value` stand for in two's complement.
pub open spec fn signed(value: u32) -> int {
    if value <= i32::MAX {
        value as int
    } else {
        value - 0x1_0000_0000
    }
}

/// Read the bits of `value` as a signed number.
pub(crate) fn to_signed(value: u32) -> (number: i32)
    ensures
        number == signed(value),
{
    assert(value as i32 == if value <= 0x7fff_ffffu32 {
        value as int
    } else {
        value - 0x1_0000_0000
    }) by (bit_vector);
    value as i32
}

/// The number that the low thirty-two bits of `value` stand for in two's complement.
pub open spec fn low_signed(value: int) -> int {
    signed((value % 0x1_0000_0000) as u32)
}

/// Hand a length over as a signed number.
pub(crate) fn len_to_signed(len: usize) -> (number: i32)
    ensures
        number == low_signed(len as int),
{
    let wide: u64 = len as u64;
    assert(wide as u32 == wide % 0x1_0000_0000) by (bit_vector);
    to_signed(wide as u32)
}

/// Keep the low byte of `value`.
pub(crate) fn to_byte(value: i32) -> (byte: u8)
    ensures
        byte == value as int % 256,
{
    assert(value as u8 == value % 256) by (bit_vector);
    value as u8
}

/// Keep the low thirty-two bits of a count, as a signed number.
pub(crate) fn count_to_signed(count: i64) -> (number: i32)
    ensures
        number == low_signed(count as int),
{
    assert(count as u32 == count % 0x1_0000_0000) by (bit_vector);
    to_signed(count as u32)
}

} // verus!
