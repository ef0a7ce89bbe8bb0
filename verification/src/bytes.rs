//! How numbers are laid out in the bytes of a packet.

use vstd::prelude::*;

verus! {

/// The more significant byte of `value`.
pub open spec fn high_byte(value: u16) -> u8 {
    (value / 256) as u8
}

/// The less significant byte of `value`.
pub open spec fn low_byte(value: u16) -> u8 {
    (value % 256) as u8
}

/// The byte that stands for `value` in two's complement.
pub open spec fn signed_byte(value: i8) -> u8 {
    if value >= 0 {
        value as u8
    } else {
        (value + 256) as u8
    }
}

/// The number that `byte` stands for in two's complement.
pub open spec fn byte_as_signed(byte: u8) -> i8 {
    if byte < 128 {
        byte as i8
    } else {
        (byte - 256) as i8
    }
}

/// The number that two bytes stand for in two's complement, the more significant byte first.
pub open spec fn big_endian(high: u8, low: u8) -> i16 {
    if high < 128 {
        (high * 256 + low) as i16
    } else {
        (high * 256 + low - 65536) as i16
    }
}

/// Split `value` into its two bytes, the more significant one first.
pub fn split(value: u16) -> (result: (u8, u8))
    ensures
        result.0 == high_byte(value),
        result.1 == low_byte(value),
{
    ((value / 256) as u8, (value % 256) as u8)
}

/// Write `value` as a two's complement byte.
pub fn to_signed_byte(value: i8) -> (byte: u8)
    ensures
        byte == signed_byte(value),
{
    if value >= 0 {
        value as u8
    } else {
        (value as i16 + 256) as u8
    }
}

/// Read `byte` as a two's complement number.
pub fn from_signed_byte(byte: u8) -> (value: i8)
    ensures
        value == byte_as_signed(byte),
{
    if byte < 128 {
        byte as i8
    } else {
        (byte as i16 - 256) as i8
    }
}

/// Read two bytes, the more significant one first, as a two's complement number.
pub fn from_big_endian(high: u8, low: u8) -> (value: i16)
    ensures
        value == big_endian(high, low),
{
    let unsigned: i32 = high as i32 * 256 + low as i32;
    if high < 128 {
        unsigned as i16
    } else {
        (unsigned - 65536) as i16
    }
}

/// Writing a number as one byte and reading the byte gives the number back, and the reverse.
pub proof fn signed_byte_round_trip(value: i8, byte: u8)
    ensures
        byte_as_signed(signed_byte(value)) == value,
        signed_byte(byte_as_signed(byte)) == byte,
{
}

/// The two bytes of a number determine it.
pub proof fn split_is_lossless(value: u16)
    ensures
        high_byte(value) * 256 + low_byte(value) == value,
{
}

} // verus!
