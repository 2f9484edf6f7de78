//! The data formats of the fields of an image file directory.

use vstd::prelude::*;

verus! {

/// One byte for each component.
pub const UNSIGNED_BYTE: u16 = 0x01;

/// One byte for each component, text that ends with a zero byte.
pub const ASCII_STRING: u16 = 0x02;

/// Two bytes for each component.
pub const UNSIGNED_SHORT: u16 = 0x03;

/// Four bytes for each component.
pub const UNSIGNED_LONG: u16 = 0x04;

/// Eight bytes for each component: a numerator and a denominator.
pub const UNSIGNED_RATIONAL: u16 = 0x05;

/// One byte for each component.
pub const SIGNED_BYTE: u16 = 0x06;

/// One byte for each component, of no known meaning.
pub const UNDEFINED: u16 = 0x07;

/// Two bytes for each component.
pub const SIGNED_SHORT: u16 = 0x08;

/// Four bytes for each component.
pub const SIGNED_LONG: u16 = 0x09;

/// Eight bytes for each component: a numerator and a denominator.
pub const SIGNED_RATIONAL: u16 = 0x0A;

/// Four bytes for each component.
pub const SINGLE_FLOAT: u16 = 0x0B;

/// Eight bytes for each component.
pub const DOUBLE_FLOAT: u16 = 0x0C;

/// The bytes that one component of a format takes; zero for a format that the
/// library does not know.
pub open spec fn unit_size(format: u16) -> int {
    if format == 1 || format == 2 || format == 6 || format == 7 {
        1
    } else if format == 3 || format == 8 {
        2
    } else if format == 4 || format == 9 || format == 11 {
        4
    } else if format == 5 || format == 10 || format == 12 {
        8
    } else {
        0
    }
}

/// The bytes that the data of a field takes: the count of its components
/// times the size of one.
pub open spec fn data_length(format: u16, components: u32) -> int {
    components as int * unit_size(format)
}

/// The bytes that one component of a format takes; zero for a format that the
/// library does not know.
pub fn size_of(format: u16) -> (r: u64)
    ensures
        r == unit_size(format),
{
    match format {
        UNSIGNED_BYTE => 1,
        ASCII_STRING => 1,
        UNSIGNED_SHORT => 2,
        UNSIGNED_LONG => 4,
        UNSIGNED_RATIONAL => 8,
        SIGNED_BYTE => 1,
        UNDEFINED => 1,
        SIGNED_SHORT => 2,
        SIGNED_LONG => 4,
        SIGNED_RATIONAL => 8,
        SINGLE_FLOAT => 4,
        DOUBLE_FLOAT => 8,
        _ => 0,
    }
}

/// The bytes that the data of a field takes.
pub fn length_of(format: u16, components: u32) -> (r: u64)
    ensures
        r == data_length(format, components),
{
    let unit = size_of(format);
    assert(components as int * unit as int <= 0xFFFF_FFFF * 8) by (nonlinear_arith)
        requires
            components <= 0xFFFF_FFFF,
            unit <= 8,
    ;
    components as u64 * unit
}

} // verus!
