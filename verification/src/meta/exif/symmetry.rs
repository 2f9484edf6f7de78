//! The two byte orders give the same values.
//!
//! A number that is written with the most significant byte first reads the
//! same as the number whose bytes are written in the other order and read
//! with the least significant byte first. So a field decodes to the same
//! values in either byte order.

use vstd::prelude::*;
use crate::meta::exif::endian::Endian;
use crate::meta::exif::field::FieldView;
use crate::meta::exif::format::{
    SIGNED_LONG, SIGNED_RATIONAL, SIGNED_SHORT, UNSIGNED_LONG, UNSIGNED_RATIONAL, UNSIGNED_SHORT,
};
use crate::meta::exif::tag::rational::rational_of;
use crate::meta::exif::value::{
    ascii_of, field_rationals, first_rational, rationals_of, signed_of, unsigned_of,
};
use crate::meta::exif::wire::{u16_at, u32_at};

verus! {

/// The other byte order.
pub open spec fn flipped(endian: Endian) -> Endian {
    match endian {
        Endian::Big => Endian::Little,
        Endian::Little => Endian::Big,
    }
}

/// The bytes with each whole group of `width` bytes in reverse order; bytes
/// behind the last whole group stay.
pub open spec fn mirrored(data: Seq<u8>, width: int) -> Seq<u8> {
    Seq::new(
        data.len(),
        |i: int|
            if (i / width) * width + width <= data.len() {
                data[(i / width) * width + (width - 1 - i % width)]
            } else {
                data[i]
            },
    )
}

/// The count of bytes of the numbers that the data of a format is made of:
/// two for short numbers, four for long and rational numbers, one otherwise.
pub open spec fn number_width(format: u16) -> int {
    if format == UNSIGNED_SHORT || format == SIGNED_SHORT {
        2
    } else if format == UNSIGNED_LONG || format == SIGNED_LONG || format == UNSIGNED_RATIONAL
        || format == SIGNED_RATIONAL {
        4
    } else {
        1
    }
}

/// The same field written in the other byte order: each number of its data
/// has its bytes in reverse order.
pub open spec fn in_other_order(f: FieldView) -> FieldView {
    FieldView {
        endian: flipped(f.endian),
        data: match f.data {
            Some(d) => Some(mirrored(d, number_width(f.format))),
            None => None,
        },
        ..f
    }
}

/// A number of two bytes reads the same in the other byte order once its
/// bytes are reversed.
pub proof fn u16_symmetry(data: Seq<u8>, pos: int, endian: Endian)
    requires
        0 <= pos,
        pos % 2 == 0,
        pos + 2 <= data.len(),
    ensures
        u16_at(mirrored(data, 2), pos, flipped(endian)) == u16_at(data, pos, endian),
{
    let m = mirrored(data, 2);
    assert(m[pos] == data[pos + 1]);
    assert(m[pos + 1] == data[pos]);
    assert(m.subrange(pos, pos + 2)[0] == m[pos] && m.subrange(pos, pos + 2)[1] == m[pos + 1]);
    assert(data.subrange(pos, pos + 2)[0] == data[pos] && data.subrange(pos, pos + 2)[1]
        == data[pos + 1]);
}

/// A number of four bytes reads the same in the other byte order once its
/// bytes are reversed.
pub proof fn u32_symmetry(data: Seq<u8>, pos: int, endian: Endian)
    requires
        0 <= pos,
        pos % 4 == 0,
        pos + 4 <= data.len(),
    ensures
        u32_at(mirrored(data, 4), pos, flipped(endian)) == u32_at(data, pos, endian),
{
    let m = mirrored(data, 4);
    assert(m[pos] == data[pos + 3]);
    assert(m[pos + 1] == data[pos + 2]);
    assert(m[pos + 2] == data[pos + 1]);
    assert(m[pos + 3] == data[pos]);
    let ms = m.subrange(pos, pos + 4);
    let ds = data.subrange(pos, pos + 4);
    assert(ms[0] == m[pos] && ms[1] == m[pos + 1] && ms[2] == m[pos + 2] && ms[3] == m[pos + 3]);
    assert(ds[0] == data[pos] && ds[1] == data[pos + 1] && ds[2] == data[pos + 2] && ds[3]
        == data[pos + 3]);
}

/// Bytes in groups of one are their own mirror.
pub proof fn mirror_of_bytes(data: Seq<u8>)
    ensures
        mirrored(data, 1) == data,
{
    assert(mirrored(data, 1) =~= data);
}

/// The unsigned and the signed number of a field are the same in either byte
/// order.
pub proof fn number_symmetry(f: FieldView)
    ensures
        unsigned_of(in_other_order(f)) == unsigned_of(f),
        signed_of(in_other_order(f)) == signed_of(f),
{
    match f.data {
        Some(d) => {
            let w = number_width(f.format);
            let m = mirrored(d, w);
            if w == 1 {
                mirror_of_bytes(d);
            } else if w == 2 {
                if d.len() >= 2 {
                    u16_symmetry(d, 0, f.endian);
                }
            } else {
                if d.len() >= 4 {
                    u32_symmetry(d, 0, f.endian);
                }
            }
        },
        None => {},
    }
}

/// The rational number in eight bytes of the data is the same in either
/// byte order.
pub proof fn rational_symmetry(data: Seq<u8>, i: int, endian: Endian)
    requires
        0 <= i,
        8 * i + 8 <= data.len(),
    ensures
        rational_of(mirrored(data, 4).subrange(8 * i, 8 * i + 8), flipped(endian)) == rational_of(
            data.subrange(8 * i, 8 * i + 8),
            endian,
        ),
{
    let m = mirrored(data, 4);
    let mc = m.subrange(8 * i, 8 * i + 8);
    let dc = data.subrange(8 * i, 8 * i + 8);
    u32_symmetry(data, 8 * i, endian);
    u32_symmetry(data, 8 * i + 4, endian);
    assert(mc.subrange(0, 4) =~= m.subrange(8 * i, 8 * i + 4));
    assert(mc.subrange(4, 8) =~= m.subrange(8 * i + 4, 8 * i + 8));
    assert(dc.subrange(0, 4) =~= data.subrange(8 * i, 8 * i + 4));
    assert(dc.subrange(4, 8) =~= data.subrange(8 * i + 4, 8 * i + 8));
}

/// The rational numbers of a field whose format is that of rational numbers
/// are the same in either byte order.
pub proof fn rationals_symmetry(f: FieldView)
    requires
        f.format == UNSIGNED_RATIONAL || f.format == SIGNED_RATIONAL,
    ensures
        field_rationals(in_other_order(f)) == field_rationals(f),
        first_rational(in_other_order(f)) == first_rational(f),
{
    match f.data {
        Some(d) => {
            let m = mirrored(d, 4);
            if d.len() >= 8 {
                rational_symmetry(d, 0, f.endian);
                u32_symmetry(d, 0, f.endian);
                u32_symmetry(d, 4, f.endian);
            }
            if d.len() % 8 == 0 {
                assert forall|i: int| 0 <= i < d.len() / 8 implies rationals_of(
                    m,
                    flipped(f.endian),
                )[i] == rationals_of(d, f.endian)[i] by {
                    rational_symmetry(d, i, f.endian);
                }
                assert(rationals_of(m, flipped(f.endian)) =~= rationals_of(d, f.endian));
            }
        },
        None => {},
    }
}

/// The text of a field whose format is made of single bytes is the same in
/// either byte order.
pub proof fn text_symmetry(f: FieldView)
    requires
        number_width(f.format) == 1,
        f.data is Some,
    ensures
        in_other_order(f).data is Some,
        ascii_of(in_other_order(f).data->Some_0) == ascii_of(f.data->Some_0),
{
    mirror_of_bytes(f.data->Some_0);
}

} // verus!
