//! A short input and a wrong input are told apart.
//!
//! The decoder reads a block from its start. A read that the block is too
//! short for gives an error of the kind `Truncated`. Every other outcome, a
//! decoded block or an error of another kind, rests on bytes that were read,
//! so it stays the same whatever bytes are added behind the block. It follows
//! that the start of a block that decodes either decodes to the same or is
//! reported as truncated, never as wrong.

use vstd::prelude::*;
use crate::combinators::agrees;
use crate::errors::{ExifErrorKind, Fault};
use crate::meta::exif::endian::Endian;
use crate::meta::exif::exif::{
    chain_at, endian_at, exif_of, link_at, link_bounds, pointer_of, sub_ifd_at, sub_ifds_at,
    tiff_of,
};
use crate::meta::exif::field::{field_at, head_at, payload_at, FieldView};
use crate::meta::exif::ifd::{fields_at, ifd_at, ifd_bounds};
use crate::meta::exif::tag::Tag;
use crate::meta::exif::wire::{tag_fault, u16_at, u32_at};

verus! {

/// Whether an outcome is final: anything but an error of the kind
/// `Truncated`.
pub open spec fn settled<T>(r: Result<T, Fault<ExifErrorKind>>) -> bool {
    match r {
        Ok(_) => true,
        Err(fault) => fault.kind != ExifErrorKind::Truncated,
    }
}

/// Whether two outcomes say the same: the same value, or errors of the same
/// kind with the same message.
pub open spec fn same_verdict<T>(
    a: Result<T, Fault<ExifErrorKind>>,
    b: Result<T, Fault<ExifErrorKind>>,
) -> bool {
    match (a, b) {
        (Ok(x), Ok(y)) => x == y,
        (Err(f), Err(g)) => f.kind == g.kind && f.msg == g.msg,
        _ => false,
    }
}

/// A number of two bytes inside a block is the same in a longer block.
pub proof fn longer_u16(p: Seq<u8>, more: Seq<u8>, pos: int, endian: Endian)
    requires
        0 <= pos,
        pos + 2 <= p.len(),
    ensures
        u16_at(p + more, pos, endian) == u16_at(p, pos, endian),
{
    assert((p + more).subrange(pos, pos + 2) =~= p.subrange(pos, pos + 2));
}

/// A number of four bytes inside a block is the same in a longer block.
pub proof fn longer_u32(p: Seq<u8>, more: Seq<u8>, pos: int, endian: Endian)
    requires
        0 <= pos,
        pos + 4 <= p.len(),
    ensures
        u32_at(p + more, pos, endian) == u32_at(p, pos, endian),
{
    assert((p + more).subrange(pos, pos + 4) =~= p.subrange(pos, pos + 4));
}

/// The head of a field that is read to its end is the same in a longer
/// block.
pub proof fn head_settles(p: Seq<u8>, more: Seq<u8>, pos: int, endian: Endian)
    requires
        0 <= pos,
        settled(head_at(p, pos, endian)),
    ensures
        head_at(p + more, pos, endian) == head_at(p, pos, endian),
{
    longer_u16(p, more, pos, endian);
    longer_u16(p, more, pos + 2, endian);
    longer_u32(p, more, pos + 4, endian);
}

/// The data of a field that is read to its end, and the error of an offset
/// that points backwards, are the same in a longer block.
pub proof fn payload_settles(p: Seq<u8>, more: Seq<u8>, pos: int, endian: Endian, length: int)
    requires
        0 <= pos,
        0 <= length,
        settled(payload_at(p, pos, endian, length)),
    ensures
        payload_at(p + more, pos, endian, length) == payload_at(p, pos, endian, length),
{
    longer_u32(p, more, pos, endian);
    if length > 4 {
        let offset = u32_at(p, pos, endian);
        if offset >= pos + 4 {
            assert((p + more).subrange(offset as int, offset + length) =~= p.subrange(
                offset as int,
                offset + length,
            ));
        }
    } else {
        assert((p + more).subrange(pos, pos + length) =~= p.subrange(pos, pos + length));
    }
}

/// A field that is read to its end, and the error of a field that is wrong,
/// are the same in a longer block.
pub proof fn field_settles(p: Seq<u8>, more: Seq<u8>, pos: int, endian: Endian)
    requires
        0 <= pos,
        settled(field_at(p, pos, endian)),
    ensures
        field_at(p + more, pos, endian) == field_at(p, pos, endian),
{
    head_settles(p, more, pos, endian);
    match head_at(p, pos, endian) {
        Ok((tag, format, components)) => {
            let length = crate::meta::exif::format::data_length(format, components);
            assert(length >= 0) by (nonlinear_arith)
                requires
                    length == components as int * crate::meta::exif::format::unit_size(format),
                    components >= 0,
                    crate::meta::exif::format::unit_size(format) >= 0,
            ;
            payload_settles(p, more, pos + 8, endian, length);
        },
        Err(_) => {},
    }
}

/// Fields that are read to their end, and the first error of a field that is
/// wrong, are the same in a longer block.
pub proof fn fields_settle(p: Seq<u8>, more: Seq<u8>, pos: int, endian: Endian, n: nat)
    requires
        0 <= pos,
        settled(fields_at(p, pos, endian, n)),
    ensures
        fields_at(p + more, pos, endian, n) == fields_at(p, pos, endian, n),
    decreases n,
{
    if n > 0 {
        field_settles(p, more, pos, endian);
        if field_at(p, pos, endian) is Ok {
            fields_settle(p, more, pos + 12, endian, (n - 1) as nat);
        }
    }
}

/// A directory that is read to its end, and the error of a directory that is
/// wrong, are the same in a longer block.
pub proof fn ifd_settles(p: Seq<u8>, more: Seq<u8>, pos: int, endian: Endian, offset: int)
    requires
        0 <= pos,
        settled(ifd_at(p, pos, endian, offset)),
    ensures
        ifd_at(p + more, pos, endian, offset) == ifd_at(p, pos, endian, offset),
{
    reveal(ifd_at);
    if offset >= pos {
        longer_u16(p, more, offset, endian);
        fields_settle(p, more, offset + 2, endian, u16_at(p, offset, endian) as nat);
    }
}

/// The directory that a pointer leads to is the same in a longer block.
pub proof fn sub_ifd_settles(
    p: Seq<u8>,
    more: Seq<u8>,
    pos: int,
    endian: Endian,
    fields: Seq<FieldView>,
    tag: Tag,
)
    requires
        0 <= pos,
        settled(sub_ifd_at(p, pos, endian, fields, tag)),
    ensures
        sub_ifd_at(p + more, pos, endian, fields, tag) == sub_ifd_at(p, pos, endian, fields, tag),
{
    match pointer_of(fields, tag) {
        Some(offset) => {
            ifd_settles(p, more, pos, endian, offset as int);
        },
        None => {},
    }
}

/// The directories that the first directory points to are the same in a
/// longer block.
pub proof fn sub_ifds_settle(
    p: Seq<u8>,
    more: Seq<u8>,
    pos: int,
    endian: Endian,
    fields: Seq<FieldView>,
)
    requires
        0 <= pos,
        settled(sub_ifds_at(p, pos, endian, fields)),
    ensures
        sub_ifds_at(p + more, pos, endian, fields) == sub_ifds_at(p, pos, endian, fields),
{
    sub_ifd_settles(p, more, pos, endian, fields, Tag::ExifSubIfdOffset);
    if sub_ifd_at(p, pos, endian, fields, Tag::ExifSubIfdOffset) is Ok {
        sub_ifd_settles(p, more, pos, endian, fields, Tag::GpsSubIfdOffset);
    }
}

/// A step along the chain that is read to its end is the same in a longer
/// block.
pub proof fn link_settles(p: Seq<u8>, more: Seq<u8>, pos: int, endian: Endian, first: bool)
    requires
        0 <= pos,
        settled(link_at(p, pos, endian, first)),
    ensures
        link_at(p + more, pos, endian, first) == link_at(p, pos, endian, first),
{
    reveal(link_at);
    longer_u32(p, more, pos, endian);
    let offset = u32_at(p, pos, endian);
    if offset != 0 {
        ifd_settles(p, more, pos + 4, endian, offset as int);
        match ifd_at(p, pos + 4, endian, offset as int) {
            Ok((end, fields)) => {
                ifd_bounds(p, pos + 4, endian, offset as int);
                if first {
                    sub_ifds_settle(p, more, end, endian, fields);
                }
            },
            Err(_) => {},
        }
    }
}

/// A chain of directories that is read to its end, and the first error of a
/// directory that is wrong, are the same in a longer block.
pub proof fn chain_settles(p: Seq<u8>, more: Seq<u8>, pos: int, endian: Endian, first: bool)
    requires
        0 <= pos,
        settled(chain_at(p, pos, endian, first)),
    ensures
        chain_at(p + more, pos, endian, first) == chain_at(p, pos, endian, first),
    decreases p.len() - pos,
{
    link_settles(p, more, pos, endian, first);
    match link_at(p, pos, endian, first) {
        Ok(Some((end, ifds))) => {
            link_bounds(p, pos, endian, first);
            chain_settles(p, more, end, endian, false);
        },
        _ => {},
    }
}

/// A read of fixed bytes that finds them finds them in a longer input, and
/// one that finds other bytes finds other bytes in a longer input.
pub proof fn tag_settles(input: Seq<u8>, more: Seq<u8>, pattern: Seq<u8>, msg: Seq<char>)
    requires
        match tag_fault(input, pattern, msg) {
            None => true,
            Some(fault) => fault.kind != ExifErrorKind::Truncated,
        },
    ensures
        match tag_fault(input, pattern, msg) {
            None => tag_fault(input + more, pattern, msg) is None,
            Some(fault) => tag_fault(input + more, pattern, msg) is Some && tag_fault(
                input + more,
                pattern,
                msg,
            )->Some_0.kind == fault.kind && tag_fault(input + more, pattern, msg)->Some_0.msg
                == fault.msg,
        },
{
    let longer = input + more;
    if agrees(input, pattern) {
        assert forall|i: int| 0 <= i < longer.len() && i < pattern.len() implies longer[i]
            == pattern[i] by {
            assert(longer[i] == input[i]);
        }
    } else {
        if agrees(longer, pattern) {
            assert forall|i: int| 0 <= i < input.len() && i < pattern.len() implies input[i]
                == pattern[i] by {
                assert(longer[i] == input[i]);
            }
        }
    }
}

/// The byte order of a header is the same in a longer block, and so is the
/// error of a header that names none.
pub proof fn endian_settles(p: Seq<u8>, more: Seq<u8>)
    requires
        settled(endian_at(p)),
    ensures
        same_verdict(endian_at(p), endian_at(p + more)),
{
    let big = seq![0x4Du8, 0x4Du8];
    let little = seq![0x49u8, 0x49u8];
    let msg = ": TIFF endian"@;
    match tag_fault(p, big, msg) {
        None => {
            tag_settles(p, more, big, msg);
        },
        Some(fault) => {
            tag_settles(p, more, big, msg);
            tag_settles(p, more, little, msg);
        },
    }
}

/// The outcome of a TIFF block that is final is the same in a longer block.
pub proof fn tiff_settles(p: Seq<u8>, more: Seq<u8>)
    requires
        settled(tiff_of(p)),
    ensures
        same_verdict(tiff_of(p), tiff_of(p + more)),
{
    endian_settles(p, more);
    match endian_at(p) {
        Ok(endian) => {
            if p.len() >= 4 {
                longer_u16(p, more, 2, endian);
                if u16_at(p, 2, endian) == 0x002A {
                    chain_settles(p, more, 4, endian, true);
                }
            }
        },
        Err(_) => {},
    }
}

/// The outcome of an Exif block that is final, a decoded block or an error of
/// another kind than `Truncated`, stays the same whatever follows the block.
pub proof fn exif_settles(p: Seq<u8>, more: Seq<u8>)
    requires
        settled(exif_of(p)),
    ensures
        same_verdict(exif_of(p), exif_of(p + more)),
{
    let name = seq![0x45u8, 0x78u8, 0x69u8, 0x66u8];
    let zeros = seq![0u8, 0u8];
    let msg = ": Exif header"@;
    tag_settles(p, more, name, msg);
    if tag_fault(p, name, msg) is None {
        assert((p + more).skip(4) =~= p.skip(4) + more);
        tag_settles(p.skip(4), more, zeros, msg);
        if tag_fault(p.skip(4), zeros, msg) is None {
            assert((p + more).skip(6) =~= p.skip(6) + more);
            tiff_settles(p.skip(6), more);
        }
    }
}

/// The first bytes of a block that decodes either decode to the same, or
/// give an error of the kind `Truncated`: a block that is cut short is never
/// reported as wrong.
pub proof fn cut_short_is_truncated(block: Seq<u8>, n: int)
    requires
        exif_of(block) is Ok,
        0 <= n <= block.len(),
    ensures
        exif_of(block.take(n)) == exif_of(block) || (exif_of(block.take(n)) is Err && exif_of(
            block.take(n),
        )->Err_0.kind == ExifErrorKind::Truncated),
{
    let p = block.take(n);
    let more = block.skip(n);
    assert(p + more =~= block);
    if settled(exif_of(p)) {
        exif_settles(p, more);
    }
}

/// An error of another kind than `Truncated` is about the bytes that were
/// read: no bytes added behind the block turn it into a decoded block or
/// into an error of the kind `Truncated`.
pub proof fn wrong_stays_wrong(block: Seq<u8>, more: Seq<u8>)
    requires
        exif_of(block) is Err,
        exif_of(block)->Err_0.kind != ExifErrorKind::Truncated,
    ensures
        exif_of(block + more) is Err,
        exif_of(block + more)->Err_0.kind == exif_of(block)->Err_0.kind,
{
    exif_settles(block, more);
}

} // verus!
