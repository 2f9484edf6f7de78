//! The data of every field of a decoded block is what the block holds at the
//! place that the field names.

use vstd::prelude::*;
use crate::meta::exif::endian::Endian;
use crate::meta::exif::exif::{
    chain_at, endian_at, exif_of, link_at, link_bounds, pointer_of, sub_ifd_at, sub_ifds_at,
};
use crate::meta::exif::field::{field_at, offset_resolution, FieldView};
use crate::meta::exif::format::data_length;
use crate::meta::exif::ifd::{fields_at, ifd_at, ifd_bounds, IfdView};
use crate::meta::exif::tag::Tag;
use crate::meta::exif::wire::{u16_at, u32_at};

verus! {

/// Whether a field holds the data that the block `buf` holds for it: data as
/// long as its format and its count of components say; with an offset, and
/// the bytes of the block from that offset on, where that is more than four
/// bytes; and without an offset otherwise.
pub open spec fn resolved(buf: Seq<u8>, field: FieldView) -> bool {
    let length = data_length(field.format, field.components);
    &&& field.data is Some
    &&& field.data->Some_0.len() == length
    &&& length > 4 ==> field.offset is Some && field.data->Some_0 == buf.subrange(
        field.offset->Some_0 as int,
        field.offset->Some_0 + length,
    )
    &&& length <= 4 ==> field.offset is None
}

/// Whether every field of every directory holds the data that the block
/// holds for it.
pub open spec fn all_resolved(buf: Seq<u8>, ifds: Seq<IfdView>) -> bool {
    forall|k: int, i: int|
        0 <= k < ifds.len() && 0 <= i < ifds[k].fields.len() ==> resolved(
            buf,
            #[trigger] ifds[k].fields[i],
        )
}

/// The field at a place of a directory is the field whose header stands at
/// that place in the block, twelve bytes behind the one before it.
pub proof fn field_of_directory(buf: Seq<u8>, pos: int, endian: Endian, n: nat, i: int)
    requires
        fields_at(buf, pos, endian, n) is Ok,
        0 <= i < n,
    ensures
        fields_at(buf, pos, endian, n)->Ok_0.len() == n,
        field_at(buf, pos + 12 * i, endian) == Ok::<FieldView, crate::errors::Fault<crate::errors::ExifErrorKind>>(
            fields_at(buf, pos, endian, n)->Ok_0[i],
        ),
    decreases n,
{
    crate::meta::exif::ifd::fields_end(buf, pos, endian, n);
    if i > 0 {
        field_of_directory(buf, pos + 12, endian, (n - 1) as nat, i - 1);
        crate::meta::exif::ifd::fields_end(buf, pos + 12, endian, (n - 1) as nat);
    } else if n > 1 {
        crate::meta::exif::ifd::fields_end(buf, pos + 12, endian, (n - 1) as nat);
    }
}

/// Every field of a directory that can be read holds the data that the block
/// holds for it.
pub proof fn directory_resolved(buf: Seq<u8>, pos: int, endian: Endian, offset: int, i: int)
    requires
        0 <= pos,
        ifd_at(buf, pos, endian, offset) is Ok,
        0 <= i < ifd_at(buf, pos, endian, offset)->Ok_0.1.len(),
    ensures
        resolved(buf, ifd_at(buf, pos, endian, offset)->Ok_0.1[i]),
{
    reveal(ifd_at);
    let n = u16_at(buf, offset, endian) as nat;
    crate::meta::exif::ifd::fields_end(buf, offset + 2, endian, n);
    field_of_directory(buf, offset + 2, endian, n, i);
    offset_resolution(buf, offset + 2 + 12 * i, endian);
}

/// Every field of the directories that the first directory points to holds
/// the data that the block holds for it.
pub proof fn sub_ifds_resolved(buf: Seq<u8>, pos: int, endian: Endian, fields: Seq<FieldView>)
    requires
        0 <= pos,
        sub_ifds_at(buf, pos, endian, fields) is Ok,
    ensures
        all_resolved(buf, sub_ifds_at(buf, pos, endian, fields)->Ok_0),
{
    let subs = sub_ifds_at(buf, pos, endian, fields)->Ok_0;
    let exif = sub_ifd_at(buf, pos, endian, fields, Tag::ExifSubIfdOffset)->Ok_0;
    let gps = sub_ifd_at(buf, pos, endian, fields, Tag::GpsSubIfdOffset)->Ok_0;
    assert forall|k: int, i: int|
        0 <= k < subs.len() && 0 <= i < subs[k].fields.len() implies resolved(
        buf,
        #[trigger] subs[k].fields[i],
    ) by {
        if k < exif.len() {
            let offset = pointer_of(fields, Tag::ExifSubIfdOffset)->Some_0;
            directory_resolved(buf, pos, endian, offset as int, i);
        } else {
            let offset = pointer_of(fields, Tag::GpsSubIfdOffset)->Some_0;
            directory_resolved(buf, pos, endian, offset as int, i);
        }
    }
}

/// Every field of the directories of a chain that can be read holds the data
/// that the block holds for it.
pub proof fn chain_resolved(buf: Seq<u8>, pos: int, endian: Endian, first: bool)
    requires
        0 <= pos,
        chain_at(buf, pos, endian, first) is Ok,
    ensures
        all_resolved(buf, chain_at(buf, pos, endian, first)->Ok_0.1),
    decreases buf.len() - pos,
{
    let all = chain_at(buf, pos, endian, first)->Ok_0.1;
    match link_at(buf, pos, endian, first) {
        Ok(Some((end, ifds))) => {
            link_bounds(buf, pos, endian, first);
            chain_resolved(buf, end, endian, false);
            let rest = chain_at(buf, end, endian, false)->Ok_0.1;
            reveal(link_at);
            let offset = u32_at(buf, pos, endian) as int;
            let fields = ifd_at(buf, pos + 4, endian, offset)->Ok_0.1;
            ifd_bounds(buf, pos + 4, endian, offset);
            if first {
                sub_ifds_resolved(buf, end, endian, fields);
            }
            assert forall|k: int, i: int|
                0 <= k < all.len() && 0 <= i < all[k].fields.len() implies resolved(
                buf,
                #[trigger] all[k].fields[i],
            ) by {
                if k == 0 {
                    directory_resolved(buf, pos + 4, endian, offset, i);
                } else if k < ifds.len() {
                    let subs = sub_ifds_at(buf, end, endian, fields)->Ok_0;
                    assert(all[k] == subs[k - 1]);
                } else {
                    assert(all[k] == rest[k - ifds.len()]);
                }
            }
        },
        _ => {},
    }
}

/// Every field of every directory of a decoded Exif block holds the data
/// that the block holds for it, counted from the start of the TIFF header,
/// which stands six bytes into the block.
pub proof fn exif_resolved(input: Seq<u8>)
    requires
        exif_of(input) is Ok,
    ensures
        all_resolved(input.skip(6), exif_of(input)->Ok_0),
{
    let buf = input.skip(6);
    let endian = endian_at(buf)->Ok_0;
    chain_resolved(buf, 4, endian, true);
}

} // verus!
