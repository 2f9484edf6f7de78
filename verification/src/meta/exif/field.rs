//! The fields of an image file directory.
//!
//! A field is a header of twelve bytes: a tag, a data format, a count of
//! components, and four bytes more. Where the data of the field takes four
//! bytes or fewer, those four bytes hold it. Where it takes more, they hold
//! the offset of the data from the start of the TIFF header.

use vstd::prelude::*;
use vstd::slice::{slice_subrange, slice_to_vec};
use crate::errors::{ExifError, ExifErrorKind, Fault};
use crate::meta::exif::endian::Endian;
use crate::meta::exif::format::{data_length, length_of};
use crate::meta::exif::tag::{tag_of, Tag};
use crate::meta::exif::wire::{
    clamp, is_tail, parse_bytes, parse_u16, parse_u32, short_of, tail_of_tail, tail_u16,
    tail_u32, u16_at, u32_at, wrong_of, ExifResult,
};

verus! {

/// A field of a directory: its tag, its data format, the count of its
/// components, the offset of its data where the data stands apart from the
/// header, and the data.
#[derive(Debug, Clone)]
pub struct IfdField {
    pub endian: Endian,
    pub tag: Tag,
    pub format: u16,
    pub components: u32,
    pub offset: Option<u32>,
    pub data: Option<Vec<u8>>,
}

/// What a field holds, as values of mathematics.
pub struct FieldView {
    pub endian: Endian,
    pub tag: Tag,
    pub format: u16,
    pub components: u32,
    pub offset: Option<u32>,
    pub data: Option<Seq<u8>>,
}

impl View for IfdField {
    type V = FieldView;

    open spec fn view(&self) -> FieldView {
        FieldView {
            endian: self.endian,
            tag: self.tag,
            format: self.format,
            components: self.components,
            offset: self.offset,
            data: match self.data {
                Some(d) => Some(d@),
                None => None,
            },
        }
    }
}

/// The tag, format and count of components of the field whose header stands
/// at `pos` in the buffer `buf`, or the error of the first of them that the
/// end of the buffer cuts short.
pub open spec fn head_at(buf: Seq<u8>, pos: int, endian: Endian) -> Result<
    (u16, u16, u32),
    Fault<ExifErrorKind>,
> {
    let avail = buf.len() - pos;
    if avail < 2 {
        Err(short_of(": IFD field tag"@, 2 - avail))
    } else if avail < 4 {
        Err(short_of(": IFD field data format"@, 4 - avail))
    } else if avail < 8 {
        Err(short_of(": IFD field components"@, 8 - avail))
    } else {
        Ok((u16_at(buf, pos, endian), u16_at(buf, pos + 2, endian), u32_at(buf, pos + 4, endian)))
    }
}

/// The offset and the data of a field whose data takes `length` bytes, and
/// the last four bytes of whose header stand at `pos` in the buffer `buf`.
///
/// Data of four bytes or fewer is the start of those four bytes, and there is
/// no offset. Longer data stands at the offset that the four bytes hold,
/// counted from the start of `buf`: an offset that points before the end of
/// the header is an error, and so is data that reaches beyond the end of the
/// buffer.
pub open spec fn payload_at(buf: Seq<u8>, pos: int, endian: Endian, length: int) -> Result<
    (Option<u32>, Seq<u8>),
    Fault<ExifErrorKind>,
> {
    let avail = buf.len() - pos;
    if length > 4 {
        if avail < 4 {
            Err(short_of(": IFD offset"@, 4 - avail))
        } else {
            let offset = u32_at(buf, pos, endian);
            if offset < pos + 4 {
                Err(wrong_of(": IFD field offset is negative"@))
            } else if offset > buf.len() {
                Err(short_of(": IFD field offset"@, offset - buf.len()))
            } else if offset + length > buf.len() {
                Err(short_of(": IFD field data"@, clamp(length) - (buf.len() - offset)))
            } else {
                Ok((Some(offset), buf.subrange(offset as int, offset + length)))
            }
        }
    } else {
        if avail < 4 {
            Err(short_of(": IFD data"@, 4 - avail))
        } else {
            Ok((None, buf.subrange(pos, pos + length)))
        }
    }
}

/// The field whose header of twelve bytes stands at `pos` in the buffer
/// `buf`, or the error that reading it gives.
pub open spec fn field_at(buf: Seq<u8>, pos: int, endian: Endian) -> Result<
    FieldView,
    Fault<ExifErrorKind>,
> {
    match head_at(buf, pos, endian) {
        Err(fault) => Err(fault),
        Ok((tag, format, components)) => match payload_at(
            buf,
            pos + 8,
            endian,
            data_length(format, components),
        ) {
            Err(fault) => Err(fault),
            Ok((offset, data)) => Ok(
                FieldView { endian, tag: tag_of(tag), format, components, offset, data: Some(data) },
            ),
        },
    }
}

/// Reads the tag, the format and the count of components of a field.
pub fn parse_head<'a>(input: &'a [u8], remain: &'a [u8], endian: Endian) -> (r: ExifResult<
    (&'a [u8], (u16, u16, u32)),
>)
    requires
        is_tail(remain@, input@),
    ensures
        match head_at(input@, input@.len() - remain@.len(), endian) {
            Ok(head) => r is Ok && r->Ok_0.0@ == remain@.skip(8) && r->Ok_0.1 == head,
            Err(fault) => r is Err && r->Err_0@ == fault,
        },
{
    let (after_tag, tag) = match parse_u16(remain, endian, ": IFD field tag") {
        Ok(found) => found,
        Err(e) => {
            return Err(e);
        },
    };
    proof {
        tail_u16(remain@, input@, endian);
        tail_of_tail(remain@, input@, 2);
    }
    let (after_format, format) = match parse_u16(after_tag, endian, ": IFD field data format") {
        Ok(found) => found,
        Err(e) => {
            return Err(e);
        },
    };
    proof {
        tail_u16(after_tag@, input@, endian);
        tail_of_tail(remain@, input@, 4);
        assert(after_format@ =~= remain@.skip(4));
    }
    let (after_count, components) = match parse_u32(after_format, endian, ": IFD field components") {
        Ok(found) => found,
        Err(e) => {
            return Err(e);
        },
    };
    proof {
        tail_u32(after_format@, input@, endian);
        assert(after_count@ =~= remain@.skip(8));
    }
    Ok((after_count, (tag, format, components)))
}

/// Reads the last four bytes of the header of a field whose data takes
/// `length` bytes, and the data.
pub fn parse_payload<'a>(input: &'a [u8], remain: &'a [u8], endian: Endian, length: u64) -> (r:
    ExifResult<(&'a [u8], (Option<u32>, Vec<u8>))>)
    requires
        is_tail(remain@, input@),
    ensures
        match payload_at(input@, input@.len() - remain@.len(), endian, length as int) {
            Ok((offset, data)) => r is Ok && r->Ok_0.0@ == remain@.skip(4) && r->Ok_0.1.0 == offset
                && r->Ok_0.1.1@ == data,
            Err(fault) => r is Err && r->Err_0@ == fault,
        },
{
    let ghost pos = input@.len() - remain@.len();
    if length > 4 {
        let (after, offset) = match parse_u32(remain, endian, ": IFD offset") {
            Ok(found) => found,
            Err(e) => {
                return Err(e);
            },
        };
        proof {
            tail_u32(remain@, input@, endian);
            tail_of_tail(remain@, input@, 4);
        }
        let consumed = input.len() - after.len();
        if consumed > offset as usize {
            return Err(ExifError::parse(": IFD field offset is negative"));
        }
        let inner = if offset as usize > consumed {
            match parse_bytes(after, offset as usize - consumed, ": IFD field offset") {
                Ok((inner, _)) => inner,
                Err(e) => {
                    return Err(e);
                },
            }
        } else {
            after
        };
        proof {
            tail_of_tail(after@, input@, offset as int - consumed as int);
            assert(inner@ =~= input@.skip(offset as int));
        }
        let count: usize = if length > usize::MAX as u64 {
            usize::MAX
        } else {
            length as usize
        };
        let data = match parse_bytes(inner, count, ": IFD field data") {
            Ok((_, data)) => data,
            Err(e) => {
                return Err(e);
            },
        };
        proof {
            assert(data@ =~= input@.subrange(offset as int, offset as int + length as int));
        }
        Ok((after, (Some(offset), slice_to_vec(data))))
    } else {
        let (after, raw) = match parse_bytes(remain, 4, ": IFD data") {
            Ok(found) => found,
            Err(e) => {
                return Err(e);
            },
        };
        let data = slice_subrange(raw, 0, length as usize);
        proof {
            assert(data@ =~= input@.subrange(pos, pos + length as int));
        }
        Ok((after, (None, slice_to_vec(data))))
    }
}

impl IfdField {
    /// A field with the given header and no data yet.
    pub fn new(endian: Endian, tag: Tag, format: u16, components: u32) -> (r: Self)
        ensures
            r@ == (FieldView { endian, tag, format, components, offset: None, data: None }),
    {
        Self { endian, tag, format, components, offset: None, data: None }
    }

    /// The same field with `data` as its data.
    pub fn with_data(self, data: &[u8]) -> (r: Self)
        ensures
            r@ == (FieldView { data: Some(data@), ..self@ }),
    {
        let mut field = self;
        field.data = Some(slice_to_vec(data));
        field
    }

    /// The bytes that the data of the field takes: the count of its components
    /// times the size of one, and zero for a format that is not known.
    pub fn length(&self) -> (r: u64)
        ensures
            r == data_length(self.format, self.components),
    {
        length_of(self.format, self.components)
    }

    /// Reads the field whose header stands at the start of `remain`, the end of
    /// the buffer `input` that starts with the TIFF header. Returns what
    /// follows the header, and the field.
    pub fn parse<'a>(input: &'a [u8], remain: &'a [u8], endian: Endian) -> (r: ExifResult<
        (&'a [u8], IfdField),
    >)
        requires
            is_tail(remain@, input@),
        ensures
            match field_at(input@, input@.len() - remain@.len(), endian) {
                Ok(field) => r is Ok && r->Ok_0.0@ == remain@.skip(12) && r->Ok_0.1@ == field,
                Err(fault) => r is Err && r->Err_0@ == fault,
            },
    {
        let (after_head, head) = match parse_head(input, remain, endian) {
            Ok(found) => found,
            Err(e) => {
                return Err(e);
            },
        };
        let (tag, format, components) = head;
        proof {
            tail_of_tail(remain@, input@, 8);
        }
        let length = length_of(format, components);
        let (after, payload) = match parse_payload(input, after_head, endian, length) {
            Ok(found) => found,
            Err(e) => {
                return Err(e);
            },
        };
        let (offset, data) = payload;
        proof {
            assert(after@ =~= remain@.skip(12));
        }
        Ok(
            (
                after,
                IfdField { endian, tag: Tag::from(tag), format, components, offset, data: Some(data) },
            ),
        )
    }
}

/// Data that takes more than four bytes stands apart from the header: the
/// field holds its offset, and its data is what the buffer holds from that
/// offset on. Data of four bytes or fewer stands in the header: the field
/// holds no offset, and its data is the start of the last four bytes of the
/// header. Either way the data is as long as the format and the count of
/// components say.
pub proof fn offset_resolution(buf: Seq<u8>, pos: int, endian: Endian)
    requires
        0 <= pos <= buf.len(),
        field_at(buf, pos, endian) is Ok,
    ensures
        ({
            let field = field_at(buf, pos, endian)->Ok_0;
            let length = data_length(field.format, field.components);
            &&& field.data is Some
            &&& field.data->Some_0.len() == length
            &&& length > 4 ==> field.offset is Some && field.data->Some_0 == buf.subrange(
                field.offset->Some_0 as int,
                field.offset->Some_0 + length,
            )
            &&& length <= 4 ==> field.offset is None && field.data->Some_0 == buf.subrange(
                pos + 8,
                pos + 12,
            ).take(length)
        }),
{
    let field = field_at(buf, pos, endian)->Ok_0;
    let length = data_length(field.format, field.components);
    assert(length >= 0) by (nonlinear_arith)
        requires
            length == field.components as int * crate::meta::exif::format::unit_size(field.format),
            field.components >= 0,
            crate::meta::exif::format::unit_size(field.format) >= 0,
    ;
    if length <= 4 {
        assert(buf.subrange(pos + 8, pos + 8 + length) =~= buf.subrange(pos + 8, pos + 12).take(
            length,
        ));
    }
    assert(head_at(buf, pos, endian) is Ok);
}

} // verus!
