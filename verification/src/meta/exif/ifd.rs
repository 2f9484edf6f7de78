//! Image file directories: a count of fields and the fields.

use vstd::prelude::*;
use crate::errors::{ExifError, ExifErrorKind, Fault};
use crate::meta::exif::endian::Endian;
use crate::meta::exif::field::{field_at, FieldView, IfdField};
use crate::meta::exif::tag::Tag;
use crate::meta::exif::wire::{
    is_tail, parse_bytes, parse_u16, short_of, tail_of_tail, tail_u16, u16_at, wrong_of,
    ExifResult,
};

verus! {

/// A directory: its fields in the order of the block, and the byte order that
/// they were read in.
#[derive(Debug, Clone)]
pub struct Ifd {
    pub endian: Endian,
    pub fields: Vec<IfdField>,
}

/// What a directory holds, as values of mathematics.
pub struct IfdView {
    pub endian: Endian,
    pub fields: Seq<FieldView>,
}

/// What each field of a vector holds.
pub open spec fn views_of(fields: Seq<IfdField>) -> Seq<FieldView> {
    fields.map_values(|f: IfdField| f@)
}

impl View for Ifd {
    type V = IfdView;

    open spec fn view(&self) -> IfdView {
        IfdView { endian: self.endian, fields: views_of(self.fields@) }
    }
}

/// The `n` fields whose headers follow each other from `pos` on in the buffer
/// `buf`, or the error of the first of them that cannot be read.
pub open spec fn fields_at(buf: Seq<u8>, pos: int, endian: Endian, n: nat) -> Result<
    Seq<FieldView>,
    Fault<ExifErrorKind>,
>
    decreases n,
{
    if n == 0 {
        Ok(Seq::empty())
    } else {
        match field_at(buf, pos, endian) {
            Err(fault) => Err(fault),
            Ok(field) => match fields_at(buf, pos + 12, endian, (n - 1) as nat) {
                Err(fault) => Err(fault),
                Ok(rest) => Ok(seq![field] + rest),
            },
        }
    }
}

/// The place where a directory of `n` fields ends, whose count of fields
/// stands at `offset`.
pub open spec fn ifd_end(offset: int, n: int) -> int {
    offset + 2 + 12 * n
}

/// The fields of the directory at `offset` in the buffer `buf`, and the place
/// where the directory ends; or the error that reading it gives.
///
/// The directory is looked for from `pos` on, where the reading stands: an
/// offset before `pos` is an error, and so is one beyond the end of the
/// buffer. The directory starts with the count of its fields, in two bytes.
#[verifier::opaque]
pub open spec fn ifd_at(buf: Seq<u8>, pos: int, endian: Endian, offset: int) -> Result<
    (int, Seq<FieldView>),
    Fault<ExifErrorKind>,
> {
    if offset < pos {
        Err(wrong_of(": offset to IFD is negative"@))
    } else if offset > buf.len() {
        Err(short_of(": offset to IFD"@, offset - buf.len()))
    } else if buf.len() - offset < 2 {
        Err(short_of(": IFD field count"@, 2 - (buf.len() - offset)))
    } else {
        let count = u16_at(buf, offset, endian);
        match fields_at(buf, offset + 2, endian, count as nat) {
            Err(fault) => Err(fault),
            Ok(fields) => Ok((ifd_end(offset, count as int), fields)),
        }
    }
}

/// The first field with the given tag.
pub open spec fn first_with(fields: Seq<FieldView>, tag: Tag) -> Option<FieldView>
    decreases fields.len(),
{
    if fields.len() == 0 {
        None
    } else if fields[0].tag == tag {
        Some(fields[0])
    } else {
        first_with(fields.skip(1), tag)
    }
}

/// Fields that can be read end inside the buffer.
pub proof fn fields_end(buf: Seq<u8>, pos: int, endian: Endian, n: nat)
    requires
        pos <= buf.len(),
        fields_at(buf, pos, endian, n) is Ok,
    ensures
        pos + 12 * n <= buf.len(),
        fields_at(buf, pos, endian, n)->Ok_0.len() == n,
    decreases n,
{
    if n > 0 {
        fields_end(buf, pos + 12, endian, (n - 1) as nat);
    }
}

/// A directory that can be read starts where the reading stands or later, and
/// ends inside the buffer.
pub proof fn ifd_bounds(buf: Seq<u8>, pos: int, endian: Endian, offset: int)
    requires
        ifd_at(buf, pos, endian, offset) is Ok,
    ensures
        pos + 2 <= ifd_at(buf, pos, endian, offset)->Ok_0.0 <= buf.len(),
{
    reveal(ifd_at);
    fields_end(buf, offset + 2, endian, u16_at(buf, offset, endian) as nat);
}

/// Reads the count of the fields of a directory: two bytes.
pub fn parse_field_count<'a>(input: &'a [u8], endian: Endian) -> (r: ExifResult<(&'a [u8], u16)>)
    ensures
        input@.len() >= 2 ==> r is Ok && r->Ok_0.0@ == input@.skip(2) && r->Ok_0.1 == u16_at(
            input@,
            0,
            endian,
        ),
        input@.len() < 2 ==> r is Err && r->Err_0@ == short_of(
            ": IFD field count"@,
            2 - input@.len(),
        ),
{
    parse_u16(input, endian, ": IFD field count")
}

impl Ifd {
    /// A directory without fields.
    pub fn new(endian: Endian) -> (r: Self)
        ensures
            r@ == (IfdView { endian, fields: Seq::empty() }),
            r.fields@.len() == 0,
    {
        let r = Self { endian, fields: Vec::new() };
        assert(r@.fields =~= Seq::empty());
        r
    }

    /// Reads the directory at `offset` from the start of the buffer `input`,
    /// which starts with the TIFF header. `remain` is the end of `input` where
    /// the reading stands. Returns what follows the last field of the
    /// directory, and the directory.
    pub fn parse<'a>(input: &'a [u8], remain: &'a [u8], endian: Endian, offset: usize) -> (r:
        ExifResult<(&'a [u8], Ifd)>)
        requires
            is_tail(remain@, input@),
        ensures
            match ifd_at(input@, input@.len() - remain@.len(), endian, offset as int) {
                Ok((end, fields)) => r is Ok && r->Ok_0.0@ == input@.skip(end) && r->Ok_0.1@ == (
                IfdView { endian, fields }),
                Err(fault) => r is Err && r->Err_0@ == fault,
            },
    {
        reveal(ifd_at);
        let mut ifd = Ifd::new(endian);
        let consumed = input.len() - remain.len();
        if offset < consumed {
            return Err(ExifError::parse(": offset to IFD is negative"));
        }
        let (at_count, _) = match parse_bytes(remain, offset - consumed, ": offset to IFD") {
            Ok(found) => found,
            Err(e) => {
                return Err(e);
            },
        };
        proof {
            tail_of_tail(remain@, input@, offset - consumed);
        }
        let (at_fields, count) = match parse_field_count(at_count, endian) {
            Ok(found) => found,
            Err(e) => {
                return Err(e);
            },
        };
        proof {
            tail_u16(at_count@, input@, endian);
            tail_of_tail(at_count@, input@, 2);
        }
        let ghost whole = fields_at(input@, offset + 2, endian, count as nat);
        let ghost target = ifd_at(input@, input@.len() - remain@.len(), endian, offset as int);
        let mut outer = at_fields;
        let mut i: u16 = 0;
        while i < count
            invariant
                i <= count,
                is_tail(outer@, input@),
                input@.len() - outer@.len() == offset + 2 + 12 * i,
                ifd.endian == endian,
                ifd.fields@.len() == i,
                whole == fields_at(input@, offset + 2, endian, count as nat),
                target == ifd_at(input@, input@.len() - remain@.len(), endian, offset as int),
                target == match whole {
                    Ok(fields) => Ok::<(int, Seq<FieldView>), Fault<ExifErrorKind>>(
                        (ifd_end(offset as int, count as int), fields),
                    ),
                    Err(fault) => Err(fault),
                },
                whole == match fields_at(
                    input@,
                    offset + 2 + 12 * i,
                    endian,
                    (count - i) as nat,
                ) {
                    Ok(rest) => Ok::<Seq<FieldView>, Fault<ExifErrorKind>>(
                        views_of(ifd.fields@) + rest,
                    ),
                    Err(fault) => Err(fault),
                },
            decreases count - i,
        {
            let ghost before = views_of(ifd.fields@);
            let (inner, field) = match IfdField::parse(input, outer, endian) {
                Ok(found) => found,
                Err(e) => {
                    return Err(e);
                },
            };
            proof {
                tail_of_tail(outer@, input@, 12);
                let next = fields_at(input@, offset + 2 + 12 * (i + 1), endian, (count - i - 1) as nat);
                match next {
                    Ok(rest) => {
                        assert((before + seq![field@]) + rest =~= before + (seq![field@] + rest));
                    },
                    Err(_) => {},
                }
            }
            outer = inner;
            ifd.fields.push(field);
            proof {
                assert(views_of(ifd.fields@) =~= before + seq![field@]);
            }
            i = i + 1;
        }
        proof {
            assert(views_of(ifd.fields@) + Seq::<FieldView>::empty() =~= views_of(ifd.fields@));
            assert(outer@ =~= input@.skip(ifd_end(offset as int, count as int)));
        }
        Ok((outer, ifd))
    }

    /// The first field with the given tag.
    pub fn field_by_tag(&self, tag: Tag) -> (r: Option<&IfdField>)
        ensures
            match first_with(self@.fields, tag) {
                Some(field) => r is Some && r->Some_0@ == field,
                None => r is None,
            },
    {
        let mut i: usize = 0;
        proof {
            assert(self@.fields.skip(0) =~= self@.fields);
        }
        while i < self.fields.len()
            invariant
                i <= self.fields.len(),
                first_with(self@.fields, tag) == first_with(self@.fields.skip(i as int), tag),
            decreases self.fields.len() - i,
        {
            proof {
                let rest = self@.fields.skip(i as int);
                assert(rest[0] == self.fields@[i as int]@);
                assert(rest.skip(1) =~= self@.fields.skip(i + 1));
            }
            if self.fields[i].tag == tag {
                return Some(&self.fields[i]);
            }
            i = i + 1;
        }
        None
    }
}

} // verus!
