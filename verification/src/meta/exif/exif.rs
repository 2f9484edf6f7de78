//! Exif blocks: the identifier, the TIFF header, and the chain of image file
//! directories.
//!
//! Every offset in a block counts from the start of the TIFF header. The
//! header names the byte order and the offset of the first directory. After
//! the fields of a directory stands the offset of the next one; an offset of
//! zero ends the chain. The first directory may point to two more, the Exif
//! and the GPS directory, which are read right after it.

use vstd::prelude::*;

use vstd::string::*;
use crate::errors::{ExifError, ExifErrorKind, Fault};
use crate::meta::exif::endian::Endian;
use crate::meta::exif::field::FieldView;
use crate::meta::exif::ifd::{first_with, ifd_at, ifd_bounds, Ifd, IfdView};
use crate::text::{padded, push_padded};
use crate::meta::exif::tag::{name_of, Tag};
use crate::meta::exif::render::value_text;
use crate::meta::exif::value::unsigned_of;
use crate::meta::exif::wire::{
    is_tail, parse_bytes, parse_tag, parse_u16, parse_u32, short_of, tag_fault, tail_of_tail,
    tail_u16, tail_u32, u16_at, u32_at, ExifResult,
};

verus! {

/// The first four bytes of an Exif block: `Exif`. Two zero bytes follow them.
pub const EXIF_IDENTIFIER: [u8; 4] = [0x45, 0x78, 0x69, 0x66];

/// The number that follows the byte order in a TIFF header, as two bytes with
/// the most significant first.
pub const TIFF_VERSION: [u8; 2] = [0x00, 0x2A];

/// The metadata of an Exif block: its directories, in the order in which they
/// were read.
#[derive(Debug)]
pub struct Exif {
    pub ifds: Vec<Ifd>,
}

/// What each directory of a vector holds.
pub open spec fn ifd_views(ifds: Seq<Ifd>) -> Seq<IfdView> {
    ifds.map_values(|d: Ifd| d@)
}

impl View for Exif {
    type V = Seq<IfdView>;

    open spec fn view(&self) -> Seq<IfdView> {
        ifd_views(self.ifds@)
    }
}

/// The offset that a directory holds under the given tag: the unsigned
/// number of the first field with that tag, where there is one and it is not
/// zero.
pub open spec fn pointer_of(fields: Seq<FieldView>, tag: Tag) -> Option<usize> {
    match first_with(fields, tag) {
        Some(field) => match unsigned_of(field) {
            Some(offset) if offset != 0 => Some(offset),
            _ => None,
        },
        None => None,
    }
}

/// The directory that the fields of another one point to under the given tag,
/// where they point to one; or the error that reading it gives. It is looked
/// for from `pos` on, where the reading stands.
pub open spec fn sub_ifd_at(
    buf: Seq<u8>,
    pos: int,
    endian: Endian,
    fields: Seq<FieldView>,
    tag: Tag,
) -> Result<Seq<IfdView>, Fault<ExifErrorKind>> {
    match pointer_of(fields, tag) {
        Some(offset) => match ifd_at(buf, pos, endian, offset as int) {
            Ok((_, found)) => Ok(seq![IfdView { endian, fields: found }]),
            Err(fault) => Err(fault),
        },
        None => Ok(Seq::empty()),
    }
}

/// The directories that the first directory points to: the Exif directory,
/// then the GPS directory, each where there is one.
pub open spec fn sub_ifds_at(buf: Seq<u8>, pos: int, endian: Endian, fields: Seq<FieldView>) -> Result<
    Seq<IfdView>,
    Fault<ExifErrorKind>,
> {
    match sub_ifd_at(buf, pos, endian, fields, Tag::ExifSubIfdOffset) {
        Err(fault) => Err(fault),
        Ok(exif) => match sub_ifd_at(buf, pos, endian, fields, Tag::GpsSubIfdOffset) {
            Err(fault) => Err(fault),
            Ok(gps) => Ok(exif + gps),
        },
    }
}

/// One step along a chain of directories, from the offset that stands at
/// `pos` in the buffer `buf`: nothing where the offset is zero, which ends the
/// chain; else the place where the directory at that offset ends, and the
/// directory. With `first`, the directory is the first one of the block, and
/// the directories that it points to follow it.
#[verifier::opaque]
pub open spec fn link_at(buf: Seq<u8>, pos: int, endian: Endian, first: bool) -> Result<
    Option<(int, Seq<IfdView>)>,
    Fault<ExifErrorKind>,
> {
    if buf.len() - pos < 4 {
        Err(short_of(": IFD offset"@, 4 - (buf.len() - pos)))
    } else {
        let offset = u32_at(buf, pos, endian);
        if offset == 0 {
            Ok(None)
        } else {
            match ifd_at(buf, pos + 4, endian, offset as int) {
                Err(fault) => Err(fault),
                Ok((end, fields)) => {
                    let subs = if first {
                        sub_ifds_at(buf, end, endian, fields)
                    } else {
                        Ok(Seq::empty())
                    };
                    match subs {
                        Err(fault) => Err(fault),
                        Ok(subs) => Ok(Some((end, seq![IfdView { endian, fields }] + subs))),
                    }
                },
            }
        }
    }
}

/// A step along a chain that finds a directory ends after where it started,
/// and inside the buffer.
pub proof fn link_bounds(buf: Seq<u8>, pos: int, endian: Endian, first: bool)
    requires
        link_at(buf, pos, endian, first) is Ok,
        link_at(buf, pos, endian, first)->Ok_0 is Some,
    ensures
        pos + 6 <= link_at(buf, pos, endian, first)->Ok_0->Some_0.0 <= buf.len(),
{
    reveal(link_at);
    ifd_bounds(buf, pos + 4, endian, u32_at(buf, pos, endian) as int);
}

/// The directories of the chain whose next offset stands at `pos` in the
/// buffer `buf`, and the place of the offset of zero that ends the chain; or
/// the first error that reading them gives.
///
/// With `first`, the directory that the offset at `pos` leads to is the first
/// directory of the block: the directories that it points to follow it in the
/// result, before the rest of the chain.
pub open spec fn chain_at(buf: Seq<u8>, pos: int, endian: Endian, first: bool) -> Result<
    (int, Seq<IfdView>),
    Fault<ExifErrorKind>,
>
    decreases buf.len() - pos,
{
    match link_at(buf, pos, endian, first) {
        Err(fault) => Err(fault),
        Ok(None) => Ok((pos, Seq::empty())),
        Ok(Some((end, ifds))) => {
            proof {
                link_bounds(buf, pos, endian, first);
            }
            match chain_at(buf, end, endian, false) {
                Err(fault) => Err(fault),
                Ok((last, rest)) => Ok((last, ifds + rest)),
            }
        },
    }
}

/// The byte order that a TIFF header starts with, or the error of a header
/// that starts otherwise. A header that is a proper start of a mark is cut
/// short; any other start is a mismatch.
pub open spec fn endian_at(buf: Seq<u8>) -> Result<Endian, Fault<ExifErrorKind>> {
    match tag_fault(buf, seq![0x4Du8, 0x4Du8], ": TIFF endian"@) {
        None => Ok(Endian::Big),
        Some(fault) => if fault.kind == ExifErrorKind::Truncated {
            Err(fault)
        } else {
            match tag_fault(buf, seq![0x49u8, 0x49u8], ": TIFF endian"@) {
                None => Ok(Endian::Little),
                Some(fault) => Err(fault),
            }
        },
    }
}

/// The error of a TIFF header whose version is not 42: it holds the two
/// bytes of the number that was found, the most significant first.
pub open spec fn version_fault(found: u16) -> Fault<ExifErrorKind> {
    Fault {
        kind: ExifErrorKind::Parse,
        data: Some(seq![(found / 256) as u8, (found % 256) as u8]),
        msg: Some(": TIFF version invalid"@),
        source: None,
    }
}

/// The directories of the TIFF block `buf`, or the first error that reading
/// it gives: the byte order, the version, and the chain of directories from
/// the offset in the header on.
pub open spec fn tiff_of(buf: Seq<u8>) -> Result<Seq<IfdView>, Fault<ExifErrorKind>> {
    match endian_at(buf) {
        Err(fault) => Err(fault),
        Ok(endian) => if buf.len() < 4 {
            Err(short_of(": TIFF version"@, 4 - buf.len()))
        } else if u16_at(buf, 2, endian) != 0x002A {
            Err(version_fault(u16_at(buf, 2, endian)))
        } else {
            match chain_at(buf, 4, endian, true) {
                Err(fault) => Err(fault),
                Ok((_, ifds)) => Ok(ifds),
            }
        },
    }
}

/// The directories of the Exif block `input`, or the first error that
/// reading it gives: the identifier `Exif`, two zero bytes, and the TIFF
/// block.
pub open spec fn exif_of(input: Seq<u8>) -> Result<Seq<IfdView>, Fault<ExifErrorKind>> {
    match tag_fault(input, seq![0x45u8, 0x78u8, 0x69u8, 0x66u8], ": Exif header"@) {
        Some(fault) => Err(fault),
        None => match tag_fault(input.skip(4), seq![0u8, 0u8], ": Exif header"@) {
            Some(fault) => Err(fault),
            None => tiff_of(input.skip(6)),
        },
    }
}

/// Reads four bytes as they are.
pub fn parse_ifd_data<'a>(input: &'a [u8]) -> (r: ExifResult<(&'a [u8], &'a [u8])>)
    ensures
        input@.len() >= 4 ==> r is Ok && r->Ok_0.0@ == input@.skip(4) && r->Ok_0.1@ == input@.take(4),
        input@.len() < 4 ==> r is Err && r->Err_0@ == short_of(": IFD data"@, 4 - input@.len()),
{
    parse_bytes(input, 4, ": IFD data")
}

/// Reads the offset of a directory: four bytes. An offset of zero, which ends
/// a chain, is returned as the error of the kind `OffsetIsZero`.
pub fn parse_ifd_offset<'a>(input: &'a [u8], endian: Endian) -> (r: ExifResult<(&'a [u8], u32)>)
    ensures
        input@.len() < 4 ==> r is Err && r->Err_0@ == short_of(": IFD offset"@, 4 - input@.len()),
        input@.len() >= 4 && u32_at(input@, 0, endian) == 0 ==> r is Err && r->Err_0@ == (Fault {
            kind: ExifErrorKind::OffsetIsZero,
            data: None,
            msg: None,
            source: None,
        }),
        input@.len() >= 4 && u32_at(input@, 0, endian) != 0 ==> r is Ok && r->Ok_0.0@
            == input@.skip(4) && r->Ok_0.1 == u32_at(input@, 0, endian),
{
    let (remain, offset) = match parse_u32(input, endian, ": IFD offset") {
        Ok(found) => found,
        Err(e) => {
            return Err(e);
        },
    };
    if offset == 0 {
        return Err(ExifError::offset_zero());
    }
    Ok((remain, offset))
}

/// Reads the identifier of an Exif block: `Exif` and two zero bytes. Returns
/// what follows them, and the four bytes of the name.
pub fn parse_exif_header<'a>(input: &'a [u8]) -> (r: ExifResult<(&'a [u8], [u8; 4])>)
    ensures
        match tag_fault(input@, seq![0x45u8, 0x78u8, 0x69u8, 0x66u8], ": Exif header"@) {
            Some(fault) => r is Err && r->Err_0@ == fault,
            None => match tag_fault(input@.skip(4), seq![0u8, 0u8], ": Exif header"@) {
                Some(fault) => r is Err && r->Err_0@ == fault,
                None => r is Ok && r->Ok_0.0@ == input@.skip(6) && r->Ok_0.1@ == seq![
                    0x45u8,
                    0x78u8,
                    0x69u8,
                    0x66u8,
                ],
            },
        },
{
    let name: [u8; 4] = [0x45, 0x78, 0x69, 0x66];
    let zeros: [u8; 2] = [0x00, 0x00];
    proof {
        assert(name@ =~= seq![0x45u8, 0x78u8, 0x69u8, 0x66u8]);
        assert(zeros@ =~= seq![0u8, 0u8]);
    }
    let (after_name, _) = match parse_tag(input, name.as_slice(), ": Exif header") {
        Ok(found) => found,
        Err(e) => {
            return Err(e);
        },
    };
    let (remain, _) = match parse_tag(after_name, zeros.as_slice(), ": Exif header") {
        Ok(found) => found,
        Err(e) => {
            return Err(e);
        },
    };
    proof {
        assert(remain@ =~= input@.skip(6));
    }
    Ok((remain, name))
}

/// Reads the byte order of a TIFF header: `MM` or `II`.
pub fn parse_tiff_endian<'a>(input: &'a [u8]) -> (r: ExifResult<(&'a [u8], Endian)>)
    ensures
        match endian_at(input@) {
            Ok(endian) => r is Ok && r->Ok_0.0@ == input@.skip(2) && r->Ok_0.1 == endian,
            Err(fault) => r is Err && r->Err_0@ == fault,
        },
{
    let big: [u8; 2] = [0x4D, 0x4D];
    let little: [u8; 2] = [0x49, 0x49];
    proof {
        assert(big@ =~= seq![0x4Du8, 0x4Du8]);
        assert(little@ =~= seq![0x49u8, 0x49u8]);
    }
    match parse_tag(input, big.as_slice(), ": TIFF endian") {
        Ok((remain, _)) => Ok((remain, Endian::Big)),
        Err(e) => {
            match e.kind {
                ExifErrorKind::Truncated => Err(e),
                _ => match parse_tag(input, little.as_slice(), ": TIFF endian") {
                    Ok((remain, _)) => Ok((remain, Endian::Little)),
                    Err(e) => Err(e),
                },
            }
        },
    }
}

/// Reads the version of a TIFF header: two bytes in the given byte order.
/// Returns the number as two bytes, the most significant first.
pub fn parse_tiff_version<'a>(input: &'a [u8], endian: Endian) -> (r: ExifResult<
    (&'a [u8], [u8; 2]),
>)
    ensures
        input@.len() >= 2 ==> r is Ok && r->Ok_0.0@ == input@.skip(2) && r->Ok_0.1@ == seq![
            (u16_at(input@, 0, endian) / 256) as u8,
            (u16_at(input@, 0, endian) % 256) as u8,
        ],
        input@.len() < 2 ==> r is Err && r->Err_0@ == short_of(
            ": TIFF version"@,
            2 - input@.len(),
        ),
{
    let (remain, marker) = match parse_u16(input, endian, ": TIFF version") {
        Ok(found) => found,
        Err(e) => {
            return Err(e);
        },
    };
    let bytes: [u8; 2] = [(marker / 256) as u8, (marker % 256) as u8];
    proof {
        assert(bytes@ =~= seq![(marker / 256) as u8, (marker % 256) as u8]);
    }
    Ok((remain, bytes))
}

impl Ifd {
    /// The offset that the directory holds under the given tag: the unsigned
    /// number of the first field with that tag, where there is one and it is
    /// not zero.
    pub fn pointer(&self, tag: Tag) -> (r: Option<usize>)
        ensures
            r == pointer_of(self@.fields, tag),
    {
        match self.field_by_tag(tag) {
            Some(field) => match field.to_unsigned() {
                Some(offset) => if offset != 0 {
                    Some(offset)
                } else {
                    None
                },
                None => None,
            },
            None => None,
        }
    }
}

/// Reads the directory that `pointer` leads to, where it leads to one, and
/// appends it to `ifds`.
pub fn parse_sub_ifd(
    input: &[u8],
    remain: &[u8],
    endian: Endian,
    pointer: Option<usize>,
    ifds: &mut Vec<Ifd>,
) -> (r: ExifResult<()>)
    requires
        is_tail(remain@, input@),
    ensures
        match pointer {
            Some(offset) => match ifd_at(
                input@,
                input@.len() - remain@.len(),
                endian,
                offset as int,
            ) {
                Ok((_, found)) => r is Ok && ifd_views(final(ifds)@) == ifd_views(old(ifds)@)
                    + seq![IfdView { endian, fields: found }],
                Err(fault) => r is Err && r->Err_0@ == fault,
            },
            None => r is Ok && ifd_views(final(ifds)@) == ifd_views(old(ifds)@),
        },
{
    match pointer {
        Some(offset) => {
            let (_, ifd) = match Ifd::parse(input, remain, endian, offset) {
                Ok(found) => found,
                Err(e) => {
                    return Err(e);
                },
            };
            let ghost before = ifd_views(ifds@);
            ifds.push(ifd);
            proof {
                assert(ifd_views(ifds@) =~= before + seq![ifd@]);
            }
            Ok(())
        },
        None => Ok(()),
    }
}

/// Reads one step along a chain of directories: the offset at the start of
/// `remain`, the directory that it leads to, and, with `first`, the
/// directories that this one points to. The directories are appended to
/// `ifds`. Returns what follows the fields of the directory, or nothing where
/// the offset is zero.
pub fn parse_link<'a>(
    input: &'a [u8],
    remain: &'a [u8],
    endian: Endian,
    first: bool,
    ifds: &mut Vec<Ifd>,
) -> (r: ExifResult<Option<&'a [u8]>>)
    requires
        is_tail(remain@, input@),
    ensures
        match link_at(input@, input@.len() - remain@.len(), endian, first) {
            Ok(Some((end, found))) => r is Ok && r->Ok_0 is Some && r->Ok_0->Some_0@ == input@.skip(end)
                && ifd_views(final(ifds)@) == ifd_views(old(ifds)@) + found,
            Ok(None) => r is Ok && r->Ok_0 is None && ifd_views(final(ifds)@) == ifd_views(
                old(ifds)@,
            ),
            Err(fault) => r is Err && r->Err_0@ == fault,
        },
{
    reveal(link_at);
    let ghost pos = input@.len() - remain@.len();
    let ghost before = ifd_views(ifds@);
    proof {
        if remain@.len() >= 4 {
            tail_u32(remain@, input@, endian);
        }
    }
    let (inner, offset) = match parse_ifd_offset(remain, endian) {
        Ok(found) => found,
        Err(e) => {
            match e.kind {
                ExifErrorKind::OffsetIsZero => {
                    return Ok(None);
                },
                _ => {
                    return Err(e);
                },
            }
        },
    };
    proof {
        tail_of_tail(remain@, input@, 4);
    }
    let (inner, ifd) = match Ifd::parse(input, inner, endian, offset as usize) {
        Ok(found) => found,
        Err(e) => {
            return Err(e);
        },
    };
    let ghost end = ifd_at(input@, pos + 4, endian, offset as int)->Ok_0.0;
    proof {
        ifd_bounds(input@, pos + 4, endian, offset as int);
        assert(input@.skip(0) =~= input@);
        tail_of_tail(input@, input@, end);
        assert(is_tail(inner@, input@));
        assert(input@.len() - inner@.len() == end);
    }
    let exif_pointer = ifd.pointer(Tag::ExifSubIfdOffset);
    let gps_pointer = ifd.pointer(Tag::GpsSubIfdOffset);
    let ghost head = ifd@;
    ifds.push(ifd);
    proof {
        assert(ifd_views(ifds@) =~= before + seq![head]);
    }
    if first {
        match parse_sub_ifd(input, inner, endian, exif_pointer, ifds) {
            Ok(_) => {},
            Err(e) => {
                return Err(e);
            },
        }
        match parse_sub_ifd(input, inner, endian, gps_pointer, ifds) {
            Ok(_) => {},
            Err(e) => {
                return Err(e);
            },
        }
        proof {
            let subs = sub_ifds_at(input@, end, endian, head.fields)->Ok_0;
            assert(ifd_views(ifds@) =~= before + (seq![head] + subs));
        }
    } else {
        proof {
            assert(ifd_views(ifds@) =~= before + (seq![head] + Seq::<IfdView>::empty()));
        }
    }
    Ok(Some(inner))
}

/// Reads the chain of directories whose first offset stands at the start of
/// `remain`, the end of the buffer `input` that starts with the TIFF header.
/// Returns the input from the offset of zero on that ends the chain, and the
/// directories: the first one, the Exif and the GPS directory that it points
/// to, and the rest of the chain.
pub fn parse_ifds<'a>(input: &'a [u8], remain: &'a [u8], endian: Endian) -> (r: ExifResult<
    (&'a [u8], Vec<Ifd>),
>)
    requires
        is_tail(remain@, input@),
    ensures
        match chain_at(input@, input@.len() - remain@.len(), endian, true) {
            Ok((end, ifds)) => r is Ok && r->Ok_0.0@ == input@.skip(end) && ifd_views(r->Ok_0.1@)
                == ifds,
            Err(fault) => r is Err && r->Err_0@ == fault,
        },
{
    let mut ifds: Vec<Ifd> = Vec::new();
    let mut outer = remain;
    let mut first = true;
    let mut done = false;
    let ghost target = chain_at(input@, input@.len() - remain@.len(), endian, true);
    proof {
        match target {
            Ok((end, rest)) => {
                assert(ifd_views(ifds@) + rest =~= rest);
            },
            Err(_) => {},
        }
    }
    while !done
        invariant
            is_tail(outer@, input@),
            target == chain_at(input@, input@.len() - remain@.len(), endian, true),
            !done ==> target == match chain_at(input@, input@.len() - outer@.len(), endian, first) {
                Ok((end, rest)) => Ok::<(int, Seq<IfdView>), Fault<ExifErrorKind>>(
                    (end, ifd_views(ifds@) + rest),
                ),
                Err(fault) => Err(fault),
            },
            done ==> target == Ok::<(int, Seq<IfdView>), Fault<ExifErrorKind>>(
                (input@.len() - outer@.len(), ifd_views(ifds@)),
            ),
        decreases
                outer@.len() + if done {
                    0int
                } else {
                    1int
                },
    {
        let ghost pos = input@.len() - outer@.len();
        let ghost before = ifd_views(ifds@);
        let ghost step = link_at(input@, pos, endian, first);
        match parse_link(input, outer, endian, first, &mut ifds) {
            Err(e) => {
                return Err(e);
            },
            Ok(None) => {
                proof {
                    assert(before + Seq::<IfdView>::empty() =~= before);
                }
                done = true;
            },
            Ok(Some(inner)) => {
                proof {
                    link_bounds(input@, pos, endian, first);
                    let end = step->Ok_0->Some_0.0;
                    let found = step->Ok_0->Some_0.1;
                    assert(input@.skip(0) =~= input@);
                    tail_of_tail(input@, input@, end);
                    match chain_at(input@, end, endian, false) {
                        Ok((last, rest)) => {
                            assert(before + (found + rest) =~= (before + found) + rest);
                        },
                        Err(_) => {},
                    }
                }
                first = false;
                outer = inner;
            },
        }
    }
    proof {
        assert(outer@ =~= input@.skip(input@.len() - outer@.len()));
    }
    Ok((outer, ifds))
}

/// Reads a TIFF block: the byte order, the version, and the chain of
/// directories from the offset in the header on.
pub fn parse_tiff(input: &[u8]) -> (r: ExifResult<Vec<Ifd>>)
    ensures
        match tiff_of(input@) {
            Ok(ifds) => r is Ok && ifd_views(r->Ok_0@) == ifds,
            Err(fault) => r is Err && r->Err_0@ == fault,
        },
{
    let (after_endian, endian) = match parse_tiff_endian(input) {
        Ok(found) => found,
        Err(e) => {
            return Err(e);
        },
    };
    proof {
        assert(input@.skip(0) =~= input@);
        tail_of_tail(input@, input@, 2);
        if after_endian@.len() >= 2 {
            tail_u16(after_endian@, input@, endian);
        }
    }
    let (remain, marker) = match parse_tiff_version(after_endian, endian) {
        Ok(found) => found,
        Err(e) => {
            return Err(e);
        },
    };
    proof {
        tail_of_tail(input@, input@, 4);
        assert(remain@ =~= input@.skip(4));
    }
    if marker[0] != 0x00 || marker[1] != 0x2A {
        return Err(ExifError::parse(": TIFF version invalid").with_data(marker.as_slice()));
    }
    match parse_ifds(input, remain, endian) {
        Ok((_, ifds)) => Ok(ifds),
        Err(e) => Err(e),
    }
}

impl Exif {
    /// Whether the numbers of the block have their most significant byte
    /// first. A block without directories has no byte order.
    pub fn is_big_endian(&self) -> (r: bool)
        ensures
            r == (self@.len() > 0 && self@[0].endian == Endian::Big),
    {
        if self.ifds.len() == 0 {
            return false;
        }
        match self.ifds[0].endian {
            Endian::Big => true,
            Endian::Little => false,
        }
    }

    /// Decodes an Exif block: the identifier `Exif` and two zero bytes, the
    /// TIFF header with the byte order and the version, and the chain of
    /// directories.
    pub fn parse(input: &[u8]) -> (r: ExifResult<Exif>)
        ensures
            match exif_of(input@) {
                Ok(ifds) => r is Ok && r->Ok_0@ == ifds,
                Err(fault) => r is Err && r->Err_0@ == fault,
            },
    {
        let (exif_data, _) = match parse_exif_header(input) {
            Ok(found) => found,
            Err(e) => {
                return Err(e);
            },
        };
        match parse_tiff(exif_data) {
            Ok(ifds) => Ok(Self { ifds }),
            Err(e) => Err(e),
        }
    }
}

/// The line of a field in a listing: two spaces, the name of the tag made
/// thirty-two characters wide, a colon, a space, and the text of the value.
pub open spec fn field_line(field: FieldView) -> Seq<char> {
    "  "@ + padded(name_of(field.tag), 32) + ": "@ + value_text(field) + "\n"@
}

/// The lines of fields, in their order.
pub open spec fn fields_text(fields: Seq<FieldView>) -> Seq<char>
    decreases fields.len(),
{
    if fields.len() == 0 {
        Seq::empty()
    } else {
        fields_text(fields.drop_last()) + field_line(fields.last())
    }
}

/// The lines of the fields of directories, in their order.
pub open spec fn exif_text(ifds: Seq<IfdView>) -> Seq<char>
    decreases ifds.len(),
{
    if ifds.len() == 0 {
        Seq::empty()
    } else {
        exif_text(ifds.drop_last()) + fields_text(ifds.last().fields)
    }
}

impl Ifd {
    /// The lines of the fields of the directory.
    pub fn to_string(&self) -> (r: String)
        ensures
            r@ == fields_text(self@.fields),
    {
        let mut out = String::new();
        let mut i: usize = 0;
        proof {
            assert(self@.fields.take(0) =~= Seq::<FieldView>::empty());
        }
        while i < self.fields.len()
            invariant
                i <= self.fields.len(),
                out@ == fields_text(self@.fields.take(i as int)),
            decreases self.fields.len() - i,
        {
            let ghost before = out@;
            let field = &self.fields[i];
            let name = field.tag.to_string();
            let value = field.to_string();
            out.append("  ");
            push_padded(&mut out, name.as_str(), 32);
            out.append(": ");
            out.append(value.as_str());
            out.append("\n");
            proof {
                let t = self@.fields.take(i + 1);
                assert(t.drop_last() =~= self@.fields.take(i as int));
                assert(t.last() == field@);
                assert(out@ =~= before + field_line(field@));
            }
            i = i + 1;
        }
        proof {
            assert(self@.fields.take(i as int) =~= self@.fields);
        }
        out
    }
}

impl Exif {
    /// The lines of the fields of all directories.
    pub fn to_string(&self) -> (r: String)
        ensures
            r@ == exif_text(self@),
    {
        let mut out = String::new();
        let mut i: usize = 0;
        proof {
            assert(self@.take(0) =~= Seq::<IfdView>::empty());
        }
        while i < self.ifds.len()
            invariant
                i <= self.ifds.len(),
                out@ == exif_text(self@.take(i as int)),
            decreases self.ifds.len() - i,
        {
            let ghost before = out@;
            let text = self.ifds[i].to_string();
            out.append(text.as_str());
            proof {
                let t = self@.take(i + 1);
                assert(t.drop_last() =~= self@.take(i as int));
                assert(t.last() == self.ifds@[i as int]@);
            }
            i = i + 1;
        }
        proof {
            assert(self@.take(i as int) =~= self@);
        }
        out
    }
}

} // verus!
