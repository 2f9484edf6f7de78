//! Numbers at a place in a buffer, and the errors of a read that the buffer
//! is too short for or that finds other bytes than it asks for.

use vstd::prelude::*;
use crate::combinators::{
    agrees, be_u16, be_u16_of, be_u32, be_u32_of, le_u16, le_u16_of, le_u32, le_u32_of, nom_display,
    tag, take,
};
use crate::errors::{ExifError, ExifErrorKind, Fault};
use crate::meta::exif::endian::Endian;

verus! {

/// Simplify the result type of the Exif decoder slightly.
pub type ExifResult<T> = Result<T, ExifError>;

/// Whether `rest` is the end of `whole`: what is left of it once its first
/// bytes are read.
pub open spec fn is_tail(rest: Seq<u8>, whole: Seq<u8>) -> bool {
    rest.len() <= whole.len() && rest == whole.skip(whole.len() - rest.len())
}

/// The number that the two bytes from `pos` on hold in the given byte order.
pub open spec fn u16_at(buf: Seq<u8>, pos: int, endian: Endian) -> u16
    recommends
        0 <= pos,
        pos + 2 <= buf.len(),
{
    match endian {
        Endian::Big => be_u16_of(buf.subrange(pos, pos + 2)),
        Endian::Little => le_u16_of(buf.subrange(pos, pos + 2)),
    }
}

/// The number that the four bytes from `pos` on hold in the given byte order.
pub open spec fn u32_at(buf: Seq<u8>, pos: int, endian: Endian) -> u32
    recommends
        0 <= pos,
        pos + 4 <= buf.len(),
{
    match endian {
        Endian::Big => be_u32_of(buf.subrange(pos, pos + 4)),
        Endian::Little => le_u32_of(buf.subrange(pos, pos + 4)),
    }
}

/// A count of bytes as the machine holds it: the greatest `usize` where the
/// count is greater.
pub open spec fn clamp(n: int) -> usize {
    if n > usize::MAX {
        usize::MAX
    } else {
        n as usize
    }
}

/// The error of a read that the input is too short for: `missing` bytes more
/// were needed. It has the kind `Truncated`, and its source is what `nom`
/// prints for an incomplete input.
pub open spec fn short_of(msg: Seq<char>, missing: int) -> Fault<ExifErrorKind> {
    Fault {
        kind: ExifErrorKind::Truncated,
        data: None,
        msg: Some(msg),
        source: Some(seq!["nom::"@ + nom_display(Some(clamp(missing)), Seq::empty())]),
    }
}

/// The error of a read that finds other bytes than it asks for. It has the
/// kind `Parse`, and its source is what `nom` prints for the rejected input.
pub open spec fn mismatch_of(msg: Seq<char>, input: Seq<u8>) -> Fault<ExifErrorKind> {
    Fault {
        kind: ExifErrorKind::Parse,
        data: None,
        msg: Some(msg),
        source: Some(seq!["nom::"@ + nom_display(None, input)]),
    }
}

/// The error of a value that the format does not allow. It has the kind
/// `Parse` and no source.
pub open spec fn wrong_of(msg: Seq<char>) -> Fault<ExifErrorKind> {
    Fault { kind: ExifErrorKind::Parse, data: None, msg: Some(msg), source: None }
}

/// The end of the end of a buffer is an end of the buffer.
pub proof fn tail_of_tail(rest: Seq<u8>, whole: Seq<u8>, n: int)
    requires
        is_tail(rest, whole),
        0 <= n <= rest.len(),
    ensures
        is_tail(rest.skip(n), whole),
        rest.skip(n) == whole.skip(whole.len() - rest.len() + n),
{
    assert(rest.skip(n) =~= whole.skip(whole.len() - rest.len() + n));
}

/// A number of two bytes at the start of the end of a buffer is the number at
/// that place of the buffer.
pub proof fn tail_u16(rest: Seq<u8>, whole: Seq<u8>, endian: Endian)
    requires
        is_tail(rest, whole),
        rest.len() >= 2,
    ensures
        u16_at(rest, 0, endian) == u16_at(whole, whole.len() - rest.len(), endian),
{
    let pos = whole.len() - rest.len();
    assert(rest.subrange(0, 2) =~= whole.subrange(pos, pos + 2));
}

/// A number of four bytes at the start of the end of a buffer is the number at
/// that place of the buffer.
pub proof fn tail_u32(rest: Seq<u8>, whole: Seq<u8>, endian: Endian)
    requires
        is_tail(rest, whole),
        rest.len() >= 4,
    ensures
        u32_at(rest, 0, endian) == u32_at(whole, whole.len() - rest.len(), endian),
{
    let pos = whole.len() - rest.len();
    assert(rest.subrange(0, 4) =~= whole.subrange(pos, pos + 4));
}

/// Reads a number of two bytes in the given byte order. On an input that is
/// too short, the error has the message `msg`.
pub fn parse_u16<'a>(input: &'a [u8], endian: Endian, msg: &str) -> (r: ExifResult<(&'a [u8], u16)>)
    ensures
        input@.len() >= 2 ==> r is Ok && r->Ok_0.0@ == input@.skip(2) && r->Ok_0.1 == u16_at(
            input@,
            0,
            endian,
        ),
        input@.len() < 2 ==> r is Err && r->Err_0@ == short_of(msg@, 2 - input@.len()),
{
    let found = match endian {
        Endian::Big => be_u16(input),
        Endian::Little => le_u16(input),
    };
    match found {
        Ok((rest, value)) => {
            proof {
                assert(input@.subrange(0, 2)[0] == input@[0]);
                assert(input@.subrange(0, 2)[1] == input@[1]);
            }
            Ok((rest, value))
        },
        Err(e) => Err(ExifError::parse(msg).with_nom_source(e)),
    }
}

/// Reads a number of four bytes in the given byte order. On an input that is
/// too short, the error has the message `msg`.
pub fn parse_u32<'a>(input: &'a [u8], endian: Endian, msg: &str) -> (r: ExifResult<(&'a [u8], u32)>)
    ensures
        input@.len() >= 4 ==> r is Ok && r->Ok_0.0@ == input@.skip(4) && r->Ok_0.1 == u32_at(
            input@,
            0,
            endian,
        ),
        input@.len() < 4 ==> r is Err && r->Err_0@ == short_of(msg@, 4 - input@.len()),
{
    let found = match endian {
        Endian::Big => be_u32(input),
        Endian::Little => le_u32(input),
    };
    match found {
        Ok((rest, value)) => {
            proof {
                let s = input@.subrange(0, 4);
                assert(s[0] == input@[0] && s[1] == input@[1] && s[2] == input@[2] && s[3]
                    == input@[3]);
            }
            Ok((rest, value))
        },
        Err(e) => Err(ExifError::parse(msg).with_nom_source(e)),
    }
}

/// Takes the first `count` bytes of the input. On an input that is too short,
/// the error has the message `msg`.
pub fn parse_bytes<'a>(input: &'a [u8], count: usize, msg: &str) -> (r: ExifResult<
    (&'a [u8], &'a [u8]),
>)
    ensures
        input@.len() >= count ==> r is Ok && r->Ok_0.0@ == input@.skip(count as int)
            && r->Ok_0.1@ == input@.take(count as int),
        input@.len() < count ==> r is Err && r->Err_0@ == short_of(msg@, count - input@.len()),
{
    match take(input, count) {
        Ok(found) => Ok(found),
        Err(e) => Err(ExifError::parse(msg).with_nom_source(e)),
    }
}

/// The error of a read that asks for the bytes of `pattern` at the start of
/// `input`, where there is one: a mismatch where a byte differs, and a short
/// input where the input is a proper start of the pattern.
pub open spec fn tag_fault(input: Seq<u8>, pattern: Seq<u8>, msg: Seq<char>) -> Option<
    Fault<ExifErrorKind>,
> {
    if !agrees(input, pattern) {
        Some(mismatch_of(msg, input))
    } else if input.len() < pattern.len() {
        Some(short_of(msg, pattern.len() - input.len()))
    } else {
        None
    }
}

/// Reads the bytes of `pattern` from the start of the input. On any other
/// input, the error has the message `msg`.
pub fn parse_tag<'a>(input: &'a [u8], pattern: &[u8], msg: &str) -> (r: ExifResult<
    (&'a [u8], &'a [u8]),
>)
    ensures
        match tag_fault(input@, pattern@, msg@) {
            None => r is Ok && r->Ok_0.0@ == input@.skip(pattern@.len() as int) && r->Ok_0.1@
                == pattern@,
            Some(fault) => r is Err && r->Err_0@ == fault,
        },
{
    proof {
        assert(pattern@.len() == pattern.len());
    }
    match tag(input, pattern) {
        Ok((rest, found)) => {
            proof {
                assert forall|i: int| 0 <= i < pattern@.len() implies found@[i] == pattern@[i] by {
                    assert(input@[i] == pattern@[i]);
                }
                assert(found@ =~= pattern@);
            }
            Ok((rest, found))
        },
        Err(e) => Err(ExifError::parse(msg).with_nom_source(e)),
    }
}

} // verus!
