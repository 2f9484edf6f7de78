//! The segments of a JPEG stream: a marker, and for most markers a length
//! and a payload.
//!
//! The length of a segment is written in two bytes after the marker, the most
//! significant first. It counts its own two bytes, so the payload has two
//! bytes fewer.

use vstd::prelude::*;
use vstd::string::*;
use crate::combinators::{agrees, be_u16, be_u16_of, count_u8, nom_display, tag, u8 as byte};
use crate::container::jpeg::marker::has_payload;
use crate::errors::{Fault, JpegError, JpegErrorKind};
use crate::text::{decimal, hex_byte, push_decimal, push_hex_byte};

verus! {

/// A segment: its marker, the length of its payload, and the payload where
/// it was kept.
#[derive(Debug, PartialEq)]
pub struct Segment {
    pub marker: [u8; 2],
    pub length: u16,
    pub data: Option<Vec<u8>>,
}

/// What a segment holds, as values of mathematics.
pub struct SegmentView {
    pub marker: Seq<u8>,
    pub length: u16,
    pub data: Option<Seq<u8>>,
}

impl View for Segment {
    type V = SegmentView;

    open spec fn view(&self) -> SegmentView {
        SegmentView {
            marker: self.marker@,
            length: self.length,
            data: match self.data {
                Some(d) => Some(d@),
                None => None,
            },
        }
    }
}

/// The error of a read that the input is too short for: `missing` bytes more
/// were needed. It has the kind `Truncated`, and its source is what `nom`
/// prints for an incomplete input.
pub open spec fn jpeg_short(msg: Seq<char>, missing: int) -> Fault<JpegErrorKind> {
    Fault {
        kind: JpegErrorKind::Truncated,
        data: None,
        msg: Some(msg),
        source: Some(seq!["nom::"@ + nom_display(Some(missing as usize), Seq::empty())]),
    }
}

/// The error of a value that the format does not allow. It has the kind
/// `Parse` and no source.
pub open spec fn jpeg_wrong(msg: Seq<char>, data: Option<Seq<u8>>) -> Fault<JpegErrorKind> {
    Fault { kind: JpegErrorKind::Parse, data, msg: Some(msg), source: None }
}

/// The marker at the start of `input`: the number that follows the byte
/// `0xFF`; or the error of an input that starts otherwise or is too short.
pub open spec fn marker_at(input: Seq<u8>) -> Result<u8, Fault<JpegErrorKind>> {
    if input.len() == 0 {
        Err(jpeg_short(": segment marker"@, 1))
    } else if input[0] != 0xFF {
        Err(
            Fault {
                kind: JpegErrorKind::Parse,
                data: None,
                msg: Some(": segment marker"@),
                source: Some(seq!["nom::"@ + nom_display(None, input)]),
            },
        )
    } else if input.len() < 2 {
        Err(jpeg_short(": segment marker"@, 1))
    } else {
        Ok(input[1])
    }
}

/// The length of the payload of a segment, from the two bytes of its length
/// field; or the error of an input that is too short or of a length below two.
pub open spec fn length_at(input: Seq<u8>) -> Result<u16, Fault<JpegErrorKind>> {
    if input.len() < 2 {
        Err(jpeg_short(": segment length"@, 2 - input.len()))
    } else if be_u16_of(input) < 2 {
        Err(jpeg_wrong(": segment length too short"@, None))
    } else {
        Ok((be_u16_of(input) - 2) as u16)
    }
}

/// The segment at the start of `input`, and the count of bytes that it
/// takes; or the first error that reading it gives.
///
/// A marker that starts a segment with a payload is followed by the length
/// and the payload, which is kept. The marker of the start of scan stands
/// alone: what follows it is image data. Any other marker is an error that
/// holds the marker.
pub open spec fn segment_at(input: Seq<u8>) -> Result<(int, SegmentView), Fault<JpegErrorKind>> {
    match marker_at(input) {
        Err(fault) => Err(fault),
        Ok(number) => if has_payload(number) {
            match length_at(input.skip(2)) {
                Err(fault) => Err(fault),
                Ok(length) => if input.len() - 4 < length {
                    Err(jpeg_short(": segment data"@, 1))
                } else {
                    Ok(
                        (
                            4 + length,
                            SegmentView {
                                marker: seq![0xFFu8, number],
                                length,
                                data: Some(input.subrange(4, 4 + length)),
                            },
                        ),
                    )
                },
            }
        } else if number == 0xDA {
            Ok((2, SegmentView { marker: seq![0xFFu8, number], length: 0, data: None }))
        } else {
            Err(jpeg_wrong(": segment marker unknown"@, Some(seq![0xFFu8, number])))
        },
    }
}

/// The text of a payload for a listing: each byte that stands for a
/// printable character as that character, and a dot for any other.
pub open spec fn printable(data: Seq<u8>) -> Seq<char> {
    Seq::new(
        data.len(),
        |i: int|
            if 32 <= data[i] <= 126 {
                data[i] as char
            } else {
                '.'
            },
    )
}

/// Reads a marker: the byte `0xFF` and the number of the marker.
pub fn parse_marker<'a>(input: &'a [u8]) -> (r: Result<(&'a [u8], [u8; 2]), JpegError>)
    ensures
        match marker_at(input@) {
            Ok(number) => r is Ok && r->Ok_0.0@ == input@.skip(2) && r->Ok_0.1@ == seq![
                0xFFu8,
                number,
            ],
            Err(fault) => r is Err && r->Err_0@ == fault,
        },
{
    let prefix: [u8; 1] = [0xFF];
    proof {
        assert(prefix@ =~= seq![0xFFu8]);
        if input@.len() > 0 {
            assert(agrees(input@, prefix@) == (input@[0] == 0xFF)) by {
                if input@[0] == 0xFF {
                    assert(agrees(input@, prefix@));
                } else {
                    assert(prefix@[0] == 0xFF);
                    assert(!agrees(input@, prefix@));
                }
            }
        } else {
            assert(agrees(input@, prefix@));
        }
    }
    let after = match tag(input, prefix.as_slice()) {
        Ok((after, _)) => after,
        Err(e) => {
            return Err(JpegError::parse(": segment marker").with_nom_source(e));
        },
    };
    let (remain, number) = match byte(after) {
        Ok(found) => found,
        Err(e) => {
            return Err(JpegError::parse(": segment marker").with_nom_source(e));
        },
    };
    let marker: [u8; 2] = [0xFF, number];
    proof {
        assert(remain@ =~= input@.skip(2));
        assert(marker@ =~= seq![0xFFu8, number]);
    }
    Ok((remain, marker))
}

/// Reads the length of a segment and returns the length of its payload.
pub fn parse_length<'a>(input: &'a [u8]) -> (r: Result<(&'a [u8], u16), JpegError>)
    ensures
        match length_at(input@) {
            Ok(length) => r is Ok && r->Ok_0.0@ == input@.skip(2) && r->Ok_0.1 == length,
            Err(fault) => r is Err && r->Err_0@ == fault,
        },
{
    let (remain, val) = match be_u16(input) {
        Ok(found) => found,
        Err(e) => {
            return Err(JpegError::parse(": segment length").with_nom_source(e));
        },
    };
    if val < 2 {
        return Err(JpegError::parse(": segment length too short"));
    }
    Ok((remain, val - 2))
}

/// Reads the payload of a segment: `length` bytes.
pub fn parse_data<'a>(input: &'a [u8], length: u16) -> (r: Result<(&'a [u8], Vec<u8>), JpegError>)
    ensures
        input@.len() >= length ==> r is Ok && r->Ok_0.0@ == input@.skip(length as int)
            && r->Ok_0.1@ == input@.take(length as int),
        input@.len() < length ==> r is Err && r->Err_0@ == jpeg_short(": segment data"@, 1),
{
    match count_u8(input, length as usize) {
        Ok(found) => Ok(found),
        Err(e) => Err(JpegError::parse(": segment data").with_nom_source(e)),
    }
}

/// Reads the segment at the start of the input. Returns what follows the
/// segment, and the segment.
pub fn parse<'a>(input: &'a [u8]) -> (r: Result<(&'a [u8], Segment), JpegError>)
    ensures
        match segment_at(input@) {
            Ok((used, segment)) => r is Ok && r->Ok_0.0@ == input@.skip(used) && r->Ok_0.1@
                == segment,
            Err(fault) => r is Err && r->Err_0@ == fault,
        },
{
    let (remain, marker) = match parse_marker(input) {
        Ok(found) => found,
        Err(e) => {
            return Err(e);
        },
    };
    let number = marker[1];
    proof {
        assert(marker@[1] == marker_at(input@)->Ok_0);
    }
    match number {
        0xE0 | 0xE1 | 0xDB | 0xC0 | 0xC4 | 0xDD => {
            let (remain, length) = match parse_length(remain) {
                Ok(found) => found,
                Err(e) => {
                    return Err(e);
                },
            };
            proof {
                assert(remain@ =~= input@.skip(4));
            }
            let (remain, data) = match parse_data(remain, length) {
                Ok(found) => found,
                Err(e) => {
                    return Err(e);
                },
            };
            proof {
                assert(remain@ =~= input@.skip(4 + length));
                assert(data@ =~= input@.subrange(4, 4 + length));
            }
            Ok((remain, Segment::new(marker, length, Some(data))))
        },
        0xDA => Ok((remain, Segment::new(marker, 0, None))),
        _ => Err(JpegError::parse(": segment marker unknown").with_data(marker.as_slice())),
    }
}

impl Segment {
    /// The segment with the given marker, length and payload.
    pub fn new(marker: [u8; 2], length: u16, data: Option<Vec<u8>>) -> (r: Self)
        ensures
            r.marker == marker,
            r.length == length,
            r.data == data,
    {
        Self { marker, length, data }
    }

    /// The payload as text for a listing: each byte that stands for a
    /// printable character as that character, and a dot for any other. The
    /// text is empty where the payload was not kept.
    pub fn data_to_ascii(&self) -> (r: Result<String, JpegError>)
        ensures
            r is Ok,
            r->Ok_0@ == match self@.data {
                Some(d) => printable(d),
                None => Seq::empty(),
            },
    {
        match &self.data {
            Some(data) => {
                let mut ascii = String::new();
                let mut i: usize = 0;
                while i < data.len()
                    invariant
                        i <= data.len(),
                        ascii@ == printable(data@.take(i as int)),
                    decreases data.len() - i,
                {
                    let b = data[i];
                    if b >= 32 && b <= 126 {
                        ascii.push(b as char);
                    } else {
                        ascii.push('.');
                    }
                    proof {
                        assert(ascii@ =~= printable(data@.take(i + 1)));
                    }
                    i = i + 1;
                }
                proof {
                    assert(data@.take(i as int) =~= data@);
                }
                Ok(ascii)
            },
            None => Ok(String::new()),
        }
    }
}

/// The first word of the name of the marker with the second byte `number`,
/// in lower case.
pub open spec fn short_name(number: u8) -> Seq<char> {
    if number == 0xC0 || number == 0xDA {
        "start"@
    } else if number == 0xC4 || number == 0xDB || number == 0xDD {
        "define"@
    } else if number == 0xD9 {
        "end"@
    } else if number == 0xE0 {
        "jfif"@
    } else if number == 0xE1 {
        "exif"@
    } else if number == 0xE2 {
        "ciff"@
    } else if number == 0xE8 {
        "spiff"@
    } else {
        "unknown"@
    }
}

/// The first `n` bytes of a payload as rows of a listing: ten bytes to a row,
/// each row after four spaces, each byte in hexadecimal after `0x` and before
/// a comma and a space.
pub open spec fn listing(data: Seq<u8>, n: int) -> Seq<char>
    decreases n,
{
    if n <= 0 {
        Seq::empty()
    } else {
        listing(data, n - 1) + if (n - 1) % 10 == 0 {
            "    "@
        } else {
            Seq::empty()
        } + "0x"@ + hex_byte(data[n - 1], true) + ", "@ + if n % 10 == 0 || n == data.len() {
            "\n"@
        } else {
            Seq::empty()
        }
    }
}

/// A segment as the source text of a constant array of its payload.
pub open spec fn segment_text(segment: SegmentView) -> Seq<char>
    recommends
        segment.data is Some,
{
    "const "@ + if segment.marker[0] == 0xFF {
        short_name(segment.marker[1])
    } else {
        "unknown"@
    } + ": [u8; "@ + decimal(segment.length as nat)
        + "] = [\n"@ + listing(segment.data->Some_0, segment.data->Some_0.len() as int) + "];\n"@
}

impl Segment {
    /// The segment as the source text of a constant array of its payload,
    /// named by the first word of the name of its marker.
    pub fn to_string(&self) -> (r: String)
        requires
            self.data is Some,
        ensures
            r@ == segment_text(self@),
    {
        let name = if self.marker[0] != 0xFF {
            "unknown"
        } else {
            match self.marker[1] {
                0xC0 | 0xDA => "start",
                0xC4 | 0xDB | 0xDD => "define",
                0xD9 => "end",
                0xE0 => "jfif",
                0xE1 => "exif",
                0xE2 => "ciff",
                0xE8 => "spiff",
                _ => "unknown",
            }
        };
        let mut out = String::from_str("const ");
        out.append(name);
        out.append(": [u8; ");
        push_decimal(&mut out, self.length as u64);
        out.append("] = [\n");
        let ghost head = out@;
        match &self.data {
            Some(data) => {
                let mut i: usize = 0;
                while i < data.len()
                    invariant
                        i <= data.len(),
                        out@ == head + listing(data@, i as int),
                    decreases data.len() - i,
                {
                    if i % 10 == 0 {
                        out.append("    ");
                    }
                    out.append("0x");
                    push_hex_byte(&mut out, data[i], true);
                    out.append(", ");
                    if (i + 1) % 10 == 0 || i + 1 == data.len() {
                        out.append("\n");
                    }
                    proof {
                        assert(out@ =~= head + listing(data@, i + 1));
                    }
                    i = i + 1;
                }
            },
            None => {},
        }
        out.append("];\n");
        out
    }
}

} // verus!
