//! The scan of a JPEG stream for the segments that carry metadata.
//!
//! A stream starts with the marker of the start of image. The scan then goes
//! from marker to marker: it skips to the next byte `0xFF`, reads the marker
//! and the segment, keeps the segments of the JFIF header and of the Exif
//! block, and passes over the tables and the frame header. It stops at the
//! marker of the start of scan, or where the input ends between two segments.
//! The image data is never read.

use vstd::prelude::*;
use vstd::slice::slice_subrange;
use vstd::string::*;
use crate::container::jpeg::marker::is_metadata;
use crate::container::jpeg::segment::{
    jpeg_wrong, parse, segment_at, segment_text, Segment, SegmentView,
};
use crate::errors::{ExifErrorKind, Fault, JfifErrorKind, JpegError, JpegErrorKind};
use crate::errors::exif::exif_lead;
use crate::errors::jfif::jfif_lead;
use crate::errors::fault_text;
use crate::meta::exif::exif::exif_of;
use crate::meta::exif::ifd::IfdView;
use crate::meta::jfif::{jfif_of, JfifView};
use crate::meta::{Exif, Jfif};

verus! {

/// Simplify the result type of the scanner slightly.
pub type JpegResult<T> = Result<T, JpegError>;

/// The segments of a JPEG stream that carry metadata, in the order of the
/// stream.
#[derive(Debug)]
pub struct Jpeg {
    pub segments: Vec<Segment>,
}

/// What each segment of a vector holds.
pub open spec fn segment_views(segments: Seq<Segment>) -> Seq<SegmentView> {
    segments.map_values(|s: Segment| s@)
}

impl View for Jpeg {
    type V = Seq<SegmentView>;

    open spec fn view(&self) -> Seq<SegmentView> {
        segment_views(self.segments@)
    }
}

/// The place of the first byte `marker` at or after `pos`, and the length of
/// the input where there is none.
pub open spec fn first_at(input: Seq<u8>, marker: u8, pos: int) -> int
    decreases input.len() - pos,
{
    if pos >= input.len() {
        input.len() as int
    } else if input[pos] == marker {
        pos
    } else {
        first_at(input, marker, pos + 1)
    }
}

/// The place of the first byte `0xFF` at or after `pos`, and the length of
/// the input where there is none.
pub open spec fn next_prefix(input: Seq<u8>, pos: int) -> int {
    first_at(input, 0xFF, pos)
}

/// The segment as the scan keeps it: itself where it carries metadata, and
/// nothing otherwise.
pub open spec fn kept(segment: SegmentView) -> Seq<SegmentView> {
    if is_metadata(segment.marker[1]) {
        seq![segment]
    } else {
        Seq::empty()
    }
}

/// The place of the next byte `0xFF` lies between where the search starts
/// and the end of the input.
pub proof fn next_prefix_bounds(input: Seq<u8>, pos: int)
    requires
        0 <= pos <= input.len(),
    ensures
        pos <= next_prefix(input, pos) <= input.len(),
        next_prefix(input, pos) < input.len() ==> input[next_prefix(input, pos)] == 0xFF,
        forall|i: int| pos <= i < next_prefix(input, pos) ==> input[i] != 0xFF,
    decreases input.len() - pos,
{
    if pos < input.len() && input[pos] != 0xFF {
        next_prefix_bounds(input, pos + 1);
    }
}

/// A segment that can be read takes two bytes or more, and no more than the
/// input holds. Its payload, where it has one, is as long as its length says.
pub proof fn segment_bounds(input: Seq<u8>)
    requires
        segment_at(input) is Ok,
    ensures
        2 <= segment_at(input)->Ok_0.0 <= input.len(),
        segment_at(input)->Ok_0.1.marker.len() == 2,
        segment_at(input)->Ok_0.1.marker[0] == 0xFF,
        segment_at(input)->Ok_0.1.data is Some ==> segment_at(input)->Ok_0.1.data->Some_0.len()
            == segment_at(input)->Ok_0.1.length,
{
}

/// The segments that a scan from the start of `rest` keeps, or the first
/// error that reading a segment gives. The scan ends at the marker of the
/// start of scan, and where the input ends between two segments.
pub open spec fn scan_rest(rest: Seq<u8>) -> Result<Seq<SegmentView>, Fault<JpegErrorKind>>
    decreases rest.len(),
{
    if rest.len() == 0 {
        Ok(Seq::empty())
    } else {
        let at = next_prefix(rest, 0);
        match segment_at(rest.skip(at)) {
            Err(fault) => Err(fault),
            Ok((used, segment)) => if segment.marker[1] == 0xDA {
                Ok(Seq::empty())
            } else {
                proof {
                    next_prefix_bounds(rest, 0);
                    segment_bounds(rest.skip(at));
                }
                match scan_rest(rest.skip(at + used)) {
                    Err(fault) => Err(fault),
                    Ok(more) => Ok(kept(segment) + more),
                }
            },
        }
    }
}

/// The segments with metadata of the input that follows the marker of the
/// start of image; an input without any is an error.
pub open spec fn scan(input: Seq<u8>) -> Result<Seq<SegmentView>, Fault<JpegErrorKind>> {
    match scan_rest(input) {
        Err(fault) => Err(fault),
        Ok(segments) => if segments.len() == 0 {
            Err(jpeg_wrong(": no segments found"@, None))
        } else {
            Ok(segments)
        },
    }
}

/// Whether a stream starts as a JPEG stream does: with the marker of the
/// start of image.
pub open spec fn starts_as_jpeg(header: Seq<u8>) -> bool {
    header.len() >= 2 && header[0] == 0xFF && header[1] == 0xD8
}

/// The segments with metadata of a JPEG stream, or the error of a stream that
/// starts otherwise than with the marker of the start of image, or the first
/// error of the scan.
pub open spec fn jpeg_of(input: Seq<u8>) -> Result<Seq<SegmentView>, Fault<JpegErrorKind>> {
    if !starts_as_jpeg(input) {
        Err(jpeg_wrong(": invalid header"@, None))
    } else {
        scan(input.skip(2))
    }
}

/// The payload of the first segment with the given marker number, where that
/// segment kept its payload.
pub open spec fn payload_of(segments: Seq<SegmentView>, number: u8) -> Option<Seq<u8>>
    decreases segments.len(),
{
    if segments.len() == 0 {
        None
    } else if segments[0].marker.len() == 2 && segments[0].marker[0] == 0xFF
        && segments[0].marker[1] == number {
        segments[0].data
    } else {
        payload_of(segments.skip(1), number)
    }
}

/// Skips to the next byte `marker`. Returns the input from that byte on, and
/// nothing of the input where it holds no such byte.
pub fn skip_until(input: &[u8], marker: u8) -> (r: &[u8])
    ensures
        r@ == input@.skip(first_at(input@, marker, 0)),
{
    let mut at: usize = 0;
    while at < input.len() && input[at] != marker
        invariant
            at <= input.len(),
            first_at(input@, marker, 0) == first_at(input@, marker, at as int),
        decreases input.len() - at,
    {
        at = at + 1;
    }
    let r = slice_subrange(input, at, input.len());
    proof {
        assert(r@ =~= input@.skip(at as int));
    }
    r
}

/// Reads the next segment of a scan. Returns what follows it, or nothing
/// where the scan ends, and appends the segment to `segments` where it
/// carries metadata.
pub fn parse_next<'a>(rest: &'a [u8], segments: &mut Vec<Segment>) -> (r: JpegResult<
    Option<&'a [u8]>,
>)
    requires
        rest@.len() > 0,
    ensures
        match segment_at(rest@.skip(next_prefix(rest@, 0))) {
            Err(fault) => r is Err && r->Err_0@ == fault && final(segments)@ == old(segments)@,
            Ok((used, segment)) => r is Ok && if segment.marker[1] == 0xDA {
                r->Ok_0 is None && segment_views(final(segments)@) == segment_views(old(segments)@)
            } else {
                r->Ok_0 is Some && r->Ok_0->Some_0@ == rest@.skip(next_prefix(rest@, 0) + used)
                    && segment_views(final(segments)@) == segment_views(old(segments)@) + kept(
                    segment,
                )
            },
        },
{
    let ghost before = segment_views(segments@);
    let ghost at = next_prefix(rest@, 0);
    let from = skip_until(rest, 0xFF);
    let (after, segment) = match parse(from) {
        Ok(found) => found,
        Err(e) => {
            return Err(e);
        },
    };
    proof {
        next_prefix_bounds(rest@, 0);
        segment_bounds(from@);
        assert(after@ =~= rest@.skip(at + segment_at(from@)->Ok_0.0));
    }
    let number = segment.marker[1];
    if number == 0xDA {
        return Ok(None);
    }
    if number == 0xE0 || number == 0xE1 {
        let ghost view = segment@;
        segments.push(segment);
        proof {
            assert(segment_views(segments@) =~= before + seq![view]);
        }
    } else {
        proof {
            assert(before + Seq::<SegmentView>::empty() =~= before);
        }
    }
    Ok(Some(after))
}

/// Scans the input that follows the marker of the start of image for the
/// segments that carry metadata.
pub fn parse_segments(input: &[u8]) -> (r: JpegResult<Vec<Segment>>)
    ensures
        match scan(input@) {
            Ok(segments) => r is Ok && segment_views(r->Ok_0@) == segments,
            Err(fault) => r is Err && r->Err_0@ == fault,
        },
{
    let mut segments: Vec<Segment> = Vec::new();
    let mut rest = input;
    let mut done = false;
    let ghost target = scan_rest(input@);
    proof {
        match target {
            Ok(more) => {
                assert(segment_views(segments@) + more =~= more);
            },
            Err(_) => {},
        }
    }
    while !done
        invariant
            target == scan_rest(input@),
            !done ==> target == match scan_rest(rest@) {
                Ok(more) => Ok::<Seq<SegmentView>, Fault<JpegErrorKind>>(
                    segment_views(segments@) + more,
                ),
                Err(fault) => Err(fault),
            },
            done ==> target == Ok::<Seq<SegmentView>, Fault<JpegErrorKind>>(
                segment_views(segments@),
            ),
        decreases
                rest@.len() + if done {
                    0int
                } else {
                    1int
                },
    {
        let ghost before = segment_views(segments@);
        if rest.len() == 0 {
            proof {
                assert(before + Seq::<SegmentView>::empty() =~= before);
            }
            done = true;
        } else {
            let ghost at = next_prefix(rest@, 0);
            let ghost step = segment_at(rest@.skip(at));
            match parse_next(rest, &mut segments) {
                Err(e) => {
                    return Err(e);
                },
                Ok(None) => {
                    proof {
                        assert(before + Seq::<SegmentView>::empty() =~= before);
                    }
                    done = true;
                },
                Ok(Some(after)) => {
                    proof {
                        next_prefix_bounds(rest@, 0);
                        segment_bounds(rest@.skip(at));
                        match scan_rest(rest@.skip(at + step->Ok_0.0)) {
                            Ok(more) => {
                                assert(before + (kept(step->Ok_0.1) + more) =~= (before + kept(
                                    step->Ok_0.1,
                                )) + more);
                            },
                            Err(_) => {},
                        }
                    }
                    rest = after;
                },
            }
        }
    }
    if segments.len() == 0 {
        return Err(JpegError::parse(": no segments found"));
    }
    Ok(segments)
}

/// The text of an error of the JFIF decoder.
pub open spec fn jfif_fault_text(fault: Fault<JfifErrorKind>) -> Seq<char> {
    fault_text(jfif_lead(fault.kind), fault.msg, fault.data)
}

/// The text of an error of the Exif decoder.
pub open spec fn exif_fault_text(fault: Fault<ExifErrorKind>) -> Seq<char> {
    fault_text(exif_lead(fault.kind), fault.msg, fault.data)
}

/// The texts of the source of an error, none where it has no source.
pub open spec fn source_texts(source: Option<Seq<Seq<char>>>) -> Seq<Seq<char>> {
    match source {
        Some(chain) => chain,
        None => Seq::empty(),
    }
}

/// The error of a segment whose payload could not be decoded: a failed parse
/// with the message `msg`, whose source is the text of the error of the
/// decoder, followed by the texts of the sources of that error.
pub open spec fn wrapped(msg: Seq<char>, text: Seq<char>, source: Option<Seq<Seq<char>>>) -> Fault<
    JpegErrorKind,
> {
    Fault {
        kind: JpegErrorKind::Parse,
        data: None,
        msg: Some(msg),
        source: Some(seq![text] + source_texts(source)),
    }
}

/// The JFIF header of a stream with the given segments: none where no segment
/// of the JFIF header kept a payload, else what the payload decodes to, or
/// the error of the decoder wrapped as an error of the scanner.
pub open spec fn jfif_in(segments: Seq<SegmentView>) -> Option<
    Result<JfifView, Fault<JpegErrorKind>>,
> {
    match payload_of(segments, 0xE0) {
        None => None,
        Some(data) => Some(
            match jfif_of(data) {
                Ok(jfif) => Ok(jfif),
                Err(fault) => Err(wrapped(": jfif parsing"@, jfif_fault_text(fault), fault.source)),
            },
        ),
    }
}

/// The Exif block of a stream with the given segments: none where no segment
/// of the Exif block kept a payload, else what the payload decodes to, or the
/// error of the decoder wrapped as an error of the scanner.
pub open spec fn exif_in(segments: Seq<SegmentView>) -> Option<
    Result<Seq<IfdView>, Fault<JpegErrorKind>>,
> {
    match payload_of(segments, 0xE1) {
        None => None,
        Some(data) => Some(
            match exif_of(data) {
                Ok(ifds) => Ok(ifds),
                Err(fault) => Err(wrapped(": exif parsing"@, exif_fault_text(fault), fault.source)),
            },
        ),
    }
}

/// The segments as source text, each followed by an empty line.
pub open spec fn jpeg_text(segments: Seq<SegmentView>) -> Seq<char>
    decreases segments.len(),
{
    if segments.len() == 0 {
        Seq::empty()
    } else {
        jpeg_text(segments.drop_last()) + segment_text(segments.last()) + "\n"@
    }
}

impl Jpeg {
    /// The segments as the source text of constant arrays, for debugging.
    pub fn to_string(&self) -> (r: String)
        requires
            forall|i: int| 0 <= i < self@.len() ==> (#[trigger] self@[i]).data is Some,
        ensures
            r@ == jpeg_text(self@),
    {
        let mut out = String::new();
        let mut i: usize = 0;
        proof {
            assert(self@.take(0) =~= Seq::<SegmentView>::empty());
        }
        while i < self.segments.len()
            invariant
                i <= self.segments.len(),
                forall|k: int| 0 <= k < self@.len() ==> (#[trigger] self@[k]).data is Some,
                out@ == jpeg_text(self@.take(i as int)),
            decreases self.segments.len() - i,
        {
            proof {
                assert(self@[i as int] == self.segments@[i as int]@);
            }
            let text = self.segments[i].to_string();
            out.append(text.as_str());
            out.append("\n");
            proof {
                let t = self@.take(i + 1);
                assert(t.drop_last() =~= self@.take(i as int));
                assert(t.last() == self.segments@[i as int]@);
            }
            i = i + 1;
        }
        proof {
            assert(self@.take(i as int) =~= self@);
        }
        out
    }

    /// Reads the segments with metadata of a JPEG stream.
    pub fn parse(input: &[u8]) -> (r: JpegResult<Self>)
        ensures
            match jpeg_of(input@) {
                Ok(segments) => r is Ok && r->Ok_0@ == segments,
                Err(fault) => r is Err && r->Err_0@ == fault,
            },
    {
        if !Self::is_jpeg(input) {
            return Err(JpegError::parse(": invalid header"));
        }
        let rest = slice_subrange(input, 2, input.len());
        proof {
            assert(rest@ =~= input@.skip(2));
        }
        match parse_segments(rest) {
            Ok(segments) => Ok(Jpeg { segments }),
            Err(e) => Err(e),
        }
    }

    /// Whether a stream starts as a JPEG stream does.
    pub fn is_jpeg(header: &[u8]) -> (r: bool)
        ensures
            r == starts_as_jpeg(header@),
    {
        header.len() >= 2 && header[0] == 0xFF && header[1] == 0xD8
    }

    /// The payload of the first segment with the given marker number, where
    /// that segment kept its payload.
    pub fn payload(&self, number: u8) -> (r: Option<&[u8]>)
        ensures
            match payload_of(self@, number) {
                Some(data) => r is Some && r->Some_0@ == data,
                None => r is None,
            },
    {
        let mut i: usize = 0;
        proof {
            assert(self@.skip(0) =~= self@);
        }
        while i < self.segments.len()
            invariant
                i <= self.segments.len(),
                payload_of(self@, number) == payload_of(self@.skip(i as int), number),
            decreases self.segments.len() - i,
        {
            proof {
                let rest = self@.skip(i as int);
                assert(rest[0] == self.segments@[i as int]@);
                assert(rest.skip(1) =~= self@.skip(i + 1));
            }
            let segment = &self.segments[i];
            if segment.marker[0] == 0xFF && segment.marker[1] == number {
                return match &segment.data {
                    Some(data) => Some(data.as_slice()),
                    None => None,
                };
            }
            i = i + 1;
        }
        None
    }

    /// The JFIF header of the stream, where it has one.
    pub fn jfif(&self) -> (r: Option<JpegResult<Jfif>>)
        ensures
            match jfif_in(self@) {
                None => r is None,
                Some(Ok(jfif)) => r is Some && r->Some_0 is Ok && r->Some_0->Ok_0@ == jfif,
                Some(Err(fault)) => r is Some && r->Some_0 is Err && r->Some_0->Err_0@ == fault,
            },
    {
        match self.payload(0xE0) {
            Some(data) => Some(
                match Jfif::parse(data) {
                    Ok(jfif) => Ok(jfif),
                    Err(e) => Err(JpegError::parse(": jfif parsing").wrap(e)),
                },
            ),
            None => None,
        }
    }

    /// The Exif block of the stream, where it has one.
    pub fn exif(&self) -> (r: Option<JpegResult<Exif>>)
        ensures
            match exif_in(self@) {
                None => r is None,
                Some(Ok(ifds)) => r is Some && r->Some_0 is Ok && r->Some_0->Ok_0@ == ifds,
                Some(Err(fault)) => r is Some && r->Some_0 is Err && r->Some_0->Err_0@ == fault,
            },
    {
        match self.payload(0xE1) {
            Some(data) => Some(
                match Exif::parse(data) {
                    Ok(exif) => Ok(exif),
                    Err(e) => Err(JpegError::parse(": exif parsing").wrap(e)),
                },
            ),
            None => None,
        }
    }
}

} // verus!
