//! What holds of every scan.

use vstd::prelude::*;
use crate::combinators::be_u16_of;
use crate::container::jpeg::jpeg::{
    jpeg_of, kept, next_prefix, next_prefix_bounds, scan, scan_rest, segment_bounds,
};
use crate::container::jpeg::marker::{has_payload, is_metadata};
use crate::container::jpeg::segment::{length_at, marker_at, segment_at, SegmentView};
use crate::errors::{Fault, JpegErrorKind};

verus! {

/// The bytes of a segment with a payload: the marker, the length of the
/// payload and of the length field in two bytes, and the payload.
pub open spec fn segment_bytes(number: u8, payload: Seq<u8>) -> Seq<u8> {
    seq![0xFFu8, number, ((payload.len() + 2) / 256) as u8, ((payload.len() + 2) % 256) as u8]
        + payload
}

/// The segment with the given marker number and payload, as the scan keeps
/// it.
pub open spec fn whole_segment(number: u8, payload: Seq<u8>) -> SegmentView {
    SegmentView { marker: seq![0xFFu8, number], length: payload.len() as u16, data: Some(payload) }
}

/// The bytes of a segment with a payload, followed by anything, are read as
/// that segment.
pub proof fn reads_back(number: u8, payload: Seq<u8>, tail: Seq<u8>)
    requires
        has_payload(number),
        payload.len() <= 65533,
    ensures
        segment_at(segment_bytes(number, payload) + tail) == Ok::<
            (int, SegmentView),
            crate::errors::Fault<crate::errors::JpegErrorKind>,
        >((4 + payload.len() as int, whole_segment(number, payload))),
{
    let input = segment_bytes(number, payload) + tail;
    let total = payload.len() + 2;
    assert(input[0] == 0xFF && input[1] == number);
    assert(marker_at(input) == Ok::<u8, crate::errors::Fault<crate::errors::JpegErrorKind>>(number));
    let rest = input.skip(2);
    assert(rest[0] == (total / 256) as u8 && rest[1] == (total % 256) as u8);
    assert(be_u16_of(rest) == total) by {
        assert((total / 256) * 256 + total % 256 == total);
    }
    assert(length_at(rest) == Ok::<u16, crate::errors::Fault<crate::errors::JpegErrorKind>>(
        payload.len() as u16,
    ));
    assert(input.subrange(4, 4 + payload.len() as int) =~= payload);
}

/// A scan goes on behind a segment that is not the start of scan.
pub proof fn scan_goes_on(number: u8, payload: Seq<u8>, tail: Seq<u8>)
    requires
        has_payload(number),
        payload.len() <= 65533,
    ensures
        scan_rest(segment_bytes(number, payload) + tail) == match scan_rest(tail) {
            Ok(more) => Ok(kept(whole_segment(number, payload)) + more),
            Err(fault) => Err(fault),
        },
{
    let input = segment_bytes(number, payload) + tail;
    reads_back(number, payload, tail);
    assert(input[0] == 0xFF);
    assert(next_prefix(input, 0) == 0);
    assert(input.skip(0) =~= input);
    assert(input.skip(4 + payload.len() as int) =~= tail);
}

/// A scan ends at the marker of the start of scan, whatever follows it.
pub proof fn scan_ends_at_start_of_scan(tail: Seq<u8>)
    ensures
        scan_rest(seq![0xFFu8, 0xDAu8] + tail) == Ok::<
            Seq<SegmentView>,
            crate::errors::Fault<crate::errors::JpegErrorKind>,
        >(Seq::empty()),
{
    let input = seq![0xFFu8, 0xDAu8] + tail;
    assert(input[0] == 0xFF && input[1] == 0xDA);
    assert(next_prefix(input, 0) == 0);
    assert(input.skip(0) =~= input);
}

/// A stream of the start of image, the segment of a JFIF header, and the
/// start of scan gives exactly that one segment, whatever follows the start
/// of scan: nothing behind it is read.
pub proof fn scan_stops_before_image_data(payload: Seq<u8>, tail: Seq<u8>)
    requires
        payload.len() <= 65533,
    ensures
        jpeg_of(seq![0xFFu8, 0xD8u8] + segment_bytes(0xE0, payload) + seq![0xFFu8, 0xDAu8] + tail)
            == Ok::<Seq<SegmentView>, crate::errors::Fault<crate::errors::JpegErrorKind>>(
            seq![whole_segment(0xE0, payload)],
        ),
{
    let input = seq![0xFFu8, 0xD8u8] + segment_bytes(0xE0, payload) + seq![0xFFu8, 0xDAu8] + tail;
    let after = seq![0xFFu8, 0xDAu8] + tail;
    assert(input[0] == 0xFF && input[1] == 0xD8);
    assert(input.skip(2) =~= segment_bytes(0xE0, payload) + after);
    scan_goes_on(0xE0, payload, after);
    scan_ends_at_start_of_scan(tail);
    assert(kept(whole_segment(0xE0, payload)) + Seq::<SegmentView>::empty() =~= seq![
        whole_segment(0xE0, payload),
    ]);
}

/// A stream with one segment of a JFIF header and one segment of an Exif
/// block gives exactly those two segments, in the order of the stream, each
/// with a payload as long as its length says.
pub proof fn scan_finds_both_segments(jfif: Seq<u8>, exif: Seq<u8>, tail: Seq<u8>)
    requires
        jfif.len() <= 65533,
        exif.len() <= 65533,
    ensures
        jpeg_of(
            seq![0xFFu8, 0xD8u8] + segment_bytes(0xE0, jfif) + segment_bytes(0xE1, exif) + seq![
                0xFFu8,
                0xDAu8,
            ] + tail,
        ) == Ok::<Seq<SegmentView>, crate::errors::Fault<crate::errors::JpegErrorKind>>(
            seq![whole_segment(0xE0, jfif), whole_segment(0xE1, exif)],
        ),
        whole_segment(0xE0, jfif).data->Some_0.len() == whole_segment(0xE0, jfif).length,
        whole_segment(0xE1, exif).data->Some_0.len() == whole_segment(0xE1, exif).length,
{
    let after = seq![0xFFu8, 0xDAu8] + tail;
    let second = segment_bytes(0xE1, exif) + after;
    let input = seq![0xFFu8, 0xD8u8] + segment_bytes(0xE0, jfif) + segment_bytes(0xE1, exif)
        + seq![0xFFu8, 0xDAu8] + tail;
    assert(input[0] == 0xFF && input[1] == 0xD8);
    assert(input.skip(2) =~= segment_bytes(0xE0, jfif) + second);
    scan_goes_on(0xE0, jfif, second);
    scan_goes_on(0xE1, exif, after);
    scan_ends_at_start_of_scan(tail);
    assert(kept(whole_segment(0xE0, jfif)) + (kept(whole_segment(0xE1, exif)) + Seq::<
        SegmentView,
    >::empty()) =~= seq![whole_segment(0xE0, jfif), whole_segment(0xE1, exif)]);
}

/// Every segment that a scan gives carries metadata, and holds a payload as
/// long as its length says.
pub proof fn scan_gives_whole_segments(rest: Seq<u8>, i: int)
    requires
        scan_rest(rest) is Ok,
        0 <= i < scan_rest(rest)->Ok_0.len(),
    ensures
        is_metadata(scan_rest(rest)->Ok_0[i].marker[1]),
        scan_rest(rest)->Ok_0[i].marker[0] == 0xFF,
        scan_rest(rest)->Ok_0[i].data is Some,
        scan_rest(rest)->Ok_0[i].data->Some_0.len() == scan_rest(rest)->Ok_0[i].length,
    decreases rest.len(),
{
    if rest.len() > 0 {
        let at = next_prefix(rest, 0);
        let (used, segment) = segment_at(rest.skip(at))->Ok_0;
        next_prefix_bounds(rest, 0);
        segment_bounds(rest.skip(at));
        if segment.marker[1] != 0xDA {
            let first = kept(segment);
            if i >= first.len() {
                scan_gives_whole_segments(rest.skip(at + used), i - first.len());
            }
        }
    }
}

/// Whether an outcome is final: anything but an error of the kind
/// `Truncated`.
pub open spec fn settled<T>(r: Result<T, Fault<JpegErrorKind>>) -> bool {
    match r {
        Ok(_) => true,
        Err(fault) => fault.kind != JpegErrorKind::Truncated,
    }
}

/// Whether two outcomes say the same: the same value, or errors of the same
/// kind with the same message and the same bytes.
pub open spec fn same_verdict<T>(
    a: Result<T, Fault<JpegErrorKind>>,
    b: Result<T, Fault<JpegErrorKind>>,
) -> bool {
    match (a, b) {
        (Ok(x), Ok(y)) => x == y,
        (Err(f), Err(g)) => f.kind == g.kind && f.msg == g.msg && f.data == g.data,
        _ => false,
    }
}

/// A segment that is read to its end, and the error of a segment that is
/// wrong, are the same whatever follows.
pub proof fn segment_settles(input: Seq<u8>, more: Seq<u8>)
    requires
        settled(segment_at(input)),
    ensures
        same_verdict(segment_at(input), segment_at(input + more)),
{
    let longer = input + more;
    if input.len() >= 2 && input[0] == 0xFF {
        assert(longer[0] == input[0] && longer[1] == input[1]);
        let number = input[1];
        if has_payload(number) {
            let rest = input.skip(2);
            if rest.len() >= 2 {
                assert(longer.skip(2)[0] == rest[0] && longer.skip(2)[1] == rest[1]);
                if be_u16_of(rest) >= 2 {
                    let length = be_u16_of(rest) - 2;
                    assert(longer.subrange(4, 4 + length) =~= input.subrange(4, 4 + length));
                }
            }
        }
    } else if input.len() >= 1 {
        assert(longer[0] == input[0]);
    }
}

/// The place of the next marker inside an input is the same in a longer
/// input.
pub proof fn next_prefix_settles(input: Seq<u8>, more: Seq<u8>, pos: int)
    requires
        0 <= pos <= input.len(),
        next_prefix(input, pos) < input.len(),
    ensures
        next_prefix(input + more, pos) == next_prefix(input, pos),
    decreases input.len() - pos,
{
    let longer = input + more;
    if pos < input.len() {
        assert(longer[pos] == input[pos]);
        if input[pos] != 0xFF {
            next_prefix_settles(input, more, pos + 1);
        }
    }
}

/// An error of a scan of another kind than `Truncated` is about the bytes
/// that were read: the scan of a longer input gives an error of the same
/// kind, with the same message and the same bytes.
pub proof fn wrong_scan_stays_wrong(rest: Seq<u8>, more: Seq<u8>)
    requires
        scan_rest(rest) is Err,
        scan_rest(rest)->Err_0.kind != JpegErrorKind::Truncated,
    ensures
        same_verdict(scan_rest(rest), scan_rest(rest + more)),
    decreases rest.len(),
{
    let longer = rest + more;
    let at = next_prefix(rest, 0);
    next_prefix_bounds(rest, 0);
    if at < rest.len() {
        next_prefix_settles(rest, more, 0);
        assert(longer.skip(at) =~= rest.skip(at) + more);
        segment_settles(rest.skip(at), more);
        match segment_at(rest.skip(at)) {
            Ok((used, segment)) => {
                segment_bounds(rest.skip(at));
                assert(longer.skip(at + used) =~= rest.skip(at + used) + more);
                wrong_scan_stays_wrong(rest.skip(at + used), more);
            },
            Err(_) => {},
        }
    } else {
        assert(rest.skip(at).len() == 0);
    }
}

/// The first bytes of an input whose scan gives segments are never reported
/// as wrong: their scan gives segments too, or an error of the kind
/// `Truncated`.
pub proof fn cut_short_scan_is_truncated(input: Seq<u8>, n: int)
    requires
        scan_rest(input) is Ok,
        0 <= n <= input.len(),
    ensures
        scan_rest(input.take(n)) is Ok || scan_rest(input.take(n))->Err_0.kind
            == JpegErrorKind::Truncated,
{
    let p = input.take(n);
    let more = input.skip(n);
    assert(p + more =~= input);
    if scan_rest(p) is Err && scan_rest(p)->Err_0.kind != JpegErrorKind::Truncated {
        wrong_scan_stays_wrong(p, more);
    }
}

} // verus!
