//! The scan of a JPEG stream that arrives in pieces.
//!
//! A scanner is fed the bytes of a stream as they come and is asked to
//! advance. It keeps the bytes and remembers where the last segment that it
//! read to its end stops, so that no segment is read twice. Where the bytes
//! end inside a segment it asks for more; once the stream has ended, the same
//! becomes an error of the kind `Truncated`. At every point the segments that
//! it holds are those that the scan of the whole buffer would give first.

use vstd::prelude::*;
use vstd::slice::slice_subrange;
use crate::container::jpeg::jpeg::{
    jpeg_of, kept, next_prefix, next_prefix_bounds, parse_next, scan_rest, segment_bounds,
    segment_views, starts_as_jpeg, Jpeg, JpegResult,
};
use crate::container::jpeg::laws::{next_prefix_settles, segment_settles};
use crate::container::jpeg::segment::{jpeg_wrong, segment_at, Segment, SegmentView};
use crate::errors::{Fault, JpegError, JpegErrorKind};

verus! {

/// What the caller of a scanner is to do next.
#[derive(Debug, Clone, Copy, PartialEq, Eq, Structural)]
pub enum Progress {
    /// Feed more bytes and advance again.
    NeedMore,
    /// The scan is done: nothing more needs to be read.
    Finished,
}

/// A scan in progress: the bytes that were fed, the place behind the last
/// segment that was read to its end, and the segments that were kept.
#[derive(Debug)]
pub struct Scanner {
    pub buffer: Vec<u8>,
    pub consumed: usize,
    pub segments: Vec<Segment>,
    pub started: bool,
    pub finished: bool,
}

/// The segments that a scan keeps while it reads whole segments up to the
/// place `upto` of `rest`, where the scan comes by that place: the place is
/// where a segment ends, and no segment before it is the start of scan.
pub open spec fn scan_upto(rest: Seq<u8>, upto: int) -> Option<Seq<SegmentView>>
    decreases upto,
{
    if upto == 0 {
        Some(Seq::empty())
    } else if upto < 0 || rest.len() == 0 {
        None
    } else {
        let at = next_prefix(rest, 0);
        match segment_at(rest.skip(at)) {
            Ok((used, segment)) => if segment.marker[1] != 0xDA && at + used <= upto {
                proof {
                    next_prefix_bounds(rest, 0);
                    segment_bounds(rest.skip(at));
                }
                match scan_upto(rest.skip(at + used), upto - (at + used)) {
                    Some(more) => Some(kept(segment) + more),
                    None => None,
                }
            } else {
                None
            },
            Err(_) => None,
        }
    }
}

/// The outcome of a scan from the outcome of the scan of its rest, and the
/// segments that were kept before.
pub open spec fn after(
    before: Seq<SegmentView>,
    rest: Result<Seq<SegmentView>, Fault<JpegErrorKind>>,
) -> Result<Seq<SegmentView>, Fault<JpegErrorKind>> {
    match rest {
        Ok(more) => Ok(before + more),
        Err(fault) => Err(fault),
    }
}

/// The scan of a stream, without the rule that a stream holds a segment with
/// metadata: the error of a stream that starts otherwise than with the marker
/// of the start of image, or the outcome of the scan of what follows it.
pub open spec fn stream_scan(input: Seq<u8>) -> Result<Seq<SegmentView>, Fault<JpegErrorKind>> {
    if !starts_as_jpeg(input) {
        Err(jpeg_wrong(": invalid header"@, None))
    } else {
        scan_rest(input.skip(2))
    }
}

/// A scan that comes by a place gives the segments up to that place, and then
/// what the scan from that place on gives.
pub proof fn upto_then_rest(rest: Seq<u8>, upto: int)
    requires
        scan_upto(rest, upto) is Some,
    ensures
        0 <= upto <= rest.len(),
        scan_rest(rest) == after(scan_upto(rest, upto)->Some_0, scan_rest(rest.skip(upto))),
    decreases upto,
{
    if upto == 0 {
        assert(rest.skip(0) =~= rest);
        match scan_rest(rest) {
            Ok(more) => {
                assert(Seq::<SegmentView>::empty() + more =~= more);
            },
            Err(_) => {},
        }
    } else {
        let at = next_prefix(rest, 0);
        next_prefix_bounds(rest, 0);
        segment_bounds(rest.skip(at));
        let (used, segment) = segment_at(rest.skip(at))->Ok_0;
        let next = rest.skip(at + used);
        upto_then_rest(next, upto - (at + used));
        assert(next.skip(upto - (at + used)) =~= rest.skip(upto));
        let before = scan_upto(next, upto - (at + used))->Some_0;
        match scan_rest(rest.skip(upto)) {
            Ok(more) => {
                assert(kept(segment) + (before + more) =~= (kept(segment) + before) + more);
            },
            Err(_) => {},
        }
    }
}

/// A scan that comes by a place does so in every longer input, with the same
/// segments: what was read is not read again.
pub proof fn upto_settles(rest: Seq<u8>, more: Seq<u8>, upto: int)
    requires
        scan_upto(rest, upto) is Some,
    ensures
        scan_upto(rest + more, upto) == scan_upto(rest, upto),
    decreases upto,
{
    if upto != 0 {
        let longer = rest + more;
        let at = next_prefix(rest, 0);
        next_prefix_bounds(rest, 0);
        segment_bounds(rest.skip(at));
        let (used, segment) = segment_at(rest.skip(at))->Ok_0;
        next_prefix_settles(rest, more, 0);
        assert(longer.skip(at) =~= rest.skip(at) + more);
        segment_settles(rest.skip(at), more);
        assert(longer.skip(at + used) =~= rest.skip(at + used) + more);
        upto_settles(rest.skip(at + used), more, upto - (at + used));
    }
}

/// A scan that comes by a place and reads one more segment that is not the
/// start of scan comes by the place where that segment ends, with that
/// segment kept behind the others.
pub proof fn upto_one_more(rest: Seq<u8>, upto: int)
    requires
        scan_upto(rest, upto) is Some,
        upto < rest.len(),
        segment_at(rest.skip(upto).skip(next_prefix(rest.skip(upto), 0))) is Ok,
        segment_at(rest.skip(upto).skip(next_prefix(rest.skip(upto), 0)))->Ok_0.1.marker[1] != 0xDA,
    ensures
        ({
            let tail = rest.skip(upto);
            let at = next_prefix(tail, 0);
            let (used, segment) = segment_at(tail.skip(at))->Ok_0;
            scan_upto(rest, upto + at + used) == Some(scan_upto(rest, upto)->Some_0 + kept(segment))
        }),
    decreases upto,
{
    let tail = rest.skip(upto);
    let at = next_prefix(tail, 0);
    let (used, segment) = segment_at(tail.skip(at))->Ok_0;
    next_prefix_bounds(tail, 0);
    segment_bounds(tail.skip(at));
    if upto == 0 {
        assert(tail =~= rest);
        assert(scan_upto(rest.skip(at + used), 0) == Some(Seq::<SegmentView>::empty()));
        assert(kept(segment) + Seq::<SegmentView>::empty() =~= Seq::<SegmentView>::empty() + kept(
            segment,
        ));
    } else {
        let at0 = next_prefix(rest, 0);
        next_prefix_bounds(rest, 0);
        segment_bounds(rest.skip(at0));
        let (used0, segment0) = segment_at(rest.skip(at0))->Ok_0;
        let next = rest.skip(at0 + used0);
        let left = upto - (at0 + used0);
        upto_then_rest(next, left);
        assert(next.skip(left) =~= tail);
        upto_one_more(next, left);
        let before = scan_upto(next, left)->Some_0;
        assert(kept(segment0) + (before + kept(segment)) =~= (kept(segment0) + before) + kept(
            segment,
        ));
    }
}

impl Scanner {
    /// Whether the scanner is in order: the place behind the last segment lies
    /// in the buffer; once the start of image was found, the segments are
    /// those of the scan of the buffer up to that place; and once the scan is
    /// done, they are those of the scan of the whole buffer.
    pub open spec fn wf(&self) -> bool {
        &&& self.consumed <= self.buffer@.len()
        &&& !self.started ==> self.consumed == 0 && self.segments@.len() == 0 && !self.finished
        &&& self.started ==> starts_as_jpeg(self.buffer@) && self.consumed >= 2 && scan_upto(
            self.buffer@.skip(2),
            self.consumed - 2,
        ) == Some(segment_views(self.segments@))
        &&& self.finished ==> stream_scan(self.buffer@) == Ok::<
            Seq<SegmentView>,
            Fault<JpegErrorKind>,
        >(segment_views(self.segments@))
    }

    /// A scanner that was fed nothing yet.
    pub fn new() -> (r: Self)
        ensures
            r.wf(),
            r.buffer@.len() == 0,
            !r.started,
            !r.finished,
    {
        Self {
            buffer: Vec::new(),
            consumed: 0,
            segments: Vec::new(),
            started: false,
            finished: false,
        }
    }

    /// Appends bytes of the stream to the buffer. A scanner that is done takes
    /// no more bytes.
    pub fn feed(&mut self, chunk: &[u8])
        requires
            old(self).wf(),
        ensures
            final(self).wf(),
            final(self).buffer@ == if old(self).finished {
                old(self).buffer@
            } else {
                old(self).buffer@ + chunk@
            },
            final(self).segments@ == old(self).segments@,
            final(self).consumed == old(self).consumed,
            final(self).started == old(self).started,
            final(self).finished == old(self).finished,
    {
        if self.finished {
            return ;
        }
        let ghost before = self.buffer@;
        let mut i: usize = 0;
        while i < chunk.len()
            invariant
                i <= chunk.len(),
                self.buffer@ == before + chunk@.take(i as int),
                self.segments@ == old(self).segments@,
                self.consumed == old(self).consumed,
                self.started == old(self).started,
                self.finished == old(self).finished,
            decreases chunk.len() - i,
        {
            self.buffer.push(chunk[i]);
            proof {
                assert(self.buffer@ =~= before + chunk@.take(i + 1));
            }
            i = i + 1;
        }
        proof {
            assert(chunk@.take(i as int) =~= chunk@);
            if self.started {
                assert((before + chunk@).skip(2) =~= before.skip(2) + chunk@);
                upto_settles(before.skip(2), chunk@, self.consumed - 2);
            }
        }
    }

    /// Reads on from the place behind the last segment, as far as the bytes
    /// in the buffer allow. `eof` says that the stream has ended: no more
    /// bytes will be fed.
    ///
    /// The scan is done at the marker of the start of scan, and at the end of
    /// the stream where it lies between two segments. Where the bytes end
    /// inside a segment, more are asked for; at the end of the stream that is
    /// the error of the scan of the whole buffer, which is of the kind
    /// `Truncated`. A segment that is wrong is an error at once.
    pub fn advance(&mut self, eof: bool) -> (r: JpegResult<Progress>)
        requires
            old(self).wf(),
        ensures
            final(self).wf(),
            final(self).buffer@ == old(self).buffer@,
            match r {
                Ok(Progress::Finished) => final(self).finished && stream_scan(final(self).buffer@)
                    == Ok::<Seq<SegmentView>, Fault<JpegErrorKind>>(
                    segment_views(final(self).segments@),
                ),
                Ok(Progress::NeedMore) => !eof && !final(self).finished && (final(self).buffer@.len()
                    < 2 || final(self).consumed == final(self).buffer@.len() || (stream_scan(
                    final(self).buffer@,
                ) is Err && stream_scan(final(self).buffer@)->Err_0.kind
                    == JpegErrorKind::Truncated)),
                Err(e) => stream_scan(final(self).buffer@) == Err::<
                    Seq<SegmentView>,
                    Fault<JpegErrorKind>,
                >(e@) && (e@.kind == JpegErrorKind::Truncated ==> eof),
            },
    {
        if self.finished {
            return Ok(Progress::Finished);
        }
        if !self.started {
            if self.buffer.len() < 2 {
                if eof {
                    return Err(JpegError::parse(": invalid header"));
                } else {
                    return Ok(Progress::NeedMore);
                }
            }
            if !Jpeg::is_jpeg(self.buffer.as_slice()) {
                return Err(JpegError::parse(": invalid header"));
            }
            self.started = true;
            self.consumed = 2;
            proof {
                assert(segment_views(self.segments@) =~= Seq::<SegmentView>::empty());
            }
        }
        let ghost whole = self.buffer@.skip(2);
        loop
            invariant
                self.wf(),
                self.started,
                !self.finished,
                self.buffer@ == old(self).buffer@,
                whole == self.buffer@.skip(2),
            decreases self.buffer@.len() - self.consumed,
        {
            let ghost before = segment_views(self.segments@);
            let ghost upto = self.consumed - 2;
            let rest = slice_subrange(self.buffer.as_slice(), self.consumed, self.buffer.len());
            proof {
                upto_then_rest(whole, upto);
                assert(rest@ =~= whole.skip(upto));
            }
            if rest.len() == 0 {
                if eof {
                    proof {
                        assert(before + Seq::<SegmentView>::empty() =~= before);
                    }
                    self.finished = true;
                    return Ok(Progress::Finished);
                } else {
                    return Ok(Progress::NeedMore);
                }
            }
            let ghost at = next_prefix(rest@, 0);
            let ghost step = segment_at(rest@.skip(at));
            match parse_next(rest, &mut self.segments) {
                Err(e) => {
                    match e.kind {
                        JpegErrorKind::Truncated => {
                            if !eof {
                                return Ok(Progress::NeedMore);
                            }
                        },
                        _ => {},
                    }
                    return Err(e);
                },
                Ok(None) => {
                    proof {
                        assert(before + Seq::<SegmentView>::empty() =~= before);
                    }
                    self.finished = true;
                    return Ok(Progress::Finished);
                },
                Ok(Some(after)) => {
                    proof {
                        next_prefix_bounds(rest@, 0);
                        segment_bounds(rest@.skip(at));
                        upto_one_more(whole, upto);
                    }
                    self.consumed = self.buffer.len() - after.len();
                },
            }
        }
    }

    /// The segments of a scan that is done, as the scan of the whole stream
    /// gives them: a stream without a segment with metadata is an error.
    pub fn finish(self) -> (r: JpegResult<Jpeg>)
        requires
            self.wf(),
            self.finished,
        ensures
            match jpeg_of(self.buffer@) {
                Ok(segments) => r is Ok && r->Ok_0@ == segments,
                Err(fault) => r is Err && r->Err_0@ == fault,
            },
    {
        if self.segments.len() == 0 {
            return Err(JpegError::parse(": no segments found"));
        }
        Ok(Jpeg { segments: self.segments })
    }
}

} // verus!
