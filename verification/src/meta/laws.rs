//! What holds of every call of the facade.

use vstd::prelude::*;
use crate::container::jpeg::jpeg::jpeg_of;
use crate::container::jpeg::segment::jpeg_wrong;
use crate::errors::meta::{unknown_header_fault, MetaFault};
use crate::meta::meta::{meta_of, MetaView};

verus! {

/// A stream whose first two bytes are not the marker of the start of image is
/// refused, whatever follows them: the facade gives the error of an unknown
/// header that holds those bytes, and the scanner the error of an invalid
/// header. Neither gives metadata.
pub proof fn header_rejection(input: Seq<u8>)
    requires
        input.len() >= 2,
        !(input[0] == 0xFF && input[1] == 0xD8),
    ensures
        meta_of(input) == Err::<MetaView, MetaFault>(unknown_header_fault(input.take(2))),
        jpeg_of(input) == Err::<
            Seq<crate::container::jpeg::segment::SegmentView>,
            crate::errors::Fault<crate::errors::JpegErrorKind>,
        >(jpeg_wrong(": invalid header"@, None)),
{
}

/// A stream of fewer than two bytes is refused in the same way, with the
/// bytes that it has.
pub proof fn short_header_rejection(input: Seq<u8>)
    requires
        input.len() < 2,
    ensures
        meta_of(input) == Err::<MetaView, MetaFault>(unknown_header_fault(input)),
{
}

/// Reading the same bytes twice gives the same: what a call returns depends
/// on the bytes of the stream and on nothing else.
pub proof fn parse_is_repeatable(
    first: Seq<u8>,
    second: Seq<u8>,
    a: Result<MetaView, MetaFault>,
    b: Result<MetaView, MetaFault>,
)
    requires
        first =~= second,
        a == meta_of(first),
        b == meta_of(second),
    ensures
        a == b,
{
}

} // verus!
