//! The container that a stream was found to be.

use vstd::prelude::*;
use vstd::string::*;
use crate::container::jpeg::jpeg::{exif_in, jfif_in, Jpeg};
use crate::container::jpeg::segment::SegmentView;
use crate::errors::meta::{jpeg_fault, MetaFault};
use crate::errors::MetaError;

use crate::meta::{Exif, Jfif};

verus! {

/// Simplify the result type of the facade slightly.
pub type MetaResult<T> = Result<T, MetaError>;

/// The container of a stream: a JPEG stream with its segments, or none.
#[derive(Debug)]
pub enum Container {
    Jpeg(Jpeg),
    Empty,
}

/// The segments of a container: those of a JPEG stream, none otherwise.
pub open spec fn segments_of(container: Container) -> Seq<SegmentView> {
    match container {
        Container::Jpeg(jpeg) => jpeg@,
        Container::Empty => Seq::empty(),
    }
}

/// A result of the scanner as a result of the facade: an error of the
/// scanner becomes the source of an error of the facade.
pub open spec fn lifted<T>(found: Option<Result<T, crate::errors::Fault<crate::errors::JpegErrorKind>>>) -> Option<
    Result<T, MetaFault>,
> {
    match found {
        None => None,
        Some(Ok(value)) => Some(Ok(value)),
        Some(Err(fault)) => Some(Err(jpeg_fault(fault))),
    }
}

impl Container {
    /// No container.
    pub fn default() -> (r: Self)
        ensures
            r is Empty,
    {
        Container::Empty
    }

    /// The Exif block of the container, where it has one.
    pub fn parse_exif(&self) -> (r: Option<MetaResult<Exif>>)
        ensures
            match lifted(exif_in(segments_of(*self))) {
                None => r is None,
                Some(Ok(ifds)) => r is Some && r->Some_0 is Ok && r->Some_0->Ok_0@ == ifds,
                Some(Err(fault)) => r is Some && r->Some_0 is Err && r->Some_0->Err_0@ == fault,
            },
    {
        match self {
            Container::Jpeg(jpeg) => match jpeg.exif() {
                Some(exif) => match exif {
                    Ok(exif) => Some(Ok(exif)),
                    Err(e) => Some(Err(MetaError::from_jpeg(e))),
                },
                None => None,
            },
            Container::Empty => {
                proof {
                    assert(crate::container::jpeg::jpeg::payload_of(Seq::empty(), 0xE1) is None);
                }
                None
            },
        }
    }

    /// The JFIF header of the container, where it has one.
    pub fn parse_jfif(&self) -> (r: Option<MetaResult<Jfif>>)
        ensures
            match lifted(jfif_in(segments_of(*self))) {
                None => r is None,
                Some(Ok(jfif)) => r is Some && r->Some_0 is Ok && r->Some_0->Ok_0@ == jfif,
                Some(Err(fault)) => r is Some && r->Some_0 is Err && r->Some_0->Err_0@ == fault,
            },
    {
        match self {
            Container::Jpeg(jpeg) => match jpeg.jfif() {
                Some(jfif) => match jfif {
                    Ok(jfif) => Some(Ok(jfif)),
                    Err(e) => Some(Err(MetaError::from_jpeg(e))),
                },
                None => None,
            },
            Container::Empty => {
                proof {
                    assert(crate::container::jpeg::jpeg::payload_of(Seq::empty(), 0xE0) is None);
                }
                None
            },
        }
    }

    /// The name of the container.
    pub fn to_string(&self) -> (r: String)
        ensures
            r@ == match *self {
                Container::Jpeg(_) => "Jpeg"@,
                Container::Empty => "None"@,
            },
    {
        match self {
            Container::Jpeg(_) => String::from_str("Jpeg"),
            Container::Empty => String::from_str("None"),
        }
    }
}

} // verus!
