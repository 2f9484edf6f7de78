//! The facade: the metadata of a stream, whatever its container.

use vstd::prelude::*;
use vstd::slice::slice_subrange;
use vstd::string::*;
use crate::container::container::{lifted, segments_of, Container, MetaResult};
use crate::container::jpeg::jpeg::{exif_in, jfif_in, scan, starts_as_jpeg, Jpeg};
use crate::container::jpeg::scanner::Scanner;
use crate::errors::JpegError;
use crate::container::jpeg::segment::SegmentView;
use crate::errors::meta::{jpeg_fault, unknown_header_fault, MetaFault};
use crate::errors::MetaError;
use crate::meta::exif::exif::exif_text;
use crate::meta::exif::ifd::IfdView;
use crate::meta::jfif::JfifView;
use crate::meta::{Exif, Jfif};
use crate::text::{padded, push_padded};

verus! {

/// The version of the library.
pub const VERSION: &'static str = "0.1.0";

/// The metadata of a stream: its container, and the JFIF header and the Exif
/// block where the container holds them. Each of the two is decoded on its
/// own: one may be there while the other gave an error.
#[derive(Debug)]
#[non_exhaustive]
pub struct Meta {
    pub container: Option<Container>,
    pub jfif: Option<MetaResult<Jfif>>,
    pub exif: Option<MetaResult<Exif>>,
}

/// What the metadata of a stream holds, as values of mathematics.
pub struct MetaView {
    pub segments: Seq<SegmentView>,
    pub jfif: Option<Result<JfifView, MetaFault>>,
    pub exif: Option<Result<Seq<IfdView>, MetaFault>>,
}

impl View for Meta {
    type V = MetaView;

    open spec fn view(&self) -> MetaView {
        MetaView {
            segments: match self.container {
                Some(container) => segments_of(container),
                None => Seq::empty(),
            },
            jfif: match self.jfif {
                None => None,
                Some(Ok(jfif)) => Some(Ok(jfif@)),
                Some(Err(e)) => Some(Err(e@)),
            },
            exif: match self.exif {
                None => None,
                Some(Ok(exif)) => Some(Ok(exif@)),
                Some(Err(e)) => Some(Err(e@)),
            },
        }
    }
}

/// The first bytes of a stream that tell its container: two, or fewer where
/// the stream is shorter.
pub open spec fn header_of(input: Seq<u8>) -> Seq<u8> {
    if input.len() < 2 {
        input
    } else {
        input.take(2)
    }
}

/// The metadata of the stream `input`.
///
/// A stream that does not start as a JPEG stream is an error that holds its
/// first bytes. An error of the scan for segments is an error of the whole.
/// The JFIF header and the Exif block are decoded each on its own, and an
/// error of one of them stands in its place.
pub open spec fn meta_of(input: Seq<u8>) -> Result<MetaView, MetaFault> {
    if !starts_as_jpeg(input) {
        Err(unknown_header_fault(header_of(input)))
    } else {
        match scan(input.skip(2)) {
            Err(fault) => Err(jpeg_fault(fault)),
            Ok(segments) => Ok(
                MetaView {
                    segments,
                    jfif: lifted(jfif_in(segments)),
                    exif: lifted(exif_in(segments)),
                },
            ),
        }
    }
}

/// The text of the metadata: the version of the library, and the fields of
/// the Exif block where it was decoded.
pub open spec fn meta_text(meta: MetaView) -> Seq<char> {
    "  "@ + padded("libmeta Version"@, 32) + ": "@ + "0.1.0"@ + "\n"@ + match meta.exif {
        Some(Ok(ifds)) => exif_text(ifds) + "\n"@,
        _ => Seq::empty(),
    }
}

impl Meta {
    /// Metadata without a container.
    pub fn default() -> (r: Self)
        ensures
            r.container is None,
            r.jfif is None,
            r.exif is None,
    {
        Self { container: None, jfif: None, exif: None }
    }

    /// The metadata of a JPEG stream with the given segments: the JFIF header
    /// and the Exif block are decoded, each on its own.
    pub fn from_jpeg(jpeg: Jpeg) -> (r: Self)
        ensures
            r@ == (MetaView {
                segments: jpeg@,
                jfif: lifted(jfif_in(jpeg@)),
                exif: lifted(exif_in(jpeg@)),
            }),
    {
        let mut meta = Self::default();
        meta.container = Some(Container::Jpeg(jpeg));
        meta.cache_jfif();
        meta.cache_exif();
        meta
    }

    /// The metadata of a stream that a scanner has read to the end of its
    /// scan: the same as that of the bytes that the scanner was fed.
    pub fn from_scanner(scanner: Scanner) -> (r: MetaResult<Self>)
        requires
            scanner.wf(),
            scanner.finished,
        ensures
            match meta_of(scanner.buffer@) {
                Ok(meta) => r is Ok && r->Ok_0@ == meta,
                Err(fault) => r is Err && r->Err_0@ == fault,
            },
    {
        match scanner.finish() {
            Ok(jpeg) => Ok(Self::from_jpeg(jpeg)),
            Err(e) => Err(MetaError::from_jpeg(e)),
        }
    }

    /// The error of the facade for a stream whose scan gave the error `e`:
    /// that of an unknown header where the stream, which starts with `header`,
    /// does not start as a JPEG stream, and that of a failed scan otherwise.
    pub fn scan_failed(header: &[u8], e: JpegError) -> (r: MetaError)
        ensures
            r@ == if starts_as_jpeg(header@) {
                jpeg_fault(e@)
            } else {
                unknown_header_fault(header_of(header@))
            },
    {
        if Jpeg::is_jpeg(header) {
            MetaError::from_jpeg(e)
        } else if header.len() < 2 {
            MetaError::unknown_header(header)
        } else {
            MetaError::unknown_header(slice_subrange(header, 0, 2))
        }
    }

    /// Finds the container of the stream `input` and reads its metadata.
    pub fn parse(input: &[u8]) -> (r: MetaResult<Self>)
        ensures
            match meta_of(input@) {
                Ok(meta) => r is Ok && r->Ok_0@ == meta,
                Err(fault) => r is Err && r->Err_0@ == fault,
            },
    {
        let header = if input.len() < 2 {
            input
        } else {
            slice_subrange(input, 0, 2)
        };
        if Jpeg::is_jpeg(header) {
            let jpeg = match Jpeg::parse(input) {
                Ok(jpeg) => jpeg,
                Err(e) => {
                    return Err(MetaError::from_jpeg(e));
                },
            };
            Ok(Self::from_jpeg(jpeg))
        } else {
            Err(MetaError::unknown_header(header))
        }
    }

    /// Whether the metadata is that of a JPEG stream.
    pub fn is_jpeg(&self) -> (r: bool)
        ensures
            r == (self.container is Some && self.container->Some_0 is Jpeg),
    {
        match self.container {
            Some(Container::Jpeg(_)) => true,
            _ => false,
        }
    }

    /// Decodes the JFIF header of the container and keeps what it gives.
    pub fn cache_jfif(&mut self)
        ensures
            final(self).container == old(self).container,
            final(self).exif == old(self).exif,
            final(self)@.jfif == lifted(jfif_in(old(self)@.segments)),
    {
        let found = match &self.container {
            Some(container) => container.parse_jfif(),
            None => {
                proof {
                    assert(crate::container::jpeg::jpeg::payload_of(Seq::empty(), 0xE0) is None);
                }
                None
            },
        };
        self.jfif = found;
    }

    /// Decodes the Exif block of the container and keeps what it gives.
    pub fn cache_exif(&mut self)
        ensures
            final(self).container == old(self).container,
            final(self).jfif == old(self).jfif,
            final(self)@.exif == lifted(exif_in(old(self)@.segments)),
    {
        let found = match &self.container {
            Some(container) => container.parse_exif(),
            None => {
                proof {
                    assert(crate::container::jpeg::jpeg::payload_of(Seq::empty(), 0xE1) is None);
                }
                None
            },
        };
        self.exif = found;
    }

    /// The text of the metadata.
    pub fn to_string(&self) -> (r: String)
        ensures
            r@ == meta_text(self@),
    {
        let mut out = String::from_str("  ");
        push_padded(&mut out, "libmeta Version", 32);
        out.append(": ");
        out.append("0.1.0");
        out.append("\n");
        match &self.exif {
            Some(Ok(exif)) => {
                let text = exif.to_string();
                out.append(text.as_str());
                out.append("\n");
            },
            _ => {},
        }
        assert(out@ =~= meta_text(self@));
        out
    }
}

} // verus!
