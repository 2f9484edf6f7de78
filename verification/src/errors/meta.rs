//! Errors of the metadata facade.

use vstd::prelude::*;
use vstd::slice::slice_to_vec;
use vstd::string::*;
use super::jpeg::io_text;
use super::{BaseError, ContextError, Fault, JpegError, JpegErrorKind};
use crate::text::{hex_list, push_hex_list, texts_of};

verus! {

/// What went wrong while the metadata of a stream was read.
#[derive(Debug, Clone, Copy, PartialEq, Eq, Structural)]
#[non_exhaustive]
pub enum MetaErrorKind {
    /// The source of the bytes failed.
    Read,
    /// The stream is a JPEG image whose segments could not be read.
    Jpeg,
    /// The stream does not start as any known container does.
    UnknownHeader,
}

/// The error that led to an error of the facade.
#[derive(Debug)]
#[non_exhaustive]
pub enum MetaErrorSource {
    Io(ContextError),
    JpegParse(JpegError),
}

/// An error of the metadata facade.
#[derive(Debug)]
#[non_exhaustive]
pub struct MetaError {
    pub data: Vec<u8>,
    pub kind: MetaErrorKind,
    pub source: Option<MetaErrorSource>,
}

/// What the source of an error of the facade holds, as values of mathematics.
pub enum MetaCause {
    Io(Seq<Seq<char>>),
    JpegParse(Fault<JpegErrorKind>),
}

/// What an error of the facade holds, as values of mathematics.
pub struct MetaFault {
    pub data: Seq<u8>,
    pub kind: MetaErrorKind,
    pub source: Option<MetaCause>,
}

impl View for MetaError {
    type V = MetaFault;

    open spec fn view(&self) -> MetaFault {
        MetaFault {
            data: self.data@,
            kind: self.kind,
            source: match self.source {
                Some(MetaErrorSource::Io(e)) => Some(MetaCause::Io(e@)),
                Some(MetaErrorSource::JpegParse(e)) => Some(MetaCause::JpegParse(e@)),
                None => None,
            },
        }
    }
}

/// The error of a stream that starts with `data`, which no known container
/// starts with.
pub open spec fn unknown_header_fault(data: Seq<u8>) -> MetaFault {
    MetaFault { data, kind: MetaErrorKind::UnknownHeader, source: None }
}

/// The error of a JPEG stream whose segments gave the error `fault`.
pub open spec fn jpeg_fault(fault: Fault<JpegErrorKind>) -> MetaFault {
    MetaFault { data: Seq::empty(), kind: MetaErrorKind::Jpeg, source: Some(MetaCause::JpegParse(fault)) }
}

/// The text that stands for a kind at the start of a printed error.
pub open spec fn meta_lead(kind: MetaErrorKind) -> Seq<char> {
    match kind {
        MetaErrorKind::Read => "Meta file read failed"@,
        MetaErrorKind::Jpeg => "Meta jpeg parse failed"@,
        MetaErrorKind::UnknownHeader => "Meta unknown header"@,
    }
}

impl MetaError {
    /// The stream starts with `data`, which no known container starts with.
    pub fn unknown_header(data: &[u8]) -> (r: Self)
        ensures
            r@ == unknown_header_fault(data@),
    {
        Self { data: slice_to_vec(data), kind: MetaErrorKind::UnknownHeader, source: None }
    }

    /// The error for an I/O error: a failed read with the I/O error as its
    /// source, printed after `io::Error: `.
    pub fn from_io(e: std::io::Error) -> (r: Self)
        ensures
            r.data@.len() == 0,
            r.kind == MetaErrorKind::Read,
            r.source is Some,
            r.source->Some_0 is Io,
    {
        let text = io_text(&e);
        Self {
            data: Vec::new(),
            kind: MetaErrorKind::Read,
            source: Some(MetaErrorSource::Io(ContextError::new("io::Error: ", text.as_str()))),
        }
    }

    /// The error for an error of the segment scanner, which becomes its source.
    pub fn from_jpeg(e: JpegError) -> (r: Self)
        ensures
            r@ == jpeg_fault(e@),
    {
        let r = Self {
            data: Vec::new(),
            kind: MetaErrorKind::Jpeg,
            source: Some(MetaErrorSource::JpegParse(e)),
        };
        assert(r.data@ =~= Seq::<u8>::empty());
        r
    }
}

impl BaseError for MetaError {
    open spec fn message(&self) -> Seq<char> {
        meta_lead(self.kind) + if self.data@.len() > 0 {
            seq![' '] + hex_list(self.data@, true)
        } else {
            Seq::empty()
        }
    }

    open spec fn causes(&self) -> Seq<Seq<char>> {
        match self.source {
            Some(MetaErrorSource::Io(e)) => e@,
            Some(MetaErrorSource::JpegParse(e)) => seq![e.message()] + e.causes(),
            None => Seq::empty(),
        }
    }

    fn to_string(&self) -> (r: String) {
        let mut out = String::from_str(
            match self.kind {
                MetaErrorKind::Read => "Meta file read failed",
                MetaErrorKind::Jpeg => "Meta jpeg parse failed",
                MetaErrorKind::UnknownHeader => "Meta unknown header",
            },
        );
        let ghost lead = out@;
        if self.data.len() > 0 {
            out.push(' ');
            push_hex_list(&mut out, self.data.as_slice(), true);
            assert(out@ =~= lead + (seq![' '] + hex_list(self.data@, true)));
        } else {
            assert(out@ =~= lead + Seq::<char>::empty());
        }
        out
    }

    fn sources(&self) -> (r: Vec<String>) {
        match &self.source {
            Some(MetaErrorSource::Io(e)) => e.texts(),
            Some(MetaErrorSource::JpegParse(e)) => {
                let mut head = Vec::new();
                head.push(e.to_string());
                let mut tail = e.sources();
                let ghost h = head@;
                let ghost t = tail@;
                head.append(&mut tail);
                proof {
                    assert(head@ =~= h + t);
                    assert(texts_of(head@) =~= seq![e.message()] + texts_of(t));
                }
                head
            },
            None => {
                let r: Vec<String> = Vec::new();
                assert(texts_of(r@) =~= Seq::empty());
                r
            },
        }
    }
}

} // verus!
