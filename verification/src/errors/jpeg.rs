//! Errors of the JPEG segment scanner.

use vstd::prelude::*;
use vstd::slice::slice_to_vec;
use vstd::string::*;
use super::{bytes_of, chain_of, chars_of, fault_text, render, BaseError, ContextError, Fault};
use crate::combinators::{display, nom_display, NomError};

verus! {

/// `std::io::Error`, which the library carries and prints but never looks into.
#[verifier::external_type_specification]
#[verifier::external_body]
pub struct ExIoError(std::io::Error);

/// The `Display` of `std::io::Error`: the text of an I/O error. The text
/// depends on the platform, so nothing is stated of it.
#[verifier::external_body]
pub(crate) fn io_text(e: &std::io::Error) -> (r: String) {
    e.to_string()
}

/// What went wrong while the segments of a JPEG stream were read.
#[derive(Debug, Clone, Copy, PartialEq, Eq, Structural)]
#[non_exhaustive]
pub enum JpegErrorKind {
    /// Something that was asked for is not there.
    Operation,
    /// The bytes are not what the format asks for.
    Parse,
    /// The input ended before a step was done; more input may mend it.
    Truncated,
    /// The source of the bytes failed.
    ReadFailed,
}

/// An error of the JPEG segment scanner.
#[derive(Debug)]
#[non_exhaustive]
pub struct JpegError {
    pub kind: JpegErrorKind,
    pub data: Option<Vec<u8>>,
    pub msg: Option<String>,
    pub source: Option<ContextError>,
}

/// The text that stands for a kind at the start of a printed error.
pub open spec fn jpeg_lead(kind: JpegErrorKind) -> Seq<char> {
    match kind {
        JpegErrorKind::Operation => "JPEG operation failed"@,
        JpegErrorKind::Parse => "JPEG parse failed"@,
        JpegErrorKind::Truncated => "JPEG truncated"@,
        JpegErrorKind::ReadFailed => "JPEG read failed"@,
    }
}

impl View for JpegError {
    type V = Fault<JpegErrorKind>;

    open spec fn view(&self) -> Fault<JpegErrorKind> {
        Fault {
            kind: self.kind,
            data: bytes_of(self.data),
            msg: chars_of(self.msg),
            source: chain_of(self.source),
        }
    }
}

impl JpegError {
    /// An error of the given kind, with nothing else in it.
    pub fn new(kind: JpegErrorKind) -> (r: Self)
        ensures
            r@ == (Fault { kind, data: None, msg: None, source: None }),
    {
        Self { kind, data: None, msg: None, source: None }
    }

    /// An operation failed; `msg` says which.
    pub fn operation(msg: &str) -> (r: Self)
        ensures
            r@ == (Fault { kind: JpegErrorKind::Operation, data: None, msg: Some(msg@), source: None }),
    {
        JpegError::new(JpegErrorKind::Operation).with_msg(msg)
    }

    /// The bytes are not what the format asks for; `msg` says where.
    pub fn parse(msg: &str) -> (r: Self)
        ensures
            r@ == (Fault { kind: JpegErrorKind::Parse, data: None, msg: Some(msg@), source: None }),
    {
        JpegError::new(JpegErrorKind::Parse).with_msg(msg)
    }

    /// The input ended early.
    pub fn truncated() -> (r: Self)
        ensures
            r@ == (Fault { kind: JpegErrorKind::Truncated, data: None, msg: None, source: None }),
    {
        JpegError::new(JpegErrorKind::Truncated)
    }

    /// The source of the bytes failed; `msg` says where.
    pub fn read_failed(msg: &str) -> (r: Self)
        ensures
            r@ == (Fault { kind: JpegErrorKind::ReadFailed, data: None, msg: Some(msg@), source: None }),
    {
        JpegError::new(JpegErrorKind::ReadFailed).with_msg(msg)
    }

    /// The same error with `data` as the bytes that are printed with it.
    pub fn with_data(self, data: &[u8]) -> (r: Self)
        ensures
            r@ == (Fault { data: Some(data@), ..self@ }),
    {
        let mut e = self;
        e.data = Some(slice_to_vec(data));
        e
    }

    /// The same error with `msg` as the message that follows the text of its
    /// kind.
    pub fn with_msg(self, msg: &str) -> (r: Self)
        ensures
            r@ == (Fault { msg: Some(msg@), ..self@ }),
    {
        let mut e = self;
        e.msg = Some(String::from_str(msg));
        e
    }

    /// The same error with an I/O error as its source, printed after
    /// `io::Error: `.
    pub fn with_io_source(self, source: std::io::Error) -> (r: Self)
        ensures
            r.kind == self.kind,
            r@.data == self@.data,
            r@.msg == self@.msg,
            exists|t: Seq<char>| r@.source == Some(seq!["io::Error: "@ + t]),
    {
        let text = io_text(&source);
        let mut e = self;
        e.source = Some(ContextError::new("io::Error: ", text.as_str()));
        e
    }

    /// The same error with an error of `nom` as its source, printed after
    /// `nom::`. Where the parser stopped for want of input, the kind becomes
    /// `Truncated`.
    pub fn with_nom_source(self, source: NomError) -> (r: Self)
        ensures
            r@ == (Fault {
                kind: if source.shortfall() is Some {
                    JpegErrorKind::Truncated
                } else {
                    self.kind
                },
                source: Some(seq!["nom::"@ + nom_display(source.shortfall(), source.rejected())]),
                ..self@
            }),
    {
        let text = display(&source);
        let mut e = self;
        if source.is_incomplete() {
            e.kind = JpegErrorKind::Truncated;
        }
        e.source = Some(ContextError::new("nom::", text.as_str()));
        e
    }

    /// The same error with `source` and its own sources as its source, each
    /// printed after `kind`.
    pub fn with_source<T: BaseError>(self, kind: &str, source: T) -> (r: Self)
        ensures
            r@ == (Fault {
                source: Some(super::context::prefixed(kind@, seq![source.message()] + source.causes())),
                ..self@
            }),
    {
        let mut e = self;
        e.source = Some(ContextError::from(kind, &source));
        e
    }

    /// The same error with `source` and its own sources as its source.
    pub fn wrap<T: BaseError>(self, source: T) -> (r: Self)
        ensures
            r@ == (Fault { source: Some(seq![source.message()] + source.causes()), ..self@ }),
    {
        let mut e = self;
        e.source = Some(ContextError::from("", &source));
        proof {
            let all = seq![source.message()] + source.causes();
            assert(super::context::prefixed(""@, all) =~= all) by {
                reveal_strlit("");
                assert forall|i: int| 0 <= i < all.len() implies ""@ + all[i] =~= all[i] by {}
            }
        }
        e
    }

    /// The error for an I/O error: a failed read with the I/O error as its
    /// source.
    pub fn from_io(source: std::io::Error) -> (r: Self)
        ensures
            r.kind == JpegErrorKind::ReadFailed,
            r@.data is None,
            r@.msg is None,
            r@.source is Some,
    {
        let text = io_text(&source);
        let mut e = JpegError::new(JpegErrorKind::ReadFailed);
        e.source = Some(ContextError::new("", text.as_str()));
        e
    }
}

impl BaseError for JpegError {
    open spec fn message(&self) -> Seq<char> {
        fault_text(jpeg_lead(self.kind), self@.msg, self@.data)
    }

    open spec fn causes(&self) -> Seq<Seq<char>> {
        match self@.source {
            Some(chain) => chain,
            None => Seq::empty(),
        }
    }

    fn to_string(&self) -> (r: String) {
        let lead = match self.kind {
            JpegErrorKind::Operation => "JPEG operation failed",
            JpegErrorKind::Parse => "JPEG parse failed",
            JpegErrorKind::Truncated => "JPEG truncated",
            JpegErrorKind::ReadFailed => "JPEG read failed",
        };
        render(lead, &self.msg, &self.data)
    }

    fn sources(&self) -> (r: Vec<String>) {
        match &self.source {
            Some(chain) => chain.texts(),
            None => {
                let r: Vec<String> = Vec::new();
                assert(crate::text::texts_of(r@) =~= Seq::empty());
                r
            },
        }
    }
}

} // verus!
