//! Errors of the Exif decoder.

use vstd::prelude::*;
use vstd::slice::slice_to_vec;
use vstd::string::*;
use super::{bytes_of, chain_of, chars_of, fault_text, render, BaseError, ContextError, Fault};
use crate::combinators::{display, nom_display, NomError};

verus! {

/// What went wrong while an Exif block was decoded.
#[derive(Debug, Clone, Copy, PartialEq, Eq, Structural)]
#[non_exhaustive]
pub enum ExifErrorKind {
    /// The bytes are not what the format asks for.
    Parse,
    /// An offset of zero stood where the offset of a directory was read:
    /// the chain of directories ends there.
    OffsetIsZero,
    /// The input ended before a step was done. It is printed as a failed
    /// parse; the source tells how many bytes were missing.
    Truncated,
}

/// An error of the Exif decoder.
#[derive(Debug)]
#[non_exhaustive]
pub struct ExifError {
    pub kind: ExifErrorKind,
    pub data: Option<Vec<u8>>,
    pub msg: Option<String>,
    pub source: Option<ContextError>,
}

/// The text that stands for a kind at the start of a printed error.
pub open spec fn exif_lead(kind: ExifErrorKind) -> Seq<char> {
    match kind {
        ExifErrorKind::Parse => "Exif parse failed"@,
        ExifErrorKind::OffsetIsZero => "Exif parse failed: Offset is zero"@,
        ExifErrorKind::Truncated => "Exif parse failed"@,
    }
}

impl View for ExifError {
    type V = Fault<ExifErrorKind>;

    open spec fn view(&self) -> Fault<ExifErrorKind> {
        Fault {
            kind: self.kind,
            data: bytes_of(self.data),
            msg: chars_of(self.msg),
            source: chain_of(self.source),
        }
    }
}

impl ExifError {
    /// A failed parse, with nothing else in it.
    pub fn new() -> (r: Self)
        ensures
            r@ == (Fault { kind: ExifErrorKind::Parse, data: None, msg: None, source: None }),
    {
        Self { kind: ExifErrorKind::Parse, data: None, msg: None, source: None }
    }

    /// An error of the given kind, with nothing else in it.
    pub fn with_kind(kind: ExifErrorKind) -> (r: Self)
        ensures
            r@ == (Fault { kind, data: None, msg: None, source: None }),
    {
        Self { kind, data: None, msg: None, source: None }
    }

    /// The bytes that are printed with the error.
    pub fn data(&self) -> (r: Option<&[u8]>)
        ensures
            match r {
                Some(d) => self@.data == Some(d@),
                None => self@.data is None,
            },
    {
        match &self.data {
            Some(data) => Some(data.as_slice()),
            None => None,
        }
    }

    /// The kind of the error.
    pub fn kind(&self) -> (r: &ExifErrorKind)
        ensures
            *r == self.kind,
    {
        &self.kind
    }

    /// The bytes are not what the format asks for; `msg` says where.
    pub fn parse(msg: &str) -> (r: Self)
        ensures
            r@ == (Fault { kind: ExifErrorKind::Parse, data: None, msg: Some(msg@), source: None }),
    {
        ExifError::with_kind(ExifErrorKind::Parse).with_msg(msg)
    }

    /// The offset of a directory was zero.
    pub fn offset_zero() -> (r: Self)
        ensures
            r@ == (Fault { kind: ExifErrorKind::OffsetIsZero, data: None, msg: None, source: None }),
    {
        ExifError::with_kind(ExifErrorKind::OffsetIsZero)
    }

    /// The same error with `data` as the bytes that are printed with it.
    pub fn with_data(self, data: &[u8]) -> (r: Self)
        ensures
            r@ == (Fault { data: Some(data@), ..self@ }),
    {
        let mut e = self;
        e.data = Some(slice_to_vec(data));
        e
    }

    /// The same error with `msg` as the message that follows the text of its
    /// kind.
    pub fn with_msg(self, msg: &str) -> (r: Self)
        ensures
            r@ == (Fault { msg: Some(msg@), ..self@ }),
    {
        let mut e = self;
        e.msg = Some(String::from_str(msg));
        e
    }

    /// The same error with an error of `nom` as its source, printed after
    /// `nom::`. Where the parser stopped for want of input, the kind becomes
    /// `Truncated`.
    pub fn with_nom_source(self, source: NomError) -> (r: Self)
        ensures
            r@ == (Fault {
                kind: if source.shortfall() is Some {
                    ExifErrorKind::Truncated
                } else {
                    self.kind
                },
                source: Some(seq!["nom::"@ + nom_display(source.shortfall(), source.rejected())]),
                ..self@
            }),
    {
        let text = display(&source);
        let mut e = self;
        if source.is_incomplete() {
            e.kind = ExifErrorKind::Truncated;
        }
        e.source = Some(ContextError::new("nom::", text.as_str()));
        e
    }

    /// The same error with `source` and its own sources as its source, each
    /// printed after `kind`.
    pub fn with_source<T: BaseError>(self, kind: &str, source: T) -> (r: Self)
        ensures
            r@ == (Fault {
                source: Some(super::context::prefixed(kind@, seq![source.message()] + source.causes())),
                ..self@
            }),
    {
        let mut e = self;
        e.source = Some(ContextError::from(kind, &source));
        e
    }

    /// The same error with `source` and its own sources as its source.
    pub fn wrap<T: BaseError>(self, source: T) -> (r: Self)
        ensures
            r@ == (Fault { source: Some(seq![source.message()] + source.causes()), ..self@ }),
    {
        let mut e = self;
        e.source = Some(ContextError::from("", &source));
        proof {
            let all = seq![source.message()] + source.causes();
            assert(super::context::prefixed(""@, all) =~= all) by {
                reveal_strlit("");
                assert forall|i: int| 0 <= i < all.len() implies ""@ + all[i] =~= all[i] by {}
            }
        }
        e
    }
}

impl BaseError for ExifError {
    open spec fn message(&self) -> Seq<char> {
        fault_text(exif_lead(self.kind), self@.msg, self@.data)
    }

    open spec fn causes(&self) -> Seq<Seq<char>> {
        match self@.source {
            Some(chain) => chain,
            None => Seq::empty(),
        }
    }

    fn to_string(&self) -> (r: String) {
        let lead = match self.kind {
            ExifErrorKind::Parse => "Exif parse failed",
            ExifErrorKind::OffsetIsZero => "Exif parse failed: Offset is zero",
            ExifErrorKind::Truncated => "Exif parse failed",
        };
        render(lead, &self.msg, &self.data)
    }

    fn sources(&self) -> (r: Vec<String>) {
        match &self.source {
            Some(chain) => chain.texts(),
            None => {
                let r: Vec<String> = Vec::new();
                assert(crate::text::texts_of(r@) =~= Seq::empty());
                r
            },
        }
    }
}

} // verus!
