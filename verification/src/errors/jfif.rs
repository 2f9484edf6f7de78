//! Errors of the JFIF decoder.

use vstd::prelude::*;
use vstd::slice::slice_to_vec;
use vstd::string::*;
use super::{bytes_of, chain_of, chars_of, fault_text, render, BaseError, ContextError, Fault};
use crate::combinators::{display, nom_display, NomError};

verus! {

/// What went wrong while a JFIF block was decoded.
#[derive(Debug, Clone, Copy, PartialEq, Eq, Structural)]
#[non_exhaustive]
pub enum JfifErrorKind {
    /// The bytes are not what the format asks for.
    Parse,
    /// The input ended before a step was done. It is printed as a failed
    /// parse; the source tells how many bytes were missing.
    Truncated,
}

/// An error of the JFIF decoder.
#[derive(Debug)]
#[non_exhaustive]
pub struct JfifError {
    pub kind: JfifErrorKind,
    pub data: Option<Vec<u8>>,
    pub msg: Option<String>,
    pub source: Option<ContextError>,
}

/// The text that stands for a kind at the start of a printed error.
pub open spec fn jfif_lead(kind: JfifErrorKind) -> Seq<char> {
    match kind {
        JfifErrorKind::Parse => "JFIF parse failed"@,
        JfifErrorKind::Truncated => "JFIF parse failed"@,
    }
}

impl View for JfifError {
    type V = Fault<JfifErrorKind>;

    open spec fn view(&self) -> Fault<JfifErrorKind> {
        Fault {
            kind: self.kind,
            data: bytes_of(self.data),
            msg: chars_of(self.msg),
            source: chain_of(self.source),
        }
    }
}

impl JfifError {
    /// An error of the given kind, with nothing else in it.
    pub fn new(kind: JfifErrorKind) -> (r: Self)
        ensures
            r@ == (Fault { kind, data: None, msg: None, source: None }),
    {
        Self { kind, data: None, msg: None, source: None }
    }

    /// An error of the given kind, with nothing else in it.
    pub fn with_kind(kind: JfifErrorKind) -> (r: Self)
        ensures
            r@ == (Fault { kind, data: None, msg: None, source: None }),
    {
        Self { kind, data: None, msg: None, source: None }
    }

    /// The bytes that are printed with the error.
    pub fn data(&self) -> (r: Option<&[u8]>)
        ensures
            match r {
                Some(d) => self@.data == Some(d@),
                None => self@.data is None,
            },
    {
        match &self.data {
            Some(data) => Some(data.as_slice()),
            None => None,
        }
    }

    /// The kind of the error.
    pub fn kind(&self) -> (r: &JfifErrorKind)
        ensures
            *r == self.kind,
    {
        &self.kind
    }

    /// The bytes are not what the format asks for; `msg` says where.
    pub fn parse(msg: &str) -> (r: Self)
        ensures
            r@ == (Fault { kind: JfifErrorKind::Parse, data: None, msg: Some(msg@), source: None }),
    {
        JfifError::with_kind(JfifErrorKind::Parse).with_msg(msg)
    }

    /// The same error with `data` as the bytes that are printed with it.
    pub fn with_data(self, data: &[u8]) -> (r: Self)
        ensures
            r@ == (Fault { data: Some(data@), ..self@ }),
    {
        let mut e = self;
        e.data = Some(slice_to_vec(data));
        e
    }

    /// The same error with `msg` as the message that follows the text of its
    /// kind.
    pub fn with_msg(self, msg: &str) -> (r: Self)
        ensures
            r@ == (Fault { msg: Some(msg@), ..self@ }),
    {
        let mut e = self;
        e.msg = Some(String::from_str(msg));
        e
    }

    /// The same error with an error of `nom` as its source, printed after
    /// `nom::`. Where the parser stopped for want of input, the kind becomes
    /// `Truncated`.
    pub fn with_nom_source(self, source: NomError) -> (r: Self)
        ensures
            r@ == (Fault {
                kind: if source.shortfall() is Some {
                    JfifErrorKind::Truncated
                } else {
                    self.kind
                },
                source: Some(seq!["nom::"@ + nom_display(source.shortfall(), source.rejected())]),
                ..self@
            }),
    {
        let text = display(&source);
        let mut e = self;
        if source.is_incomplete() {
            e.kind = JfifErrorKind::Truncated;
        }
        e.source = Some(ContextError::new("nom::", text.as_str()));
        e
    }

    /// The same error with `source` and its own sources as its source, each
    /// printed after `kind`.
    pub fn with_source<T: BaseError>(self, kind: &str, source: T) -> (r: Self)
        ensures
            r@ == (Fault {
                source: Some(super::context::prefixed(kind@, seq![source.message()] + source.causes())),
                ..self@
            }),
    {
        let mut e = self;
        e.source = Some(ContextError::from(kind, &source));
        e
    }

    /// The same error with `source` and its own sources as its source.
    pub fn wrap<T: BaseError>(self, source: T) -> (r: Self)
        ensures
            r@ == (Fault { source: Some(seq![source.message()] + source.causes()), ..self@ }),
    {
        let mut e = self;
        e.source = Some(ContextError::from("", &source));
        proof {
            let all = seq![source.message()] + source.causes();
            assert(super::context::prefixed(""@, all) =~= all) by {
                reveal_strlit("");
                assert forall|i: int| 0 <= i < all.len() implies ""@ + all[i] =~= all[i] by {}
            }
        }
        e
    }
}

impl BaseError for JfifError {
    open spec fn message(&self) -> Seq<char> {
        fault_text(jfif_lead(self.kind), self@.msg, self@.data)
    }

    open spec fn causes(&self) -> Seq<Seq<char>> {
        match self@.source {
            Some(chain) => chain,
            None => Seq::empty(),
        }
    }

    fn to_string(&self) -> (r: String) {
        let lead = match self.kind {
            JfifErrorKind::Parse => "JFIF parse failed",
            JfifErrorKind::Truncated => "JFIF parse failed",
        };
        render(lead, &self.msg, &self.data)
    }

    fn sources(&self) -> (r: Vec<String>) {
        match &self.source {
            Some(chain) => chain.texts(),
            None => {
                let r: Vec<String> = Vec::new();
                assert(crate::text::texts_of(r@) =~= Seq::empty());
                r
            },
        }
    }
}

} // verus!
