//! Errors of the conversion of raw bytes.

use vstd::prelude::*;
use vstd::slice::slice_to_vec;
use vstd::string::*;
use super::{bytes_of, chain_of, chars_of, fault_text, render, BaseError, ContextError, Fault};

verus! {

/// What went wrong while raw bytes were converted.
#[derive(Debug, Clone, Copy, PartialEq, Eq, Structural)]
#[non_exhaustive]
pub enum DataErrorKind {
    /// The bytes are not text.
    Ascii,
    /// The value is not of the type that was asked for.
    Downcast,
}

/// An error of the conversion of raw bytes.
#[derive(Debug)]
#[non_exhaustive]
pub struct DataError {
    pub kind: DataErrorKind,
    pub data: Option<Vec<u8>>,
    pub msg: Option<String>,
    pub source: Option<ContextError>,
}

/// The text that stands for a kind at the start of a printed error.
pub open spec fn data_lead(kind: DataErrorKind) -> Seq<char> {
    match kind {
        DataErrorKind::Ascii => "ascii conversion failed"@,
        DataErrorKind::Downcast => "downcast failed"@,
    }
}

impl View for DataError {
    type V = Fault<DataErrorKind>;

    open spec fn view(&self) -> Fault<DataErrorKind> {
        Fault {
            kind: self.kind,
            data: bytes_of(self.data),
            msg: chars_of(self.msg),
            source: chain_of(self.source),
        }
    }
}

impl DataError {
    /// An error of the given kind, with nothing else in it.
    pub fn new(kind: DataErrorKind) -> (r: Self)
        ensures
            r@ == (Fault { kind, data: None, msg: None, source: None }),
    {
        Self { kind, data: None, msg: None, source: None }
    }

    /// The same error with `msg` as the message that follows the text of its
    /// kind.
    pub fn with_msg(self, msg: &str) -> (r: Self)
        ensures
            r@ == (Fault { msg: Some(msg@), ..self@ }),
    {
        let mut e = self;
        e.msg = Some(String::from_str(msg));
        e
    }

    /// The same error with `data` as the bytes that are printed with it.
    pub fn with_data(self, data: &[u8]) -> (r: Self)
        ensures
            r@ == (Fault { data: Some(data@), ..self@ }),
    {
        let mut e = self;
        e.data = Some(slice_to_vec(data));
        e
    }
}

impl BaseError for DataError {
    open spec fn message(&self) -> Seq<char> {
        fault_text(data_lead(self.kind), self@.msg, self@.data)
    }

    open spec fn causes(&self) -> Seq<Seq<char>> {
        match self@.source {
            Some(chain) => chain,
            None => Seq::empty(),
        }
    }

    fn to_string(&self) -> (r: String) {
        let lead = match self.kind {
            DataErrorKind::Ascii => "ascii conversion failed",
            DataErrorKind::Downcast => "downcast failed",
        };
        render(lead, &self.msg, &self.data)
    }

    fn sources(&self) -> (r: Vec<String>) {
        match &self.source {
            Some(chain) => chain.texts(),
            None => {
                let r: Vec<String> = Vec::new();
                assert(crate::text::texts_of(r@) =~= Seq::empty());
                r
            },
        }
    }
}

} // verus!
