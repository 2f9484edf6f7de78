//! Errors of the check of a stream's first bytes.

use vstd::prelude::*;
use vstd::slice::slice_to_vec;
use vstd::string::*;
use super::jpeg::io_text;
use super::BaseError;
use crate::text::{hex_list, push_hex_list, texts_of};

verus! {

/// What went wrong while the first bytes of a stream were looked at.
#[derive(Debug)]
#[non_exhaustive]
pub enum ParseErrorKind {
    /// The source of the bytes failed; holds the text of the I/O error.
    Read(String),
    /// The stream does not start as any known container does.
    UnknownHeader,
    /// A marker of a JPEG stream is not one that the library knows.
    InvalidJpegMarker,
}

/// An error of the check of a stream's first bytes.
#[derive(Debug)]
#[non_exhaustive]
pub struct ParseError {
    pub data: Vec<u8>,
    pub kind: ParseErrorKind,
}

impl ParseError {
    /// The stream holds the marker `data`, which the library does not know. The
    /// error has the kind of an unknown header.
    pub fn invalid_jpeg_marker(data: &[u8]) -> (r: Self)
        ensures
            r.data@ == data@,
            r.kind is UnknownHeader,
    {
        Self { data: slice_to_vec(data), kind: ParseErrorKind::UnknownHeader }
    }

    /// The stream starts with `data`, which no known container starts with.
    pub fn unknown_header(data: &[u8]) -> (r: Self)
        ensures
            r.data@ == data@,
            r.kind is UnknownHeader,
    {
        Self { data: slice_to_vec(data), kind: ParseErrorKind::UnknownHeader }
    }

    /// The error of a failed read, from the text of the I/O error: it holds
    /// that text and no bytes.
    pub fn read_failed(text: String) -> (r: Self)
        ensures
            r.data@.len() == 0,
            r.kind is Read,
            r.kind->Read_0@ == text@,
    {
        Self { data: Vec::new(), kind: ParseErrorKind::Read(text) }
    }

    /// The error for an I/O error: a failed read that holds its text.
    pub fn read(e: std::io::Error) -> (r: Self)
        ensures
            r.data@.len() == 0,
            r.kind is Read,
    {
        Self::read_failed(io_text(&e))
    }
}

impl BaseError for ParseError {
    open spec fn message(&self) -> Seq<char> {
        match self.kind {
            ParseErrorKind::InvalidJpegMarker => "invalid jpeg marker "@ + hex_list(self.data@, false),
            ParseErrorKind::Read(text) => "read error: "@ + text@,
            ParseErrorKind::UnknownHeader => "unknown header "@ + hex_list(self.data@, false),
        }
    }

    open spec fn causes(&self) -> Seq<Seq<char>> {
        match self.kind {
            ParseErrorKind::Read(text) => seq![text@],
            _ => Seq::empty(),
        }
    }

    fn to_string(&self) -> (r: String) {
        match &self.kind {
            ParseErrorKind::InvalidJpegMarker => {
                let mut out = String::from_str("invalid jpeg marker ");
                push_hex_list(&mut out, self.data.as_slice(), false);
                out
            },
            ParseErrorKind::Read(text) => {
                let mut out = String::from_str("read error: ");
                out.append(text.as_str());
                out
            },
            ParseErrorKind::UnknownHeader => {
                let mut out = String::from_str("unknown header ");
                push_hex_list(&mut out, self.data.as_slice(), false);
                out
            },
        }
    }

    fn sources(&self) -> (r: Vec<String>) {
        let mut r: Vec<String> = Vec::new();
        match &self.kind {
            ParseErrorKind::Read(text) => {
                r.push(text.clone());
                assert(texts_of(r@) =~= seq![text@]);
            },
            _ => {
                assert(texts_of(r@) =~= Seq::empty());
            },
        }
        r
    }
}

} // verus!
