//! The errors of the library.
//!
//! Every error has a kind, which tells a short input from a wrong one, an
//! optional message and optional bytes that are printed with it, and an optional
//! source: the texts of the errors that led to it.

use vstd::prelude::*;
use crate::text::{join, joined, texts_of};
use vstd::string::*;

pub mod cast;
pub mod context;
pub mod data;
pub mod exif;
pub mod filetype;
pub mod jfif;
pub mod jpeg;
pub mod meta;
pub mod parse;

pub use cast::CastError;
pub use context::ContextError;
pub use data::{DataError, DataErrorKind};
pub use exif::{ExifError, ExifErrorKind};
pub use filetype::{FileTypeError, FileTypeErrorKind};
pub use jfif::{JfifError, JfifErrorKind};
pub use jpeg::{JpegError, JpegErrorKind};
pub use meta::{MetaCause, MetaError, MetaErrorKind, MetaErrorSource, MetaFault};
pub use parse::{ParseError, ParseErrorKind};

verus! {

/// What an error with a kind, a message, bytes and a source holds, as values
/// of mathematics.
pub struct Fault<K> {
    pub kind: K,
    pub data: Option<Seq<u8>>,
    pub msg: Option<Seq<char>>,
    pub source: Option<Seq<Seq<char>>>,
}

/// The separator between an error and its source in a printed chain.
pub open spec fn arrow() -> Seq<char> {
    " ==> "@
}

/// The bytes of an optional buffer.
pub open spec fn bytes_of(data: Option<Vec<u8>>) -> Option<Seq<u8>> {
    match data {
        Some(d) => Some(d@),
        None => None,
    }
}

/// The characters of an optional string.
pub open spec fn chars_of(msg: Option<String>) -> Option<Seq<char>> {
    match msg {
        Some(m) => Some(m@),
        None => None,
    }
}

/// The texts of an optional source.
pub open spec fn chain_of(source: Option<ContextError>) -> Option<Seq<Seq<char>>> {
    match source {
        Some(s) => Some(s@),
        None => None,
    }
}

/// The text of an error: the text of its kind, then its message, then its
/// bytes in hexadecimal where it holds any.
pub open spec fn fault_text(lead: Seq<char>, msg: Option<Seq<char>>, data: Option<Seq<u8>>) -> Seq<
    char,
> {
    lead + match msg {
        Some(m) => m,
        None => Seq::empty(),
    } + match data {
        Some(d) if d.len() > 0 => seq![' '] + crate::text::hex_list(d, true),
        _ => Seq::empty(),
    }
}

/// The text of an error, from the text of its kind, its message and its bytes.
pub fn render(lead: &str, msg: &Option<String>, data: &Option<Vec<u8>>) -> (r: String)
    ensures
        r@ == fault_text(lead@, chars_of(*msg), bytes_of(*data)),
{
    let mut out = String::from_str(lead);
    match msg {
        Some(m) => {
            out.append(m.as_str());
        },
        None => {},
    }
    let ghost mid = out@;
    match data {
        Some(d) => {
            if d.len() > 0 {
                out.push(' ');
                crate::text::push_hex_list(&mut out, d.as_slice(), true);
                assert(out@ =~= mid + (seq![' '] + crate::text::hex_list(d@, true)));
            }
        },
        None => {},
    }
    proof {
        assert(out@ =~= fault_text(lead@, chars_of(*msg), bytes_of(*data)));
    }
    out
}

/// An error that prints itself and the chain of errors that led to it.
pub trait BaseError {
    /// The text of the error itself.
    spec fn message(&self) -> Seq<char>;

    /// The texts of the errors that led to it, the nearest first.
    spec fn causes(&self) -> Seq<Seq<char>>;

    /// The text of the error itself.
    fn to_string(&self) -> (r: String)
        ensures
            r@ == self.message(),
    ;

    /// The texts of the errors that led to it, the nearest first.
    fn sources(&self) -> (r: Vec<String>)
        ensures
            texts_of(r@) == self.causes(),
    ;

    /// The text of the error, then the texts of its sources.
    fn all_to_string(&self) -> (r: String)
        ensures
            r@ == self.message() + arrow() + joined(self.causes(), arrow()),
    {
        let mut out = self.to_string();
        out.append(" ==> ");
        let tail = self.source_to_string();
        out.append(tail.as_str());
        out
    }

    /// The texts of the sources, the nearest first, with an arrow between each
    /// two.
    fn source_to_string(&self) -> (r: String)
        ensures
            r@ == joined(self.causes(), arrow()),
    {
        let chain = self.sources();
        join(&chain, " ==> ")
    }
}

} // verus!
