//! The error of a file of an unknown type.

use vstd::prelude::*;
use vstd::string::*;
use super::{BaseError, MetaError};
use crate::text::texts_of;

verus! {

/// Why the type of a file is not known.
#[derive(Debug)]
#[non_exhaustive]
pub enum FileTypeErrorKind {
    /// Its metadata could not be read.
    Parse(MetaError),
}

/// The type of the file at `path` is not known.
#[derive(Debug)]
#[non_exhaustive]
pub struct FileTypeError {
    pub path: String,
    pub kind: FileTypeErrorKind,
}

impl FileTypeError {
    /// The error for the file at `path`, whose metadata gave `source`.
    pub fn new(path: &str, source: MetaError) -> (r: Self)
        ensures
            r.path@ == path@,
            r.kind == FileTypeErrorKind::Parse(source),
    {
        Self { path: String::from_str(path), kind: FileTypeErrorKind::Parse(source) }
    }
}

impl BaseError for FileTypeError {
    open spec fn message(&self) -> Seq<char> {
        "unknown file type "@ + self.path@
    }

    open spec fn causes(&self) -> Seq<Seq<char>> {
        match self.kind {
            FileTypeErrorKind::Parse(e) => seq![e.message()] + e.causes(),
        }
    }

    fn to_string(&self) -> (r: String) {
        let mut out = String::from_str("unknown file type ");
        out.append(self.path.as_str());
        out
    }

    fn sources(&self) -> (r: Vec<String>) {
        match &self.kind {
            FileTypeErrorKind::Parse(e) => {
                let mut head = Vec::new();
                head.push(e.to_string());
                let mut tail = e.sources();
                let ghost h = head@;
                let ghost t = tail@;
                head.append(&mut tail);
                proof {
                    assert(head@ =~= h + t);
                    assert(texts_of(head@) =~= seq![e.message()] + texts_of(t));
                }
                head
            },
        }
    }
}

} // verus!
