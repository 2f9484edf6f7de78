//! The error of a failed downcast.

use vstd::prelude::*;
use vstd::string::*;
use super::BaseError;

verus! {

/// A value is not of the type that was asked for; `msg` names the type.
#[derive(Debug)]
#[non_exhaustive]
pub struct CastError {
    pub msg: String,
}

impl CastError {
    /// The error for a failed downcast to what `msg` names.
    pub fn new(msg: &str) -> (r: Self)
        ensures
            r.msg@ == msg@,
    {
        Self { msg: String::from_str(msg) }
    }
}

impl BaseError for CastError {
    open spec fn message(&self) -> Seq<char> {
        "downcast failed for "@ + self.msg@
    }

    open spec fn causes(&self) -> Seq<Seq<char>> {
        Seq::empty()
    }

    fn to_string(&self) -> (r: String) {
        let mut out = String::from_str("downcast failed for ");
        out.append(self.msg.as_str());
        out
    }

    fn sources(&self) -> (r: Vec<String>) {
        let r: Vec<String> = Vec::new();
        assert(crate::text::texts_of(r@) =~= Seq::empty());
        r
    }
}

} // verus!
