//! The kinds of container that the library knows.

use vstd::prelude::*;
use vstd::string::*;

verus! {

/// The kind of a container.
#[derive(Debug, Clone, Copy, PartialEq, Eq, Structural)]
pub enum Kind {
    Jpeg,
    Unknown,
}

impl Kind {
    /// The kind of a container that is not known.
    pub fn default() -> (r: Self)
        ensures
            r == Kind::Unknown,
    {
        Kind::Unknown
    }

    /// The name of the kind.
    pub fn to_string(&self) -> (r: String)
        ensures
            r@ == match *self {
                Kind::Jpeg => "Jpeg"@,
                Kind::Unknown => "None"@,
            },
    {
        match self {
            Kind::Jpeg => String::from_str("Jpeg"),
            Kind::Unknown => String::from_str("None"),
        }
    }
}

} // verus!
