//! The kinds of metadata that the library knows.

use vstd::prelude::*;
use crate::meta::{Exif, Jfif};

verus! {

/// The kind of a block of metadata.
#[derive(Debug, Clone, Copy, PartialEq, Eq, Structural)]
pub enum MetaDataKind {
    Exif,
    Jfif,
    Spiff,
}

/// A block of metadata that tells its kind.
pub trait MetaData {
    /// The kind of the block.
    spec fn kind_of(&self) -> MetaDataKind;

    /// The kind of the block.
    fn kind(&self) -> (r: MetaDataKind)
        ensures
            r == self.kind_of(),
    ;
}

impl MetaData for Exif {
    open spec fn kind_of(&self) -> MetaDataKind {
        MetaDataKind::Exif
    }

    fn kind(&self) -> (r: MetaDataKind) {
        MetaDataKind::Exif
    }
}

impl MetaData for Jfif {
    open spec fn kind_of(&self) -> MetaDataKind {
        MetaDataKind::Jfif
    }

    fn kind(&self) -> (r: MetaDataKind) {
        MetaDataKind::Jfif
    }
}

} // verus!
