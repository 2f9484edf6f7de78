//! The bare header of a field, before its tag is looked up.

use vstd::prelude::*;
use crate::meta::exif::format::{data_length, length_of};

verus! {

/// The header of a field as the block holds it: the number of its tag, its
/// data format, the count of its components, and the offset and the data
/// once they are known.
#[derive(Debug, Clone)]
pub struct IfdEntry {
    pub tag: u16,
    pub format: u16,
    pub components: u32,
    pub offset: Option<u32>,
    pub data: Option<Vec<u8>>,
}

impl IfdEntry {
    /// A header of zeros.
    pub fn default() -> (r: Self)
        ensures
            r.tag == 0,
            r.format == 0,
            r.components == 0,
            r.offset is None,
            r.data is None,
    {
        Self { tag: 0, format: 0, components: 0, offset: None, data: None }
    }

    /// A header with the given tag, format and count of components, and no
    /// data yet.
    pub fn new(tag: u16, format: u16, components: u32) -> (r: Self)
        ensures
            r.tag == tag,
            r.format == format,
            r.components == components,
            r.offset is None,
            r.data is None,
    {
        Self { tag, format, components, offset: None, data: None }
    }

    /// The bytes that the data takes: the count of components times the size
    /// of one, and zero for a format that is not known.
    pub fn data_length(&self) -> (r: u64)
        ensures
            r == data_length(self.format, self.components),
    {
        length_of(self.format, self.components)
    }
}

} // verus!
