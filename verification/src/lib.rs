//! Extraction of JFIF and Exif metadata from JPEG byte streams.
//!
//! The library scans the marker segments at the head of a JPEG image, keeps the
//! payloads that carry metadata, and decodes them: the fixed JFIF header and the
//! chain of TIFF image file directories of an Exif block. Pixel data is never
//! read.

use vstd::prelude::*;

pub mod combinators;
pub mod container;
pub mod errors;
pub mod meta;
pub mod text;

use crate::container::MetaResult;
use crate::meta::meta::meta_of;
use crate::meta::Meta;

verus! {

/// Reads the metadata of the stream `input`.
pub fn parse(input: &[u8]) -> (r: MetaResult<Meta>)
    ensures
        match meta_of(input@) {
            Ok(meta) => r is Ok && r->Ok_0@ == meta,
            Err(fault) => r is Err && r->Err_0@ == fault,
        },
{
    Meta::parse(input)
}

} // verus!
