//! The decoder of Exif blocks: a TIFF header and a chain of image file
//! directories.

pub mod endian;
pub mod entry;
pub mod exif;
pub mod field;
pub mod format;
pub mod ifd;
pub mod offsets;
pub mod render;
pub mod stability;
pub mod symmetry;
pub mod tag;
pub mod value;
pub mod wire;

pub use endian::{Endian, BIG_ENDIAN, LITTLE_ENDIAN};
pub use entry::IfdEntry;
pub use exif::{Exif, EXIF_IDENTIFIER, TIFF_VERSION};
pub use field::IfdField;
pub use ifd::Ifd;
pub use tag::Tag;
pub use wire::ExifResult;
