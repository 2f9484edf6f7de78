//! The metadata that the library decodes.

pub mod exif;
pub mod jfif;
pub mod kind;
pub mod laws;
pub mod meta;
pub mod metadata;

pub use exif::Exif;
pub use jfif::{DensityUnit, Jfif};
pub use kind::Kind;
pub use meta::Meta;
pub use metadata::{MetaData, MetaDataKind};
