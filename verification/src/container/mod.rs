//! The containers that metadata is read from.

pub mod container;
pub mod jpeg;

pub use container::{Container, MetaResult};
pub use jpeg::Jpeg;
