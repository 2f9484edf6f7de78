//! JPEG streams: markers, segments, and the scan for the segments that carry
//! metadata.

pub mod jpeg;
pub mod laws;
pub mod marker;
pub mod scanner;
pub mod segment;

pub use jpeg::Jpeg;
pub use scanner::{Progress, Scanner};
pub use segment::Segment;
