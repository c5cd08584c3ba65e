//! Formats of single-planar streams.

pub mod format;

pub use self::format::Format;
pub use self::format::PixFormat;
