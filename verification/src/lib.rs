//! Streaming buffer lifecycle of a memory-mapped video device: format
//! negotiation, buffer pool construction and the queue/dequeue protocol,
//! as verified state transitions over plain values.
//!
//! The library issues no command itself. Whoever drives the device hands
//! each answer of the driver to the library, which says what state follows
//! and what is to be done next.

pub mod capture;
pub mod colorspace;
pub mod device;
pub mod enumerate;
pub mod error;
pub mod field_order;
pub mod fourcc;
pub mod pool;
pub mod quantization;
pub mod stream;

pub use crate::colorspace::Colorspace;
pub use crate::field_order::FieldOrder;
pub use crate::fourcc::FourCC;
pub use crate::quantization::Quantization;
