//! Error and diagnostics model for a relaxed-JSON (Hjson) reader/writer.
//!
//! Every failure that can occur while decoding or encoding text is
//! represented by one unified [`Error`] type: a syntax failure carrying a
//! closed [`ErrorCode`] taxonomy and a source position, or a wrapped I/O,
//! UTF-8, or integer-parsing failure. The crate states and verifies the
//! conversion and rendering contracts for these values.

pub mod code;
pub mod decimal;
pub mod error;

pub use code::ErrorCode;
pub use error::Cause;
pub use error::Error;
