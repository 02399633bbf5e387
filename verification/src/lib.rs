//! Binary codec layer for ISO-base-media-style container files: the
//! size-prefixed, four-character-code "box" model used by MP4-family formats.
//!
//! The crate provides the generic box framework — header encoding with the
//! extended-size escape, the four-byte type-code mapping with a lossless
//! unknown fallback, and the read/write contract every concrete box type
//! satisfies — together with one fully worked leaf box, the
//! color-information box.

pub mod boxtype;
pub mod bytes;
pub mod colr;
pub mod error;
pub mod header;

pub use boxtype::BoxType;
pub use bytes::{ByteSink, ByteSource};
pub use colr::ColrBox;
pub use error::BoxError;
pub use header::BoxHeader;
