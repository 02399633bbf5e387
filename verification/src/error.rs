//! The failure taxonomy of the box codec.

use vstd::prelude::*;

verus! {

/// Everything that can go wrong while reading or writing a box.
///
/// All failures are surfaced to the immediate caller; nothing is retried
/// internally, since the stream position has already advanced by the time a
/// failure is observed.
#[derive(Clone, Copy, Debug, PartialEq, Eq, Structural)]
pub enum BoxError {
    /// Fewer than the 8 (or, for the extended form, 16) bytes of a box header
    /// were available where a header was expected.
    TruncatedHeader,
    /// A declared box size smaller than the minimum legal header + payload
    /// length for the resolved type.
    InvalidDeclaredSize,
    /// The byte source was exhausted in the middle of a payload field.
    UnexpectedEndOfPayload,
    /// The underlying byte sink rejected a write.
    SinkWriteFailure,
    /// A writer produced a byte count different from the value's reported
    /// encoded size; an internal-consistency failure, always fatal.
    SizeMismatch,
}

} // verus!
