//! Four-character box type codes.
//!
//! A box type is a stable mapping from raw 4-byte codes to a closed set of
//! known semantic kinds, plus an unknown fallback that preserves the original
//! code bytes, so that unrecognized boxes round-trip losslessly instead of
//! failing.

use vstd::prelude::*;

verus! {

/// The 4-byte code of the color-information box, the bytes of `"colr"`.
pub const COLR_CODE: u32 = 0x636f_6c72;

/// The semantic kind of a box, or the raw code of an unrecognized one.
#[derive(Clone, Copy, Debug, PartialEq, Eq, Structural)]
pub enum BoxType {
    /// The color-information box, code `"colr"`.
    ColrBox,
    /// Any other box; the original 4-byte code is preserved verbatim.
    UnknownBox(u32),
}

/// The 4-byte code that `t` is written as.
pub open spec fn code_of(t: BoxType) -> u32 {
    match t {
        BoxType::ColrBox => COLR_CODE,
        BoxType::UnknownBox(c) => c,
    }
}

/// The box type that the 4-byte code `c` names.
pub open spec fn type_of_code(c: u32) -> BoxType {
    if c == COLR_CODE {
        BoxType::ColrBox
    } else {
        BoxType::UnknownBox(c)
    }
}

/// Whether `t` is the type that its own code decodes back to. Every decoded
/// type is canonical; the one non-canonical value is `UnknownBox` carrying
/// the code of a known kind.
pub open spec fn is_canonical(t: BoxType) -> bool {
    match t {
        BoxType::ColrBox => true,
        BoxType::UnknownBox(c) => c != COLR_CODE,
    }
}

impl BoxType {
    /// Resolve a raw 4-byte code to its box type.
    pub fn from_code(c: u32) -> (r: BoxType)
        ensures
            r == type_of_code(c),
            is_canonical(r),
    {
        if c == COLR_CODE {
            BoxType::ColrBox
        } else {
            BoxType::UnknownBox(c)
        }
    }

    /// The raw 4-byte code this type is written as.
    pub fn to_code(&self) -> (r: u32)
        ensures
            r == code_of(*self),
    {
        match *self {
            BoxType::ColrBox => COLR_CODE,
            BoxType::UnknownBox(c) => c,
        }
    }
}

/// Unknown codes are preserved losslessly: writing out the type that any
/// code resolves to reproduces that code exactly.
pub proof fn lemma_code_round_trip(c: u32)
    ensures
        code_of(type_of_code(c)) == c,
{
}

/// Encoding a canonical type and resolving the code again yields the same
/// type; in particular a known kind always reproduces its original code.
pub proof fn lemma_type_round_trip(t: BoxType)
    requires
        is_canonical(t),
    ensures
        type_of_code(code_of(t)) == t,
{
}

} // verus!
