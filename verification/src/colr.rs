//! The color-information box: the fully worked leaf box of the framework.
//!
//! Its payload is four fixed-width big-endian integer fields — a 32-bit
//! color parameter type and three 16-bit coefficient fields — read and
//! written in a single straight-line pass, with no branching on field
//! values. Field values are passed through uninterpreted: an unrecognized
//! color parameter type is accepted and preserved verbatim, so that
//! unfamiliar but structurally valid data round-trips.

use vstd::prelude::*;

use crate::boxtype::{type_of_code, BoxType, COLR_CODE};
use crate::bytes::{
    be16_of, be16_val, be32_of, be32_val, lemma_be16_round_trip, lemma_be32_round_trip, ByteSink,
    ByteSource,
};
use crate::error::BoxError;
use crate::header::{spec_header_bytes, spec_header_decode, BoxHeader};

verus! {

/// The total encoded size of a color-information box, header included. The
/// payload shape never varies, so this is a constant, not a function of the
/// field values.
pub const COLR_BOX_SIZE: u64 = 18;

/// The fixed length of the payload that follows the 8-byte header.
pub const COLR_PAYLOAD_SIZE: u64 = 10;

/// The recognized color parameter type `"nclc"`.
pub const COLOR_PARAMETER_NCLC: u32 = 0x6e63_6c63;

/// The recognized color parameter type `"prof"`.
pub const COLOR_PARAMETER_PROF: u32 = 0x7072_7066;

/// The sentinel color parameter type for "unknown/unset".
pub const COLOR_PARAMETER_UNKNOWN: u32 = 0;

/// The color-information box. The color parameter type is one of the
/// recognized codes or any other 32-bit value, which is preserved without
/// interpretation; the three coefficient fields are opaque 16-bit values.
#[derive(Clone, Copy, Debug, PartialEq, Eq, Structural)]
pub struct ColrBox {
    pub color_parameter_type: u32,
    pub color_primaries: u16,
    pub transfer_characteristics: u16,
    pub matrix_coefficients: u16,
}

/// The default color-information box: `"nclc"`, with every coefficient
/// field 1.
pub open spec fn spec_default_colr() -> ColrBox {
    ColrBox {
        color_parameter_type: COLOR_PARAMETER_NCLC,
        color_primaries: 1,
        transfer_characteristics: 1,
        matrix_coefficients: 1,
    }
}

/// The 10 payload bytes of `b`: the four fields in fixed order, each as a
/// fixed-width big-endian unsigned integer, with no length prefixes and no
/// padding.
pub open spec fn spec_colr_payload(b: ColrBox) -> Seq<u8> {
    be32_of(b.color_parameter_type) + be16_of(b.color_primaries) + be16_of(
        b.transfer_characteristics,
    ) + be16_of(b.matrix_coefficients)
}

/// The full 18-byte encoding of `b`: an ordinary 8-byte header declaring
/// size 18 and type `"colr"`, then the payload.
pub open spec fn spec_colr_bytes(b: ColrBox) -> Seq<u8> {
    spec_header_bytes(BoxType::ColrBox, COLR_BOX_SIZE) + spec_colr_payload(b)
}

/// The box whose four fields the first 10 bytes of `s` carry.
pub open spec fn spec_colr_decode_payload(s: Seq<u8>) -> ColrBox
    recommends
        s.len() >= 10,
{
    ColrBox {
        color_parameter_type: be32_val(s) as u32,
        color_primaries: be16_val(s.subrange(4, 6)) as u16,
        transfer_characteristics: be16_val(s.subrange(6, 8)) as u16,
        matrix_coefficients: be16_val(s.subrange(8, 10)) as u16,
    }
}

impl ColrBox {
    /// A new color-information box with the default field values.
    pub fn new() -> (r: ColrBox)
        ensures
            r == spec_default_colr(),
    {
        ColrBox {
            color_parameter_type: COLOR_PARAMETER_NCLC,
            color_primaries: 1,
            transfer_characteristics: 1,
            matrix_coefficients: 1,
        }
    }

    /// The type of this box.
    pub fn get_type(&self) -> (r: BoxType)
        ensures
            r == BoxType::ColrBox,
    {
        BoxType::ColrBox
    }

    /// The exact number of bytes this box occupies when encoded, header
    /// included: always 18, regardless of the field values.
    pub fn get_size(&self) -> (r: u64)
        ensures
            r == COLR_BOX_SIZE,
    {
        COLR_BOX_SIZE
    }

    /// The type of this box, under the uniform box contract.
    pub fn box_type(&self) -> (r: BoxType)
        ensures
            r == BoxType::ColrBox,
    {
        self.get_type()
    }

    /// The exact encoded size of this box, under the uniform box contract.
    /// Side-effect-free, and exactly what `write_box` writes.
    pub fn box_size(&self) -> (r: u64)
        ensures
            r == COLR_BOX_SIZE,
    {
        self.get_size()
    }

    /// Decode the payload of a color-information box. The cursor must stand
    /// on the first payload byte, immediately after the box header; `size`
    /// is the total size that header declared, accepted for validation only.
    /// A declared size below the minimum 18 is rejected; a source with fewer
    /// than 10 payload bytes left fails as exhausted mid-payload; otherwise
    /// exactly 10 bytes are read, whatever their values. On any failure the
    /// cursor is left in place.
    pub fn read_box(src: &mut ByteSource, size: u64) -> (r: Result<ColrBox, BoxError>)
        requires
            old(src).wf(),
        ensures
            final(src).wf(),
            final(src).bytes() == old(src).bytes(),
            size < COLR_BOX_SIZE ==> r == Err::<ColrBox, BoxError>(BoxError::InvalidDeclaredSize)
                && final(src).position_spec() == old(src).position_spec(),
            size >= COLR_BOX_SIZE && old(src).remaining_spec() < COLR_PAYLOAD_SIZE ==> r == Err::<
                ColrBox,
                BoxError,
            >(BoxError::UnexpectedEndOfPayload)
                && final(src).position_spec() == old(src).position_spec(),
            size >= COLR_BOX_SIZE && old(src).remaining_spec() >= COLR_PAYLOAD_SIZE ==> r == Ok::<
                ColrBox,
                BoxError,
            >(spec_colr_decode_payload(old(src).suffix()))
                && final(src).position_spec() == old(src).position_spec() + COLR_PAYLOAD_SIZE,
    {
        if size < COLR_BOX_SIZE {
            return Err(BoxError::InvalidDeclaredSize);
        }
        if (src.remaining() as u64) < COLR_PAYLOAD_SIZE {
            return Err(BoxError::UnexpectedEndOfPayload);
        }
        let ghost s = old(src).suffix();
        let color_parameter_type = match src.read_u32() {
            Some(v) => v,
            None => {
                return Err(BoxError::UnexpectedEndOfPayload);
            },
        };
        let ghost m1 = *src;
        let color_primaries = match src.read_u16() {
            Some(v) => v,
            None => {
                return Err(BoxError::UnexpectedEndOfPayload);
            },
        };
        let ghost m2 = *src;
        let transfer_characteristics = match src.read_u16() {
            Some(v) => v,
            None => {
                return Err(BoxError::UnexpectedEndOfPayload);
            },
        };
        let ghost m3 = *src;
        let matrix_coefficients = match src.read_u16() {
            Some(v) => v,
            None => {
                return Err(BoxError::UnexpectedEndOfPayload);
            },
        };
        proof {
            assert(be16_val(s.subrange(4, 6)) == be16_val(m1.suffix())) by {
                assert(s.subrange(4, 6)[0] == m1.suffix()[0]);
                assert(s.subrange(4, 6)[1] == m1.suffix()[1]);
            }
            assert(be16_val(s.subrange(6, 8)) == be16_val(m2.suffix())) by {
                assert(s.subrange(6, 8)[0] == m2.suffix()[0]);
                assert(s.subrange(6, 8)[1] == m2.suffix()[1]);
            }
            assert(be16_val(s.subrange(8, 10)) == be16_val(m3.suffix())) by {
                assert(s.subrange(8, 10)[0] == m3.suffix()[0]);
                assert(s.subrange(8, 10)[1] == m3.suffix()[1]);
            }
        }
        Ok(
            ColrBox {
                color_parameter_type,
                color_primaries,
                transfer_characteristics,
                matrix_coefficients,
            },
        )
    }

    /// Encode this box: header first, then the four payload fields, in the
    /// same fixed order and representation the reader expects. Always
    /// succeeds, appending exactly the 18 bytes this box reports as its
    /// size, and returns that byte count.
    pub fn write_box(&self, sink: &mut ByteSink) -> (r: Result<u64, BoxError>)
        ensures
            r == Ok::<u64, BoxError>(COLR_BOX_SIZE),
            final(sink)@ == old(sink)@ + spec_colr_bytes(*self),
            spec_colr_bytes(*self).len() == COLR_BOX_SIZE,
    {
        let size = self.box_size();
        let header = BoxHeader::new(self.box_type(), size);
        match header.write(sink) {
            Ok(_) => (),
            Err(e) => {
                return Err(e);
            },
        };
        sink.write_u32(self.color_parameter_type);
        sink.write_u16(self.color_primaries);
        sink.write_u16(self.transfer_characteristics);
        sink.write_u16(self.matrix_coefficients);
        proof {
            assert(sink@ =~= old(sink)@ + spec_colr_bytes(*self));
        }
        Ok(COLR_BOX_SIZE)
    }
}

impl Default for ColrBox {
    /// The default color-information box: `"nclc"`, with every coefficient
    /// field 1.
    fn default() -> (r: ColrBox)
        ensures
            r == spec_default_colr(),
    {
        ColrBox::new()
    }
}

/// Round-trip law for the color-information box, for every field
/// combination: the encoding is exactly as long as the box reports its size
/// to be; its header decodes back to the colr type, declared size 18, and an
/// 8-byte header; and decoding the payload that follows the header restores
/// the original box, field for field.
pub proof fn lemma_colr_round_trip(b: ColrBox)
    ensures
        spec_colr_bytes(b).len() == COLR_BOX_SIZE,
        spec_header_decode(spec_colr_bytes(b)) == Ok::<(BoxType, u64, int), BoxError>(
            (BoxType::ColrBox, COLR_BOX_SIZE, 8),
        ),
        spec_colr_decode_payload(spec_colr_bytes(b).subrange(8, 18)) == b,
{
    let s = spec_colr_bytes(b);
    let hdr_size = be32_of(COLR_BOX_SIZE as u32);
    let hdr_code = be32_of(COLR_CODE);
    lemma_be32_round_trip(COLR_BOX_SIZE as u32);
    lemma_be32_round_trip(COLR_CODE);
    assert(be32_val(s) == COLR_BOX_SIZE) by {
        assert(s[0] == hdr_size[0]);
        assert(s[1] == hdr_size[1]);
        assert(s[2] == hdr_size[2]);
        assert(s[3] == hdr_size[3]);
    }
    assert(be32_val(s.subrange(4, 8)) == COLR_CODE) by {
        assert(s.subrange(4, 8)[0] == hdr_code[0]);
        assert(s.subrange(4, 8)[1] == hdr_code[1]);
        assert(s.subrange(4, 8)[2] == hdr_code[2]);
        assert(s.subrange(4, 8)[3] == hdr_code[3]);
    }
    assert(type_of_code(COLR_CODE) == BoxType::ColrBox);
    let p = s.subrange(8, 18);
    lemma_be32_round_trip(b.color_parameter_type);
    lemma_be16_round_trip(b.color_primaries);
    lemma_be16_round_trip(b.transfer_characteristics);
    lemma_be16_round_trip(b.matrix_coefficients);
    assert(be32_val(p) == b.color_parameter_type) by {
        assert(p[0] == be32_of(b.color_parameter_type)[0]);
        assert(p[1] == be32_of(b.color_parameter_type)[1]);
        assert(p[2] == be32_of(b.color_parameter_type)[2]);
        assert(p[3] == be32_of(b.color_parameter_type)[3]);
    }
    assert(be16_val(p.subrange(4, 6)) == b.color_primaries) by {
        assert(p.subrange(4, 6)[0] == be16_of(b.color_primaries)[0]);
        assert(p.subrange(4, 6)[1] == be16_of(b.color_primaries)[1]);
    }
    assert(be16_val(p.subrange(6, 8)) == b.transfer_characteristics) by {
        assert(p.subrange(6, 8)[0] == be16_of(b.transfer_characteristics)[0]);
        assert(p.subrange(6, 8)[1] == be16_of(b.transfer_characteristics)[1]);
    }
    assert(be16_val(p.subrange(8, 10)) == b.matrix_coefficients) by {
        assert(p.subrange(8, 10)[0] == be16_of(b.matrix_coefficients)[0]);
        assert(p.subrange(8, 10)[1] == be16_of(b.matrix_coefficients)[1]);
    }
}

} // verus!
