//! The 8- or 16-byte prefix of every box: a big-endian size field and a
//! four-byte type code, with the extended-size escape for boxes whose size
//! does not fit the ordinary 32-bit field.

use vstd::prelude::*;

use crate::boxtype::{code_of, is_canonical, type_of_code, BoxType};
use crate::bytes::{
    be32_of, be32_val, be64_of, be64_val, lemma_be32_round_trip, lemma_be64_round_trip, ByteSink,
    ByteSource,
};
use crate::error::BoxError;

verus! {

/// The encoded length of the ordinary box header.
pub const HEADER_SIZE: u64 = 8;

/// The encoded length of the extended box header.
pub const HEADER_EXT_SIZE: u64 = 16;

/// The smallest declared size that must be written in the extended 16-byte
/// form; sizes below it always use the ordinary 8-byte form.
pub const EXTENDED_SIZE_THRESHOLD: u64 = 0xffff_ffff;

/// The prefix of one box: its type code, its declared total size (header
/// plus payload; 0 means "extends to the end of the stream"; nonzero values
/// below 8 are reserved and corrupt), and the stream offset of the header's
/// first byte.
#[derive(Clone, Copy, Debug, PartialEq, Eq, Structural)]
pub struct BoxHeader {
    /// The box type named by the header's four-byte code.
    pub kind: BoxType,
    /// The declared total size of the box, header included.
    pub size: u64,
    /// The byte position of the header's first byte in its stream.
    pub start_offset: u64,
}

/// The encoded header length for a box of declared size `size`: 16 bytes
/// when the extended form is needed, 8 otherwise.
pub open spec fn spec_header_len(size: u64) -> int {
    if size >= EXTENDED_SIZE_THRESHOLD {
        16
    } else {
        8
    }
}

/// The bytes that a header with type `kind` and declared size `size` is
/// written as.
pub open spec fn spec_header_bytes(kind: BoxType, size: u64) -> Seq<u8> {
    if size >= EXTENDED_SIZE_THRESHOLD {
        be32_of(1) + be32_of(code_of(kind)) + be64_of(size)
    } else {
        be32_of(size as u32) + be32_of(code_of(kind))
    }
}

/// What decoding a header from the front of `s` yields: the box type, the
/// declared size (0 meaning "extends to the end of the stream"), and the
/// number of header bytes consumed — or the exact failure.
pub open spec fn spec_header_decode(s: Seq<u8>) -> Result<(BoxType, u64, int), BoxError> {
    if s.len() < 8 {
        Err(BoxError::TruncatedHeader)
    } else {
        let size32 = be32_val(s);
        let code = be32_val(s.subrange(4, 8)) as u32;
        if size32 == 1 {
            if s.len() < 16 {
                Err(BoxError::TruncatedHeader)
            } else {
                let large = be64_val(s.subrange(8, 16));
                if 1 <= large && large < 16 {
                    Err(BoxError::InvalidDeclaredSize)
                } else {
                    Ok((type_of_code(code), large as u64, 16))
                }
            }
        } else if size32 == 0 {
            Ok((type_of_code(code), 0u64, 8))
        } else if size32 < 8 {
            Err(BoxError::InvalidDeclaredSize)
        } else {
            Ok((type_of_code(code), size32 as u64, 8))
        }
    }
}

impl BoxHeader {
    /// A header for a box of type `kind` and declared total size `size`,
    /// before it has been placed in a stream.
    pub fn new(kind: BoxType, size: u64) -> (r: BoxHeader)
        ensures
            r.kind == kind,
            r.size == size,
            r.start_offset == 0,
    {
        BoxHeader { kind, size, start_offset: 0 }
    }

    /// The encoded length of this header: 16 bytes when the declared size
    /// needs the extended form, 8 otherwise.
    pub fn header_len(&self) -> (r: u64)
        ensures
            r as int == spec_header_len(self.size),
    {
        if self.size >= EXTENDED_SIZE_THRESHOLD {
            HEADER_EXT_SIZE
        } else {
            HEADER_SIZE
        }
    }

    /// Decode one box header from the cursor. On success the cursor rests on
    /// the first payload byte and the header records where it began; on any
    /// failure the cursor is restored to where it was.
    pub fn read(src: &mut ByteSource) -> (r: Result<BoxHeader, BoxError>)
        requires
            old(src).wf(),
        ensures
            final(src).wf(),
            final(src).bytes() == old(src).bytes(),
            match spec_header_decode(old(src).suffix()) {
                Ok((k, sz, c)) => r matches Ok(h) && h.kind == k && h.size == sz
                    && h.start_offset as int == old(src).position_spec()
                    && final(src).position_spec() == old(src).position_spec() + c,
                Err(e) => r == Err::<BoxHeader, BoxError>(e)
                    && final(src).position_spec() == old(src).position_spec(),
            },
    {
        let ghost s = old(src).suffix();
        let start = src.position();
        let size32 = match src.read_u32() {
            Some(v) => v,
            None => {
                return Err(BoxError::TruncatedHeader);
            },
        };
        let ghost mid = *src;
        let code = match src.read_u32() {
            Some(v) => v,
            None => {
                let _restored = src.seek(start);
                return Err(BoxError::TruncatedHeader);
            },
        };
        proof {
            if s.len() >= 8 {
                assert(be32_val(s.subrange(4, 8)) == be32_val(mid.suffix())) by {
                    assert(s.subrange(4, 8)[0] == mid.suffix()[0]);
                    assert(s.subrange(4, 8)[1] == mid.suffix()[1]);
                    assert(s.subrange(4, 8)[2] == mid.suffix()[2]);
                    assert(s.subrange(4, 8)[3] == mid.suffix()[3]);
                }
            }
        }
        if size32 == 1 {
            let ghost mid2 = *src;
            let large = match src.read_u64() {
                Some(v) => v,
                None => {
                    let _restored = src.seek(start);
                    return Err(BoxError::TruncatedHeader);
                },
            };
            proof {
                if s.len() >= 16 {
                    assert(be64_val(s.subrange(8, 16)) == be64_val(mid2.suffix())) by {
                        assert(s.subrange(8, 16)[0] == mid2.suffix()[0]);
                        assert(s.subrange(8, 16)[1] == mid2.suffix()[1]);
                        assert(s.subrange(8, 16)[2] == mid2.suffix()[2]);
                        assert(s.subrange(8, 16)[3] == mid2.suffix()[3]);
                        assert(s.subrange(8, 16)[4] == mid2.suffix()[4]);
                        assert(s.subrange(8, 16)[5] == mid2.suffix()[5]);
                        assert(s.subrange(8, 16)[6] == mid2.suffix()[6]);
                        assert(s.subrange(8, 16)[7] == mid2.suffix()[7]);
                    }
                }
            }
            if large >= 1 && large < 16 {
                let _restored = src.seek(start);
                return Err(BoxError::InvalidDeclaredSize);
            }
            Ok(BoxHeader { kind: BoxType::from_code(code), size: large, start_offset: start })
        } else if size32 == 0 {
            Ok(BoxHeader { kind: BoxType::from_code(code), size: 0, start_offset: start })
        } else if size32 < 8 {
            let _restored = src.seek(start);
            Err(BoxError::InvalidDeclaredSize)
        } else {
            Ok(
                BoxHeader {
                    kind: BoxType::from_code(code),
                    size: size32 as u64,
                    start_offset: start,
                },
            )
        }
    }

    /// Emit this header: the extended 16-byte form when the declared size is
    /// at least the extended-size threshold, the ordinary 8-byte form
    /// otherwise. Returns the number of bytes written. A nonzero declared
    /// size smaller than the 8-byte header itself is corrupt; it is rejected
    /// and nothing is written.
    pub fn write(&self, sink: &mut ByteSink) -> (r: Result<u64, BoxError>)
        ensures
            1 <= self.size < 8 ==> r == Err::<u64, BoxError>(BoxError::InvalidDeclaredSize)
                && final(sink)@ == old(sink)@,
            self.size == 0 || self.size >= 8 ==> r == Ok::<u64, BoxError>(
                spec_header_len(self.size) as u64,
            ) && final(sink)@ == old(sink)@ + spec_header_bytes(self.kind, self.size),
    {
        if self.size >= 1 && self.size < 8 {
            return Err(BoxError::InvalidDeclaredSize);
        }
        if self.size >= EXTENDED_SIZE_THRESHOLD {
            sink.write_u32(1);
            sink.write_u32(self.kind.to_code());
            sink.write_u64(self.size);
            proof {
                assert(sink@ =~= old(sink)@ + spec_header_bytes(self.kind, self.size));
            }
            Ok(HEADER_EXT_SIZE)
        } else {
            sink.write_u32(self.size as u32);
            sink.write_u32(self.kind.to_code());
            proof {
                assert(sink@ =~= old(sink)@ + spec_header_bytes(self.kind, self.size));
            }
            Ok(HEADER_SIZE)
        }
    }
}

/// Header round-trip law: for every canonical box type and every legal
/// declared size, decoding the bytes the writer emits yields the identical
/// type and size; a size of at least the extended-size threshold is written
/// in the extended 16-byte form, and a smaller size never is.
pub proof fn lemma_header_round_trip(kind: BoxType, size: u64)
    requires
        is_canonical(kind),
        size == 0 || size >= 8,
    ensures
        spec_header_bytes(kind, size).len() == spec_header_len(size),
        spec_header_decode(spec_header_bytes(kind, size)) == Ok::<(BoxType, u64, int), BoxError>(
            (kind, size, spec_header_len(size)),
        ),
        size >= EXTENDED_SIZE_THRESHOLD ==> spec_header_bytes(kind, size).len() == 16,
        size < EXTENDED_SIZE_THRESHOLD ==> spec_header_bytes(kind, size).len() == 8,
{
    let s = spec_header_bytes(kind, size);
    let b = be32_of(code_of(kind));
    lemma_be32_round_trip(code_of(kind));
    if size >= EXTENDED_SIZE_THRESHOLD {
        let a = be32_of(1);
        let c = be64_of(size);
        lemma_be32_round_trip(1);
        lemma_be64_round_trip(size);
        assert(be32_val(s) == 1) by {
            assert(s[0] == a[0]);
            assert(s[1] == a[1]);
            assert(s[2] == a[2]);
            assert(s[3] == a[3]);
        }
        assert(s.subrange(4, 8) =~= b);
        assert(s.subrange(8, 16) =~= c);
    } else {
        let a = be32_of(size as u32);
        lemma_be32_round_trip(size as u32);
        assert(be32_val(s) == size) by {
            assert(s[0] == a[0]);
            assert(s[1] == a[1]);
            assert(s[2] == a[2]);
            assert(s[3] == a[3]);
        }
        assert(s.subrange(4, 8) =~= b);
    }
}

} // verus!
