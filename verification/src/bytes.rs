//! Big-endian integer fields, and the in-memory byte source and sink that the
//! codec reads from and writes to.
//!
//! Every field of the wire format is a fixed-width big-endian unsigned
//! integer. `beN_val` gives the value of the first N/8 bytes of a byte
//! sequence; `beN_of` gives the N/8-byte encoding of a value. The encodings
//! are written with nested division by 0x100, so that each byte is a
//! quotient or remainder the solver can reason about linearly.

use vstd::prelude::*;

verus! {

/// The first 2 bytes of `s`, read as a big-endian unsigned 16-bit value.
pub open spec fn be16_val(s: Seq<u8>) -> int
    recommends
        s.len() >= 2,
{
    s[0] * 0x100 + s[1]
}

/// The first 4 bytes of `s`, read as a big-endian unsigned 32-bit value.
pub open spec fn be32_val(s: Seq<u8>) -> int
    recommends
        s.len() >= 4,
{
    s[0] * 0x100_0000 + s[1] * 0x1_0000 + s[2] * 0x100 + s[3]
}

/// The first 8 bytes of `s`, read as a big-endian unsigned 64-bit value.
pub open spec fn be64_val(s: Seq<u8>) -> int
    recommends
        s.len() >= 8,
{
    s[0] * 0x100_0000_0000_0000 + s[1] * 0x1_0000_0000_0000 + s[2] * 0x100_0000_0000 + s[3]
        * 0x1_0000_0000 + s[4] * 0x100_0000 + s[5] * 0x1_0000 + s[6] * 0x100 + s[7]
}

/// The 2-byte big-endian encoding of `v`.
pub open spec fn be16_of(v: u16) -> Seq<u8> {
    seq![(v / 0x100) as u8, (v % 0x100) as u8]
}

/// The 4-byte big-endian encoding of `v`.
pub open spec fn be32_of(v: u32) -> Seq<u8> {
    seq![
        (v / 0x100 / 0x100 / 0x100) as u8,
        (v / 0x100 / 0x100 % 0x100) as u8,
        (v / 0x100 % 0x100) as u8,
        (v % 0x100) as u8,
    ]
}

/// The 8-byte big-endian encoding of `v`.
pub open spec fn be64_of(v: u64) -> Seq<u8> {
    seq![
        (v / 0x100 / 0x100 / 0x100 / 0x100 / 0x100 / 0x100 / 0x100) as u8,
        (v / 0x100 / 0x100 / 0x100 / 0x100 / 0x100 / 0x100 % 0x100) as u8,
        (v / 0x100 / 0x100 / 0x100 / 0x100 / 0x100 % 0x100) as u8,
        (v / 0x100 / 0x100 / 0x100 / 0x100 % 0x100) as u8,
        (v / 0x100 / 0x100 / 0x100 % 0x100) as u8,
        (v / 0x100 / 0x100 % 0x100) as u8,
        (v / 0x100 % 0x100) as u8,
        (v % 0x100) as u8,
    ]
}

/// Reading back the 2-byte encoding of a 16-bit value yields the value.
pub proof fn lemma_be16_round_trip(v: u16)
    ensures
        be16_of(v).len() == 2,
        be16_val(be16_of(v)) == v,
{
    assert(v == 0x100 * (v as int / 0x100) + (v as int % 0x100));
}

/// Reading back the 4-byte encoding of a 32-bit value yields the value.
pub proof fn lemma_be32_round_trip(v: u32)
    ensures
        be32_of(v).len() == 4,
        be32_val(be32_of(v)) == v,
{
    let q1 = v as int / 0x100;
    let q2 = q1 / 0x100;
    let q3 = q2 / 0x100;
    assert(v == 0x100 * q1 + (v as int % 0x100));
    assert(q1 == 0x100 * q2 + (q1 % 0x100));
    assert(q2 == 0x100 * q3 + (q2 % 0x100));
    assert(q3 < 0x100);
}

/// Reading back the 8-byte encoding of a 64-bit value yields the value.
pub proof fn lemma_be64_round_trip(v: u64)
    ensures
        be64_of(v).len() == 8,
        be64_val(be64_of(v)) == v,
{
    let q1 = v as int / 0x100;
    let q2 = q1 / 0x100;
    let q3 = q2 / 0x100;
    let q4 = q3 / 0x100;
    let q5 = q4 / 0x100;
    let q6 = q5 / 0x100;
    let q7 = q6 / 0x100;
    assert(v == 0x100 * q1 + (v as int % 0x100));
    assert(q1 == 0x100 * q2 + (q1 % 0x100));
    assert(q2 == 0x100 * q3 + (q2 % 0x100));
    assert(q3 == 0x100 * q4 + (q3 % 0x100));
    assert(q4 == 0x100 * q5 + (q4 % 0x100));
    assert(q5 == 0x100 * q6 + (q5 % 0x100));
    assert(q6 == 0x100 * q7 + (q6 % 0x100));
    assert(q7 < 0x100);
}

/// A seekable, random-access byte source: the already-loaded bytes of one
/// stream together with a read cursor. The codec consumes this in place of a
/// file; whoever owns the file hands its bytes over and gets plain decoded
/// values back.
pub struct ByteSource {
    data: Vec<u8>,
    pos: usize,
}

impl ByteSource {
    /// The bytes of the underlying stream.
    pub closed spec fn bytes(&self) -> Seq<u8> {
        self.data@
    }

    /// The cursor: the offset of the next byte to be read.
    pub closed spec fn position_spec(&self) -> int {
        self.pos as int
    }

    /// How many bytes remain between the cursor and the end of the stream.
    pub open spec fn remaining_spec(&self) -> int {
        self.bytes().len() - self.position_spec()
    }

    /// The bytes from the cursor to the end of the stream.
    pub open spec fn suffix(&self) -> Seq<u8>
        recommends
            self.wf(),
    {
        self.bytes().subrange(self.position_spec(), self.bytes().len() as int)
    }

    /// The cursor never points past the end of the stream.
    pub open spec fn wf(&self) -> bool {
        0 <= self.position_spec() <= self.bytes().len()
    }

    /// A source positioned at the first byte of `data`.
    pub fn new(data: Vec<u8>) -> (r: ByteSource)
        ensures
            r.wf(),
            r.bytes() == data@,
            r.position_spec() == 0,
    {
        ByteSource { data, pos: 0 }
    }

    /// The current cursor offset.
    pub fn position(&self) -> (r: u64)
        ensures
            r as int == self.position_spec(),
    {
        self.pos as u64
    }

    /// The number of bytes left to read.
    pub fn remaining(&self) -> (r: usize)
        requires
            self.wf(),
        ensures
            r == self.remaining_spec(),
    {
        self.data.len() - self.pos
    }

    /// Move the cursor to absolute offset `p`. Returns false, and leaves the
    /// cursor in place, when `p` lies past the end of the stream.
    pub fn seek(&mut self, p: u64) -> (r: bool)
        requires
            old(self).wf(),
        ensures
            final(self).wf(),
            final(self).bytes() == old(self).bytes(),
            r == (p as int <= old(self).bytes().len()),
            r ==> final(self).position_spec() == p as int,
            !r ==> final(self).position_spec() == old(self).position_spec(),
    {
        if p <= self.data.len() as u64 {
            self.pos = p as usize;
            true
        } else {
            false
        }
    }

    /// Read one big-endian unsigned 16-bit field, advancing the cursor by 2.
    /// Returns `None`, leaving the cursor in place, when fewer than 2 bytes
    /// remain.
    pub fn read_u16(&mut self) -> (r: Option<u16>)
        requires
            old(self).wf(),
        ensures
            final(self).wf(),
            final(self).bytes() == old(self).bytes(),
            old(self).remaining_spec() < 2 ==> r is None && final(self).position_spec() == old(self).position_spec(),
            old(self).remaining_spec() >= 2 ==> (r matches Some(v) && v as int == be16_val(old(self).suffix())
                && final(self).position_spec() == old(self).position_spec() + 2),
    {
        if self.data.len() - self.pos >= 2 {
            let b0 = self.data[self.pos];
            let b1 = self.data[self.pos + 1];
            self.pos = self.pos + 2;
            Some((b0 as u16) * 0x100 + (b1 as u16))
        } else {
            None
        }
    }

    /// Read one big-endian unsigned 32-bit field, advancing the cursor by 4.
    /// Returns `None`, leaving the cursor in place, when fewer than 4 bytes
    /// remain.
    pub fn read_u32(&mut self) -> (r: Option<u32>)
        requires
            old(self).wf(),
        ensures
            final(self).wf(),
            final(self).bytes() == old(self).bytes(),
            old(self).remaining_spec() < 4 ==> r is None && final(self).position_spec() == old(self).position_spec(),
            old(self).remaining_spec() >= 4 ==> (r matches Some(v) && v as int == be32_val(old(self).suffix())
                && final(self).position_spec() == old(self).position_spec() + 4),
    {
        if self.data.len() - self.pos >= 4 {
            let b0 = self.data[self.pos];
            let b1 = self.data[self.pos + 1];
            let b2 = self.data[self.pos + 2];
            let b3 = self.data[self.pos + 3];
            self.pos = self.pos + 4;
            Some(
                (b0 as u32) * 0x100_0000 + (b1 as u32) * 0x1_0000 + (b2 as u32) * 0x100 + (
                b3 as u32),
            )
        } else {
            None
        }
    }

    /// Read one big-endian unsigned 64-bit field, advancing the cursor by 8.
    /// Returns `None`, leaving the cursor in place, when fewer than 8 bytes
    /// remain.
    pub fn read_u64(&mut self) -> (r: Option<u64>)
        requires
            old(self).wf(),
        ensures
            final(self).wf(),
            final(self).bytes() == old(self).bytes(),
            old(self).remaining_spec() < 8 ==> r is None && final(self).position_spec() == old(self).position_spec(),
            old(self).remaining_spec() >= 8 ==> (r matches Some(v) && v as int == be64_val(old(self).suffix())
                && final(self).position_spec() == old(self).position_spec() + 8),
    {
        if self.data.len() - self.pos >= 8 {
            let b0 = self.data[self.pos];
            let b1 = self.data[self.pos + 1];
            let b2 = self.data[self.pos + 2];
            let b3 = self.data[self.pos + 3];
            let b4 = self.data[self.pos + 4];
            let b5 = self.data[self.pos + 5];
            let b6 = self.data[self.pos + 6];
            let b7 = self.data[self.pos + 7];
            self.pos = self.pos + 8;
            Some(
                (b0 as u64) * 0x100_0000_0000_0000 + (b1 as u64) * 0x1_0000_0000_0000 + (b2 as u64)
                    * 0x100_0000_0000 + (b3 as u64) * 0x1_0000_0000 + (b4 as u64) * 0x100_0000 + (
                b5 as u64) * 0x1_0000 + (b6 as u64) * 0x100 + (b7 as u64),
            )
        } else {
            None
        }
    }
}

/// A sequential byte sink: the bytes written so far. Writing to it cannot
/// fail; whoever owns a real sink takes the accumulated bytes and sends them
/// on.
pub struct ByteSink {
    data: Vec<u8>,
}

impl View for ByteSink {
    type V = Seq<u8>;

    closed spec fn view(&self) -> Seq<u8> {
        self.data@
    }
}

impl ByteSink {
    /// An empty sink.
    pub fn new() -> (r: ByteSink)
        ensures
            r@ == Seq::<u8>::empty(),
    {
        ByteSink { data: Vec::new() }
    }

    /// The number of bytes written so far.
    pub fn len(&self) -> (r: usize)
        ensures
            r == self@.len(),
    {
        self.data.len()
    }

    /// The bytes written so far, surrendered to the caller.
    pub fn into_vec(self) -> (r: Vec<u8>)
        ensures
            r@ == self@,
    {
        self.data
    }

    /// Append the 2-byte big-endian encoding of `v`.
    pub fn write_u16(&mut self, v: u16)
        ensures
            final(self)@ == old(self)@ + be16_of(v),
    {
        self.data.push((v / 0x100) as u8);
        self.data.push((v % 0x100) as u8);
        proof {
            assert(self.data@ =~= old(self)@ + be16_of(v));
        }
    }

    /// Append the 4-byte big-endian encoding of `v`.
    pub fn write_u32(&mut self, v: u32)
        ensures
            final(self)@ == old(self)@ + be32_of(v),
    {
        self.data.push((v / 0x100 / 0x100 / 0x100) as u8);
        self.data.push((v / 0x100 / 0x100 % 0x100) as u8);
        self.data.push((v / 0x100 % 0x100) as u8);
        self.data.push((v % 0x100) as u8);
        proof {
            assert(self.data@ =~= old(self)@ + be32_of(v));
        }
    }

    /// Append the 8-byte big-endian encoding of `v`.
    pub fn write_u64(&mut self, v: u64)
        ensures
            final(self)@ == old(self)@ + be64_of(v),
    {
        self.data.push((v / 0x100 / 0x100 / 0x100 / 0x100 / 0x100 / 0x100 / 0x100) as u8);
        self.data.push((v / 0x100 / 0x100 / 0x100 / 0x100 / 0x100 / 0x100 % 0x100) as u8);
        self.data.push((v / 0x100 / 0x100 / 0x100 / 0x100 / 0x100 % 0x100) as u8);
        self.data.push((v / 0x100 / 0x100 / 0x100 / 0x100 % 0x100) as u8);
        self.data.push((v / 0x100 / 0x100 / 0x100 % 0x100) as u8);
        self.data.push((v / 0x100 / 0x100 % 0x100) as u8);
        self.data.push((v / 0x100 % 0x100) as u8);
        self.data.push((v % 0x100) as u8);
        proof {
            assert(self.data@ =~= old(self)@ + be64_of(v));
        }
    }
}

} // verus!
