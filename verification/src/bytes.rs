//! Big-endian numbers in a byte sequence, and a cursor over a byte buffer.
//!
//! Every multi-byte number of the format is stored most significant byte
//! first. The `spec` functions of this module say which number stands at a
//! given place of a byte sequence; [`ByteReader`] reads them from a
//! buffer and keeps track of a position in it.

use crate::real4::Real4;
use crate::result::Error;
use vstd::prelude::*;

verus! {

/// The unsigned 16-bit number whose two bytes start at `at`.
pub open spec fn be_u16(s: Seq<u8>, at: int) -> u16 {
    (s[at] * 0x100 + s[at + 1]) as u16
}

/// The unsigned 32-bit number whose four bytes start at `at`.
pub open spec fn be_u32(s: Seq<u8>, at: int) -> u32 {
    (s[at] * 0x100_0000 + s[at + 1] * 0x1_0000 + s[at + 2] * 0x100 + s[at + 3]) as u32
}

/// The two's complement 16-bit number whose two bytes start at `at`.
pub open spec fn be_i16(s: Seq<u8>, at: int) -> i16 {
    let unsigned = be_u16(s, at);
    if unsigned >= 0x8000 {
        (unsigned - 0x1_0000) as i16
    } else {
        unsigned as i16
    }
}

/// The two's complement 32-bit number whose four bytes start at `at`.
pub open spec fn be_i32(s: Seq<u8>, at: int) -> i32 {
    let unsigned = be_u32(s, at);
    if unsigned >= 0x8000_0000 {
        (unsigned - 0x1_0000_0000) as i32
    } else {
        unsigned as i32
    }
}

/// The single precision number whose four bytes start at `at`.
pub open spec fn be_real4(s: Seq<u8>, at: int) -> Real4 {
    Real4 { bits: be_u32(s, at) }
}

/// What a read of `width` bytes at position `at` of `s` meets: the bytes are
/// there, or the sequence ends before the last of them.
pub open spec fn in_bounds(s: Seq<u8>, at: int, width: int) -> bool {
    0 <= at && 0 <= width && at + width <= s.len()
}

/// Whether two byte sequences hold the same bytes from the given places on.
pub open spec fn same_rest(s1: Seq<u8>, at1: int, s2: Seq<u8>, at2: int) -> bool {
    &&& 0 <= at1 <= s1.len()
    &&& 0 <= at2 <= s2.len()
    &&& s1.skip(at1) == s2.skip(at2)
}

/// Sequences with the same rest are equally long behind their places and
/// agree byte for byte.
pub proof fn lemma_same_rest_agrees(s1: Seq<u8>, at1: int, s2: Seq<u8>, at2: int)
    requires
        same_rest(s1, at1, s2, at2),
    ensures
        s1.len() - at1 == s2.len() - at2,
        forall|i: int| at1 <= i < s1.len() ==> #[trigger] s1[i] == s2[i - at1 + at2],
{
    assert(s1.skip(at1).len() == s2.skip(at2).len());
    assert forall|i: int| at1 <= i < s1.len() implies #[trigger] s1[i] == s2[i - at1 + at2] by {
        assert(s1.skip(at1)[i - at1] == s1[i]);
        assert(s2.skip(at2)[i - at1] == s2[i - at1 + at2]);
    }
}

/// A position in a borrowed byte buffer.
///
/// The position never lies beyond the end of the buffer. A read that succeeds
/// moves it past what was read; a read that fails leaves it where it was.
pub struct ByteReader<'a> {
    data: &'a [u8],
    position: usize,
}

impl<'a> ByteReader<'a> {
    #[verifier::type_invariant]
    spec fn position_within_data(self) -> bool {
        self.position <= self.data@.len()
    }

    /// The whole buffer, from its first byte.
    pub closed spec fn bytes(self) -> Seq<u8> {
        self.data@
    }

    /// The current position, counted from the start of the buffer.
    pub closed spec fn pos(self) -> int {
        self.position as int
    }

    /// A reader at the start of `data`.
    pub fn new(data: &'a [u8]) -> (r: Self)
        ensures
            r.bytes() == data@,
            r.pos() == 0,
    {
        ByteReader { data, position: 0 }
    }

    /// The current position.
    pub fn position(&self) -> (r: usize)
        ensures
            r == self.pos(),
            r <= self.bytes().len() <= usize::MAX,
    {
        proof {
            use_type_invariant(self);
        }
        let _total: usize = self.data.len();
        self.position
    }

    /// The length of the whole buffer.
    pub fn len(&self) -> (r: usize)
        ensures
            r == self.bytes().len(),
            self.pos() <= r,
    {
        proof {
            use_type_invariant(self);
        }
        self.data.len()
    }

    /// The number of bytes between the position and the end of the buffer.
    pub fn remaining(&self) -> (r: usize)
        ensures
            r == self.bytes().len() - self.pos(),
            self.bytes().len() <= usize::MAX,
    {
        proof {
            use_type_invariant(self);
        }
        self.data.len() - self.position
    }

    /// Moves to `position`, which may be the end of the buffer but not beyond.
    pub fn seek(&mut self, position: usize) -> (r: Result<(), Error>)
        ensures
            final(self).bytes() == old(self).bytes(),
            position <= old(self).bytes().len() ==> r is Ok && final(self).pos() == position,
            position > old(self).bytes().len() ==> r == Err::<(), Error>(Error::UnexpectedEof)
                && final(self).pos() == old(self).pos(),
    {
        if position > self.data.len() {
            return Err(Error::UnexpectedEof);
        }
        self.position = position;
        Ok(())
    }

    /// Moves forward over `count` bytes.
    pub fn skip(&mut self, count: usize) -> (r: Result<(), Error>)
        ensures
            final(self).bytes() == old(self).bytes(),
            final(self).pos() == old(self).pos() + (if r is Ok { count as int } else { 0int }),
            r == (if in_bounds(old(self).bytes(), old(self).pos(), count as int) {
                Ok::<(), Error>(())
            } else {
                Err::<(), Error>(Error::UnexpectedEof)
            }),
    {
        if self.remaining() < count {
            return Err(Error::UnexpectedEof);
        }
        self.advance(count);
        Ok(())
    }

    /// Moves forward over `count` bytes that are known to be there.
    pub(crate) fn advance(&mut self, count: usize)
        requires
            old(self).pos() + count <= old(self).bytes().len(),
        ensures
            final(self).bytes() == old(self).bytes(),
            final(self).pos() == old(self).pos() + count,
    {
        let _total: usize = self.data.len();
        self.position = self.position + count;
    }

    /// Moves back to `position`, which the reader has been at or beyond.
    pub(crate) fn rewind(&mut self, position: usize)
        requires
            position <= old(self).pos(),
        ensures
            final(self).bytes() == old(self).bytes(),
            final(self).pos() == position,
    {
        proof {
            use_type_invariant(&*self);
        }
        self.position = position;
    }

    /// The byte at `at`.
    pub(crate) fn u8_at(&self, at: usize) -> (r: u8)
        requires
            in_bounds(self.bytes(), at as int, 1),
        ensures
            r == self.bytes()[at as int],
    {
        self.data[at]
    }

    /// The unsigned 16-bit number at `at`.
    pub(crate) fn u16_at(&self, at: usize) -> (r: u16)
        requires
            in_bounds(self.bytes(), at as int, 2),
        ensures
            r == be_u16(self.bytes(), at as int),
    {
        let high: u16 = self.data[at] as u16;
        let low: u16 = self.data[at + 1] as u16;
        high * 0x100 + low
    }

    /// The unsigned 32-bit number at `at`.
    pub(crate) fn u32_at(&self, at: usize) -> (r: u32)
        requires
            in_bounds(self.bytes(), at as int, 4),
        ensures
            r == be_u32(self.bytes(), at as int),
    {
        let b0: u32 = self.data[at] as u32;
        let b1: u32 = self.data[at + 1] as u32;
        let b2: u32 = self.data[at + 2] as u32;
        let b3: u32 = self.data[at + 3] as u32;
        b0 * 0x100_0000 + b1 * 0x1_0000 + b2 * 0x100 + b3
    }

    /// The signed 16-bit number at `at`.
    pub(crate) fn i16_at(&self, at: usize) -> (r: i16)
        requires
            in_bounds(self.bytes(), at as int, 2),
        ensures
            r == be_i16(self.bytes(), at as int),
    {
        let unsigned: u16 = self.u16_at(at);
        if unsigned >= 0x8000 {
            (unsigned as i32 - 0x1_0000) as i16
        } else {
            unsigned as i16
        }
    }

    /// The signed 32-bit number at `at`.
    pub(crate) fn i32_at(&self, at: usize) -> (r: i32)
        requires
            in_bounds(self.bytes(), at as int, 4),
        ensures
            r == be_i32(self.bytes(), at as int),
    {
        let unsigned: u32 = self.u32_at(at);
        if unsigned >= 0x8000_0000 {
            (unsigned as i64 - 0x1_0000_0000) as i32
        } else {
            unsigned as i32
        }
    }

    /// The single precision number at `at`.
    pub(crate) fn real4_at(&self, at: usize) -> (r: Real4)
        requires
            in_bounds(self.bytes(), at as int, 4),
        ensures
            r == be_real4(self.bytes(), at as int),
    {
        Real4 { bits: self.u32_at(at) }
    }

    /// A copy of the `count` bytes that start at `at`.
    pub(crate) fn bytes_at(&self, at: usize, count: usize) -> (r: Vec<u8>)
        requires
            in_bounds(self.bytes(), at as int, count as int),
        ensures
            r@ == self.bytes().subrange(at as int, at + count),
    {
        let total: usize = self.data.len();
        let mut copy: Vec<u8> = Vec::new();
        let mut i: usize = 0;
        while i < count
            invariant
                i <= count,
                at + count <= total,
                total == self.bytes().len(),
                copy@ == self.bytes().subrange(at as int, at + i),
            decreases count - i,
        {
            copy.push(self.data[at + i]);
            i = i + 1;
        }
        copy
    }

    /// Reads one byte.
    pub fn read_u8(&mut self) -> (r: Result<u8, Error>)
        ensures
            final(self).bytes() == old(self).bytes(),
            final(self).pos() == old(self).pos() + (if r is Ok { 1int } else { 0int }),
            r == (if in_bounds(old(self).bytes(), old(self).pos(), 1) {
                Ok(old(self).bytes()[old(self).pos()])
            } else {
                Err(Error::UnexpectedEof)
            }),
    {
        if self.remaining() < 1 {
            return Err(Error::UnexpectedEof);
        }
        let value: u8 = self.u8_at(self.position);
        self.advance(1);
        Ok(value)
    }

    /// Reads an unsigned 16-bit number.
    pub fn read_u16(&mut self) -> (r: Result<u16, Error>)
        ensures
            final(self).bytes() == old(self).bytes(),
            final(self).pos() == old(self).pos() + (if r is Ok { 2int } else { 0int }),
            r == (if in_bounds(old(self).bytes(), old(self).pos(), 2) {
                Ok(be_u16(old(self).bytes(), old(self).pos()))
            } else {
                Err(Error::UnexpectedEof)
            }),
    {
        if self.remaining() < 2 {
            return Err(Error::UnexpectedEof);
        }
        let value: u16 = self.u16_at(self.position);
        self.advance(2);
        Ok(value)
    }

    /// Reads an unsigned 32-bit number.
    pub fn read_u32(&mut self) -> (r: Result<u32, Error>)
        ensures
            final(self).bytes() == old(self).bytes(),
            final(self).pos() == old(self).pos() + (if r is Ok { 4int } else { 0int }),
            r == (if in_bounds(old(self).bytes(), old(self).pos(), 4) {
                Ok(be_u32(old(self).bytes(), old(self).pos()))
            } else {
                Err(Error::UnexpectedEof)
            }),
    {
        if self.remaining() < 4 {
            return Err(Error::UnexpectedEof);
        }
        let value: u32 = self.u32_at(self.position);
        self.advance(4);
        Ok(value)
    }

    /// Reads a signed 16-bit number.
    pub fn read_i16(&mut self) -> (r: Result<i16, Error>)
        ensures
            final(self).bytes() == old(self).bytes(),
            final(self).pos() == old(self).pos() + (if r is Ok { 2int } else { 0int }),
            r == (if in_bounds(old(self).bytes(), old(self).pos(), 2) {
                Ok(be_i16(old(self).bytes(), old(self).pos()))
            } else {
                Err(Error::UnexpectedEof)
            }),
    {
        if self.remaining() < 2 {
            return Err(Error::UnexpectedEof);
        }
        let value: i16 = self.i16_at(self.position);
        self.advance(2);
        Ok(value)
    }

    /// Reads a signed 32-bit number.
    pub fn read_i32(&mut self) -> (r: Result<i32, Error>)
        ensures
            final(self).bytes() == old(self).bytes(),
            final(self).pos() == old(self).pos() + (if r is Ok { 4int } else { 0int }),
            r == (if in_bounds(old(self).bytes(), old(self).pos(), 4) {
                Ok(be_i32(old(self).bytes(), old(self).pos()))
            } else {
                Err(Error::UnexpectedEof)
            }),
    {
        if self.remaining() < 4 {
            return Err(Error::UnexpectedEof);
        }
        let value: i32 = self.i32_at(self.position);
        self.advance(4);
        Ok(value)
    }

    /// Reads a single precision number.
    pub fn read_real4(&mut self) -> (r: Result<Real4, Error>)
        ensures
            final(self).bytes() == old(self).bytes(),
            final(self).pos() == old(self).pos() + (if r is Ok { 4int } else { 0int }),
            r == (if in_bounds(old(self).bytes(), old(self).pos(), 4) {
                Ok(be_real4(old(self).bytes(), old(self).pos()))
            } else {
                Err(Error::UnexpectedEof)
            }),
    {
        if self.remaining() < 4 {
            return Err(Error::UnexpectedEof);
        }
        let value: Real4 = self.real4_at(self.position);
        self.advance(4);
        Ok(value)
    }

    /// Reads `count` bytes into a buffer of their own.
    pub fn read_bytes(&mut self, count: usize) -> (r: Result<Vec<u8>, Error>)
        ensures
            final(self).bytes() == old(self).bytes(),
            final(self).pos() == old(self).pos() + (if r is Ok { count as int } else { 0int }),
            r is Ok <==> in_bounds(old(self).bytes(), old(self).pos(), count as int),
            r matches Ok(copy) ==> copy@ == old(self).bytes().subrange(
                old(self).pos(),
                old(self).pos() + count,
            ),
            r matches Err(e) ==> e == Error::UnexpectedEof,
    {
        if self.remaining() < count {
            return Err(Error::UnexpectedEof);
        }
        let copy: Vec<u8> = self.bytes_at(self.position, count);
        self.advance(count);
        Ok(copy)
    }
}

} // verus!
