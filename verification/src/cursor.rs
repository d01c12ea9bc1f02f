//! Byte cursor primitives: a forward-only reader over an in-memory byte
//! buffer with big-endian fixed-width integer reads and bounded byte-vector
//! reads.
//!
//! Every read is specified by a function from the buffer and the position
//! before the read to the outcome and the position after it, so that the
//! decoders built on the cursor can state exactly what they consume.

use vstd::prelude::*;
use vstd::slice::*;

verus! {

/// Why a read from a [`ByteCursor`] failed.
#[derive(Debug, Clone, Copy, PartialEq, Eq, Structural)]
pub enum ReadError {
    /// The buffer ended before the requested number of bytes was available.
    UnexpectedEof,
}

/// Whether `n` bytes are available in `s` starting at `pos`.
pub open spec fn fits(s: Seq<u8>, pos: int, n: int) -> bool {
    0 <= pos && pos + n <= s.len()
}

/// The big-endian value of the two bytes of `s` at `pos`.
pub open spec fn be_u16_at(s: Seq<u8>, pos: int) -> u16 {
    (s[pos] as int * 0x100 + s[pos + 1] as int) as u16
}

/// The big-endian value of the four bytes of `s` at `pos`.
pub open spec fn be_u32_at(s: Seq<u8>, pos: int) -> u32 {
    (s[pos] as int * 0x100_0000 + s[pos + 1] as int * 0x1_0000 + s[pos + 2] as int * 0x100 + s[pos
        + 3] as int) as u32
}

/// The big-endian value of the eight bytes of `s` at `pos`.
pub open spec fn be_u64_at(s: Seq<u8>, pos: int) -> u64 {
    (be_u32_at(s, pos) as int * 0x1_0000_0000 + be_u32_at(s, pos + 4) as int) as u64
}

/// Outcome and next position of reading one byte at `pos`.
pub open spec fn spec_read_u8(s: Seq<u8>, pos: int) -> (Result<u8, ReadError>, int) {
    if fits(s, pos, 1) {
        (Ok(s[pos]), pos + 1)
    } else {
        (Err(ReadError::UnexpectedEof), s.len() as int)
    }
}

/// Outcome and next position of reading a big-endian `u16` at `pos`.
pub open spec fn spec_read_u16(s: Seq<u8>, pos: int) -> (Result<u16, ReadError>, int) {
    if fits(s, pos, 2) {
        (Ok(be_u16_at(s, pos)), pos + 2)
    } else {
        (Err(ReadError::UnexpectedEof), s.len() as int)
    }
}

/// Outcome and next position of reading a big-endian `u32` at `pos`.
pub open spec fn spec_read_u32(s: Seq<u8>, pos: int) -> (Result<u32, ReadError>, int) {
    if fits(s, pos, 4) {
        (Ok(be_u32_at(s, pos)), pos + 4)
    } else {
        (Err(ReadError::UnexpectedEof), s.len() as int)
    }
}

/// Outcome and next position of reading a big-endian `u64` at `pos`.
pub open spec fn spec_read_u64(s: Seq<u8>, pos: int) -> (Result<u64, ReadError>, int) {
    if fits(s, pos, 8) {
        (Ok(be_u64_at(s, pos)), pos + 8)
    } else {
        (Err(ReadError::UnexpectedEof), s.len() as int)
    }
}

/// Outcome and next position of reading a big-endian two's-complement `i32`
/// at `pos`.
pub open spec fn spec_read_i32(s: Seq<u8>, pos: int) -> (Result<i32, ReadError>, int) {
    if fits(s, pos, 4) {
        (Ok(be_u32_at(s, pos) as i32), pos + 4)
    } else {
        (Err(ReadError::UnexpectedEof), s.len() as int)
    }
}

/// Outcome and next position of reading a big-endian two's-complement `i64`
/// at `pos`.
pub open spec fn spec_read_i64(s: Seq<u8>, pos: int) -> (Result<i64, ReadError>, int) {
    if fits(s, pos, 8) {
        (Ok(be_u64_at(s, pos) as i64), pos + 8)
    } else {
        (Err(ReadError::UnexpectedEof), s.len() as int)
    }
}

/// Outcome and next position of reading exactly `n` bytes at `pos`.
pub open spec fn spec_read_bytes(s: Seq<u8>, pos: int, n: int) -> (
    Result<Seq<u8>, ReadError>,
    int,
) {
    if 0 <= n && fits(s, pos, n) {
        (Ok(s.subrange(pos, pos + n)), pos + n)
    } else {
        (Err(ReadError::UnexpectedEof), s.len() as int)
    }
}

/// The bytes of `s` from `pos` to the end (none when `pos` is out of range).
pub open spec fn spec_rest(s: Seq<u8>, pos: int) -> Seq<u8> {
    if 0 <= pos <= s.len() {
        s.subrange(pos, s.len() as int)
    } else {
        Seq::empty()
    }
}

/// The view of a decoding outcome whose errors are plain values: the view of
/// the value, the error as it is.
pub open spec fn ok_view<T: View, E>(r: Result<T, E>) -> Result<T::V, E> {
    match r {
        Ok(v) => Ok(v@),
        Err(e) => Err(e),
    }
}

/// The view of a decoding outcome: the view of the value or of the error.
pub open spec fn result_view<T: View, E: View>(r: Result<T, E>) -> Result<T::V, E::V> {
    match r {
        Ok(v) => Ok(v@),
        Err(e) => Err(e@),
    }
}

/// `byteorder::BigEndian::read_u16` (through the `ByteOrder` trait): the first
/// two bytes of `buf`, most significant first. It panics on a shorter buffer,
/// which the precondition rules out.
#[verifier::external_body]
fn be_u16(buf: &[u8]) -> (r: u16)
    requires
        buf@.len() >= 2,
    ensures
        r == be_u16_at(buf@, 0),
{
    <byteorder::BigEndian as byteorder::ByteOrder>::read_u16(buf)
}

/// `byteorder::BigEndian::read_u32`: the first four bytes of `buf`, most
/// significant first. Panics on a shorter buffer, which the precondition
/// rules out.
#[verifier::external_body]
fn be_u32(buf: &[u8]) -> (r: u32)
    requires
        buf@.len() >= 4,
    ensures
        r == be_u32_at(buf@, 0),
{
    <byteorder::BigEndian as byteorder::ByteOrder>::read_u32(buf)
}

/// `byteorder::BigEndian::read_u64`: the first eight bytes of `buf`, most
/// significant first. Panics on a shorter buffer, which the precondition
/// rules out.
#[verifier::external_body]
fn be_u64(buf: &[u8]) -> (r: u64)
    requires
        buf@.len() >= 8,
    ensures
        r == be_u64_at(buf@, 0),
{
    <byteorder::BigEndian as byteorder::ByteOrder>::read_u64(buf)
}

/// `byteorder::BigEndian::read_i32`: the big-endian `u32` of the first four
/// bytes reinterpreted as two's complement. Panics on a shorter buffer, which
/// the precondition rules out.
#[verifier::external_body]
fn be_i32(buf: &[u8]) -> (r: i32)
    requires
        buf@.len() >= 4,
    ensures
        r == be_u32_at(buf@, 0) as i32,
{
    <byteorder::BigEndian as byteorder::ByteOrder>::read_i32(buf)
}

/// `byteorder::BigEndian::read_i64`: the big-endian `u64` of the first eight
/// bytes reinterpreted as two's complement. Panics on a shorter buffer, which
/// the precondition rules out.
#[verifier::external_body]
fn be_i64(buf: &[u8]) -> (r: i64)
    requires
        buf@.len() >= 8,
    ensures
        r == be_u64_at(buf@, 0) as i64,
{
    <byteorder::BigEndian as byteorder::ByteOrder>::read_i64(buf)
}

/// A sequential, forward-only reader over a byte buffer.
///
/// A failed read leaves the cursor at the end of the buffer, so that every
/// later read fails too.
pub struct ByteCursor<'a> {
    data: &'a [u8],
    pos: usize,
}

impl<'a> ByteCursor<'a> {
    /// The whole buffer the cursor reads from.
    pub closed spec fn bytes(&self) -> Seq<u8> {
        self.data@
    }

    /// The index of the next byte to be read.
    pub closed spec fn position(&self) -> int {
        self.pos as int
    }

    /// The number of bytes that are still unread.
    pub open spec fn remaining(&self) -> nat {
        if 0 <= self.position() <= self.bytes().len() {
            (self.bytes().len() - self.position()) as nat
        } else {
            0
        }
    }

    /// A cursor at the start of `data`.
    pub fn new(data: &'a [u8]) -> (r: Self)
        ensures
            r.bytes() == data@,
            r.position() == 0,
    {
        ByteCursor { data, pos: 0 }
    }

    /// The index of the next byte to be read.
    pub fn offset(&self) -> (n: usize)
        ensures
            n == self.position(),
    {
        self.pos
    }

    /// The number of bytes that are still unread.
    pub fn bytes_left(&self) -> (n: usize)
        ensures
            n == self.remaining(),
    {
        if self.pos <= self.data.len() {
            self.data.len() - self.pos
        } else {
            0
        }
    }

    /// Takes the next `n` bytes as a slice, or moves to the end of the buffer
    /// when fewer are left.
    fn take(&mut self, n: usize) -> (r: Option<&'a [u8]>)
        ensures
            final(self).bytes() == old(self).bytes(),
            fits(old(self).bytes(), old(self).position(), n as int) ==> {
                &&& r is Some
                &&& r.unwrap()@ == old(self).bytes().subrange(
                    old(self).position(),
                    old(self).position() + n,
                )
                &&& final(self).position() == old(self).position() + n
            },
            !fits(old(self).bytes(), old(self).position(), n as int) ==> {
                &&& r is None
                &&& final(self).position() == old(self).bytes().len()
            },
    {
        let len = self.data.len();
        if self.pos <= len && n <= len - self.pos {
            let start = self.pos;
            self.pos = start + n;
            Some(slice_subrange(self.data, start, start + n))
        } else {
            self.pos = len;
            None
        }
    }

    /// Reads one byte.
    pub fn read_u8(&mut self) -> (r: Result<u8, ReadError>)
        ensures
            final(self).bytes() == old(self).bytes(),
            (r, final(self).position()) == spec_read_u8(old(self).bytes(), old(self).position()),
    {
        match self.take(1) {
            Some(buf) => Ok(buf[0]),
            None => Err(ReadError::UnexpectedEof),
        }
    }

    /// Reads a big-endian `u16`.
    pub fn read_u16(&mut self) -> (r: Result<u16, ReadError>)
        ensures
            final(self).bytes() == old(self).bytes(),
            (r, final(self).position()) == spec_read_u16(old(self).bytes(), old(self).position()),
    {
        match self.take(2) {
            Some(buf) => Ok(be_u16(buf)),
            None => Err(ReadError::UnexpectedEof),
        }
    }

    /// Reads a big-endian `u32`.
    pub fn read_u32(&mut self) -> (r: Result<u32, ReadError>)
        ensures
            final(self).bytes() == old(self).bytes(),
            (r, final(self).position()) == spec_read_u32(old(self).bytes(), old(self).position()),
    {
        match self.take(4) {
            Some(buf) => Ok(be_u32(buf)),
            None => Err(ReadError::UnexpectedEof),
        }
    }

    /// Reads a big-endian `u64`.
    pub fn read_u64(&mut self) -> (r: Result<u64, ReadError>)
        ensures
            final(self).bytes() == old(self).bytes(),
            (r, final(self).position()) == spec_read_u64(old(self).bytes(), old(self).position()),
    {
        match self.take(8) {
            Some(buf) => Ok(be_u64(buf)),
            None => Err(ReadError::UnexpectedEof),
        }
    }

    /// Reads a big-endian two's-complement `i32`.
    pub fn read_i32(&mut self) -> (r: Result<i32, ReadError>)
        ensures
            final(self).bytes() == old(self).bytes(),
            (r, final(self).position()) == spec_read_i32(old(self).bytes(), old(self).position()),
    {
        match self.take(4) {
            Some(buf) => Ok(be_i32(buf)),
            None => Err(ReadError::UnexpectedEof),
        }
    }

    /// Reads a big-endian two's-complement `i64`.
    pub fn read_i64(&mut self) -> (r: Result<i64, ReadError>)
        ensures
            final(self).bytes() == old(self).bytes(),
            (r, final(self).position()) == spec_read_i64(old(self).bytes(), old(self).position()),
    {
        match self.take(8) {
            Some(buf) => Ok(be_i64(buf)),
            None => Err(ReadError::UnexpectedEof),
        }
    }

    /// Reads exactly `byte_count` bytes into a fresh vector.
    pub fn read_byte_vec(&mut self, byte_count: usize) -> (r: Result<Vec<u8>, ReadError>)
        ensures
            final(self).bytes() == old(self).bytes(),
            (ok_view(r), final(self).position()) == spec_read_bytes(
                old(self).bytes(),
                old(self).position(),
                byte_count as int,
            ),
    {
        match self.take(byte_count) {
            Some(buf) => Ok(slice_to_vec(buf)),
            None => Err(ReadError::UnexpectedEof),
        }
    }

    /// Reads every byte that is left.
    pub fn read_to_end(&mut self) -> (r: Vec<u8>)
        ensures
            final(self).bytes() == old(self).bytes(),
            r@ == spec_rest(old(self).bytes(), old(self).position()),
            final(self).position() == old(self).bytes().len(),
    {
        let n = self.bytes_left();
        match self.take(n) {
            Some(buf) => slice_to_vec(buf),
            None => Vec::new(),
        }
    }
}

/// A byte source that can hand out a bounded number of bytes as a vector.
pub trait ReadByteVecExt {
    /// The whole buffer the source reads from.
    spec fn source(&self) -> Seq<u8>;

    /// The index of the next byte to be read.
    spec fn cursor(&self) -> int;

    /// Reads exactly `byte_count` bytes into a fresh vector.
    fn read_byte_vec(&mut self, byte_count: usize) -> (r: Result<Vec<u8>, ReadError>)
        ensures
            final(self).source() == old(self).source(),
            (ok_view(r), final(self).cursor()) == spec_read_bytes(
                old(self).source(),
                old(self).cursor(),
                byte_count as int,
            ),
    ;
}

impl<'a> ReadByteVecExt for ByteCursor<'a> {
    open spec fn source(&self) -> Seq<u8> {
        self.bytes()
    }

    open spec fn cursor(&self) -> int {
        self.position()
    }

    fn read_byte_vec(&mut self, byte_count: usize) -> (r: Result<Vec<u8>, ReadError>) {
        ByteCursor::read_byte_vec(self, byte_count)
    }
}

} // verus!
